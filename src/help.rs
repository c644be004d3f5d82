//! Usage messages.
use vstd::prelude::*;
use crate::text::join;

verus! {

/// The usage message template: `{0}` is the complaint and `{1}` the subcommand.
pub const USAGE: &'static str = "{0}, run `octynectl help{1}` for more information.";

pub const INCORRECT_USAGE: &'static str = "Incorrect usage";

pub const TOO_MANY_ARGS: &'static str = "Too many arguments";

pub const UNKNOWN_SUBCOMMAND: &'static str = "Unknown subcommand";

/// `s` with every occurrence of `pat`, taken left to right without overlap,
/// replaced by `with`.
pub open spec fn replace_spec(s: Seq<char>, pat: Seq<char>, with: Seq<char>) -> Seq<char>
    decreases s.len(),
{
    if pat.len() == 0 || s.len() < pat.len() {
        s
    } else if s.take(pat.len() as int) == pat {
        with + replace_spec(s.skip(pat.len() as int), pat, with)
    } else {
        seq![s[0]] + replace_spec(s.drop_first(), pat, with)
    }
}

/// Where no occurrence of `pat` can reach from `a` into `b` (the first
/// character of `b` is none of `pat`'s characters after its first), replacing
/// in `a + b` replaces in `a` and in `b` separately.
proof fn lemma_replace_concat(a: Seq<char>, b: Seq<char>, pat: Seq<char>, with: Seq<char>)
    requires
        pat.len() > 0,
        b.len() > 0,
        forall|k: int| 1 <= k < pat.len() ==> pat[k] != b[0],
    ensures
        replace_spec(a + b, pat, with) == replace_spec(a, pat, with) + replace_spec(b, pat, with),
    decreases a.len(),
{
    let n = pat.len() as int;
    if a.len() == 0 {
        assert(a + b =~= b);
    } else if a.len() < n {
        if (a + b).len() >= n {
            assert((a + b).take(n)[a.len() as int] == b[0]);
            assert((a + b).take(n) != pat);
            assert((a + b).drop_first() =~= a.drop_first() + b);
            lemma_replace_concat(a.drop_first(), b, pat, with);
            assert(replace_spec(a.drop_first(), pat, with) == a.drop_first());
            assert(seq![a[0]] + a.drop_first() =~= a);
            assert(seq![a[0]] + (a.drop_first() + replace_spec(b, pat, with)) =~= a + replace_spec(
                b,
                pat,
                with,
            ));
        } else {
            assert(b.len() < n);
        }
    } else {
        assert((a + b).take(n) =~= a.take(n));
        if a.take(n) == pat {
            assert((a + b).skip(n) =~= a.skip(n) + b);
            lemma_replace_concat(a.skip(n), b, pat, with);
            assert(with + (replace_spec(a.skip(n), pat, with) + replace_spec(b, pat, with)) =~= (with
                + replace_spec(a.skip(n), pat, with)) + replace_spec(b, pat, with));
        } else {
            assert((a + b).drop_first() =~= a.drop_first() + b);
            lemma_replace_concat(a.drop_first(), b, pat, with);
            assert(seq![a[0]] + (replace_spec(a.drop_first(), pat, with) + replace_spec(b, pat, with))
                =~= (seq![a[0]] + replace_spec(a.drop_first(), pat, with)) + replace_spec(
                b,
                pat,
                with,
            ));
        }
    }
}

/// Text without the first character of `pat` has nothing to replace.
proof fn lemma_replace_absent(s: Seq<char>, pat: Seq<char>, with: Seq<char>)
    requires
        pat.len() > 0,
        forall|i: int| 0 <= i < s.len() ==> s[i] != pat[0],
    ensures
        replace_spec(s, pat, with) == s,
    decreases s.len(),
{
    if s.len() >= pat.len() {
        assert(s.take(pat.len() as int)[0] != pat[0]);
        lemma_replace_absent(s.drop_first(), pat, with);
        assert(seq![s[0]] + s.drop_first() =~= s);
    }
}

/// `s` with every occurrence of the non-empty `pat` replaced by `with`, as
/// `str::replace` does.
pub fn replace_all(s: &str, pat: &str, with: &str) -> (r: String)
    requires
        pat@.len() > 0,
    ensures
        r@ == replace_spec(s@, pat@, with@),
{
    let n = s.unicode_len();
    let m = pat.unicode_len();
    let p = String::from_str(pat);
    let mut out = String::new();
    let mut i: usize = 0;
    assert(s@.skip(0) =~= s@);
    assert(out@ + replace_spec(s@, pat@, with@) =~= replace_spec(s@, pat@, with@));
    while i < n
        invariant
            n == s@.len(),
            m == pat@.len(),
            m > 0,
            p@ == pat@,
            i <= n,
            out@ + replace_spec(s@.skip(i as int), pat@, with@) == replace_spec(s@, pat@, with@),
        decreases n - i,
    {
        let ghost rest = s@.skip(i as int);
        if m <= n - i && String::from_str(s.substring_char(i, i + m)) == p {
            assert(rest.take(m as int) =~= s@.subrange(i as int, i + m));
            assert(rest.skip(m as int) =~= s@.skip(i + m));
            assert(out@ + with@ + replace_spec(s@.skip(i + m), pat@, with@) == out@ + (with@
                + replace_spec(s@.skip(i + m), pat@, with@)));
            out.append(with);
            i = i + m;
        } else {
            assert(rest.drop_first() =~= s@.skip(i + 1));
            assert(m <= n - i ==> rest.take(m as int) =~= s@.subrange(i as int, i + m));
            let c = s.substring_char(i, i + 1);
            assert(c@ =~= seq![rest[0]]);
            assert(out@ + c@ + replace_spec(s@.skip(i + 1), pat@, with@) == out@ + (c@
                + replace_spec(s@.skip(i + 1), pat@, with@)));
            out.append(c);
            i = i + 1;
        }
    }
    assert(s@.skip(i as int) =~= Seq::<char>::empty());
    out
}

/// The complaint about an unknown subcommand, naming it where it is not empty.
pub open spec fn unknown_subcommand_spec(subcommand: Seq<char>) -> Seq<char> {
    if subcommand.len() == 0 {
        UNKNOWN_SUBCOMMAND@
    } else {
        UNKNOWN_SUBCOMMAND@ + ": "@ + subcommand
    }
}

/// The usage message for complaint `msg` about `subcommand` (the top level
/// where it is empty).
pub open spec fn invalid_usage_spec(msg: Seq<char>, subcommand: Seq<char>) -> Seq<char> {
    let with_msg = replace_spec(USAGE@, "{0}"@, msg);
    if subcommand.len() == 0 {
        replace_spec(with_msg, "{1}"@, Seq::empty())
    } else {
        replace_spec(with_msg, "{1}"@, " "@ + subcommand)
    }
}

/// The usage message in plain terms: the complaint (in which, as in the
/// template, any `{1}` is filled in too), then where to find help, naming the
/// subcommand where it is not empty.
pub open spec fn usage_text(msg: Seq<char>, subcommand: Seq<char>) -> Seq<char> {
    let named = if subcommand.len() == 0 {
        Seq::empty()
    } else {
        " "@ + subcommand
    };
    replace_spec(msg, "{1}"@, named) + ", run `octynectl help"@ + named
        + "` for more information."@
}

/// Filling the usage template gives the message in plain terms.
pub proof fn lemma_usage_text(msg: Seq<char>, subcommand: Seq<char>)
    ensures
        invalid_usage_spec(msg, subcommand) == usage_text(msg, subcommand),
{
    let named = if subcommand.len() == 0 {
        Seq::empty()
    } else {
        " "@ + subcommand
    };
    reveal_strlit("{0}, run `octynectl help{1}` for more information.");
    reveal_strlit("{0}");
    reveal_strlit("{1}");
    reveal_strlit(", run `octynectl help");
    reveal_strlit("` for more information.");
    reveal_strlit(" ");
    let open0 = "{0}"@;
    let open1 = "{1}"@;
    let t1 = ", run `octynectl help"@;
    let t2 = "` for more information."@;
    let tail = t1 + (open1 + t2);
    assert(USAGE@ == "{0}, run `octynectl help{1}` for more information."@);
    assert(USAGE@ =~= open0 + tail);
    assert(USAGE@.take(3) =~= open0);
    assert(USAGE@.skip(3) =~= tail);
    // The first pass puts the complaint in place and leaves the rest as it is.
    lemma_replace_absent(t1, open0, msg);
    lemma_replace_concat(t1, open1 + t2, open0, msg);
    assert((open1 + t2).take(3) =~= open1);
    assert(open1 != open0) by {
        assert(open1[1] != open0[1]);
    }
    lemma_replace_absent((open1 + t2).drop_first(), open0, msg);
    assert(seq![(open1 + t2)[0]] + (open1 + t2).drop_first() =~= open1 + t2);
    assert(replace_spec(tail, open0, msg) == tail);
    assert(replace_spec(USAGE@, open0, msg) == msg + tail);
    // The second pass fills `{1}`, in the complaint and in the template.
    lemma_replace_concat(msg, tail, open1, named);
    lemma_replace_absent(t1, open1, named);
    lemma_replace_concat(t1, open1 + t2, open1, named);
    assert((open1 + t2).skip(3) =~= t2);
    lemma_replace_absent(t2, open1, named);
    assert(replace_spec(tail, open1, named) == t1 + (named + t2));
    assert(replace_spec(msg, open1, named) + (t1 + (named + t2)) =~= replace_spec(msg, open1, named)
        + t1 + named + t2);
    if subcommand.len() == 0 {
        reveal_strlit("");
        assert(""@ =~= Seq::<char>::empty());
    }
}

/// A complaint without `{` is kept as it is.
pub proof fn lemma_plain_complaint(msg: Seq<char>, subcommand: Seq<char>)
    requires
        forall|i: int| 0 <= i < msg.len() ==> msg[i] != '{',
    ensures
        usage_text(msg, subcommand) == msg + ", run `octynectl help"@ + (if subcommand.len() == 0 {
            Seq::empty()
        } else {
            " "@ + subcommand
        }) + "` for more information."@,
{
    reveal_strlit("{1}");
    let named = if subcommand.len() == 0 {
        Seq::empty()
    } else {
        " "@ + subcommand
    };
    lemma_replace_absent(msg, "{1}"@, named);
}

/// The complaint about an unknown subcommand.
pub fn unknown_subcommand(subcommand: &str) -> (r: String)
    ensures
        r@ == unknown_subcommand_spec(subcommand@),
{
    unknown_subcommand_str(String::from_str(subcommand))
}

/// The complaint about an unknown subcommand.
pub fn unknown_subcommand_str(subcommand: String) -> (r: String)
    ensures
        r@ == unknown_subcommand_spec(subcommand@),
{
    if subcommand.as_str().is_empty() {
        return String::from_str(UNKNOWN_SUBCOMMAND);
    }
    let prefix = join(UNKNOWN_SUBCOMMAND, ": ");
    join(prefix.as_str(), subcommand.as_str())
}

/// The usage message for complaint `msg` about `subcommand`.
pub fn invalid_usage(msg: &str, subcommand: &str) -> (r: String)
    ensures
        r@ == invalid_usage_spec(msg@, subcommand@),
        r@ == usage_text(msg@, subcommand@),
{
    invalid_usage_str(String::from_str(msg), String::from_str(subcommand))
}

/// The usage message for complaint `msg` about `subcommand`.
pub fn invalid_usage_str(msg: String, subcommand: String) -> (r: String)
    ensures
        r@ == invalid_usage_spec(msg@, subcommand@),
        r@ == usage_text(msg@, subcommand@),
{
    proof {
        lemma_usage_text(msg@, subcommand@);
        reveal_strlit("{0}");
        reveal_strlit("{1}");
        reveal_strlit("");
    }
    assert(""@ =~= Seq::<char>::empty());
    let with_msg = replace_all(USAGE, "{0}", msg.as_str());
    if subcommand.as_str().is_empty() {
        return replace_all(with_msg.as_str(), "{1}", "");
    }
    let sub = join(" ", subcommand.as_str());
    replace_all(with_msg.as_str(), "{1}", sub.as_str())
}

} // verus!
