//! Command-line options: `-k`, `--k`, `-k=v` and `--k=v` arguments are taken
//! out of the argument list and collected by key.
use vstd::prelude::*;
use crate::text::chars_of;

verus! {

/// The options given on a command line; a key given twice keeps its last value.
pub struct Options {
    entries: Vec<(String, String)>,
}

/// The value of the last entry with key `k`.
pub open spec fn lookup(entries: Seq<(Seq<char>, Seq<char>)>, k: Seq<char>) -> Option<Seq<char>>
    decreases entries.len(),
{
    if entries.len() == 0 {
        None
    } else if entries.last().0 == k {
        Some(entries.last().1)
    } else {
        lookup(entries.drop_last(), k)
    }
}

/// The views of a sequence of strings.
pub open spec fn views(v: Seq<String>) -> Seq<Seq<char>> {
    v.map_values(|s: String| s@)
}

/// Whether an argument is an option: it starts with `-`.
pub open spec fn is_option(a: Seq<char>) -> bool {
    a.len() > 0 && a[0] == '-'
}

/// Where an option's key starts: after one dash, or after two.
pub open spec fn key_start(a: Seq<char>) -> int {
    if a.len() > 1 && a[1] == '-' {
        2
    } else {
        1
    }
}

/// The index of the first `=` in `a` at or after `from`, or `a.len()` if there is none.
pub open spec fn next_eq(a: Seq<char>, from: int) -> int
    decreases a.len() - from,
{
    if from >= a.len() {
        a.len() as int
    } else if a[from] == '=' {
        from
    } else {
        next_eq(a, from + 1)
    }
}

/// The key of an option: what follows the dashes, up to the first `=`.
pub open spec fn option_key(a: Seq<char>) -> Seq<char> {
    a.subrange(key_start(a), next_eq(a, key_start(a)))
}

/// The value of an option: what follows the first `=`, up to the next `=`;
/// empty without an `=`.
pub open spec fn option_value(a: Seq<char>) -> Seq<char> {
    let e = next_eq(a, key_start(a));
    if e < a.len() {
        a.subrange(e + 1, next_eq(a, e + 1))
    } else {
        Seq::empty()
    }
}

/// The arguments kept, the options found and whether option parsing has
/// stopped, after the first `n` arguments. With `stop_at_operand`, the first
/// argument that is not an option ends option parsing: all later arguments are
/// kept as they are.
pub open spec fn parse_prefix(args: Seq<Seq<char>>, n: int, stop_at_operand: bool) -> (
    Seq<Seq<char>>,
    Seq<(Seq<char>, Seq<char>)>,
    bool,
)
    decreases n,
{
    if n <= 0 {
        (Seq::empty(), Seq::empty(), false)
    } else {
        let (kept, found, stopped) = parse_prefix(args, n - 1, stop_at_operand);
        let a = args[n - 1];
        if is_option(a) && !stopped {
            (kept, found.push((option_key(a), option_value(a))), stopped)
        } else {
            (kept.push(a), found, stopped || stop_at_operand)
        }
    }
}

fn next_eq_exec(cs: &Vec<char>, from: usize) -> (r: usize)
    requires
        from <= cs@.len(),
    ensures
        r == next_eq(cs@, from as int),
        from <= r <= cs@.len(),
{
    let mut i = from;
    while i < cs.len() && cs[i] != '='
        invariant
            from <= i <= cs@.len(),
            next_eq(cs@, from as int) == next_eq(cs@, i as int),
        decreases cs@.len() - i,
    {
        i = i + 1;
    }
    i
}

impl Options {
    /// The entries in the order they were given.
    pub closed spec fn entries_spec(&self) -> Seq<(Seq<char>, Seq<char>)> {
        self.entries@.map_values(|e: (String, String)| (e.0@, e.1@))
    }

    /// The value given for `key`, if any.
    pub open spec fn get_spec(&self, key: Seq<char>) -> Option<Seq<char>> {
        lookup(self.entries_spec(), key)
    }

    /// The value given for `key`, if any.
    pub fn get(&self, key: &str) -> (r: Option<String>)
        ensures
            match r {
                Some(v) => self.get_spec(key@) == Some(v@),
                None => self.get_spec(key@) is None,
            },
    {
        let k = String::from_str(key);
        let mut i = self.entries.len();
        assert(self.entries_spec().take(i as int) =~= self.entries_spec());
        while i > 0
            invariant
                i <= self.entries@.len(),
                lookup(self.entries_spec(), key@) == lookup(self.entries_spec().take(i as int), key@),
                k@ == key@,
            decreases i,
        {
            proof {
                assert(self.entries_spec().take(i as int).drop_last() =~= self.entries_spec().take(
                    i - 1,
                ));
            }
            assert(self.entries_spec()[i - 1] == (self.entries@[i - 1].0@, self.entries@[i - 1].1@));
            if self.entries[i - 1].0 == k {
                return Some(self.entries[i - 1].1.clone());
            }
            i = i - 1;
        }
        None
    }

    /// Whether `key` was given.
    pub fn contains_key(&self, key: &str) -> (r: bool)
        ensures
            r == self.get_spec(key@) is Some,
    {
        self.get(key).is_some()
    }

    /// How many options were given, counting repeats.
    pub fn len(&self) -> (r: usize)
        ensures
            r == self.entries_spec().len(),
    {
        self.entries.len()
    }
}

/// Take the options out of `args`, keeping the other arguments in order, and
/// return them. With `stop_when_non_arg`, parsing ends at the first argument
/// that is not an option, and everything from there on is kept.
pub fn parse_options(args: &mut Vec<String>, stop_when_non_arg: bool) -> (r: Options)
    ensures
        views(final(args)@) == parse_prefix(views(old(args)@), old(args)@.len() as int, stop_when_non_arg).0,
        r.entries_spec() == parse_prefix(views(old(args)@), old(args)@.len() as int, stop_when_non_arg).1,
{
    let ghost input = views(args@);
    let mut kept: Vec<String> = Vec::new();
    let mut entries: Vec<(String, String)> = Vec::new();
    let mut stop = false;
    let mut i: usize = 0;
    while i < args.len()
        invariant
            i <= args@.len(),
            args@ == old(args)@,
            input == views(args@),
            views(kept@) == parse_prefix(input, i as int, stop_when_non_arg).0,
            entries@.map_values(|e: (String, String)| (e.0@, e.1@)) == parse_prefix(input, i as int, stop_when_non_arg).1,
            stop == parse_prefix(input, i as int, stop_when_non_arg).2,
        decreases args@.len() - i,
    {
        let a = &args[i];
        let cs = chars_of(a.as_str());
        assert(input[i as int] == cs@);
        if cs.len() > 0 && cs[0] == '-' && !stop {
            let start: usize = if cs.len() > 1 && cs[1] == '-' {
                2
            } else {
                1
            };
            let e = next_eq_exec(&cs, start);
            let key = String::from_str(a.as_str().substring_char(start, e));
            let value = if e < cs.len() {
                let e2 = next_eq_exec(&cs, e + 1);
                String::from_str(a.as_str().substring_char(e + 1, e2))
            } else {
                String::new()
            };
            let ghost before = entries@;
            entries.push((key, value));
            proof {
                assert(entries@.map_values(|e: (String, String)| (e.0@, e.1@)) =~= before.map_values(
                    |e: (String, String)| (e.0@, e.1@),
                ).push((option_key(cs@), option_value(cs@))));
            }
        } else {
            let ghost before = kept@;
            kept.push(a.clone());
            proof {
                assert(views(kept@) =~= views(before).push(cs@));
            }
            if stop_when_non_arg {
                stop = true;
            }
        }
        i = i + 1;
    }
    *args = kept;
    Options { entries }
}

} // verus!
