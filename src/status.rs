//! How an app's status and uptime are shown.
use vstd::prelude::*;
use vstd::arithmetic::div_mod::lemma_fundamental_div_mod_converse;
use crate::text::{decimal, decimal_spec, join, trim_end, trim_end_spec};

verus! {

/// The name of a status code: 0 offline, 1 online, 2 crashed.
pub open spec fn status_name(status: int) -> Seq<char> {
    if status == 0 {
        "Offline"@
    } else if status == 1 {
        "Online"@
    } else if status == 2 {
        "Crashed"@
    } else {
        "Unknown"@
    }
}

/// The name of an app's status code.
pub fn status_to_text(status: i64) -> (r: String)
    ensures
        r@ == status_name(status as int),
{
    if status == 0 {
        String::from_str("Offline")
    } else if status == 1 {
        String::from_str("Online")
    } else if status == 2 {
        String::from_str("Crashed")
    } else {
        String::from_str("Unknown")
    }
}

/// The name of an app's status code.
pub fn parse_status(status: i32) -> (r: String)
    ensures
        r@ == status_name(status as int),
{
    status_to_text(status as i64)
}

/// The note added to an app that is marked for deletion.
pub fn parse_to_delete(to_delete: bool) -> (r: String)
    ensures
        r@ == (if to_delete { " (marked for deletion)"@ } else { ""@ }),
{
    if to_delete {
        String::from_str(" (marked for deletion)")
    } else {
        String::from_str("")
    }
}

/// The spaces that pad `name` to `longest_name` bytes.
pub fn pad_name(name: &str, longest_name: usize) -> (r: String)
    requires
        name.len() <= longest_name,
    ensures
        r@ == Seq::new((longest_name - name.len()) as nat, |i: int| ' '),
{
    let n = longest_name - name.len();
    let mut padding = String::new();
    let mut i: usize = 0;
    while i < n
        invariant
            i <= n,
            padding@ == Seq::new(i as nat, |j: int| ' '),
        decreases n - i,
    {
        let ghost before = padding@;
        padding.append(" ");
        proof {
            reveal_strlit(" ");
        }
        assert(padding@ =~= Seq::new((i + 1) as nat, |j: int| ' '));
        i = i + 1;
    }
    padding
}

pub const NANOS_PER_SECOND: u64 = 1_000_000_000;

pub const NANOS_PER_MINUTE: u64 = 60_000_000_000;

pub const NANOS_PER_HOUR: u64 = 3_600_000_000_000;

pub const NANOS_PER_DAY: u64 = 86_400_000_000_000;

/// The remainder of `n` divided by `d`, with the sign of `n`.
pub open spec fn trunc_rem(n: int, d: int) -> int {
    if n >= 0 {
        n % d
    } else {
        -((-n) % d)
    }
}

/// The whole days, hours, minutes and seconds shown for an uptime of `n`
/// nanoseconds: days rounded down, and each smaller unit the rounded-down
/// count in what is left of the next larger one.
pub open spec fn duration_parts(n: int) -> (int, int, int, int) {
    (
        n / (NANOS_PER_DAY as int),
        trunc_rem(n, NANOS_PER_DAY as int) / (NANOS_PER_HOUR as int),
        trunc_rem(n, NANOS_PER_HOUR as int) / (NANOS_PER_MINUTE as int),
        trunc_rem(n, NANOS_PER_MINUTE as int) / (NANOS_PER_SECOND as int),
    )
}

/// The decimal text of an integer, with a minus sign when negative.
pub open spec fn signed_decimal(v: int) -> Seq<char> {
    if v < 0 {
        "-"@ + decimal_spec((-v) as nat)
    } else {
        decimal_spec(v as nat)
    }
}

/// `"1 day "`, `"3 days "`, or nothing for zero.
pub open spec fn unit_text(v: int, unit: Seq<char>) -> Seq<char> {
    if v == 1 {
        "1 "@ + unit + " "@
    } else if v != 0 {
        signed_decimal(v) + " "@ + unit + "s "@
    } else {
        Seq::empty()
    }
}

/// The uptime text for `n` nanoseconds, such as `"1 day 2 hours 5 seconds"`.
pub open spec fn duration_text(n: int) -> Seq<char> {
    let (d, h, m, s) = duration_parts(n);
    trim_end_spec(
        unit_text(d, "day"@) + unit_text(h, "hour"@) + unit_text(m, "minute"@) + unit_text(
            s,
            "second"@,
        ),
    )
}

proof fn lemma_floor_of_negative(x: int, d: int)
    requires
        x >= 0,
        d > 0,
    ensures
        (-x) / d == -((x + d - 1) / d),
{
    let q = (x + d - 1) / d;
    let r = (x + d - 1) % d;
    vstd::arithmetic::div_mod::lemma_fundamental_div_mod(x + d - 1, d);
    assert(-x == (-q) * d + (d - 1 - r)) by (nonlinear_arith)
        requires
            x + d - 1 == d * q + r,
    ;
    lemma_fundamental_div_mod_converse(-x, d, -q, d - 1 - r);
}

/// The count of `unit` in `x`, rounded up.
fn div_ceil(x: u64, unit: u64) -> (r: u64)
    requires
        unit > 0,
        x + unit <= u64::MAX,
    ensures
        r == (x + unit - 1) / (unit as int),
{
    (x + unit - 1) / unit
}

fn unit_exec(v: u64, negative: bool, unit: &str) -> (r: String)
    ensures
        r@ == unit_text(if negative { -(v as int) } else { v as int }, unit@),
{
    proof {
        reveal_strlit("1 ");
        reveal_strlit(" ");
        reveal_strlit("s ");
        reveal_strlit("-");
    }
    if v == 0 {
        String::new()
    } else if v == 1 && !negative {
        let a = join("1 ", unit);
        join(a.as_str(), " ")
    } else {
        let digits = decimal(v);
        let number = if negative {
            join("-", digits.as_str())
        } else {
            digits
        };
        let a = join(number.as_str(), " ");
        let b = join(a.as_str(), unit);
        join(b.as_str(), "s ")
    }
}

/// The uptime text for `duration_nano` nanoseconds.
pub fn parse_duration(duration_nano: i64) -> (r: String)
    ensures
        r@ == duration_text(duration_nano as int),
{
    let negative = duration_nano < 0;
    let a: u64 = if negative {
        (-(duration_nano as i128)) as u64
    } else {
        duration_nano as u64
    };
    let (days, hours, minutes, seconds) = if negative {
        proof {
            let n = duration_nano as int;
            lemma_floor_of_negative(a as int, NANOS_PER_DAY as int);
            lemma_floor_of_negative(a as int % NANOS_PER_DAY as int, NANOS_PER_HOUR as int);
            lemma_floor_of_negative(a as int % NANOS_PER_HOUR as int, NANOS_PER_MINUTE as int);
            lemma_floor_of_negative(a as int % NANOS_PER_MINUTE as int, NANOS_PER_SECOND as int);
        }
        (
            div_ceil(a, NANOS_PER_DAY),
            div_ceil(a % NANOS_PER_DAY, NANOS_PER_HOUR),
            div_ceil(a % NANOS_PER_HOUR, NANOS_PER_MINUTE),
            div_ceil(a % NANOS_PER_MINUTE, NANOS_PER_SECOND),
        )
    } else {
        (
            a / NANOS_PER_DAY,
            (a % NANOS_PER_DAY) / NANOS_PER_HOUR,
            (a % NANOS_PER_HOUR) / NANOS_PER_MINUTE,
            (a % NANOS_PER_MINUTE) / NANOS_PER_SECOND,
        )
    };
    let d = unit_exec(days, negative, "day");
    let h = unit_exec(hours, negative, "hour");
    let m = unit_exec(minutes, negative, "minute");
    let s = unit_exec(seconds, negative, "second");
    let dh = join(d.as_str(), h.as_str());
    let dhm = join(dh.as_str(), m.as_str());
    let all = join(dhm.as_str(), s.as_str());
    trim_end(all.as_str())
}

} // verus!
