//! Decimal rendering of unsigned integers and the `HH:MM:SS` elapsed-time
//! format used by the stopwatch reports.

use vstd::prelude::*;

verus! {

/// The character for a single decimal digit.
pub open spec fn dec_digit(d: nat) -> char {
    if d == 0 {
        '0'
    } else if d == 1 {
        '1'
    } else if d == 2 {
        '2'
    } else if d == 3 {
        '3'
    } else if d == 4 {
        '4'
    } else if d == 5 {
        '5'
    } else if d == 6 {
        '6'
    } else if d == 7 {
        '7'
    } else if d == 8 {
        '8'
    } else {
        '9'
    }
}

/// The usual decimal rendering of `n`, most significant digit first,
/// without leading zeros (except for `n == 0` itself).
pub open spec fn dec_str(n: nat) -> Seq<char>
    decreases n,
{
    if n < 10 {
        seq![dec_digit(n)]
    } else {
        dec_str(n / 10).push(dec_digit(n % 10))
    }
}

fn digit_literal(d: u64) -> (r: &'static str)
    requires
        d < 10,
    ensures
        r@ == seq![dec_digit(d as nat)],
{
    proof {
        reveal_strlit("0");
        reveal_strlit("1");
        reveal_strlit("2");
        reveal_strlit("3");
        reveal_strlit("4");
        reveal_strlit("5");
        reveal_strlit("6");
        reveal_strlit("7");
        reveal_strlit("8");
        reveal_strlit("9");
    }
    let r: &'static str = match d {
        0 => "0",
        1 => "1",
        2 => "2",
        3 => "3",
        4 => "4",
        5 => "5",
        6 => "6",
        7 => "7",
        8 => "8",
        _ => "9",
    };
    proof {
        assert(r@ =~= seq![dec_digit(d as nat)]);
    }
    r
}

/// Renders `n` in decimal.
pub fn u64_to_string(n: u64) -> (r: String)
    ensures
        r@ == dec_str(n as nat),
    decreases n,
{
    if n < 10 {
        String::from_str(digit_literal(n))
    } else {
        let mut s = u64_to_string(n / 10);
        s.append(digit_literal(n % 10));
        proof {
            assert(s@ =~= dec_str(n as nat));
        }
        s
    }
}

/// Renders `n` in decimal, left-padded with `'0'` to at least two digits:
/// values below ten get one leading zero, larger values are unchanged.
pub open spec fn padded2(n: nat) -> Seq<char> {
    if n < 10 {
        seq!['0'] + dec_str(n)
    } else {
        dec_str(n)
    }
}

/// Renders `n` in decimal with at least two digits.
pub fn u64_to_padded2(n: u64) -> (r: String)
    ensures
        r@ == padded2(n as nat),
{
    if n < 10 {
        let mut s = String::from_str("0");
        s.append(digit_literal(n));
        proof {
            reveal_strlit("0");
            assert(s@ =~= padded2(n as nat));
        }
        s
    } else {
        u64_to_string(n)
    }
}

/// An elapsed time of `n` whole seconds as `HH:MM:SS`: each part has at
/// least two digits and the hour part is not wrapped at twenty-four.
pub open spec fn duration_str(n: nat) -> Seq<char> {
    padded2(n / 3600) + seq![':'] + padded2((n % 3600) / 60) + seq![':'] + padded2(n % 60)
}

/// Formats `secs` whole seconds as `HH:MM:SS` (hours unbounded).
pub fn format_duration(secs: u64) -> (r: String)
    ensures
        r@ == duration_str(secs as nat),
{
    let mut s = u64_to_padded2(secs / 3600);
    s.append(":");
    let minutes: u64 = (secs % 3600) / 60;
    let m = u64_to_padded2(minutes);
    s.append(m.as_str());
    s.append(":");
    let sec = u64_to_padded2(secs % 60);
    s.append(sec.as_str());
    proof {
        reveal_strlit(":");
        assert(s@ =~= duration_str(secs as nat));
    }
    s
}

} // verus!
