//! Formatting helpers for the interface around the board.

use vstd::prelude::*;
use vstd::string::*;

pub mod dims;
pub mod draw;
pub mod uibox;

verus! {

/// The character for one decimal digit.
pub open spec fn spec_digit_char(d: nat) -> char {
    if d == 0 {
        '0'
    } else if d == 1 {
        '1'
    } else if d == 2 {
        '2'
    } else if d == 3 {
        '3'
    } else if d == 4 {
        '4'
    } else if d == 5 {
        '5'
    } else if d == 6 {
        '6'
    } else if d == 7 {
        '7'
    } else if d == 8 {
        '8'
    } else {
        '9'
    }
}

/// The decimal digits of `n`, most significant first, with no leading zeros
/// (a single zero for zero itself).
pub open spec fn spec_digits(n: nat) -> Seq<char>
    decreases n,
{
    if n < 10 {
        seq![spec_digit_char(n)]
    } else {
        spec_digits(n / 10).push(spec_digit_char(n % 10))
    }
}

/// The one-character string for a decimal digit.
fn digit_str(d: u64) -> (r: &'static str)
    requires
        d < 10,
    ensures
        r@ == seq![spec_digit_char(d as nat)],
{
    proof {
        reveal_strlit("0");
        reveal_strlit("1");
        reveal_strlit("2");
        reveal_strlit("3");
        reveal_strlit("4");
        reveal_strlit("5");
        reveal_strlit("6");
        reveal_strlit("7");
        reveal_strlit("8");
        reveal_strlit("9");
        assert("0"@ =~= seq!['0']);
        assert("1"@ =~= seq!['1']);
        assert("2"@ =~= seq!['2']);
        assert("3"@ =~= seq!['3']);
        assert("4"@ =~= seq!['4']);
        assert("5"@ =~= seq!['5']);
        assert("6"@ =~= seq!['6']);
        assert("7"@ =~= seq!['7']);
        assert("8"@ =~= seq!['8']);
        assert("9"@ =~= seq!['9']);
    }
    if d == 0 {
        "0"
    } else if d == 1 {
        "1"
    } else if d == 2 {
        "2"
    } else if d == 3 {
        "3"
    } else if d == 4 {
        "4"
    } else if d == 5 {
        "5"
    } else if d == 6 {
        "6"
    } else if d == 7 {
        "7"
    } else if d == 8 {
        "8"
    } else {
        "9"
    }
}

/// The decimal rendering of `n`.
pub fn u64_to_string(n: u64) -> (s: String)
    ensures
        s@ == spec_digits(n as nat),
    decreases n,
{
    if n < 10 {
        let d = digit_str(n);
        d.to_owned()
    } else {
        let mut s = u64_to_string(n / 10);
        let d = digit_str(n % 10);
        s.append(d);
        proof {
            assert(s@ =~= spec_digits(n as nat));
        }
        s
    }
}

/// What `format_duration` renders: whole minutes, then the seconds within
/// the minute with one decimal place. The tenths are rounded to nearest,
/// half away from zero, on the exact milliseconds; 59.95 s or more within a
/// minute renders as `60.0` without carrying into the minutes.
pub open spec fn spec_format_duration(ms: nat) -> Seq<char> {
    spec_digits(ms / 60000) + seq!['m'] + spec_digits(((ms % 60000 + 50) / 100) / 10) + seq!['.']
        + spec_digits(((ms % 60000 + 50) / 100) % 10) + seq!['s']
}

/// A duration in milliseconds as minutes and seconds, e.g. `1m2.3s`.
/// Rounding halves of a tenth exactly, or values a binary float cannot
/// represent, may come out one tenth away from a float-formatted rendering.
pub fn format_duration(millis: u64) -> (s: String)
    ensures
        s@ == spec_format_duration(millis as nat),
{
    let mins = millis / 60000;
    let in_minute_tenths = (millis % 60000 + 50) / 100;
    let secs = in_minute_tenths / 10;
    let tenths = in_minute_tenths % 10;
    let mut s = u64_to_string(mins);
    s.append("m");
    let sec_str = u64_to_string(secs);
    s.append(sec_str.as_str());
    s.append(".");
    let tenth_str = u64_to_string(tenths);
    s.append(tenth_str.as_str());
    s.append("s");
    proof {
        reveal_strlit("m");
        reveal_strlit(".");
        reveal_strlit("s");
        assert("m"@ =~= seq!['m']);
        assert("."@ =~= seq!['.']);
        assert("s"@ =~= seq!['s']);
        assert(s@ =~= spec_format_duration(millis as nat));
    }
    s
}

/// What `format_days_duration` renders: whole days, then the word `days`.
pub open spec fn spec_format_days(ms: nat) -> Seq<char> {
    spec_digits(ms / 86400000) + seq![' ', 'd', 'a', 'y', 's']
}

/// A duration in milliseconds as a whole number of days, e.g. `3 days`.
pub fn format_days_duration(millis: u64) -> (s: String)
    ensures
        s@ == spec_format_days(millis as nat),
{
    let days = millis / 86400000;
    let mut s = u64_to_string(days);
    s.append(" days");
    proof {
        reveal_strlit(" days");
        assert(" days"@ =~= seq![' ', 'd', 'a', 'y', 's']);
        assert(s@ =~= spec_format_days(millis as nat));
    }
    s
}

} // verus!
