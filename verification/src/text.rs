//! Textual rendering: decimal numbers, English ordinal suffixes, and the RFC
//! 2822-like rendering of an IFC date.

use vstd::prelude::*;

verus! {

use vstd::string::StringExecFns;

use crate::Date;
use crate::naming::spec_day_name_short;
use crate::naming::spec_month_name;

/// The decimal digit character of a value below ten.
pub open spec fn spec_digit(d: int) -> char {
    if d == 0 {
        '0'
    } else if d == 1 {
        '1'
    } else if d == 2 {
        '2'
    } else if d == 3 {
        '3'
    } else if d == 4 {
        '4'
    } else if d == 5 {
        '5'
    } else if d == 6 {
        '6'
    } else if d == 7 {
        '7'
    } else if d == 8 {
        '8'
    } else {
        '9'
    }
}

/// The decimal rendering of a number, most significant digit first, without
/// leading zeros (zero itself is a single digit).
pub open spec fn spec_decimal(n: nat) -> Seq<char>
    decreases n,
{
    if n < 10 {
        seq![spec_digit(n as int)]
    } else {
        spec_decimal(n / 10) + seq![spec_digit((n % 10) as int)]
    }
}

fn digit_str(d: u32) -> (s: &'static str)
    requires
        d < 10,
    ensures
        s@ == seq![spec_digit(d as int)],
{
    proof {
        reveal_strlit("0");
        reveal_strlit("1");
        reveal_strlit("2");
        reveal_strlit("3");
        reveal_strlit("4");
        reveal_strlit("5");
        reveal_strlit("6");
        reveal_strlit("7");
        reveal_strlit("8");
        reveal_strlit("9");
    }
    let s = match d {
        0 => "0",
        1 => "1",
        2 => "2",
        3 => "3",
        4 => "4",
        5 => "5",
        6 => "6",
        7 => "7",
        8 => "8",
        _ => "9",
    };
    proof {
        assert(s@ =~= seq![spec_digit(d as int)]);
    }
    s
}

/// Render a number in decimal.
pub fn decimal_string(n: u32) -> (s: String)
    ensures
        s@ == spec_decimal(n as nat),
    decreases n,
{
    if n < 10 {
        digit_str(n).to_owned()
    } else {
        let mut s = decimal_string(n / 10);
        s.append(digit_str(n % 10));
        proof {
            assert(s@ =~= spec_decimal(n as nat));
        }
        s
    }
}

/// The English ordinal suffix of a number: 1 takes "st", 2 "nd", 3 "rd" and
/// everything else "th", by the last digit, except that a number whose last
/// two digits lie in 10..=19 always takes "th".
pub open spec fn spec_ord_suffix(n: int) -> Seq<char> {
    if 10 <= n % 100 < 20 {
        "th"@
    } else if n % 10 == 1 {
        "st"@
    } else if n % 10 == 2 {
        "nd"@
    } else if n % 10 == 3 {
        "rd"@
    } else {
        "th"@
    }
}

/// The ordinal suffix of a number. 1 -> "st", 12 -> "th", 23 -> "rd", etc.
pub fn ord(num: usize) -> (suffix: &'static str)
    ensures
        suffix@ == spec_ord_suffix(num as int),
{
    let tens = num % 100;
    if 10 <= tens && tens <= 19 {
        // teens - ordinals
        "th"
    } else {
        match num % 10 {
            1 => "st",
            2 => "nd",
            3 => "rd",
            _ => "th",
        }
    }
}

/// The ordinal suffix of a number depends only on its last two decimal
/// digits.
pub proof fn lemma_ord_suffix_mod_100(a: int, b: int)
    requires
        a % 100 == b % 100,
    ensures
        spec_ord_suffix(a) == spec_ord_suffix(b),
{
    vstd::arithmetic::div_mod::lemma_mod_mod(a, 10, 10);
    vstd::arithmetic::div_mod::lemma_mod_mod(b, 10, 10);
    assert(a % 10 == (a % 100) % 10);
    assert(b % 10 == (b % 100) % 10);
}

/// Outside the teens band, the ordinal suffix of a number depends only on
/// its last decimal digit.
pub proof fn lemma_ord_suffix_mod_10(a: int, b: int)
    requires
        a % 10 == b % 10,
        !(10 <= a % 100 < 20),
        !(10 <= b % 100 < 20),
    ensures
        spec_ord_suffix(a) == spec_ord_suffix(b),
{
}

/// The RFC 2822-like rendering of an IFC date: short weekday name, a comma,
/// then the day, the long month name and the year, separated by spaces.
pub open spec fn spec_rfc2822(date: Date) -> Seq<char> {
    spec_day_name_short(date.day as int) + ", "@ + spec_decimal(date.day as nat) + " "@
        + spec_month_name(date.month as int) + " "@ + spec_decimal(date.year as nat)
}

impl Date {
    /// The current date formatted to mimick the format from RFC 2822
    pub fn rfc2822(&self) -> (s: String)
        requires
            1 <= self.day,
            1 <= self.month <= 13,
        ensures
            s@ == spec_rfc2822(*self),
    {
        let mut s = self.day_name_short().to_owned();
        s.append(", ");
        let day = decimal_string(self.day as u32);
        s.append(day.as_str());
        s.append(" ");
        s.append(self.month_name());
        s.append(" ");
        let year = decimal_string(self.year);
        s.append(year.as_str());
        proof {
            assert(s@ =~= spec_rfc2822(*self));
        }
        s
    }
}

} // verus!
