//! Month and weekday names of the IFC, and the case-insensitive reverse
//! lookup of a month name.

use vstd::prelude::*;

verus! {

use vstd::string::StrSliceExecFns;

use crate::Date;

/// ASCII lowercase of a character: 'A'..='Z' map to 'a'..='z', every other
/// character is unchanged.
pub open spec fn lower_char(c: char) -> char {
    match c {
        'A' => 'a',
        'B' => 'b',
        'C' => 'c',
        'D' => 'd',
        'E' => 'e',
        'F' => 'f',
        'G' => 'g',
        'H' => 'h',
        'I' => 'i',
        'J' => 'j',
        'K' => 'k',
        'L' => 'l',
        'M' => 'm',
        'N' => 'n',
        'O' => 'o',
        'P' => 'p',
        'Q' => 'q',
        'R' => 'r',
        'S' => 's',
        'T' => 't',
        'U' => 'u',
        'V' => 'v',
        'W' => 'w',
        'X' => 'x',
        'Y' => 'y',
        'Z' => 'z',
        _ => c,
    }
}

/// ASCII lowercase of a string, character by character.
pub open spec fn lower(s: Seq<char>) -> Seq<char> {
    s.map_values(|c: char| lower_char(c))
}

fn to_lower_char(c: char) -> (r: char)
    ensures
        r == lower_char(c),
{
    match c {
        'A' => 'a',
        'B' => 'b',
        'C' => 'c',
        'D' => 'd',
        'E' => 'e',
        'F' => 'f',
        'G' => 'g',
        'H' => 'h',
        'I' => 'i',
        'J' => 'j',
        'K' => 'k',
        'L' => 'l',
        'M' => 'm',
        'N' => 'n',
        'O' => 'o',
        'P' => 'p',
        'Q' => 'q',
        'R' => 'r',
        'S' => 's',
        'T' => 't',
        'U' => 'u',
        'V' => 'v',
        'W' => 'w',
        'X' => 'x',
        'Y' => 'y',
        'Z' => 'z',
        _ => c,
    }
}

/// Whether `s`, lowercased, is the (already lowercase) string `t`.
fn eq_ignore_case(s: &str, t: &str) -> (r: bool)
    ensures
        r == (lower(s@) == t@),
{
    let n = s.unicode_len();
    if n != t.unicode_len() {
        proof {
            assert(lower(s@).len() != t@.len());
        }
        return false;
    }
    let mut i: usize = 0;
    while i < n
        invariant
            0 <= i <= n,
            n == s@.len(),
            n == t@.len(),
            forall|j: int| 0 <= j < i ==> lower_char(s@[j]) == t@[j],
        decreases n - i,
    {
        if to_lower_char(s.get_char(i)) != t.get_char(i) {
            proof {
                assert(lower(s@)[i as int] != t@[i as int]);
            }
            return false;
        }
        i += 1;
    }
    proof {
        assert(lower(s@) =~= t@);
    }
    true
}

/// The full name of the IFC month with the given 1-indexed number:
/// January..June, Sol, July..December.
pub open spec fn spec_month_name(month: int) -> Seq<char> {
    if month == 1 {
        "January"@
    } else if month == 2 {
        "February"@
    } else if month == 3 {
        "March"@
    } else if month == 4 {
        "April"@
    } else if month == 5 {
        "May"@
    } else if month == 6 {
        "June"@
    } else if month == 7 {
        "Sol"@
    } else if month == 8 {
        "July"@
    } else if month == 9 {
        "August"@
    } else if month == 10 {
        "September"@
    } else if month == 11 {
        "October"@
    } else if month == 12 {
        "November"@
    } else if month == 13 {
        "December"@
    } else {
        Seq::empty()
    }
}

/// The short, 3-letter name of the IFC month with the given 1-indexed
/// number. Sol is its own short name.
pub open spec fn spec_month_name_short(month: int) -> Seq<char> {
    if month == 1 {
        "Jan"@
    } else if month == 2 {
        "Feb"@
    } else if month == 3 {
        "Mar"@
    } else if month == 4 {
        "Apr"@
    } else if month == 5 {
        "May"@
    } else if month == 6 {
        "Jun"@
    } else if month == 7 {
        "Sol"@
    } else if month == 8 {
        "Jul"@
    } else if month == 9 {
        "Aug"@
    } else if month == 10 {
        "Sep"@
    } else if month == 11 {
        "Oct"@
    } else if month == 12 {
        "Nov"@
    } else if month == 13 {
        "Dec"@
    } else {
        Seq::empty()
    }
}

/// The name of the weekday of a day of an IFC month: every month starts on
/// Sunday, so the weekday is the day of the month, 0-indexed, modulo 7.
pub open spec fn spec_day_name(day: int) -> Seq<char> {
    let w = (day - 1) % 7;
    if w == 0 {
        "Sunday"@
    } else if w == 1 {
        "Monday"@
    } else if w == 2 {
        "Tuesday"@
    } else if w == 3 {
        "Wednesday"@
    } else if w == 4 {
        "Thursday"@
    } else if w == 5 {
        "Friday"@
    } else {
        "Saturday"@
    }
}

/// The short, 3-letter name of the weekday of a day of an IFC month.
pub open spec fn spec_day_name_short(day: int) -> Seq<char> {
    let w = (day - 1) % 7;
    if w == 0 {
        "Sun"@
    } else if w == 1 {
        "Mon"@
    } else if w == 2 {
        "Tue"@
    } else if w == 3 {
        "Wed"@
    } else if w == 4 {
        "Thu"@
    } else if w == 5 {
        "Fri"@
    } else {
        "Sat"@
    }
}

impl Date {
    /// The full name of the day. Sunday, Monday, etc.
    pub fn day_name(&self) -> (name: &'static str)
        requires
            1 <= self.day,
        ensures
            name@ == spec_day_name(self.day as int),
    {
        match (self.day - 1) % 7 {
            0 => "Sunday",
            1 => "Monday",
            2 => "Tuesday",
            3 => "Wednesday",
            4 => "Thursday",
            5 => "Friday",
            _ => "Saturday",
        }
    }

    /// The short, 3-letter name of the day. Sun, Mon, etc.
    pub fn day_name_short(&self) -> (name: &'static str)
        requires
            1 <= self.day,
        ensures
            name@ == spec_day_name_short(self.day as int),
    {
        match (self.day - 1) % 7 {
            0 => "Sun",
            1 => "Mon",
            2 => "Tue",
            3 => "Wed",
            4 => "Thu",
            5 => "Fri",
            _ => "Sat",
        }
    }

    /// The full name of the month. June, Sol, July, etc.
    pub fn month_name(&self) -> (name: &'static str)
        requires
            1 <= self.month <= 13,
        ensures
            name@ == spec_month_name(self.month as int),
    {
        match self.month {
            1 => "January",
            2 => "February",
            3 => "March",
            4 => "April",
            5 => "May",
            6 => "June",
            7 => "Sol",
            8 => "July",
            9 => "August",
            10 => "September",
            11 => "October",
            12 => "November",
            _ => "December",
        }
    }

    /// The short, 3 letter, name of the month. Jun, Sol, Jul, etc.
    pub fn month_name_short(&self) -> (name: &'static str)
        requires
            1 <= self.month <= 13,
        ensures
            name@ == spec_month_name_short(self.month as int),
    {
        match self.month {
            1 => "Jan",
            2 => "Feb",
            3 => "Mar",
            4 => "Apr",
            5 => "May",
            6 => "Jun",
            7 => "Sol",
            8 => "Jul",
            9 => "Aug",
            10 => "Sep",
            11 => "Oct",
            12 => "Nov",
            _ => "Dec",
        }
    }
}

/// The 1-indexed month whose long or short name, ignoring ASCII case, is the
/// given string; None if the string names no month.
pub open spec fn spec_month_index(s: Seq<char>) -> Option<u8> {
    let l = lower(s);
    if l == "january"@ || l == "jan"@ {
        Some(1u8)
    } else if l == "february"@ || l == "feb"@ {
        Some(2u8)
    } else if l == "march"@ || l == "mar"@ {
        Some(3u8)
    } else if l == "april"@ || l == "apr"@ {
        Some(4u8)
    } else if l == "may"@ {
        Some(5u8)
    } else if l == "june"@ || l == "jun"@ {
        Some(6u8)
    } else if l == "sol"@ {
        Some(7u8)
    } else if l == "july"@ || l == "jul"@ {
        Some(8u8)
    } else if l == "august"@ || l == "aug"@ {
        Some(9u8)
    } else if l == "september"@ || l == "sep"@ {
        Some(10u8)
    } else if l == "october"@ || l == "oct"@ {
        Some(11u8)
    } else if l == "november"@ || l == "nov"@ {
        Some(12u8)
    } else if l == "december"@ || l == "dec"@ {
        Some(13u8)
    } else {
        None
    }
}

proof fn lemma_lower_long_names()
    ensures
        lower("January"@) == "january"@,
        lower("February"@) == "february"@,
        lower("March"@) == "march"@,
        lower("April"@) == "april"@,
        lower("May"@) == "may"@,
        lower("June"@) == "june"@,
        lower("Sol"@) == "sol"@,
        lower("July"@) == "july"@,
        lower("August"@) == "august"@,
        lower("September"@) == "september"@,
        lower("October"@) == "october"@,
        lower("November"@) == "november"@,
        lower("December"@) == "december"@,
{
    reveal_strlit("January");
    reveal_strlit("january");
    reveal_strlit("February");
    reveal_strlit("february");
    reveal_strlit("March");
    reveal_strlit("march");
    reveal_strlit("April");
    reveal_strlit("april");
    reveal_strlit("May");
    reveal_strlit("may");
    reveal_strlit("June");
    reveal_strlit("june");
    reveal_strlit("Sol");
    reveal_strlit("sol");
    reveal_strlit("July");
    reveal_strlit("july");
    reveal_strlit("August");
    reveal_strlit("august");
    reveal_strlit("September");
    reveal_strlit("september");
    reveal_strlit("October");
    reveal_strlit("october");
    reveal_strlit("November");
    reveal_strlit("november");
    reveal_strlit("December");
    reveal_strlit("december");
    assert(lower("January"@) =~= "january"@);
    assert(lower("February"@) =~= "february"@);
    assert(lower("March"@) =~= "march"@);
    assert(lower("April"@) =~= "april"@);
    assert(lower("May"@) =~= "may"@);
    assert(lower("June"@) =~= "june"@);
    assert(lower("Sol"@) =~= "sol"@);
    assert(lower("July"@) =~= "july"@);
    assert(lower("August"@) =~= "august"@);
    assert(lower("September"@) =~= "september"@);
    assert(lower("October"@) =~= "october"@);
    assert(lower("November"@) =~= "november"@);
    assert(lower("December"@) =~= "december"@);
}

proof fn lemma_lower_short_names()
    ensures
        lower("Jan"@) == "jan"@,
        lower("Feb"@) == "feb"@,
        lower("Mar"@) == "mar"@,
        lower("Apr"@) == "apr"@,
        lower("May"@) == "may"@,
        lower("Jun"@) == "jun"@,
        lower("Sol"@) == "sol"@,
        lower("Jul"@) == "jul"@,
        lower("Aug"@) == "aug"@,
        lower("Sep"@) == "sep"@,
        lower("Oct"@) == "oct"@,
        lower("Nov"@) == "nov"@,
        lower("Dec"@) == "dec"@,
{
    reveal_strlit("Jan");
    reveal_strlit("jan");
    reveal_strlit("Feb");
    reveal_strlit("feb");
    reveal_strlit("Mar");
    reveal_strlit("mar");
    reveal_strlit("Apr");
    reveal_strlit("apr");
    reveal_strlit("May");
    reveal_strlit("may");
    reveal_strlit("Jun");
    reveal_strlit("jun");
    reveal_strlit("Sol");
    reveal_strlit("sol");
    reveal_strlit("Jul");
    reveal_strlit("jul");
    reveal_strlit("Aug");
    reveal_strlit("aug");
    reveal_strlit("Sep");
    reveal_strlit("sep");
    reveal_strlit("Oct");
    reveal_strlit("oct");
    reveal_strlit("Nov");
    reveal_strlit("nov");
    reveal_strlit("Dec");
    reveal_strlit("dec");
    assert(lower("Jan"@) =~= "jan"@);
    assert(lower("Feb"@) =~= "feb"@);
    assert(lower("Mar"@) =~= "mar"@);
    assert(lower("Apr"@) =~= "apr"@);
    assert(lower("May"@) =~= "may"@);
    assert(lower("Jun"@) =~= "jun"@);
    assert(lower("Sol"@) =~= "sol"@);
    assert(lower("Jul"@) =~= "jul"@);
    assert(lower("Aug"@) =~= "aug"@);
    assert(lower("Sep"@) =~= "sep"@);
    assert(lower("Oct"@) =~= "oct"@);
    assert(lower("Nov"@) =~= "nov"@);
    assert(lower("Dec"@) =~= "dec"@);
}

proof fn lemma_naming_month_1()
    ensures
        spec_month_index(spec_month_name(1)) == Some(1u8),
        spec_month_index(spec_month_name_short(1)) == Some(1u8),
{
    lemma_lower_long_names();
    lemma_lower_short_names();
    reveal_strlit("january");
    reveal_strlit("jan");
    assert(lower(spec_month_name(1)) == "january"@);
    assert(lower(spec_month_name_short(1)) == "jan"@);
}

proof fn lemma_naming_month_2()
    ensures
        spec_month_index(spec_month_name(2)) == Some(2u8),
        spec_month_index(spec_month_name_short(2)) == Some(2u8),
{
    lemma_lower_long_names();
    lemma_lower_short_names();
    reveal_strlit("january");
    reveal_strlit("jan");
    reveal_strlit("february");
    reveal_strlit("feb");
    assert(lower(spec_month_name(2)) == "february"@);
    assert(lower(spec_month_name_short(2)) == "feb"@);
    assert("feb"@[0] != "jan"@[0]);
}

proof fn lemma_naming_month_3()
    ensures
        spec_month_index(spec_month_name(3)) == Some(3u8),
        spec_month_index(spec_month_name_short(3)) == Some(3u8),
{
    lemma_lower_long_names();
    lemma_lower_short_names();
    reveal_strlit("january");
    reveal_strlit("jan");
    reveal_strlit("february");
    reveal_strlit("feb");
    reveal_strlit("march");
    reveal_strlit("mar");
    assert(lower(spec_month_name(3)) == "march"@);
    assert(lower(spec_month_name_short(3)) == "mar"@);
    assert("mar"@[0] != "jan"@[0]);
    assert("mar"@[0] != "feb"@[0]);
}

proof fn lemma_naming_month_4()
    ensures
        spec_month_index(spec_month_name(4)) == Some(4u8),
        spec_month_index(spec_month_name_short(4)) == Some(4u8),
{
    lemma_lower_long_names();
    lemma_lower_short_names();
    reveal_strlit("january");
    reveal_strlit("jan");
    reveal_strlit("february");
    reveal_strlit("feb");
    reveal_strlit("march");
    reveal_strlit("mar");
    reveal_strlit("april");
    reveal_strlit("apr");
    assert(lower(spec_month_name(4)) == "april"@);
    assert(lower(spec_month_name_short(4)) == "apr"@);
    assert("april"@[0] != "march"@[0]);
    assert("apr"@[0] != "jan"@[0]);
    assert("apr"@[0] != "feb"@[0]);
    assert("apr"@[0] != "mar"@[0]);
}

proof fn lemma_naming_month_5()
    ensures
        spec_month_index(spec_month_name(5)) == Some(5u8),
        spec_month_index(spec_month_name_short(5)) == Some(5u8),
{
    lemma_lower_long_names();
    lemma_lower_short_names();
    reveal_strlit("january");
    reveal_strlit("jan");
    reveal_strlit("february");
    reveal_strlit("feb");
    reveal_strlit("march");
    reveal_strlit("mar");
    reveal_strlit("april");
    reveal_strlit("apr");
    reveal_strlit("may");
    assert(lower(spec_month_name(5)) == "may"@);
    assert(lower(spec_month_name_short(5)) == "may"@);
    assert("may"@[0] != "jan"@[0]);
    assert("may"@[0] != "feb"@[0]);
    assert("may"@[2] != "mar"@[2]);
    assert("may"@[0] != "apr"@[0]);
}

proof fn lemma_naming_month_6()
    ensures
        spec_month_index(spec_month_name(6)) == Some(6u8),
        spec_month_index(spec_month_name_short(6)) == Some(6u8),
{
    lemma_lower_long_names();
    lemma_lower_short_names();
    reveal_strlit("january");
    reveal_strlit("jan");
    reveal_strlit("february");
    reveal_strlit("feb");
    reveal_strlit("march");
    reveal_strlit("mar");
    reveal_strlit("april");
    reveal_strlit("apr");
    reveal_strlit("may");
    reveal_strlit("june");
    reveal_strlit("jun");
    assert(lower(spec_month_name(6)) == "june"@);
    assert(lower(spec_month_name_short(6)) == "jun"@);
    assert("jun"@[1] != "jan"@[1]);
    assert("jun"@[0] != "feb"@[0]);
    assert("jun"@[0] != "mar"@[0]);
    assert("jun"@[0] != "apr"@[0]);
    assert("jun"@[0] != "may"@[0]);
}

proof fn lemma_naming_month_7()
    ensures
        spec_month_index(spec_month_name(7)) == Some(7u8),
        spec_month_index(spec_month_name_short(7)) == Some(7u8),
{
    lemma_lower_long_names();
    lemma_lower_short_names();
    reveal_strlit("january");
    reveal_strlit("jan");
    reveal_strlit("february");
    reveal_strlit("feb");
    reveal_strlit("march");
    reveal_strlit("mar");
    reveal_strlit("april");
    reveal_strlit("apr");
    reveal_strlit("may");
    reveal_strlit("june");
    reveal_strlit("jun");
    reveal_strlit("sol");
    assert(lower(spec_month_name(7)) == "sol"@);
    assert(lower(spec_month_name_short(7)) == "sol"@);
    assert("sol"@[0] != "jan"@[0]);
    assert("sol"@[0] != "feb"@[0]);
    assert("sol"@[0] != "mar"@[0]);
    assert("sol"@[0] != "apr"@[0]);
    assert("sol"@[0] != "may"@[0]);
    assert("sol"@[0] != "jun"@[0]);
}

proof fn lemma_naming_month_8()
    ensures
        spec_month_index(spec_month_name(8)) == Some(8u8),
        spec_month_index(spec_month_name_short(8)) == Some(8u8),
{
    lemma_lower_long_names();
    lemma_lower_short_names();
    reveal_strlit("january");
    reveal_strlit("jan");
    reveal_strlit("february");
    reveal_strlit("feb");
    reveal_strlit("march");
    reveal_strlit("mar");
    reveal_strlit("april");
    reveal_strlit("apr");
    reveal_strlit("may");
    reveal_strlit("june");
    reveal_strlit("jun");
    reveal_strlit("sol");
    reveal_strlit("july");
    reveal_strlit("jul");
    assert(lower(spec_month_name(8)) == "july"@);
    assert(lower(spec_month_name_short(8)) == "jul"@);
    assert("july"@[2] != "june"@[2]);
    assert("jul"@[1] != "jan"@[1]);
    assert("jul"@[0] != "feb"@[0]);
    assert("jul"@[0] != "mar"@[0]);
    assert("jul"@[0] != "apr"@[0]);
    assert("jul"@[0] != "may"@[0]);
    assert("jul"@[2] != "jun"@[2]);
    assert("jul"@[0] != "sol"@[0]);
}

proof fn lemma_naming_month_9()
    ensures
        spec_month_index(spec_month_name(9)) == Some(9u8),
        spec_month_index(spec_month_name_short(9)) == Some(9u8),
{
    lemma_lower_long_names();
    lemma_lower_short_names();
    reveal_strlit("january");
    reveal_strlit("jan");
    reveal_strlit("february");
    reveal_strlit("feb");
    reveal_strlit("march");
    reveal_strlit("mar");
    reveal_strlit("april");
    reveal_strlit("apr");
    reveal_strlit("may");
    reveal_strlit("june");
    reveal_strlit("jun");
    reveal_strlit("sol");
    reveal_strlit("july");
    reveal_strlit("jul");
    reveal_strlit("august");
    reveal_strlit("aug");
    assert(lower(spec_month_name(9)) == "august"@);
    assert(lower(spec_month_name_short(9)) == "aug"@);
    assert("aug"@[0] != "jan"@[0]);
    assert("aug"@[0] != "feb"@[0]);
    assert("aug"@[0] != "mar"@[0]);
    assert("aug"@[1] != "apr"@[1]);
    assert("aug"@[0] != "may"@[0]);
    assert("aug"@[0] != "jun"@[0]);
    assert("aug"@[0] != "sol"@[0]);
    assert("aug"@[0] != "jul"@[0]);
}

proof fn lemma_naming_month_10()
    ensures
        spec_month_index(spec_month_name(10)) == Some(10u8),
        spec_month_index(spec_month_name_short(10)) == Some(10u8),
{
    lemma_lower_long_names();
    lemma_lower_short_names();
    reveal_strlit("january");
    reveal_strlit("jan");
    reveal_strlit("february");
    reveal_strlit("feb");
    reveal_strlit("march");
    reveal_strlit("mar");
    reveal_strlit("april");
    reveal_strlit("apr");
    reveal_strlit("may");
    reveal_strlit("june");
    reveal_strlit("jun");
    reveal_strlit("sol");
    reveal_strlit("july");
    reveal_strlit("jul");
    reveal_strlit("august");
    reveal_strlit("aug");
    reveal_strlit("september");
    reveal_strlit("sep");
    assert(lower(spec_month_name(10)) == "september"@);
    assert(lower(spec_month_name_short(10)) == "sep"@);
    assert("sep"@[0] != "jan"@[0]);
    assert("sep"@[0] != "feb"@[0]);
    assert("sep"@[0] != "mar"@[0]);
    assert("sep"@[0] != "apr"@[0]);
    assert("sep"@[0] != "may"@[0]);
    assert("sep"@[0] != "jun"@[0]);
    assert("sep"@[1] != "sol"@[1]);
    assert("sep"@[0] != "jul"@[0]);
    assert("sep"@[0] != "aug"@[0]);
}

proof fn lemma_naming_month_11()
    ensures
        spec_month_index(spec_month_name(11)) == Some(11u8),
        spec_month_index(spec_month_name_short(11)) == Some(11u8),
{
    lemma_lower_long_names();
    lemma_lower_short_names();
    reveal_strlit("january");
    reveal_strlit("jan");
    reveal_strlit("february");
    reveal_strlit("feb");
    reveal_strlit("march");
    reveal_strlit("mar");
    reveal_strlit("april");
    reveal_strlit("apr");
    reveal_strlit("may");
    reveal_strlit("june");
    reveal_strlit("jun");
    reveal_strlit("sol");
    reveal_strlit("july");
    reveal_strlit("jul");
    reveal_strlit("august");
    reveal_strlit("aug");
    reveal_strlit("september");
    reveal_strlit("sep");
    reveal_strlit("october");
    reveal_strlit("oct");
    assert(lower(spec_month_name(11)) == "october"@);
    assert(lower(spec_month_name_short(11)) == "oct"@);
    assert("october"@[0] != "january"@[0]);
    assert("oct"@[0] != "jan"@[0]);
    assert("oct"@[0] != "feb"@[0]);
    assert("oct"@[0] != "mar"@[0]);
    assert("oct"@[0] != "apr"@[0]);
    assert("oct"@[0] != "may"@[0]);
    assert("oct"@[0] != "jun"@[0]);
    assert("oct"@[0] != "sol"@[0]);
    assert("oct"@[0] != "jul"@[0]);
    assert("oct"@[0] != "aug"@[0]);
    assert("oct"@[0] != "sep"@[0]);
}

proof fn lemma_naming_month_12()
    ensures
        spec_month_index(spec_month_name(12)) == Some(12u8),
        spec_month_index(spec_month_name_short(12)) == Some(12u8),
{
    lemma_lower_long_names();
    lemma_lower_short_names();
    reveal_strlit("january");
    reveal_strlit("jan");
    reveal_strlit("february");
    reveal_strlit("feb");
    reveal_strlit("march");
    reveal_strlit("mar");
    reveal_strlit("april");
    reveal_strlit("apr");
    reveal_strlit("may");
    reveal_strlit("june");
    reveal_strlit("jun");
    reveal_strlit("sol");
    reveal_strlit("july");
    reveal_strlit("jul");
    reveal_strlit("august");
    reveal_strlit("aug");
    reveal_strlit("september");
    reveal_strlit("sep");
    reveal_strlit("october");
    reveal_strlit("oct");
    reveal_strlit("november");
    reveal_strlit("nov");
    assert(lower(spec_month_name(12)) == "november"@);
    assert(lower(spec_month_name_short(12)) == "nov"@);
    assert("november"@[0] != "february"@[0]);
    assert("nov"@[0] != "jan"@[0]);
    assert("nov"@[0] != "feb"@[0]);
    assert("nov"@[0] != "mar"@[0]);
    assert("nov"@[0] != "apr"@[0]);
    assert("nov"@[0] != "may"@[0]);
    assert("nov"@[0] != "jun"@[0]);
    assert("nov"@[0] != "sol"@[0]);
    assert("nov"@[0] != "jul"@[0]);
    assert("nov"@[0] != "aug"@[0]);
    assert("nov"@[0] != "sep"@[0]);
    assert("nov"@[0] != "oct"@[0]);
}

proof fn lemma_naming_month_13()
    ensures
        spec_month_index(spec_month_name(13)) == Some(13u8),
        spec_month_index(spec_month_name_short(13)) == Some(13u8),
{
    lemma_lower_long_names();
    lemma_lower_short_names();
    reveal_strlit("january");
    reveal_strlit("jan");
    reveal_strlit("february");
    reveal_strlit("feb");
    reveal_strlit("march");
    reveal_strlit("mar");
    reveal_strlit("april");
    reveal_strlit("apr");
    reveal_strlit("may");
    reveal_strlit("june");
    reveal_strlit("jun");
    reveal_strlit("sol");
    reveal_strlit("july");
    reveal_strlit("jul");
    reveal_strlit("august");
    reveal_strlit("aug");
    reveal_strlit("september");
    reveal_strlit("sep");
    reveal_strlit("october");
    reveal_strlit("oct");
    reveal_strlit("november");
    reveal_strlit("nov");
    reveal_strlit("december");
    reveal_strlit("dec");
    assert(lower(spec_month_name(13)) == "december"@);
    assert(lower(spec_month_name_short(13)) == "dec"@);
    assert("december"@[0] != "february"@[0]);
    assert("december"@[0] != "november"@[0]);
    assert("dec"@[0] != "jan"@[0]);
    assert("dec"@[0] != "feb"@[0]);
    assert("dec"@[0] != "mar"@[0]);
    assert("dec"@[0] != "apr"@[0]);
    assert("dec"@[0] != "may"@[0]);
    assert("dec"@[0] != "jun"@[0]);
    assert("dec"@[0] != "sol"@[0]);
    assert("dec"@[0] != "jul"@[0]);
    assert("dec"@[0] != "aug"@[0]);
    assert("dec"@[0] != "sep"@[0]);
    assert("dec"@[0] != "oct"@[0]);
    assert("dec"@[0] != "nov"@[0]);
}

/// Naming and parsing are mutually inverse: looking up a month's long or
/// short name, in any ASCII case, yields that month's index again.
pub proof fn lemma_month_naming_round_trip(month: u8)
    requires
        1 <= month <= 13,
    ensures
        spec_month_index(spec_month_name(month as int)) == Some(month),
        spec_month_index(spec_month_name_short(month as int)) == Some(month),
{
    if month == 1 {
        lemma_naming_month_1();
    } else if month == 2 {
        lemma_naming_month_2();
    } else if month == 3 {
        lemma_naming_month_3();
    } else if month == 4 {
        lemma_naming_month_4();
    } else if month == 5 {
        lemma_naming_month_5();
    } else if month == 6 {
        lemma_naming_month_6();
    } else if month == 7 {
        lemma_naming_month_7();
    } else if month == 8 {
        lemma_naming_month_8();
    } else if month == 9 {
        lemma_naming_month_9();
    } else if month == 10 {
        lemma_naming_month_10();
    } else if month == 11 {
        lemma_naming_month_11();
    } else if month == 12 {
        lemma_naming_month_12();
    } else {
        lemma_naming_month_13();
    }
}

/// Resolve a month name, ignoring case, to an index. If the provided month name
/// is invalid `None` is returned. Else `Some(u8)` is returned (1 indexed)
pub fn month_index(test: &str) -> (r: Option<u8>)
    ensures
        r == spec_month_index(test@),
{
    if eq_ignore_case(test, "january") || eq_ignore_case(test, "jan") {
        Some(1)
    } else if eq_ignore_case(test, "february") || eq_ignore_case(test, "feb") {
        Some(2)
    } else if eq_ignore_case(test, "march") || eq_ignore_case(test, "mar") {
        Some(3)
    } else if eq_ignore_case(test, "april") || eq_ignore_case(test, "apr") {
        Some(4)
    } else if eq_ignore_case(test, "may") {
        Some(5)
    } else if eq_ignore_case(test, "june") || eq_ignore_case(test, "jun") {
        Some(6)
    } else if eq_ignore_case(test, "sol") {
        Some(7)
    } else if eq_ignore_case(test, "july") || eq_ignore_case(test, "jul") {
        Some(8)
    } else if eq_ignore_case(test, "august") || eq_ignore_case(test, "aug") {
        Some(9)
    } else if eq_ignore_case(test, "september") || eq_ignore_case(test, "sep") {
        Some(10)
    } else if eq_ignore_case(test, "october") || eq_ignore_case(test, "oct") {
        Some(11)
    } else if eq_ignore_case(test, "november") || eq_ignore_case(test, "nov") {
        Some(12)
    } else if eq_ignore_case(test, "december") || eq_ignore_case(test, "dec") {
        Some(13)
    } else {
        None
    }
}

} // verus!
