//! The International Fixed Calendar (IFC): thirteen months of exactly 28 days
//! each, a trailing "year day" appended to the thirteenth month every year,
//! and, in leap years, a "leap day" appended to the sixth month.
//!
//! The core of the crate converts dates between the proleptic Gregorian
//! calendar, represented as a (year, 1-indexed day-of-year) pair, and the IFC.

use vstd::prelude::*;

mod greg;
mod naming;
mod text;

pub use greg::ComponentRange;
pub use naming::month_index;
pub use naming::spec_day_name;
pub use naming::spec_day_name_short;
pub use naming::spec_month_index;
pub use naming::spec_month_name;
pub use naming::spec_month_name_short;
pub use text::decimal_string;
pub use text::ord;
pub use text::spec_decimal;
pub use text::spec_digit;
pub use text::spec_ord_suffix;
pub use text::spec_rfc2822;

verus! {

/// A day in the International Fixed Calendar.
#[derive(Copy, Clone, Debug, PartialEq, Eq, Structural)]
pub struct Date {
    pub year: u32,
    /// The month of the year (1 indexed)
    pub month: u8,
    /// The day of the month (1 indexed)
    pub day: u8,
}

/// The standard Gregorian leap-year rule, over mathematical integers.
pub open spec fn spec_is_leap(year: int) -> bool {
    year % 4 == 0 && (year % 100 != 0 || year % 400 == 0)
}

/// Whether or not a year is a leap year
pub fn year_leaps(year: u32) -> (leap: bool)
    ensures
        leap == spec_is_leap(year as int),
{
    let four = year % 4 == 0;
    let hundreds = year % 100 == 0;
    let fourhund = year % 400 == 0;

    // leap if:
    // - four AND NOT hundred
    // - four AND hundred AND fourhund

    // `fourhund` here checks `hundreds` by virtue of 100 being a multiple of 400
    four && (!hundreds || fourhund)
}

/// The number of days in a Gregorian year: 366 in leap years, 365 otherwise.
pub open spec fn spec_days_in_year(year: int) -> int {
    if spec_is_leap(year) {
        366
    } else {
        365
    }
}

/// A day of the proleptic Gregorian calendar, as a year and the 1-indexed
/// ordinal of the day within that year.
#[derive(Copy, Clone, Debug, PartialEq, Eq, Structural)]
pub struct GregorianOrdinalDate {
    pub year: u32,
    /// The day of the year (1 indexed)
    pub ordinal: u16,
}

impl GregorianOrdinalDate {
    /// A valid Gregorian ordinal date: the ordinal names a day of the year.
    pub open spec fn wf(self) -> bool {
        1 <= self.ordinal <= spec_days_in_year(self.year as int)
    }
}

impl Date {
    /// A valid IFC date: thirteen months of 28 days, where day 29 exists only
    /// as the leap day (month 6, leap years only) or the year day (month 13).
    pub open spec fn wf(self) -> bool {
        &&& 1 <= self.month <= 13
        &&& 1 <= self.day
        &&& (self.day <= 28 || (self.month == 6 && self.day == 29 && spec_is_leap(
            self.year as int,
        )) || (self.month == 13 && self.day == 29))
    }

    /// The 1-indexed day of the year of an IFC date: 28 days for each elapsed
    /// month, shifted by one past the leap day in leap years.
    pub open spec fn spec_ordinal(self) -> int {
        let base = (self.month - 1) * 28 + self.day;
        if spec_is_leap(self.year as int) && base >= 169 && !(self.month == 6 && self.day == 29) {
            base + 1
        } else {
            base
        }
    }

    /// Is this year a leap year?
    pub fn is_leap(&self) -> (leap: bool)
        ensures
            leap == spec_is_leap(self.year as int),
    {
        year_leaps(self.year)
    }

    /// The IFC date of a Gregorian day: the 0-indexed ordinal is tiled into
    /// 28-day months, with the leap day (ordinal 169 of a leap year) and the
    /// year day (the last day of any year) set aside first, and the tiling
    /// shifted by one past the leap day.
    pub open spec fn spec_from_gregorian(greg: GregorianOrdinalDate) -> Date {
        let year = greg.year;
        let leap = spec_is_leap(year as int);
        let ord = greg.ordinal - 1;
        if leap && ord == 168 {
            Date { year, month: 6, day: 29 }
        } else if (!leap && ord == 364) || ord == 365 {
            Date { year, month: 13, day: 29 }
        } else if !leap || ord <= 168 {
            Date { year, month: (ord / 28 + 1) as u8, day: (ord % 28 + 1) as u8 }
        } else {
            Date { year, month: ((ord - 1) / 28 + 1) as u8, day: ((ord - 1) % 28 + 1) as u8 }
        }
    }

    /// Convert a Gregorian date to the IFC date of the same day. The result
    /// is the unique valid IFC date of that year whose ordinal is the given
    /// one.
    pub fn from_gregorian(greg: GregorianOrdinalDate) -> (date: Date)
        requires
            greg.wf(),
        ensures
            date == Date::spec_from_gregorian(greg),
            date.wf(),
            date.year == greg.year,
            date.spec_ordinal() == greg.ordinal,
    {
        proof {
            Date::lemma_from_gregorian_valid(greg);
        }
        let year = greg.year;
        let leap = year_leaps(year);
        let ord = greg.ordinal - 1;

        if leap && ord == 168 {
            // Catch the leap day
            return Date { year, month: 6, day: 29 };
        } else if (!leap && ord == 364) || ord == 365 {
            // Catch both year days
            return Date { year, month: 13, day: 29 };
        }

        if !leap || ord <= 168 {
            // not a leap year path
            // also the "leap year but before the leap-day" path
            Date { year, month: (ord / 28) as u8 + 1, day: (ord % 28) as u8 + 1 }
        } else {
            Date { year, month: ((ord - 1) / 28) as u8 + 1, day: ((ord - 1) % 28) as u8 + 1 }
        }
    }

    /// For every day of a Gregorian year, the IFC date of that day is valid,
    /// lies in the same year, and has the same day-of-year ordinal.
    pub proof fn lemma_from_gregorian_valid(greg: GregorianOrdinalDate)
        requires
            greg.wf(),
        ensures
            Date::spec_from_gregorian(greg).wf(),
            Date::spec_from_gregorian(greg).year == greg.year,
            Date::spec_from_gregorian(greg).spec_ordinal() == greg.ordinal,
    {
        let leap = spec_is_leap(greg.year as int);
        let ord = (greg.ordinal - 1) as int;
        let date = Date::spec_from_gregorian(greg);
        if leap && ord == 168 {
        } else if (!leap && ord == 364) || ord == 365 {
        } else if !leap || ord <= 168 {
            assert(0 <= ord <= 363);
            assert(28 * (ord / 28) + ord % 28 == ord) by {
                vstd::arithmetic::div_mod::lemma_fundamental_div_mod(ord, 28);
            }
            assert(0 <= ord / 28 <= 12) by (nonlinear_arith)
                requires
                    0 <= ord <= 363,
            ;
        } else {
            let o = ord - 1;
            assert(168 <= o <= 363);
            assert(28 * (o / 28) + o % 28 == o) by {
                vstd::arithmetic::div_mod::lemma_fundamental_div_mod(o, 28);
            }
            assert(6 <= o / 28 <= 12) by (nonlinear_arith)
                requires
                    168 <= o <= 363,
            ;
        }
    }

    /// Round trip through the Gregorian calendar: the ordinal of a valid IFC
    /// date names a day of its Gregorian year, and converting that Gregorian
    /// date back yields the same IFC date. Together with the contract of
    /// `from_gregorian`, which round-trips the other way, the two conversions
    /// are mutually inverse bijections between the days of a Gregorian year
    /// and the valid IFC dates of that year.
    pub proof fn lemma_ordinal_round_trip(date: Date)
        requires
            date.wf(),
        ensures
            1 <= date.spec_ordinal() <= spec_days_in_year(date.year as int),
            (GregorianOrdinalDate { year: date.year, ordinal: date.spec_ordinal() as u16 }).wf(),
            (Date::spec_from_gregorian(
                GregorianOrdinalDate { year: date.year, ordinal: date.spec_ordinal() as u16 },
            ) == date),
    {
        let leap = spec_is_leap(date.year as int);
        let m = date.month as int;
        let dy = date.day as int;
        let base = (m - 1) * 28 + dy;
        if leap && m == 6 && dy == 29 {
        } else if m == 13 && dy == 29 {
        } else {
            assert(1 <= dy <= 28);
            assert(1 <= base <= 364) by (nonlinear_arith)
                requires
                    1 <= m <= 13,
                    1 <= dy <= 28,
                    base == (m - 1) * 28 + dy,
            ;
            vstd::arithmetic::div_mod::lemma_fundamental_div_mod_converse(
                (m - 1) * 28 + (dy - 1),
                28,
                m - 1,
                dy - 1,
            );
        }
    }

    /// The number of days elapsed in the current year (1 indexed)
    pub fn ordinal(&self) -> (ord: u16)
        requires
            1 <= self.month,
        ensures
            ord == self.spec_ordinal(),
    {
        let ord = (self.month as u16 - 1) * 28 + self.day as u16;

        //if leap year and the day is on/after leap day and it isn't leap day
        if self.is_leap() && ord >= 169 && !(self.month == 6 && self.day == 29) {
            ord + 1
        } else {
            ord
        }
    }
}

} // verus!
