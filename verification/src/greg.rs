//! The boundary to the Gregorian calendar library: its validation of a
//! (year, day-of-year) pair, and the conversion of an IFC date back to a
//! Gregorian ordinal date.

use vstd::prelude::*;

verus! {

use crate::Date;
use crate::GregorianOrdinalDate;
use crate::spec_days_in_year;

/// Conversion back to the Gregorian calendar failed: the IFC date's ordinal
/// does not name a day of its year (the date violates `Date::wf`), or the
/// year lies outside the range the Gregorian calendar library covers.
#[derive(Copy, Clone, Debug, PartialEq, Eq, Structural)]
pub struct ComponentRange;

/// Relies on time::Date::from_ordinal_date: it returns Ok exactly when the
/// year lies within the library's supported range and `ordinal` names a day
/// of that year, that is, lies in 1..=365, or 1..=366 in a leap year.
#[verifier::external_body]
fn greg_ordinal_in_range(year: i32, ordinal: u16) -> (ok: bool)
    ensures
        ok <==> (-9999 <= year <= 9999 && 1 <= ordinal <= spec_days_in_year(year as int)),
{
    time::Date::from_ordinal_date(year, ordinal).is_ok()
}

impl Date {
    /// Convert an IFC date to the Gregorian date with the same year and
    /// day-of-year ordinal. Succeeds on every valid IFC date whose year the
    /// Gregorian calendar library covers, and fails exactly when the year is
    /// out of that range or the ordinal does not name a day of the year.
    pub fn to_gregorian(&self) -> (r: Result<GregorianOrdinalDate, ComponentRange>)
        requires
            1 <= self.month,
        ensures
            r is Ok <==> (self.year <= 9999 && 1 <= self.spec_ordinal() <= spec_days_in_year(
                self.year as int,
            )),
            r is Ok ==> r->Ok_0 == (GregorianOrdinalDate {
                year: self.year,
                ordinal: self.spec_ordinal() as u16,
            }),
            self.wf() && self.year <= 9999 ==> r is Ok,
    {
        proof {
            if self.wf() {
                Date::lemma_ordinal_round_trip(*self);
            }
        }
        if self.year > 9999 {
            return Err(ComponentRange);
        }
        let ordinal = self.ordinal();
        if greg_ordinal_in_range(self.year as i32, ordinal) {
            Ok(GregorianOrdinalDate { year: self.year, ordinal })
        } else {
            Err(ComponentRange)
        }
    }
}

} // verus!
