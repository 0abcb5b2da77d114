use infica::{Date, GregorianOrdinalDate};
use time::Duration;

fn greg_to_ifc(greg: time::Date) -> Date {
    Date::from_gregorian(GregorianOrdinalDate {
        year: greg.year() as u32,
        ordinal: greg.ordinal(),
    })
}

fn ifc_to_greg(ifc: Date) -> time::Date {
    let pair = ifc.to_gregorian().unwrap();
    time::Date::from_ordinal_date(pair.year as i32, pair.ordinal).unwrap()
}

struct Pair {
    ifc: Date,
    greg: time::Date,
}

fn pair(gyear: i32, gmonth: u8, gday: u8, year: u32, month: u8, day: u8) -> Pair {
    Pair {
        ifc: Date { year, month, day },
        greg: time::Date::from_calendar_date(gyear, time::Month::try_from(gmonth).unwrap(), gday)
            .unwrap(),
    }
}

// The year in here has to be a non-leap year
fn pair_common(gmonth: u8, gday: u8, month: u8, day: u8) -> Pair {
    pair(2023, gmonth, gday, 2023, month, day)
}

// The year in here has to be a leap year
fn pair_leap(gmonth: u8, gday: u8, month: u8, day: u8) -> Pair {
    pair(2024, gmonth, gday, 2024, month, day)
}

fn format8601(ifc: &Date) -> String {
    format!("{}-{}-{}", ifc.year, ifc.month, ifc.day)
}

fn format8601g(greg: &time::Date) -> String {
    format!("{}-{}-{}", greg.year(), u8::from(greg.month()), greg.day())
}

fn boundaries() -> Vec<Pair> {
    vec![
        // January
        pair_common(1, 1, 1, 1),
        pair_common(1, 28, 1, 28),
        // February
        pair_common(1, 29, 2, 1),
        pair_common(2, 25, 2, 28),
        // March
        pair_common(2, 26, 3, 1),
        pair_common(3, 25, 3, 28),
        pair_leap(3, 24, 3, 28),
        // April
        pair_common(3, 26, 4, 1),
        pair_common(4, 22, 4, 28),
        pair_leap(3, 25, 4, 1),
        pair_leap(4, 21, 4, 28),
        // May
        pair_common(4, 23, 5, 1),
        pair_common(5, 20, 5, 28),
        pair_leap(4, 22, 5, 1),
        pair_leap(5, 19, 5, 28),
        // June
        pair_common(5, 21, 6, 1),
        pair_common(6, 17, 6, 28),
        pair_leap(5, 20, 6, 1),
        pair_leap(6, 16, 6, 28),
        // Leap day
        pair_leap(6, 17, 6, 29),
        // Sol
        pair_common(6, 18, 7, 1),
        pair_common(7, 15, 7, 28),
        //leap years don't change conversion after leap day
        pair_leap(6, 18, 7, 1),
        pair_leap(7, 15, 7, 28),
        // July
        pair_common(7, 16, 8, 1),
        pair_common(8, 12, 8, 28),
        // August
        pair_common(8, 13, 9, 1),
        pair_common(9, 9, 9, 28),
        // September
        pair_common(9, 10, 10, 1),
        pair_common(10, 7, 10, 28),
        // October
        pair_common(10, 8, 11, 1),
        pair_common(11, 4, 11, 28),
        // November
        pair_common(11, 5, 12, 1),
        pair_common(12, 2, 12, 28),
        // December
        pair_common(12, 3, 13, 1),
        pair_common(12, 30, 13, 28),
        pair_leap(12, 30, 13, 28),
        // Year Day
        pair_common(12, 31, 13, 29),
        pair_leap(12, 31, 13, 29),
    ]
}

#[test]
fn correctly_converts_boundaries_greg_to_ifc() {
    for pair in boundaries() {
        let Pair { ifc, greg } = pair;
        let conv: Date = greg_to_ifc(greg);

        if conv != ifc {
            println!(
                "failed greg -> ifc conversion:\nexpected ifc {} // got ifc {} // from greg {}",
                format8601(&ifc),
                format8601(&conv),
                format8601g(&greg)
            )
        }
    }
}

#[test]
fn correctly_converts_boundaries_ifc_to_greg() {
    for pair in boundaries() {
        let Pair { ifc, greg } = pair;
        let conv: time::Date = ifc_to_greg(ifc);

        if conv != greg {
            println!(
                "failed ifc -> greg conversion:\nexpected greg {} // got greg {} // from ifc {}",
                format8601g(&greg),
                format8601g(&conv),
                format8601(&ifc)
            )
        }
    }
}

#[test]
fn correctly_converts_boundaries_roundtrip() {
    for pair in boundaries() {
        let Pair { ifc, .. } = pair;
        let conv_greg: time::Date = ifc_to_greg(ifc);
        let conv: Date = greg_to_ifc(conv_greg);

        if conv != ifc {
            println!(
                "failed roundtrip conversion:\nstarting ifc {} // through greg {} // ending ifc {}",
                format8601(&ifc),
                format8601g(&conv_greg),
                format8601(&conv)
            )
        }
    }
}

// The boundary table again, with every comparison enforced.
#[test]
fn boundaries_hold_both_ways() {
    for pair in boundaries() {
        let Pair { ifc, greg } = pair;
        assert_eq!(
            greg_to_ifc(greg),
            ifc,
            "greg {} should be ifc {}",
            format8601g(&greg),
            format8601(&ifc)
        );
        assert_eq!(
            ifc_to_greg(ifc),
            greg,
            "ifc {} should be greg {}",
            format8601(&ifc),
            format8601g(&greg)
        );
    }
}

#[test]
fn round_trip_known_culprits() -> Result<(), time::error::ComponentRange> {
    let mut ifc: Date;

    let june_17th_2024 = time::Date::from_calendar_date(2024, time::Month::June, 17)?;
    ifc = greg_to_ifc(june_17th_2024);

    assert_eq!(
        june_17th_2024,
        ifc_to_greg(ifc),
        "ifc IR was {ifc:?}, ordinal: {}",
        ifc.ordinal()
    );

    let december_30th_2024 = time::Date::from_calendar_date(2024, time::Month::December, 30)?;
    ifc = greg_to_ifc(december_30th_2024);

    assert_eq!(december_30th_2024, ifc_to_greg(ifc), "ifc IR was {ifc:?}");

    Ok(())
}

#[test]
fn round_trip() {
    let today_greg = time::OffsetDateTime::now_utc().date();
    let today_ifc: Date = greg_to_ifc(today_greg);
    assert_eq!(today_greg, ifc_to_greg(today_ifc));

    //check 20 years in the past and future
    let broken_dates: Vec<_> = (0..(366 * 20))
        .map(|days| {
            (
                today_greg + Duration::days(days),
                today_greg - Duration::days(days),
            )
        })
        .flat_map(|(tomorrow_greg, yesterday_greg)| {
            let mut retval = vec![];
            let mut new_ifc: Date = greg_to_ifc(tomorrow_greg);
            if tomorrow_greg != ifc_to_greg(new_ifc) {
                retval.push((tomorrow_greg, new_ifc));
            }

            new_ifc = greg_to_ifc(yesterday_greg);
            if yesterday_greg != ifc_to_greg(new_ifc) {
                retval.push((yesterday_greg, new_ifc));
            }

            retval
        })
        .take(10)
        .collect();
    assert!(broken_dates.is_empty(), "{broken_dates:?}")
}

#[test]
fn ordinal_around_the_leap_day() {
    // the leap day itself occupies ordinal 169 in a leap year
    let leap_day = Date {
        year: 2024,
        month: 6,
        day: 29,
    };
    assert_eq!(leap_day.ordinal(), 169);

    // Sol 1 is shifted past the leap day in leap years only
    let sol_first_leap = Date {
        year: 2024,
        month: 7,
        day: 1,
    };
    assert_eq!(sol_first_leap.ordinal(), 170);
    let sol_first_common = Date {
        year: 2023,
        month: 7,
        day: 1,
    };
    assert_eq!(sol_first_common.ordinal(), 169);

    // the year day is the last day of the year
    let year_day_common = Date {
        year: 2023,
        month: 13,
        day: 29,
    };
    assert_eq!(year_day_common.ordinal(), 365);
    let year_day_leap = Date {
        year: 2024,
        month: 13,
        day: 29,
    };
    assert_eq!(year_day_leap.ordinal(), 366);
}

#[test]
fn to_gregorian_rejects_invalid_dates() {
    // a 30th day exists in no IFC month: its ordinal would be day 366 of a
    // 365-day year
    let bad = Date {
        year: 2023,
        month: 13,
        day: 30,
    };
    assert_eq!(bad.to_gregorian(), Err(infica::ComponentRange));

    // a leap day in a year that has none
    let bad = Date {
        year: 2023,
        month: 6,
        day: 29,
    };
    // ordinal 169 still names a day of 2023, so this converts (permissively)
    assert_eq!(
        bad.to_gregorian(),
        Ok(GregorianOrdinalDate {
            year: 2023,
            ordinal: 169,
        })
    );

    // a year beyond the Gregorian library's supported range
    let bad = Date {
        year: 10_000,
        month: 1,
        day: 1,
    };
    assert_eq!(bad.to_gregorian(), Err(infica::ComponentRange));
}

#[test]
fn to_gregorian_carries_year_and_ordinal() {
    let date = Date {
        year: 2024,
        month: 6,
        day: 29,
    };
    assert_eq!(
        date.to_gregorian(),
        Ok(GregorianOrdinalDate {
            year: 2024,
            ordinal: 169,
        })
    );
    let date = Date {
        year: 2023,
        month: 1,
        day: 1,
    };
    assert_eq!(
        date.to_gregorian(),
        Ok(GregorianOrdinalDate {
            year: 2023,
            ordinal: 1,
        })
    );
}
