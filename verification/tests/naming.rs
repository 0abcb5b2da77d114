use infica::{month_index, Date};

fn on_month(month: u8) -> Date {
    Date {
        year: 2023,
        month,
        day: 1,
    }
}

#[test]
fn month_names_round_trip() {
    for month in 1..=13u8 {
        let date = on_month(month);
        assert_eq!(month_index(date.month_name()), Some(month));
        assert_eq!(month_index(date.month_name_short()), Some(month));
    }
}

#[test]
fn month_index_ignores_case() {
    assert_eq!(month_index("JANUARY"), Some(1));
    assert_eq!(month_index("january"), Some(1));
    assert_eq!(month_index("jAnUaRy"), Some(1));
    assert_eq!(month_index("JAN"), Some(1));
    assert_eq!(month_index("sol"), Some(7));
    assert_eq!(month_index("SOL"), Some(7));
    assert_eq!(month_index("sEpTeMbEr"), Some(10));
    assert_eq!(month_index("SEP"), Some(10));
    assert_eq!(month_index("dec"), Some(13));
}

#[test]
fn month_index_rejects_unknown_names() {
    assert_eq!(month_index(""), None);
    assert_eq!(month_index("ja"), None);
    assert_eq!(month_index("janu"), None);
    assert_eq!(month_index("notamonth"), None);
    assert_eq!(month_index("solstice"), None);
}

#[test]
fn month_names_follow_the_ifc_order() {
    assert_eq!(on_month(6).month_name(), "June");
    assert_eq!(on_month(7).month_name(), "Sol");
    assert_eq!(on_month(8).month_name(), "July");
    assert_eq!(on_month(7).month_name_short(), "Sol");
    assert_eq!(on_month(13).month_name(), "December");
    assert_eq!(on_month(13).month_name_short(), "Dec");
}

#[test]
fn day_names_repeat_weekly() {
    let date = |day: u8| Date {
        year: 2023,
        month: 1,
        day,
    };
    assert_eq!(date(1).day_name(), "Sunday");
    assert_eq!(date(2).day_name(), "Monday");
    assert_eq!(date(7).day_name(), "Saturday");
    assert_eq!(date(8).day_name(), "Sunday");
    assert_eq!(date(28).day_name(), "Saturday");
    // the year day (and a leap day) land on an eighth Sunday
    assert_eq!(date(29).day_name(), "Sunday");
    assert_eq!(date(1).day_name_short(), "Sun");
    assert_eq!(date(5).day_name_short(), "Thu");
    assert_eq!(date(28).day_name_short(), "Sat");
}

#[test]
fn rfc2822_renders_the_full_date() {
    let date = Date {
        year: 2023,
        month: 7,
        day: 1,
    };
    assert_eq!(date.rfc2822(), "Sun, 1 Sol 2023");

    let date = Date {
        year: 2024,
        month: 6,
        day: 29,
    };
    assert_eq!(date.rfc2822(), "Sun, 29 June 2024");

    let date = Date {
        year: 987,
        month: 13,
        day: 28,
    };
    assert_eq!(date.rfc2822(), "Sat, 28 December 987");
}

#[test]
fn decimal_strings() {
    assert_eq!(infica::decimal_string(0), "0");
    assert_eq!(infica::decimal_string(7), "7");
    assert_eq!(infica::decimal_string(10), "10");
    assert_eq!(infica::decimal_string(2023), "2023");
    assert_eq!(infica::decimal_string(1_000_000), "1000000");
    assert_eq!(infica::decimal_string(u32::MAX), "4294967295");
}
