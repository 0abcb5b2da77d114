use infica::year_leaps;

#[test]
fn leap_years() {
    // the examples given by wikipedia
    assert!(year_leaps(2000));
    assert!(!year_leaps(1700));
    assert!(!year_leaps(1800));
    assert!(!year_leaps(1900));

    // testing the four rule
    assert!(year_leaps(2024));
}

#[test]
fn leap_years_method() {
    let date = infica::Date {
        year: 2024,
        month: 1,
        day: 1,
    };
    assert!(date.is_leap());
    let date = infica::Date {
        year: 2023,
        month: 1,
        day: 1,
    };
    assert!(!date.is_leap());
}
