use infica::ord;

#[test]
fn weird_ord_single() {
    assert_eq!(ord(0), "th");
    assert_eq!(ord(1), "st");
    assert_eq!(ord(2), "nd");
    assert_eq!(ord(3), "rd");
    assert_eq!(ord(4), "th");
    assert_eq!(ord(5), "th");
    assert_eq!(ord(6), "th");
    assert_eq!(ord(7), "th");
    assert_eq!(ord(8), "th");
    assert_eq!(ord(9), "th");
}

#[test]
fn weird_ord_teens() {
    assert_eq!(ord(10), "th");
    assert_eq!(ord(11), "th");
    assert_eq!(ord(12), "th");
    assert_eq!(ord(13), "th");
    assert_eq!(ord(14), "th");
    assert_eq!(ord(15), "th");
    assert_eq!(ord(16), "th");
    assert_eq!(ord(17), "th");
    assert_eq!(ord(18), "th");
    assert_eq!(ord(19), "th");
}

#[test]
fn weird_ord_etc() {
    assert_eq!(ord(20), "th");
    assert_eq!(ord(21), "st");
    assert_eq!(ord(42), "nd");
    assert_eq!(ord(5815), "th");
    assert_eq!(ord(2453), "rd");
    assert_eq!(ord(2341), "st");
}

#[test]
fn weird_ord_high_teens() {
    assert_eq!(ord(111), "th", "should be one hundred and eleventh");
    assert_eq!(ord(112), "th");
    assert_eq!(ord(113), "th");
    assert_eq!(ord(114), "th");
    assert_eq!(ord(115), "th");
    assert_eq!(ord(116), "th");
    assert_eq!(ord(117), "th");
    assert_eq!(ord(118), "th");
    assert_eq!(ord(119), "th");
}

#[test]
fn ord_depends_on_last_two_digits() {
    for n in 0..100usize {
        assert_eq!(ord(n), ord(n + 100));
        assert_eq!(ord(n), ord(n + 2300));
    }
}
