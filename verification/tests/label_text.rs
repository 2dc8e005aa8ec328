use wio_umwelt_monitor::label_text::{LabelText, LABEL_CAPACITY};

#[test]
fn new_label_is_empty() {
    let text = LabelText::new();
    assert_eq!(text.as_str(), "");
    assert_eq!(text.len(), 0);
}

#[test]
fn label_from_short_text() {
    let text = LabelText::from_str("Temp.").unwrap();
    assert_eq!(text.as_str(), "Temp.");
    assert_eq!(text.len(), 5);
}

#[test]
fn label_holds_exactly_its_capacity() {
    let full = "0123456789abcdef0123456789abcdef";
    assert_eq!(full.len(), LABEL_CAPACITY);
    let text = LabelText::from_str(full).unwrap();
    assert_eq!(text.as_str(), full);
    assert_eq!(text.len(), LABEL_CAPACITY);
    assert!(LabelText::from_str("0123456789abcdef0123456789abcdefg").is_none());
}

#[test]
fn label_capacity_counts_bytes() {
    // sixteen characters of two bytes each fill a label, one more does not fit
    let sixteen = "\u{e9}".repeat(16);
    assert_eq!(LabelText::from_str(&sixteen).unwrap().len(), 32);
    let seventeen = "\u{e9}".repeat(17);
    assert!(LabelText::from_str(&seventeen).is_none());
}

#[test]
fn tenths_of_positive_numbers() {
    assert_eq!(LabelText::from_tenths(235).as_str(), "23.5");
    assert_eq!(LabelText::from_tenths(4150).as_str(), "415.0");
    assert_eq!(LabelText::from_tenths(10132).as_str(), "1013.2");
    assert_eq!(LabelText::from_tenths(7).as_str(), "0.7");
    assert_eq!(LabelText::from_tenths(10).as_str(), "1.0");
    assert_eq!(LabelText::from_tenths(100).as_str(), "10.0");
    assert_eq!(LabelText::from_tenths(99).as_str(), "9.9");
}

#[test]
fn tenths_of_zero() {
    assert_eq!(LabelText::from_tenths(0).as_str(), "0.0");
    assert_eq!(LabelText::from_tenths(0).len(), 3);
}

#[test]
fn tenths_of_negative_numbers() {
    assert_eq!(LabelText::from_tenths(-4).as_str(), "-0.4");
    assert_eq!(LabelText::from_tenths(-125).as_str(), "-12.5");
    assert_eq!(LabelText::from_tenths(-1000).as_str(), "-100.0");
}

#[test]
fn tenths_at_the_ends_of_the_range() {
    assert_eq!(LabelText::from_tenths(i32::MAX).as_str(), "214748364.7");
    assert_eq!(LabelText::from_tenths(i32::MIN).as_str(), "-214748364.8");
    assert_eq!(LabelText::from_tenths(i32::MIN).len(), 12);
}

#[test]
fn tenths_agree_with_decimal_formatting() {
    for tenths in (-2000..2000).chain([12_345, -98_765, 1_000_000]) {
        let expected = format!(
            "{}{}.{}",
            if tenths < 0 { "-" } else { "" },
            (tenths as i64).abs() / 10,
            (tenths as i64).abs() % 10
        );
        assert_eq!(LabelText::from_tenths(tenths).as_str(), expected);
    }
}
