use guitar_tab::text::{decimal_text, push_decimal};

#[test]
fn decimal_of_small_and_large_numbers() {
    assert_eq!(decimal_text(0), "0");
    assert_eq!(decimal_text(7), "7");
    assert_eq!(decimal_text(10), "10");
    assert_eq!(decimal_text(255), "255");
    assert_eq!(decimal_text(u64::MAX), "18446744073709551615");
}

#[test]
fn push_decimal_appends() {
    let mut s = String::from("fret ");
    push_decimal(&mut s, 12);
    assert_eq!(s, "fret 12");
}
