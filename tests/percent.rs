use space_core::percent::{percent_text, percentage};

#[test]
fn percentage_rounds_down_and_zero_total_is_complete() {
    assert_eq!(percentage(0, 0), 100);
    assert_eq!(percentage(0, 7), 0);
    assert_eq!(percentage(2, 3), 66);
    assert_eq!(percentage(7, 7), 100);
    assert_eq!(percentage(u32::MAX, u32::MAX), 100);
}

#[test]
fn percent_text_writes_decimal() {
    assert_eq!(percent_text(0), "0%");
    assert_eq!(percent_text(9), "9%");
    assert_eq!(percent_text(42), "42%");
    assert_eq!(percent_text(100), "100%");
    assert_eq!(percent_text(4294967295), "4294967295%");
}
