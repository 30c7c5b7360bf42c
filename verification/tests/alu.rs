use emuchip::alu::{difference, left_shift, right_shift, sum};

#[test]
fn sum_reports_carry() {
    assert_eq!(sum(0xFF, 0x01), (0x00, 1));
    assert_eq!(sum(0x01, 0x01), (0x02, 0));
    assert_eq!(sum(200, 100), (44, 1));
    assert_eq!(sum(0xFF, 0xFF), (0xFE, 1));
    assert_eq!(sum(0, 0), (0, 0));
    assert_eq!(sum(0xF0, 0x0F), (0xFF, 0));
}

#[test]
fn difference_reports_no_borrow() {
    assert_eq!(difference(0x01, 0x02), (0xFF, 0));
    assert_eq!(difference(5, 2), (3, 1));
    assert_eq!(difference(7, 7), (0, 1));
    assert_eq!(difference(0, 0xFF), (1, 0));
}

#[test]
fn right_shift_reports_low_bit() {
    assert_eq!(right_shift(0x03), (1, 1));
    assert_eq!(right_shift(0x02), (1, 0));
    assert_eq!(right_shift(0xFF), (0x7F, 1));
    assert_eq!(right_shift(0), (0, 0));
}

#[test]
fn left_shift_reports_high_bit() {
    assert_eq!(left_shift(0x81), (0x02, 1));
    assert_eq!(left_shift(0x40), (0x80, 0));
    assert_eq!(left_shift(0xFF), (0xFE, 1));
    assert_eq!(left_shift(0), (0, 0));
}
