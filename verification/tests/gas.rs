use aquarium::numeric::{apply_ratio_ceil, fee_amount, parse_u64, Ratio};

#[test]
fn adjustment_exact_figure() {
    // gas_used = 100000 at adjustment 1.25 gives exactly 125000
    let adj = Ratio::new(125, 100);
    assert_eq!(apply_ratio_ceil(100000, &adj), Some(125000));
}

#[test]
fn adjustment_rounds_up() {
    // 3 * 1.25 = 3.75, which rounds up to 4
    let adj = Ratio::new(125, 100);
    assert_eq!(apply_ratio_ceil(3, &adj), Some(4));
}

#[test]
fn adjustment_identity_at_one() {
    let one = Ratio::new(1, 1);
    assert_eq!(apply_ratio_ceil(123456, &one), Some(123456));
}

#[test]
fn adjustment_strictly_increases_when_doubled() {
    let one = Ratio::new(1, 1);
    let two = Ratio::new(2, 1);
    let low = apply_ratio_ceil(100000, &one).unwrap();
    let high = apply_ratio_ceil(100000, &two).unwrap();
    assert_eq!(low, 100000);
    assert_eq!(high, 200000);
    assert!(low < high);
}

#[test]
fn adjustment_overflow_reports_none() {
    let two = Ratio::new(2, 1);
    assert_eq!(apply_ratio_ceil(u64::MAX, &two), None);
}

#[test]
fn fee_rounds_up() {
    // 125000 gas at price 0.00125 costs 156.25, so the fee is 157
    let price = Ratio::new(125, 100000);
    assert_eq!(fee_amount(125000, &price), 157u128);
}

#[test]
fn fee_of_zero_gas_is_zero() {
    let price = Ratio::new(125, 100000);
    assert_eq!(fee_amount(0, &price), 0u128);
}

#[test]
fn parse_decimal_u64() {
    assert_eq!(parse_u64("0"), Some(0));
    assert_eq!(parse_u64("123"), Some(123));
    assert_eq!(parse_u64("18446744073709551615"), Some(u64::MAX));
    assert_eq!(parse_u64("18446744073709551616"), None);
    assert_eq!(parse_u64(""), None);
    assert_eq!(parse_u64("12a"), None);
    assert_eq!(parse_u64("-5"), None);
    assert_eq!(parse_u64(" 5"), None);
}

#[test]
fn parse_accepts_leading_zeros() {
    assert_eq!(parse_u64("007"), Some(7));
}
