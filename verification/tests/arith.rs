use pangi::arith::{
    safe_add, safe_add_i64, safe_div, safe_div_i64, safe_mul, safe_percentage, safe_sub,
    safe_sub_i64, ArithError,
};

#[test]
fn checked_sums_and_differences() {
    assert_eq!(safe_add(u64::MAX - 1, 1), Ok(u64::MAX));
    assert_eq!(safe_add(u64::MAX, 1), Err(ArithError::Overflow));
    assert_eq!(safe_sub(5, 5), Ok(0));
    assert_eq!(safe_sub(5, 6), Err(ArithError::Underflow));
}

#[test]
fn checked_products_and_quotients() {
    assert_eq!(safe_mul(u64::MAX, 1), Ok(u64::MAX));
    assert_eq!(safe_mul(1 << 32, 1 << 32), Err(ArithError::Overflow));
    assert_eq!(safe_mul(0, u64::MAX), Ok(0));
    assert_eq!(safe_div(7, 2), Ok(3));
    assert_eq!(safe_div(0, 9), Ok(0));
    assert_eq!(safe_div(7, 0), Err(ArithError::DivisionByZero));
}

#[test]
fn basis_point_shares_round_down() {
    assert_eq!(safe_percentage(13_698_630, 1500), Ok(2_054_794));
    assert_eq!(safe_percentage(1_000_000_000, 200), Ok(20_000_000));
    assert_eq!(safe_percentage(9_999, 1), Ok(0));
    assert_eq!(safe_percentage(10_000, 1), Ok(1));
    assert_eq!(safe_percentage(77, 0), Ok(0));
    assert_eq!(safe_percentage(u64::MAX, 1), Ok(u64::MAX / 10000));
    assert_eq!(safe_percentage(u64::MAX, 2), Err(ArithError::Overflow));
    assert_eq!(safe_percentage(u64::MAX / 1500 + 1, 1500), Err(ArithError::Overflow));
    assert_eq!(safe_percentage(u64::MAX / 1500, 1500), Ok(1_844_674_407_370_955));
}

#[test]
fn checked_timestamp_arithmetic() {
    assert_eq!(safe_add_i64(i64::MAX - 60, 60), Ok(i64::MAX));
    assert_eq!(safe_add_i64(i64::MAX - 59, 60), Err(ArithError::Overflow));
    assert_eq!(safe_add_i64(i64::MIN, -1), Err(ArithError::Overflow));
    assert_eq!(safe_sub_i64(10, 25), Ok(-15));
    assert_eq!(safe_sub_i64(i64::MAX, -1), Err(ArithError::Underflow));
    assert_eq!(safe_sub_i64(i64::MIN, 1), Err(ArithError::Underflow));
    assert_eq!(safe_sub_i64(i64::MIN, 0), Ok(i64::MIN));
}

#[test]
fn signed_quotients_round_toward_zero() {
    assert_eq!(safe_div_i64(4_320_000, 86_400), Ok(50));
    assert_eq!(safe_div_i64(86_399, 86_400), Ok(0));
    assert_eq!(safe_div_i64(-7, 2), Ok(-3));
    assert_eq!(safe_div_i64(7, -2), Ok(-3));
    assert_eq!(safe_div_i64(-7, -2), Ok(3));
    assert_eq!(safe_div_i64(0, -5), Ok(0));
    assert_eq!(safe_div_i64(1, 0), Err(ArithError::DivisionByZero));
    assert_eq!(safe_div_i64(i64::MIN, -1), Err(ArithError::Underflow));
    assert_eq!(safe_div_i64(i64::MIN, 1), Ok(i64::MIN));
}
