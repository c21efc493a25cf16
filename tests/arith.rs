use rlib::{add, divide, exponent, multiply};

#[test]
fn test_add() {
    assert_eq!(add(2, 3), 5);
    assert_eq!(add(-1, 1), 0);
    assert_eq!(add(0, 0), 0);
}

#[test]
fn test_multiply() {
    assert_eq!(multiply(2, 3), 6);
    assert_eq!(multiply(-2, 3), -6);
    assert_eq!(multiply(0, 5), 0);
}

#[test]
fn test_divide() {
    assert_eq!(divide(6, 2).unwrap(), 3);
    assert_eq!(divide(10, 5).unwrap(), 2);
    assert_eq!(divide(-10, 2).unwrap(), -5);
}

#[test]
fn test_divide_by_zero() {
    let result = divide(10, 0);
    assert!(result.is_err());
    assert_eq!(result.unwrap_err(), "Division by zero");
}

#[test]
fn test_exponent() {
    assert_eq!(exponent(2, 3), 8);
    assert_eq!(exponent(5, 2), 25);
    assert_eq!(exponent(10, 0), 1);
    assert_eq!(exponent(3, 4), 81);
}

#[test]
fn add_wraps_at_the_bounds() {
    assert_eq!(add(i32::MAX, 1), i32::MIN);
    assert_eq!(add(i32::MIN, -1), i32::MAX);
}

#[test]
fn multiply_wraps_at_the_bounds() {
    assert_eq!(multiply(i32::MAX, 2), -2);
    assert_eq!(multiply(65536, 65536), 0);
}

#[test]
fn divide_truncates_toward_zero() {
    assert_eq!(divide(7, 2).unwrap(), 3);
    assert_eq!(divide(-7, 2).unwrap(), -3);
    assert_eq!(divide(7, -2).unwrap(), -3);
    assert_eq!(divide(-7, -2).unwrap(), 3);
}

#[test]
fn divide_min_by_minus_one_wraps() {
    assert_eq!(divide(i32::MIN, -1).unwrap(), i32::MIN);
}

#[test]
fn divide_by_zero_for_any_dividend() {
    for a in [0, 1, -1, i32::MIN, i32::MAX] {
        assert_eq!(divide(a, 0).unwrap_err(), "Division by zero");
    }
}

#[test]
fn exponent_wraps_on_overflow() {
    assert_eq!(exponent(2, 31), i32::MIN);
    assert_eq!(exponent(2, 32), 0);
    assert_eq!(exponent(3, 21), 3i32.wrapping_pow(21));
    assert_eq!(exponent(-2, 3), -8);
    assert_eq!(exponent(0, 0), 1);
}

#[test]
fn exponent_reads_negative_exponent_as_unsigned() {
    assert_eq!(exponent(1, -1), 1);
    assert_eq!(exponent(-1, -1), -1);
    assert_eq!(exponent(2, -1), 2i32.wrapping_pow(u32::MAX));
}

#[test]
fn repeated_calls_agree() {
    assert_eq!(add(4, 9), add(4, 9));
    assert_eq!(multiply(-3, 7), multiply(-3, 7));
    assert_eq!(divide(9, 4), divide(9, 4));
    assert_eq!(exponent(7, 5), exponent(7, 5));
}
