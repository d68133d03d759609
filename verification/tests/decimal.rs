use profile_counter::decimal::decimal;

#[test]
fn decimal_of_zero_is_one_digit() {
    assert_eq!(decimal(0), "0");
}

#[test]
fn decimal_of_single_digits() {
    assert_eq!(decimal(1), "1");
    assert_eq!(decimal(7), "7");
    assert_eq!(decimal(9), "9");
}

#[test]
fn decimal_keeps_inner_and_trailing_zeros() {
    assert_eq!(decimal(10), "10");
    assert_eq!(decimal(120), "120");
    assert_eq!(decimal(1005), "1005");
    assert_eq!(decimal(1_000_000), "1000000");
}

#[test]
fn decimal_of_negative_numbers_has_a_sign() {
    assert_eq!(decimal(-1), "-1");
    assert_eq!(decimal(-42), "-42");
    assert_eq!(decimal(-100), "-100");
}

#[test]
fn decimal_of_the_extremes() {
    assert_eq!(decimal(i32::MAX), "2147483647");
    assert_eq!(decimal(i32::MIN), "-2147483648");
}

#[test]
fn decimal_agrees_with_the_standard_notation() {
    let mut n: i32 = -5000;
    while n <= 5000 {
        assert_eq!(decimal(n), n.to_string());
        n += 1;
    }
    let mut n: i32 = i32::MIN;
    while n < i32::MAX - 7_654_321 {
        assert_eq!(decimal(n), n.to_string());
        n += 7_654_321;
    }
}
