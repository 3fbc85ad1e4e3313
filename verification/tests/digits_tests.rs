use nushell_runner::i32_to_dec;
use nushell_runner::i64_to_dec;
use nushell_runner::u64_to_dec;

#[test]
fn renders_zero() {
    assert_eq!(u64_to_dec(0), "0");
}

#[test]
fn renders_single_digit() {
    assert_eq!(u64_to_dec(7), "7");
}

#[test]
fn renders_round_number() {
    assert_eq!(u64_to_dec(1000), "1000");
}

#[test]
fn renders_large_number() {
    assert_eq!(u64_to_dec(1234567890), "1234567890");
}

#[test]
fn renders_u64_max() {
    assert_eq!(u64_to_dec(u64::MAX), "18446744073709551615");
}

#[test]
fn renders_negative() {
    assert_eq!(i64_to_dec(-5), "-5");
}

#[test]
fn renders_i64_min() {
    assert_eq!(i64_to_dec(i64::MIN), "-9223372036854775808");
}

#[test]
fn renders_i64_zero() {
    assert_eq!(i64_to_dec(0), "0");
}

#[test]
fn renders_i32_min() {
    assert_eq!(i32_to_dec(i32::MIN), "-2147483648");
}

#[test]
fn renders_i32_positive() {
    assert_eq!(i32_to_dec(42), "42");
}
