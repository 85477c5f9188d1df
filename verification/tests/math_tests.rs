use vault_market::math::{
    mul_div, safe_add_i128, safe_add_u32, safe_div, safe_mul, safe_pow, safe_sub_i128, Rounding,
};

#[test]
fn safe_add_u32_adds() {
    assert_eq!(safe_add_u32(7, 0), 7);
    assert_eq!(safe_add_u32(2, 3), 5);
    assert_eq!(safe_add_u32(u32::MAX - 1, 1), u32::MAX);
}

#[test]
fn safe_add_i128_adds() {
    assert_eq!(safe_add_i128(2, 3), 5);
    assert_eq!(safe_add_i128(-2, 3), 1);
    assert_eq!(safe_add_i128(i128::MAX - 1, 1), i128::MAX);
}

#[test]
fn safe_sub_i128_subtracts() {
    assert_eq!(safe_sub_i128(2, 3), -1);
    assert_eq!(safe_sub_i128(i128::MIN + 1, 1), i128::MIN);
}

#[test]
fn safe_mul_multiplies() {
    assert_eq!(safe_mul(6, 7), 42);
    assert_eq!(safe_mul(-6, 7), -42);
    assert_eq!(safe_mul(0, i128::MAX), 0);
}

#[test]
fn safe_div_truncates_toward_zero() {
    assert_eq!(safe_div(7, 2), 3);
    assert_eq!(safe_div(7, -2), -3);
    assert_eq!(safe_div(-7, 2), -3);
    assert_eq!(safe_div(-7, -2), 3);
    assert_eq!(safe_div(0, 5), 0);
}

#[test]
fn safe_pow_powers() {
    assert_eq!(safe_pow(10, 0), 1);
    assert_eq!(safe_pow(10, 3), 1000);
    assert_eq!(safe_pow(-2, 3), -8);
    assert_eq!(safe_pow(0, 5), 0);
    assert_eq!(safe_pow(0, 0), 1);
    assert_eq!(safe_pow(2, 126), 1i128 << 126);
}

#[test]
fn mul_div_rounds_as_directed() {
    // 7 * 3 = 21; 21 / 4 = 5.25
    assert_eq!(mul_div(7, 3, 4, Rounding::Floor), 5);
    assert_eq!(mul_div(7, 3, 4, Rounding::Ceil), 6);
    assert_eq!(mul_div(7, 3, 4, Rounding::Trunc), 5);
    assert_eq!(mul_div(7, 3, 4, Rounding::Expand), 6);
}

#[test]
fn mul_div_exact_division_ignores_rounding() {
    assert_eq!(mul_div(6, 2, 4, Rounding::Floor), 3);
    assert_eq!(mul_div(6, 2, 4, Rounding::Ceil), 3);
    assert_eq!(mul_div(6, 2, 4, Rounding::Trunc), 3);
    assert_eq!(mul_div(6, 2, 4, Rounding::Expand), 3);
}

#[test]
fn mul_div_negative_denominator() {
    // 21 / -4 = -5.25
    assert_eq!(mul_div(7, 3, -4, Rounding::Floor), -6);
    assert_eq!(mul_div(7, 3, -4, Rounding::Ceil), -5);
    assert_eq!(mul_div(7, 3, -4, Rounding::Trunc), -5);
    assert_eq!(mul_div(7, 3, -4, Rounding::Expand), -6);
}

#[test]
fn mul_div_non_positive_factor_yields_zero() {
    assert_eq!(mul_div(0, 3, 4, Rounding::Ceil), 0);
    assert_eq!(mul_div(-7, 3, 4, Rounding::Ceil), 0);
    assert_eq!(mul_div(7, -3, 4, Rounding::Expand), 0);
    assert_eq!(mul_div(7, 0, 4, Rounding::Floor), 0);
}
