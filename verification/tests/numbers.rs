use gpui_net_shell::components::common::{finite_f32, nonnegative_usize, positive_usize};
use gpui_net_shell::number::{
    f64_at_least_half, f64_at_least_zero, f64_exact_u64, f64_in_f32_range,
    f64_integer_at_least_one, f64_is_finite, f64_is_integral, f64_is_nan, f64_is_zero,
    f64_nonzero, f64_positive, f64_saturating_u64, f64_within_2_64,
};

fn samples() -> Vec<f64> {
    let mut values = vec![
        0.0,
        -0.0,
        0.25,
        0.5,
        0.49999999999999994,
        1.0,
        1.5,
        2.0,
        3.0,
        7.0,
        10.0,
        65535.0,
        65536.0,
        1e15,
        4503599627370496.5,
        9007199254740993.0,
        18446744073709549568.0,
        18446744073709551616.0,
        1e300,
        f64::MIN_POSITIVE,
        5e-324,
        f32::MAX as f64,
        f32::MIN as f64,
        (f32::MAX as f64) * 1.0000001,
        f64::MAX,
        f64::INFINITY,
        f64::NEG_INFINITY,
        f64::NAN,
        -f64::NAN,
    ];
    let negatives: Vec<f64> = values.iter().map(|v| -v).collect();
    values.extend(negatives);
    values
}

#[test]
fn number_predicates_agree_with_binary64_arithmetic() {
    for value in samples() {
        let bits = value.to_bits();
        assert_eq!(f64_is_nan(bits), value.is_nan(), "{value}");
        assert_eq!(f64_is_finite(bits), value.is_finite(), "{value}");
        assert_eq!(f64_is_zero(bits), value == 0.0, "{value}");
        assert_eq!(f64_at_least_zero(bits), value >= 0.0, "{value}");
        assert_eq!(f64_positive(bits), value > 0.0, "{value}");
        assert_eq!(f64_nonzero(bits), value != 0.0, "{value}");
        assert_eq!(f64_at_least_half(bits), value >= 0.5, "{value}");
        assert_eq!(
            f64_in_f32_range(bits),
            value.is_finite() && value >= f32::MIN as f64 && value <= f32::MAX as f64,
            "{value}"
        );
        assert_eq!(f64_saturating_u64(bits), value as u64, "{value}");
        assert_eq!(
            f64_within_2_64(bits),
            value.is_finite() && value.abs() <= u64::MAX as f64,
            "{value}"
        );
        assert_eq!(
            f64_is_integral(bits),
            value.is_finite() && value.fract() == 0.0,
            "{value}"
        );
        let exact = value.is_finite()
            && value >= 0.0
            && value.fract() == 0.0
            && value < u64::MAX as f64;
        assert_eq!(
            f64_exact_u64(bits),
            if exact { Some(value as u64) } else { None },
            "{value}"
        );
        assert_eq!(
            f64_integer_at_least_one(bits),
            value.is_finite() && value.fract() == 0.0 && value >= 1.0,
            "{value}"
        );
    }
}

#[test]
fn columns_rejects_values_the_component_would_clamp() {
    assert!(positive_usize(10.0f64.to_bits(), "DescriptionList.columns").is_ok());
    assert!(positive_usize(0.0f64.to_bits(), "DescriptionList.columns").is_err());
}

#[test]
fn positive_counts_reject_zero_fractions_and_overflow() {
    assert_eq!(positive_usize(3.0f64.to_bits(), "total_pages"), Ok(3));
    assert_eq!(
        positive_usize(0.0f64.to_bits(), "total_pages"),
        Err("total_pages expects a positive integer".to_string())
    );
    assert!(positive_usize(1.5f64.to_bits(), "total_pages").is_err());
    assert!(positive_usize(f64::INFINITY.to_bits(), "total_pages").is_err());
    assert!(positive_usize((u64::MAX as f64).to_bits(), "total_pages").is_err());
}

#[test]
fn nonnegative_counts_accept_zero_and_reject_the_rest() {
    assert_eq!(nonnegative_usize(7.0f64.to_bits(), "Badge.count"), Ok(7));
    assert_eq!(nonnegative_usize(0.0f64.to_bits(), "Badge.count"), Ok(0));
    assert_eq!(nonnegative_usize((-0.0f64).to_bits(), "Badge.count"), Ok(0));
    assert_eq!(
        nonnegative_usize(1.5f64.to_bits(), "Badge.count"),
        Err("Badge.count expects a non-negative integer".to_string())
    );
    assert!(nonnegative_usize((-1.0f64).to_bits(), "Badge.count").is_err());
    assert!(nonnegative_usize((usize::MAX as f64).to_bits(), "Badge.count").is_err());
    assert!(nonnegative_usize(f64::INFINITY.to_bits(), "Badge.count").is_err());
}

#[test]
fn finite_f32_keeps_values_in_range() {
    assert_eq!(finite_f32(1.5f64.to_bits(), "x"), Ok(1.5f64.to_bits()));
    assert_eq!(
        finite_f32(1e40f64.to_bits(), "x"),
        Err("x expects a finite number representable as f32".to_string())
    );
    assert!(finite_f32(f64::NAN.to_bits(), "x").is_err());
}
