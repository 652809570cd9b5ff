use plum::error::ValueError;
use plum::text::render_value;
use plum::value::Value;

#[test]
fn int_add_wraps() {
    assert_eq!(Value::Int(i32::MAX).add(Value::Int(1)), Value::Int(i32::MIN));
    assert_eq!(Value::Int(3).add(Value::Int(4)), Value::Int(7));
}

#[test]
fn int_sub_wraps() {
    assert_eq!(Value::Int(i32::MIN).sub(Value::Int(1)), Value::Int(i32::MAX));
    assert_eq!(Value::Int(3).sub(Value::Int(5)), Value::Int(-2));
}

#[test]
fn int_mul_wraps() {
    assert_eq!(Value::Int(i32::MAX).mul(Value::Int(2)), Value::Int(-2));
    assert_eq!(Value::Int(-3).mul(Value::Int(7)), Value::Int(-21));
}

#[test]
fn int_rem_truncated() {
    assert_eq!(Value::Int(7).rem(Value::Int(3)), Ok(Value::Int(1)));
    assert_eq!(Value::Int(-7).rem(Value::Int(3)), Ok(Value::Int(-1)));
    assert_eq!(Value::Int(7).rem(Value::Int(-3)), Ok(Value::Int(1)));
    assert_eq!(Value::Int(i32::MIN).rem(Value::Int(-1)), Ok(Value::Int(0)));
}

#[test]
fn int_rem_by_zero_errors() {
    assert_eq!(Value::Int(7).rem(Value::Int(0)), Err(ValueError::FloatPointException()));
}

#[test]
fn div_by_zero_errors() {
    assert_eq!(Value::Int(10).div(Value::Int(0)), Err(ValueError::FloatPointException()));
    assert_eq!(
        Value::Num(1.5f64.to_bits()).div(Value::Int(0)),
        Err(ValueError::FloatPointException())
    );
    assert_eq!(
        Value::Int(10).div(Value::Num(0.0f64.to_bits())),
        Err(ValueError::FloatPointException())
    );
    assert_eq!(
        Value::Int(10).div(Value::Num((-0.0f64).to_bits())),
        Err(ValueError::FloatPointException())
    );
}

#[test]
fn div_of_integers_yields_float() {
    assert_eq!(Value::Int(10).div(Value::Int(4)), Ok(Value::Num(2.5f64.to_bits())));
    assert_eq!(Value::Int(1).div(Value::Int(2)), Ok(Value::Num(0.5f64.to_bits())));
}

#[test]
fn div_matches_native_floats() {
    let a = 7.75f64;
    let b = -0.125f64;
    assert_eq!(
        Value::Num(a.to_bits()).div(Value::Num(b.to_bits())),
        Ok(Value::Num((a / b).to_bits()))
    );
}

#[test]
fn promotion_rule_add() {
    assert_eq!(
        Value::Int(1).add(Value::Num(0.5f64.to_bits())),
        Value::Num(1.5f64.to_bits())
    );
    assert_eq!(
        Value::Num(1.5f64.to_bits()).add(Value::Num(2.25f64.to_bits())),
        Value::Num(3.75f64.to_bits())
    );
}

#[test]
fn float_sub_and_mul_match_native() {
    assert_eq!(
        Value::Num(1.5f64.to_bits()).sub(Value::Num(0.25f64.to_bits())),
        Value::Num(1.25f64.to_bits())
    );
    assert_eq!(
        Value::Num(1.5f64.to_bits()).mul(Value::Num(2.0f64.to_bits())),
        Value::Num(3.0f64.to_bits())
    );
    let a = 0.1f64;
    let b = 0.2f64;
    assert_eq!(
        Value::Num(a.to_bits()).sub(Value::Num(b.to_bits())),
        Value::Num((a - b).to_bits())
    );
    assert_eq!(
        Value::Num(a.to_bits()).mul(Value::Num(b.to_bits())),
        Value::Num((a * b).to_bits())
    );
}

#[test]
fn float_rem_matches_native() {
    let a = 7.5f64;
    let b = 2.0f64;
    assert_eq!(
        Value::Num(a.to_bits()).rem(Value::Num(b.to_bits())),
        Ok(Value::Num((a % b).to_bits()))
    );
}

#[test]
fn idiv_truncates_toward_zero() {
    assert_eq!(Value::Int(7).idiv(Value::Int(2)), Ok(Value::Int(3)));
    assert_eq!(Value::Int(-7).idiv(Value::Int(2)), Ok(Value::Int(-3)));
    assert_eq!(Value::Int(0).idiv(Value::Int(0)), Err(ValueError::FloatPointException()));
}

#[test]
fn int_pow() {
    assert_eq!(Value::Int(2).pow(Value::Int(10)), Ok(Value::Int(1024)));
    assert_eq!(Value::Int(5).pow(Value::Int(0)), Ok(Value::Int(1)));
    assert_eq!(Value::Int(2).pow(Value::Int(31)), Ok(Value::Int(i32::MIN)));
}

#[test]
fn int_pow_negative_exponent_errors() {
    assert_eq!(Value::Int(2).pow(Value::Int(-1)), Err(ValueError::NegativeExponent()));
}

#[test]
fn float_pow_exact_cases() {
    assert_eq!(
        Value::Int(25).pow(Value::Num(0.5f64.to_bits())),
        Ok(Value::Num(5.0f64.to_bits()))
    );
    assert_eq!(
        Value::Num(4.0f64.to_bits()).pow(Value::Num(0.5f64.to_bits())),
        Ok(Value::Num(2.0f64.to_bits()))
    );
    assert_eq!(
        Value::Num(2.0f64.to_bits()).pow(Value::Int(3)),
        Ok(Value::Num(8.0f64.to_bits()))
    );
    assert_eq!(
        Value::Num(0.5f64.to_bits()).pow(Value::Int(2)),
        Ok(Value::Num(0.25f64.to_bits()))
    );
}

#[test]
fn idiv_saturates_and_maps_nan_to_zero() {
    // 1e10 does not fit an i32: the truncation clamps, as `as` casts do
    assert_eq!(
        Value::Num(1.0e10f64.to_bits()).idiv(Value::Int(1)),
        Ok(Value::Int(i32::MAX))
    );
    assert_eq!(
        Value::Num((-1.0e10f64).to_bits()).idiv(Value::Int(1)),
        Ok(Value::Int(i32::MIN))
    );
    assert_eq!(
        Value::Num(f64::NAN.to_bits()).idiv(Value::Int(1)),
        Ok(Value::Int(0))
    );
}

#[test]
fn truthiness() {
    assert!(!Value::Int(0).truthy());
    assert!(!Value::Num(0.0f64.to_bits()).truthy());
    assert!(!Value::Num((-0.0f64).to_bits()).truthy());
    assert!(Value::Int(-1).truthy());
    assert!(Value::Num(0.0625f64.to_bits()).truthy());
}

#[test]
fn render_floats() {
    assert_eq!(render_value(Value::Num(0.5f64.to_bits())), "0.5");
    assert_eq!(render_value(Value::Num(2.5f64.to_bits())), "2.5");
    assert_eq!(render_value(Value::Num(5.0f64.to_bits())), "5");
    assert_eq!(render_value(Value::Num((-1.5f64).to_bits())), "-1.5");
}

#[test]
fn render_integers() {
    assert_eq!(render_value(Value::Int(0)), "0");
    assert_eq!(render_value(Value::Int(30)), "30");
    assert_eq!(render_value(Value::Int(-42)), "-42");
    assert_eq!(render_value(Value::Int(i32::MIN)), "-2147483648");
    assert_eq!(render_value(Value::Int(i32::MAX)), "2147483647");
}
