//! The numeric value model: a tagged union of a 32-bit signed integer and
//! a double-precision float (carried as its bit pattern), with promotion
//! and error-signalling arithmetic.
//!
//! One rule governs every promoting operator: if both operands are
//! integers, the integer form of the operator applies and yields an
//! integer; otherwise both operands are promoted to doubles and the float
//! form applies, yielding a float. Integer arithmetic wraps on overflow.
//! Division is special-cased: a divisor that is exactly zero (integer 0,
//! +0.0 or -0.0) raises `FloatPointException`, and any other division
//! yields a float, so no infinity or NaN is ever produced by dividing by
//! zero; modulo by integer 0 raises the same error. An integer power with
//! a negative exponent raises `NegativeExponent`.
use vstd::prelude::*;

use crate::error::ValueError;
use crate::error::ValueResult;
use crate::floats::bits_of_int;
use crate::floats::float_add;
use crate::floats::float_add_of;
use crate::floats::float_div;
use crate::floats::float_div_of;
use crate::floats::float_is_zero;
use crate::floats::float_mul;
use crate::floats::float_mul_of;
use crate::floats::float_of_int;
use crate::floats::float_pow;
use crate::floats::float_pow_model;
use crate::floats::float_rem;
use crate::floats::float_rem_of;
use crate::floats::float_sub;
use crate::floats::float_sub_of;
use crate::floats::float_trunc;
use crate::floats::is_zero_bits;
use crate::floats::trunc_of;

verus! {

/// The integer variant's underlying machine type.
pub type PlumInt = i32;

/// A runtime value: an integer, or a double carried as its IEEE-754 bit
/// pattern.
#[derive(Clone, Copy, PartialEq, Eq, Structural, Debug)]
pub enum Value {
    Int(i32),
    Num(u64),
}

/// The double bit pattern a value promotes to: an integer is converted
/// exactly, a float passes through.
pub open spec fn promote_bits(v: Value) -> u64 {
    match v {
        Value::Int(i) => bits_of_int(i),
        Value::Num(b) => b,
    }
}

/// Whether a value is exactly zero: integer 0, +0.0 or -0.0.
pub open spec fn is_zero_value(v: Value) -> bool {
    match v {
        Value::Int(i) => i == 0,
        Value::Num(b) => is_zero_bits(b),
    }
}

/// Truthiness: every value but an exact zero counts as true.
pub open spec fn truthy_spec(v: Value) -> bool {
    !is_zero_value(v)
}

/// What addition returns: wrapping integer addition, or float addition
/// after promotion.
pub open spec fn add_spec(a: Value, b: Value) -> Value {
    match (a, b) {
        (Value::Int(x), Value::Int(y)) => Value::Int(vstd::wrapping::i32_specs::wrapping_add(x, y)),
        _ => Value::Num(float_add_of(promote_bits(a), promote_bits(b))),
    }
}

/// What subtraction returns: wrapping integer subtraction, or float
/// subtraction after promotion.
pub open spec fn sub_spec(a: Value, b: Value) -> Value {
    match (a, b) {
        (Value::Int(x), Value::Int(y)) => Value::Int(vstd::wrapping::i32_specs::wrapping_sub(x, y)),
        _ => Value::Num(float_sub_of(promote_bits(a), promote_bits(b))),
    }
}

/// What multiplication returns: wrapping integer multiplication, or float
/// multiplication after promotion.
pub open spec fn mul_spec(a: Value, b: Value) -> Value {
    match (a, b) {
        (Value::Int(x), Value::Int(y)) => Value::Int(vstd::wrapping::i32_specs::wrapping_mul(x, y)),
        _ => Value::Num(float_mul_of(promote_bits(a), promote_bits(b))),
    }
}

/// The truncated (sign-of-dividend) remainder of two integers, the form
/// the `%` operator computes; `y` must not be 0. The magnitude is
/// `|x| % |y|`, so `i32::MIN % -1` is 0 and no overflow arises.
pub open spec fn rem_trunc(x: int, y: int) -> int {
    let ax = if x >= 0 {
        x
    } else {
        -x
    };
    let ay = if y >= 0 {
        y
    } else {
        -y
    };
    if x >= 0 {
        ax % ay
    } else {
        -(ax % ay)
    }
}

/// What modulo returns: the truncated integer remainder, erroring on an
/// integer divisor of 0, or the float `fmod` after promotion.
pub open spec fn rem_spec(a: Value, b: Value) -> Result<Value, ValueError> {
    match (a, b) {
        (Value::Int(x), Value::Int(y)) => if y == 0 {
            Err(ValueError::FloatPointException())
        } else {
            Ok(Value::Int(rem_trunc(x as int, y as int) as i32))
        },
        _ => Ok(Value::Num(float_rem_of(promote_bits(a), promote_bits(b)))),
    }
}

/// What division returns: an error on an exact-zero divisor of either
/// variant, otherwise always a float, even for two integer operands.
pub open spec fn div_spec(a: Value, b: Value) -> Result<Value, ValueError> {
    if is_zero_value(b) {
        Err(ValueError::FloatPointException())
    } else {
        Ok(Value::Num(float_div_of(promote_bits(a), promote_bits(b))))
    }
}

/// What integer division returns: the plain division, then a float result
/// truncated back to an integer (an integer result passes through).
pub open spec fn idiv_spec(a: Value, b: Value) -> Result<Value, ValueError> {
    match div_spec(a, b) {
        Err(e) => Err(e),
        Ok(Value::Num(x)) => Ok(Value::Int(trunc_of(x))),
        Ok(Value::Int(i)) => Ok(Value::Int(i)),
    }
}

/// The wrapping integer power: `n` successive wrapping multiplications.
pub open spec fn pow_wrap(x: i32, n: nat) -> i32
    decreases n,
{
    if n == 0 {
        1
    } else {
        vstd::wrapping::i32_specs::wrapping_mul(pow_wrap(x, (n - 1) as nat), x)
    }
}

/// What the power operator returns: the wrapping integer power when both
/// operands are integers (a negative exponent errors), or the float power
/// after promotion.
pub open spec fn pow_spec(a: Value, b: Value) -> Result<Value, ValueError> {
    match (a, b) {
        (Value::Int(x), Value::Int(y)) => if y < 0 {
            Err(ValueError::NegativeExponent())
        } else {
            Ok(Value::Int(pow_wrap(x, y as nat)))
        },
        _ => Ok(Value::Num(float_pow_model(promote_bits(a), promote_bits(b)))),
    }
}

/// Division by an exact zero — integer 0, +0.0 or -0.0 — always fails
/// with the division-by-zero error, whatever the dividend, and division
/// by anything else always returns a value; no infinity or NaN is ever
/// produced by dividing by zero.
pub proof fn lemma_div_by_zero(a: Value, b: Value)
    ensures
        is_zero_value(b) <==> div_spec(a, b) == Err::<Value, ValueError>(
            ValueError::FloatPointException(),
        ),
        !is_zero_value(b) ==> div_spec(a, b) is Ok,
{
}

impl Value {
    /// The double bit pattern this value promotes to.
    pub fn promote(self) -> (r: u64)
        ensures
            r == promote_bits(self),
    {
        match self {
            Value::Int(i) => float_of_int(i),
            Value::Num(b) => b,
        }
    }

    /// Whether this value is exactly zero.
    pub fn is_zero(self) -> (r: bool)
        ensures
            r == is_zero_value(self),
    {
        match self {
            Value::Int(i) => i == 0,
            Value::Num(b) => float_is_zero(b),
        }
    }

    /// Truthiness for branch conditions: zero is false, all else true.
    pub fn truthy(self) -> (r: bool)
        ensures
            r == truthy_spec(self),
    {
        !self.is_zero()
    }

    /// Addition under the promotion rule.
    pub fn add(self, rhs: Value) -> (r: Value)
        ensures
            r == add_spec(self, rhs),
    {
        match (self, rhs) {
            (Value::Int(x), Value::Int(y)) => Value::Int(x.wrapping_add(y)),
            _ => Value::Num(float_add(self.promote(), rhs.promote())),
        }
    }

    /// Subtraction under the promotion rule.
    pub fn sub(self, rhs: Value) -> (r: Value)
        ensures
            r == sub_spec(self, rhs),
    {
        match (self, rhs) {
            (Value::Int(x), Value::Int(y)) => Value::Int(x.wrapping_sub(y)),
            _ => Value::Num(float_sub(self.promote(), rhs.promote())),
        }
    }

    /// Multiplication under the promotion rule.
    pub fn mul(self, rhs: Value) -> (r: Value)
        ensures
            r == mul_spec(self, rhs),
    {
        match (self, rhs) {
            (Value::Int(x), Value::Int(y)) => Value::Int(x.wrapping_mul(y)),
            _ => Value::Num(float_mul(self.promote(), rhs.promote())),
        }
    }

    /// Modulo under the promotion rule; integer modulo by 0 errors.
    pub fn rem(self, rhs: Value) -> (r: ValueResult<Value>)
        ensures
            r == rem_spec(self, rhs),
    {
        match (self, rhs) {
            (Value::Int(x), Value::Int(y)) => {
                if y == 0 {
                    Err(ValueError::FloatPointException())
                } else {
                    let ax: u64 = if x >= 0 {
                        x as u64
                    } else {
                        (-(x as i64)) as u64
                    };
                    let ay: u64 = if y >= 0 {
                        y as u64
                    } else {
                        (-(y as i64)) as u64
                    };
                    let ar: u64 = ax % ay;
                    let r: i32 = if x >= 0 {
                        ar as i32
                    } else {
                        (-(ar as i64)) as i32
                    };
                    Ok(Value::Int(r))
                }
            },
            _ => Ok(Value::Num(float_rem(self.promote(), rhs.promote()))),
        }
    }

    /// Division; a divisor that is exactly zero errors, any other division
    /// yields a float.
    pub fn div(self, rhs: Value) -> (r: ValueResult<Value>)
        ensures
            r == div_spec(self, rhs),
    {
        if rhs.is_zero() {
            Err(ValueError::FloatPointException())
        } else {
            Ok(Value::Num(float_div(self.promote(), rhs.promote())))
        }
    }

    /// Division truncated back to an integer.
    pub fn idiv(self, rhs: Value) -> (r: ValueResult<Value>)
        ensures
            r == idiv_spec(self, rhs),
    {
        match self.div(rhs) {
            Err(e) => Err(e),
            Ok(Value::Num(x)) => Ok(Value::Int(float_trunc(x))),
            Ok(Value::Int(i)) => Ok(Value::Int(i)),
        }
    }

    /// The power operator under the promotion rule; an integer power with
    /// a negative exponent errors.
    pub fn pow(self, rhs: Value) -> (r: ValueResult<Value>)
        ensures
            r == pow_spec(self, rhs),
    {
        match (self, rhs) {
            (Value::Int(x), Value::Int(y)) => {
                if y < 0 {
                    Err(ValueError::NegativeExponent())
                } else {
                    let n: u32 = y as u32;
                    let mut acc: i32 = 1;
                    let mut i: u32 = 0;
                    while i < n
                        invariant
                            i <= n,
                            acc == pow_wrap(x, i as nat),
                        decreases n - i,
                    {
                        acc = acc.wrapping_mul(x);
                        i = i + 1;
                    }
                    Ok(Value::Int(acc))
                }
            },
            _ => Ok(Value::Num(float_pow(self.promote(), rhs.promote()))),
        }
    }
}

} // verus!
