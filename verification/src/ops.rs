use vstd::prelude::*;

use crate::error::RuntimeError;
use crate::impls::{bin_op_return_type, un_op_return_type, BinOpFn, UnOpFn};
use crate::value::{type_of, FloatModel, FloatOps, FloatOrder, SpecValue, Value};

verus! {

/// The character of decimal digit `d`.
pub open spec fn digit_char(d: int) -> char {
    if d == 0 {
        '0'
    } else if d == 1 {
        '1'
    } else if d == 2 {
        '2'
    } else if d == 3 {
        '3'
    } else if d == 4 {
        '4'
    } else if d == 5 {
        '5'
    } else if d == 6 {
        '6'
    } else if d == 7 {
        '7'
    } else if d == 8 {
        '8'
    } else {
        '9'
    }
}

/// The decimal digits of `n`, most significant first, without leading
/// zeros (`0` is written `0`).
pub open spec fn digits(n: nat) -> Seq<char>
    decreases n,
{
    if n < 10 {
        seq![digit_char(n as int)]
    } else {
        digits(n / 10).push(digit_char((n % 10) as int))
    }
}

/// How `x` is written in decimal, with a leading `-` when negative.
pub open spec fn decimal(x: int) -> Seq<char> {
    if x < 0 {
        seq!['-'] + digits((-x) as nat)
    } else {
        digits(x as nat)
    }
}

/// What an operator computes: an error, a value, or (`Ok(None)`) a value of
/// the operator's result type that is computed with floating point, which
/// `float_bin_op_value` gives.
pub open spec fn un_op_result(f: UnOpFn, a: SpecValue) -> Result<Option<SpecValue>, RuntimeError> {
    match (f, a) {
        (UnOpFn::NotBool, SpecValue::Bool(b)) => Ok(Some(SpecValue::Bool(!b))),
        (UnOpFn::NegInt, SpecValue::Integer(x)) => if x == i32::MIN {
            Err(RuntimeError::IntegerOverflow)
        } else {
            Ok(Some(SpecValue::Integer((-x) as i32)))
        },
        (UnOpFn::NegFloat, SpecValue::Float(x)) => Ok(Some(SpecValue::Float(x ^ 0x8000_0000u32))),
        _ => Err(RuntimeError::TypeMismatch),
    }
}

/// Whether `a` and `b` have the operand types of `f`.
pub open spec fn bin_op_operands_ok(f: BinOpFn, a: SpecValue, b: SpecValue) -> bool {
    let (_, ta, tb) = crate::impls::bin_op_key(f);
    type_of(a) == ta && type_of(b) == tb
}

/// Whether a shift by `y` bits is within range.
pub open spec fn shift_ok(y: i32) -> bool {
    0 <= y < 32
}

/// What a binary operator computes, as for `un_op_result`. Integer
/// arithmetic that overflows, division by zero and shifts by a negative
/// amount or by 32 or more are errors.
pub open spec fn bin_op_result(f: BinOpFn, a: SpecValue, b: SpecValue) -> Result<
    Option<SpecValue>,
    RuntimeError,
> {
    if !bin_op_operands_ok(f, a, b) {
        Err(RuntimeError::TypeMismatch)
    } else {
        match (f, a, b) {
            (BinOpFn::LtEqIntInt, SpecValue::Integer(x), SpecValue::Integer(y)) => Ok(
                Some(SpecValue::Bool(x <= y)),
            ),
            (BinOpFn::GtEqIntInt, SpecValue::Integer(x), SpecValue::Integer(y)) => Ok(
                Some(SpecValue::Bool(x >= y)),
            ),
            (BinOpFn::LtIntInt, SpecValue::Integer(x), SpecValue::Integer(y)) => Ok(
                Some(SpecValue::Bool(x < y)),
            ),
            (BinOpFn::GtIntInt, SpecValue::Integer(x), SpecValue::Integer(y)) => Ok(
                Some(SpecValue::Bool(x > y)),
            ),
            (BinOpFn::EqIntInt, SpecValue::Integer(x), SpecValue::Integer(y)) => Ok(
                Some(SpecValue::Bool(x == y)),
            ),
            (BinOpFn::AndBoolBool, SpecValue::Bool(x), SpecValue::Bool(y)) => Ok(
                Some(SpecValue::Bool(x && y)),
            ),
            (BinOpFn::AddIntInt, SpecValue::Integer(x), SpecValue::Integer(y)) => if i32::MIN <= x + y
                <= i32::MAX {
                Ok(Some(SpecValue::Integer((x + y) as i32)))
            } else {
                Err(RuntimeError::IntegerOverflow)
            },
            (BinOpFn::AddIntString, SpecValue::Integer(x), SpecValue::String(s)) => Ok(
                Some(SpecValue::String(decimal(x as int) + s)),
            ),
            (BinOpFn::SubIntInt, SpecValue::Integer(x), SpecValue::Integer(y)) => if i32::MIN <= x - y
                <= i32::MAX {
                Ok(Some(SpecValue::Integer((x - y) as i32)))
            } else {
                Err(RuntimeError::IntegerOverflow)
            },
            (BinOpFn::MulIntInt, SpecValue::Integer(x), SpecValue::Integer(y)) => if i32::MIN <= x * y
                <= i32::MAX {
                Ok(Some(SpecValue::Integer((x * y) as i32)))
            } else {
                Err(RuntimeError::IntegerOverflow)
            },
            (BinOpFn::DivIntInt, SpecValue::Integer(x), SpecValue::Integer(y)) => if y == 0 {
                Err(RuntimeError::DivisionByZero)
            } else if x == i32::MIN && y == -1 {
                Err(RuntimeError::IntegerOverflow)
            } else {
                Ok(Some(SpecValue::Integer(trunc_div(x as int, y as int) as i32)))
            },
            (BinOpFn::ShlIntInt, SpecValue::Integer(x), SpecValue::Integer(y)) => if shift_ok(y) {
                Ok(Some(SpecValue::Integer(x << y)))
            } else {
                Err(RuntimeError::IntegerOverflow)
            },
            (BinOpFn::ShrIntInt, SpecValue::Integer(x), SpecValue::Integer(y)) => if shift_ok(y) {
                Ok(Some(SpecValue::Integer(x >> y)))
            } else {
                Err(RuntimeError::IntegerOverflow)
            },
            (BinOpFn::ShlFloatInt, _, SpecValue::Integer(y)) => if shift_ok(y) {
                Ok(None)
            } else {
                Err(RuntimeError::IntegerOverflow)
            },
            (BinOpFn::ShrFloatInt, _, SpecValue::Integer(y)) => if shift_ok(y) {
                Ok(None)
            } else {
                Err(RuntimeError::IntegerOverflow)
            },
            _ => Ok(None),
        }
    }
}

/// The value of a binary operator that `bin_op_result` leaves to floating
/// point, computed by the float operations `fm`: integer operands are
/// converted with `from_int`; a float shifted is first truncated with
/// `to_int`; comparisons go by `compare`.
pub open spec fn float_bin_op_value(fm: FloatModel, f: BinOpFn, a: SpecValue, b: SpecValue) -> SpecValue {
    match (f, a, b) {
        (BinOpFn::GtEqFloatInt, SpecValue::Float(x), SpecValue::Integer(y)) => {
            let o = (fm.compare)(x, (fm.from_int)(y));
            SpecValue::Bool(o == FloatOrder::Greater || o == FloatOrder::Equal)
        },
        (BinOpFn::LtFloatInt, SpecValue::Float(x), SpecValue::Integer(y)) => SpecValue::Bool(
            (fm.compare)(x, (fm.from_int)(y)) == FloatOrder::Less,
        ),
        (BinOpFn::GtFloatInt, SpecValue::Float(x), SpecValue::Integer(y)) => SpecValue::Bool(
            (fm.compare)(x, (fm.from_int)(y)) == FloatOrder::Greater,
        ),
        (BinOpFn::AddIntFloat, SpecValue::Integer(x), SpecValue::Float(y)) => SpecValue::Float(
            (fm.add)((fm.from_int)(x), y),
        ),
        (BinOpFn::AddFloatInt, SpecValue::Float(x), SpecValue::Integer(y)) => SpecValue::Float(
            (fm.add)(x, (fm.from_int)(y)),
        ),
        (BinOpFn::AddFloatFloat, SpecValue::Float(x), SpecValue::Float(y)) => SpecValue::Float((fm.add)(x, y)),
        (BinOpFn::SubFloatInt, SpecValue::Float(x), SpecValue::Integer(y)) => SpecValue::Float(
            (fm.sub)(x, (fm.from_int)(y)),
        ),
        (BinOpFn::SubFloatFloat, SpecValue::Float(x), SpecValue::Float(y)) => SpecValue::Float((fm.sub)(x, y)),
        (BinOpFn::MulIntFloat, SpecValue::Integer(x), SpecValue::Float(y)) => SpecValue::Float(
            (fm.mul)((fm.from_int)(x), y),
        ),
        (BinOpFn::MulFloatInt, SpecValue::Float(x), SpecValue::Integer(y)) => SpecValue::Float(
            (fm.mul)(x, (fm.from_int)(y)),
        ),
        (BinOpFn::MulFloatFloat, SpecValue::Float(x), SpecValue::Float(y)) => SpecValue::Float((fm.mul)(x, y)),
        (BinOpFn::DivFloatFloat, SpecValue::Float(x), SpecValue::Float(y)) => SpecValue::Float((fm.div)(x, y)),
        (BinOpFn::ShlFloatInt, SpecValue::Float(x), SpecValue::Integer(y)) => SpecValue::Integer(
            (fm.to_int)(x) << y,
        ),
        (BinOpFn::ShrFloatInt, SpecValue::Float(x), SpecValue::Integer(y)) => SpecValue::Integer(
            (fm.to_int)(x) >> y,
        ),
        _ => SpecValue::Unit,
    }
}

/// Arithmetic on floats is the arithmetic of the float operations: `+`,
/// `-`, `*` and `/` on two floats are never refused and give the sum,
/// difference, product and quotient that `add`, `sub`, `mul` and `div`
/// compute; with an integer operand, the operator gives what it gives on the
/// float that `from_int` converts the integer to.
pub proof fn float_arithmetic_is_float_ops(fm: FloatModel, x: u32, y: u32, i: i32)
    ensures
        bin_op_result(BinOpFn::AddFloatFloat, SpecValue::Float(x), SpecValue::Float(y)) == Ok::<Option<SpecValue>, RuntimeError>(None),
        bin_op_result(BinOpFn::SubFloatFloat, SpecValue::Float(x), SpecValue::Float(y)) == Ok::<Option<SpecValue>, RuntimeError>(None),
        bin_op_result(BinOpFn::MulFloatFloat, SpecValue::Float(x), SpecValue::Float(y)) == Ok::<Option<SpecValue>, RuntimeError>(None),
        bin_op_result(BinOpFn::DivFloatFloat, SpecValue::Float(x), SpecValue::Float(y)) == Ok::<Option<SpecValue>, RuntimeError>(None),
        float_bin_op_value(fm, BinOpFn::AddFloatFloat, SpecValue::Float(x), SpecValue::Float(y))
            == SpecValue::Float((fm.add)(x, y)),
        float_bin_op_value(fm, BinOpFn::SubFloatFloat, SpecValue::Float(x), SpecValue::Float(y))
            == SpecValue::Float((fm.sub)(x, y)),
        float_bin_op_value(fm, BinOpFn::MulFloatFloat, SpecValue::Float(x), SpecValue::Float(y))
            == SpecValue::Float((fm.mul)(x, y)),
        float_bin_op_value(fm, BinOpFn::DivFloatFloat, SpecValue::Float(x), SpecValue::Float(y))
            == SpecValue::Float((fm.div)(x, y)),
        bin_op_result(BinOpFn::AddIntFloat, SpecValue::Integer(i), SpecValue::Float(y)) == Ok::<Option<SpecValue>, RuntimeError>(None),
        bin_op_result(BinOpFn::AddFloatInt, SpecValue::Float(x), SpecValue::Integer(i)) == Ok::<Option<SpecValue>, RuntimeError>(None),
        bin_op_result(BinOpFn::SubFloatInt, SpecValue::Float(x), SpecValue::Integer(i)) == Ok::<Option<SpecValue>, RuntimeError>(None),
        bin_op_result(BinOpFn::MulIntFloat, SpecValue::Integer(i), SpecValue::Float(y)) == Ok::<Option<SpecValue>, RuntimeError>(None),
        bin_op_result(BinOpFn::MulFloatInt, SpecValue::Float(x), SpecValue::Integer(i)) == Ok::<Option<SpecValue>, RuntimeError>(None),
        float_bin_op_value(fm, BinOpFn::AddIntFloat, SpecValue::Integer(i), SpecValue::Float(y))
            == SpecValue::Float((fm.add)((fm.from_int)(i), y)),
        float_bin_op_value(fm, BinOpFn::AddFloatInt, SpecValue::Float(x), SpecValue::Integer(i))
            == SpecValue::Float((fm.add)(x, (fm.from_int)(i))),
        float_bin_op_value(fm, BinOpFn::SubFloatInt, SpecValue::Float(x), SpecValue::Integer(i))
            == SpecValue::Float((fm.sub)(x, (fm.from_int)(i))),
        float_bin_op_value(fm, BinOpFn::MulIntFloat, SpecValue::Integer(i), SpecValue::Float(y))
            == SpecValue::Float((fm.mul)((fm.from_int)(i), y)),
        float_bin_op_value(fm, BinOpFn::MulFloatInt, SpecValue::Float(x), SpecValue::Integer(i))
            == SpecValue::Float((fm.mul)(x, (fm.from_int)(i))),
{
}

/// Comparing a float with an integer compares it, by `compare`, with the
/// float that `from_int` converts the integer to: `<` holds when that order
/// is `Less`, `>` when it is `Greater`, `>=` when it is either `Greater` or
/// `Equal`; a comparison with a NaN holds for none of them.
pub proof fn float_comparison_is_float_ops(fm: FloatModel, x: u32, i: i32)
    ensures
        bin_op_result(BinOpFn::LtFloatInt, SpecValue::Float(x), SpecValue::Integer(i)) == Ok::<Option<SpecValue>, RuntimeError>(None),
        bin_op_result(BinOpFn::GtFloatInt, SpecValue::Float(x), SpecValue::Integer(i)) == Ok::<Option<SpecValue>, RuntimeError>(None),
        bin_op_result(BinOpFn::GtEqFloatInt, SpecValue::Float(x), SpecValue::Integer(i)) == Ok::<Option<SpecValue>, RuntimeError>(None),
        ({
            let o = (fm.compare)(x, (fm.from_int)(i));
            &&& float_bin_op_value(fm, BinOpFn::LtFloatInt, SpecValue::Float(x), SpecValue::Integer(i))
                == SpecValue::Bool(o == FloatOrder::Less)
            &&& float_bin_op_value(fm, BinOpFn::GtFloatInt, SpecValue::Float(x), SpecValue::Integer(i))
                == SpecValue::Bool(o == FloatOrder::Greater)
            &&& float_bin_op_value(fm, BinOpFn::GtEqFloatInt, SpecValue::Float(x), SpecValue::Integer(i))
                == SpecValue::Bool(o != FloatOrder::Less && o != FloatOrder::Unordered)
        }),
{
}

/// A float shifted by a valid amount is first truncated to an integer by
/// `to_int`, and the integer is shifted.
pub proof fn float_shift_truncates_first(fm: FloatModel, x: u32, y: i32)
    requires
        shift_ok(y),
    ensures
        bin_op_result(BinOpFn::ShlFloatInt, SpecValue::Float(x), SpecValue::Integer(y)) == Ok::<Option<SpecValue>, RuntimeError>(None),
        bin_op_result(BinOpFn::ShrFloatInt, SpecValue::Float(x), SpecValue::Integer(y)) == Ok::<Option<SpecValue>, RuntimeError>(None),
        float_bin_op_value(fm, BinOpFn::ShlFloatInt, SpecValue::Float(x), SpecValue::Integer(y))
            == SpecValue::Integer((fm.to_int)(x) << y),
        float_bin_op_value(fm, BinOpFn::ShrFloatInt, SpecValue::Float(x), SpecValue::Integer(y))
            == SpecValue::Integer((fm.to_int)(x) >> y),
{
}

/// Rust's `/` on integers: the quotient truncated toward zero.
pub open spec fn trunc_div(x: int, y: int) -> int {
    let q = (if x >= 0 { x } else { -x }) / (if y >= 0 { y } else { -y });
    if (x >= 0) == (y >= 0) {
        q
    } else {
        -q
    }
}

proof fn lemma_quotient_bounds(a: int, b: int)
    requires
        0 <= a,
        1 <= b,
    ensures
        a / b <= a,
        b >= 2 ==> a / b <= a / 2,
{
    assert(a / b <= a) by (nonlinear_arith)
        requires
            0 <= a,
            1 <= b,
    ;
    assert(b >= 2 ==> a / b <= a / 2) by (nonlinear_arith)
        requires
            0 <= a,
            1 <= b,
    ;
}

/// A truncated quotient leaves the `i32` range only for `i32::MIN / -1`.
proof fn lemma_trunc_div_range(x: i32, y: i32)
    requires
        y != 0,
    ensures
        (i32::MIN <= trunc_div(x as int, y as int) <= i32::MAX) <==> !(x == i32::MIN && y == -1),
{
    let a: int = if x >= 0 { x as int } else { -x };
    let b: int = if y >= 0 { y as int } else { -y };
    lemma_quotient_bounds(a, b);
    if b == 1 {
        assert(a / b == a);
    }
}

/// Appends a character with `String::push`. Trusted: the string afterwards
/// is taken to hold the characters it held before followed by `c`, as the
/// documentation of `String::push` says.
#[verifier::external_body]
pub(crate) fn push_char(s: &mut String, c: char)
    ensures
        final(s)@ == old(s)@.push(c),
{
    s.push(c);
}

fn digit_char_exec(d: u32) -> (c: char)
    requires
        d < 10,
    ensures
        c == digit_char(d as int),
{
    if d == 0 {
        '0'
    } else if d == 1 {
        '1'
    } else if d == 2 {
        '2'
    } else if d == 3 {
        '3'
    } else if d == 4 {
        '4'
    } else if d == 5 {
        '5'
    } else if d == 6 {
        '6'
    } else if d == 7 {
        '7'
    } else if d == 8 {
        '8'
    } else {
        '9'
    }
}

fn push_digits(s: &mut String, n: u32)
    ensures
        final(s)@ == old(s)@ + digits(n as nat),
    decreases n,
{
    if n >= 10 {
        push_digits(s, n / 10);
    }
    push_char(s, digit_char_exec(n % 10));
    proof {
        if n >= 10 {
            assert(old(s)@ + digits(n as nat) =~= old(s)@ + digits((n / 10) as nat) + seq![
                digit_char((n % 10) as int),
            ]);
        }
    }
}

/// `x` written in decimal.
pub fn int_to_decimal(x: i32) -> (s: String)
    ensures
        s@ == decimal(x as int),
{
    let mut s = String::new();
    if x < 0 {
        push_char(&mut s, '-');
        let m: u32 = if x == i32::MIN {
            2147483648u32
        } else {
            (-x) as u32
        };
        push_digits(&mut s, m);
    } else {
        push_digits(&mut s, x as u32);
    }
    s
}

/// Applies a unary operator implementation to its operand.
pub fn apply_un_op<F: FloatOps>(f: UnOpFn, a: &Value, floats: &F) -> (r: Result<Value, RuntimeError>)
    ensures
        match un_op_result(f, a@) {
            Err(e) => r == Err::<Value, RuntimeError>(e),
            Ok(Some(v)) => r matches Ok(x) && x@ == v,
            Ok(None) => r matches Ok(x) && type_of(x@) == un_op_return_type(f),
        },
        r != Err::<Value, RuntimeError>(RuntimeError::MalformedProgram),
{
    match (f, a) {
        (UnOpFn::NotBool, Value::Bool(b)) => Ok(Value::Bool(!*b)),
        (UnOpFn::NegInt, Value::Integer(x)) => if *x == i32::MIN {
            Err(RuntimeError::IntegerOverflow)
        } else {
            Ok(Value::Integer(-*x))
        },
        (UnOpFn::NegFloat, Value::Float(x)) => Ok(Value::Float(*x ^ 0x8000_0000u32)),
        _ => Err(RuntimeError::TypeMismatch),
    }
}

/// Applies a binary operator implementation to its operands; arithmetic on
/// floats is done by `floats`.
pub fn apply_bin_op<F: FloatOps>(f: BinOpFn, a: &Value, b: &Value, floats: &F) -> (r: Result<
    Value,
    RuntimeError,
>)
    ensures
        match bin_op_result(f, a@, b@) {
            Err(e) => r == Err::<Value, RuntimeError>(e),
            Ok(Some(v)) => r matches Ok(x) && x@ == v,
            Ok(None) => r matches Ok(x) && type_of(x@) == bin_op_return_type(f) && x@ == float_bin_op_value(
                floats.model(),
                f,
                a@,
                b@,
            ),
        },
        r != Err::<Value, RuntimeError>(RuntimeError::MalformedProgram),
{
    match (f, a, b) {
        (BinOpFn::LtEqIntInt, Value::Integer(x), Value::Integer(y)) => Ok(Value::Bool(*x <= *y)),
        (BinOpFn::GtEqIntInt, Value::Integer(x), Value::Integer(y)) => Ok(Value::Bool(*x >= *y)),
        (BinOpFn::GtEqFloatInt, Value::Float(x), Value::Integer(y)) => {
            let o = floats.compare(*x, floats.from_int(*y));
            Ok(Value::Bool(o == FloatOrder::Greater || o == FloatOrder::Equal))
        },
        (BinOpFn::LtIntInt, Value::Integer(x), Value::Integer(y)) => Ok(Value::Bool(*x < *y)),
        (BinOpFn::LtFloatInt, Value::Float(x), Value::Integer(y)) => {
            let o = floats.compare(*x, floats.from_int(*y));
            Ok(Value::Bool(o == FloatOrder::Less))
        },
        (BinOpFn::GtIntInt, Value::Integer(x), Value::Integer(y)) => Ok(Value::Bool(*x > *y)),
        (BinOpFn::GtFloatInt, Value::Float(x), Value::Integer(y)) => {
            let o = floats.compare(*x, floats.from_int(*y));
            Ok(Value::Bool(o == FloatOrder::Greater))
        },
        (BinOpFn::EqIntInt, Value::Integer(x), Value::Integer(y)) => Ok(Value::Bool(*x == *y)),
        (BinOpFn::AndBoolBool, Value::Bool(x), Value::Bool(y)) => Ok(Value::Bool(*x && *y)),
        (BinOpFn::AddIntInt, Value::Integer(x), Value::Integer(y)) => match x.checked_add(*y) {
            Some(z) => Ok(Value::Integer(z)),
            None => Err(RuntimeError::IntegerOverflow),
        },
        (BinOpFn::AddIntFloat, Value::Integer(x), Value::Float(y)) => Ok(
            Value::Float(floats.add(floats.from_int(*x), *y)),
        ),
        (BinOpFn::AddFloatInt, Value::Float(x), Value::Integer(y)) => Ok(
            Value::Float(floats.add(*x, floats.from_int(*y))),
        ),
        (BinOpFn::AddFloatFloat, Value::Float(x), Value::Float(y)) => Ok(
            Value::Float(floats.add(*x, *y)),
        ),
        (BinOpFn::AddIntString, Value::Integer(x), Value::String(s)) => {
            let mut t = int_to_decimal(*x);
            t.append(s.as_str());
            Ok(Value::String(t))
        },
        (BinOpFn::SubIntInt, Value::Integer(x), Value::Integer(y)) => match x.checked_sub(*y) {
            Some(z) => Ok(Value::Integer(z)),
            None => Err(RuntimeError::IntegerOverflow),
        },
        (BinOpFn::SubFloatInt, Value::Float(x), Value::Integer(y)) => Ok(
            Value::Float(floats.sub(*x, floats.from_int(*y))),
        ),
        (BinOpFn::SubFloatFloat, Value::Float(x), Value::Float(y)) => Ok(
            Value::Float(floats.sub(*x, *y)),
        ),
        (BinOpFn::MulIntInt, Value::Integer(x), Value::Integer(y)) => match x.checked_mul(*y) {
            Some(z) => Ok(Value::Integer(z)),
            None => Err(RuntimeError::IntegerOverflow),
        },
        (BinOpFn::MulIntFloat, Value::Integer(x), Value::Float(y)) => Ok(
            Value::Float(floats.mul(floats.from_int(*x), *y)),
        ),
        (BinOpFn::MulFloatInt, Value::Float(x), Value::Integer(y)) => Ok(
            Value::Float(floats.mul(*x, floats.from_int(*y))),
        ),
        (BinOpFn::MulFloatFloat, Value::Float(x), Value::Float(y)) => Ok(
            Value::Float(floats.mul(*x, *y)),
        ),
        (BinOpFn::DivIntInt, Value::Integer(x), Value::Integer(y)) => {
            if *y == 0 {
                Err(RuntimeError::DivisionByZero)
            } else {
                proof {
                    lemma_trunc_div_range(*x, *y);
                }
                match x.checked_div(*y) {
                    Some(z) => Ok(Value::Integer(z)),
                    None => Err(RuntimeError::IntegerOverflow),
                }
            }
        },
        (BinOpFn::DivFloatFloat, Value::Float(x), Value::Float(y)) => Ok(
            Value::Float(floats.div(*x, *y)),
        ),
        (BinOpFn::ShlIntInt, Value::Integer(x), Value::Integer(y)) => {
            if *y < 0 || *y >= 32 {
                Err(RuntimeError::IntegerOverflow)
            } else {
                Ok(Value::Integer(*x << *y))
            }
        },
        (BinOpFn::ShlFloatInt, Value::Float(x), Value::Integer(y)) => {
            if *y < 0 || *y >= 32 {
                Err(RuntimeError::IntegerOverflow)
            } else {
                Ok(Value::Integer(floats.to_int(*x) << *y))
            }
        },
        (BinOpFn::ShrIntInt, Value::Integer(x), Value::Integer(y)) => {
            if *y < 0 || *y >= 32 {
                Err(RuntimeError::IntegerOverflow)
            } else {
                Ok(Value::Integer(*x >> *y))
            }
        },
        (BinOpFn::ShrFloatInt, Value::Float(x), Value::Integer(y)) => {
            if *y < 0 || *y >= 32 {
                Err(RuntimeError::IntegerOverflow)
            } else {
                Ok(Value::Integer(floats.to_int(*x) >> *y))
            }
        },
        _ => Err(RuntimeError::TypeMismatch),
    }
}

} // verus!
