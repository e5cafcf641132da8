use vstd::prelude::*;

use crate::error::RuntimeError;
use crate::impls::{builtin_return_type, Builtin};
use crate::stdlib::buffers::{blank_buffer, is_first_free, store_at, valid_size, BufferModel};
use crate::stdlib::context::{Context, ContextModel};
use crate::stdlib::graphics::{pixel_in_range, pixel_index};
use crate::stdlib::rng::{rand_defined, rand_range, rand_result, seeded_state, next_state};
use crate::stdlib::time::{milli_secs, ms_of_ns};
use crate::stdlib::window::{asked_position, button_of_index, key_of_code, x_of, y_of, Host, HostLog, HostRequest};
use crate::value::{type_of, FloatModel, FloatOps, SpecValue, Value, ValueType};
use crate::semantics::values_view;

verus! {

/// The first argument that is missing (`InvalidArgument`) or of another type
/// than `types` asks for (`TypeMismatch`), looking at the arguments in order.
pub open spec fn check_args(args: Seq<SpecValue>, types: Seq<ValueType>) -> Option<RuntimeError>
    decreases types.len(),
{
    if types.len() == 0 {
        None
    } else {
        match check_args(args, types.drop_last()) {
            Some(e) => Some(e),
            None => {
                let i = types.len() - 1;
                if i >= args.len() {
                    Some(RuntimeError::InvalidArgument)
                } else if type_of(args[i]) != types.last() {
                    Some(RuntimeError::TypeMismatch)
                } else {
                    None
                }
            },
        }
    }
}

/// An error among the first arguments stays the error of all.
proof fn lemma_check_args_prefix(args: Seq<SpecValue>, types: Seq<ValueType>, k: int)
    requires
        0 <= k <= types.len(),
        check_args(args, types.take(k)) is Some,
    ensures
        check_args(args, types) == check_args(args, types.take(k)),
    decreases types.len(),
{
    if k < types.len() {
        assert(types.drop_last().take(k) =~= types.take(k));
        lemma_check_args_prefix(args, types.drop_last(), k);
    } else {
        assert(types.take(k) =~= types);
    }
}

/// Accepted arguments are present and of the asked types.
proof fn lemma_check_args_accepts(args: Seq<SpecValue>, types: Seq<ValueType>)
    requires
        check_args(args, types) is None,
    ensures
        types.len() <= args.len(),
        forall|i: int| 0 <= i < types.len() ==> type_of(#[trigger] args[i]) == types[i],
    decreases types.len(),
{
    if types.len() > 0 {
        lemma_check_args_accepts(args, types.drop_last());
        assert forall|i: int| 0 <= i < types.len() implies type_of(#[trigger] args[i]) == types[i] by {
            if i < types.len() - 1 {
                assert(types.drop_last()[i] == types[i]);
            }
        }
    }
}

/// The error a library function stops with because of its arguments alone,
/// if any.
pub open spec fn builtin_arg_error(b: Builtin, args: Seq<SpecValue>) -> Option<RuntimeError> {
    match b {
        Builtin::FloatCast | Builtin::Sin | Builtin::Cos => if args.len() < 1 {
            Some(RuntimeError::InvalidArgument)
        } else if args[0] is Integer || args[0] is Float {
            None
        } else {
            Some(RuntimeError::TypeMismatch)
        },
        Builtin::Abs => check_args(args, seq![ValueType::Float]),
        Builtin::SeedRnd | Builtin::KeyDown | Builtin::MouseDown => check_args(
            args,
            seq![ValueType::Integer],
        ),
        Builtin::Rand => if args.len() == 1 {
            check_args(args, seq![ValueType::Integer])
        } else if args.len() == 2 {
            check_args(args, seq![ValueType::Integer, ValueType::Integer])
        } else {
            Some(RuntimeError::InvalidArgument)
        },
        Builtin::AppTitle => check_args(args, seq![ValueType::String]),
        Builtin::Graphics => check_args(
            args,
            seq![ValueType::Integer, ValueType::Integer, ValueType::Integer, ValueType::Integer],
        ),
        Builtin::Text => check_args(args, seq![ValueType::Integer, ValueType::Integer, ValueType::String]),
        Builtin::WritePixelFast => check_args(
            args,
            seq![ValueType::Integer, ValueType::Integer, ValueType::Integer],
        ),
        _ => None,
    }
}

/// The integer in argument `i`.
pub open spec fn int_arg(args: Seq<SpecValue>, i: int) -> i32 {
    match args[i] {
        SpecValue::Integer(x) => x,
        _ => 0,
    }
}

/// The bounds `Rand` draws between: `0..=a` for one argument, `a..=b` for two.
pub open spec fn rand_bounds(args: Seq<SpecValue>) -> (i32, i32) {
    if args.len() == 1 {
        (0, int_arg(args, 0))
    } else {
        (int_arg(args, 0), int_arg(args, 1))
    }
}

/// Why `rand(low, high)` cannot be computed: a range of zero values is a
/// division by zero, anything else an overflow.
pub open spec fn rand_error(low: i32, high: i32) -> RuntimeError {
    if i32::MIN <= high - low && rand_range(low, high) <= i32::MAX && rand_range(low, high) == 0 {
        RuntimeError::DivisionByZero
    } else {
        RuntimeError::IntegerOverflow
    }
}

/// The state after the current buffer's pixels are all set to 0.
pub open spec fn cleared(c: ContextModel) -> ContextModel {
    let b = c.buffers[c.current_buffer as int].unwrap();
    ContextModel {
        buffers: c.buffers.update(
            c.current_buffer as int,
            Some(BufferModel { data: Seq::new(b.data.len(), |i: int| 0u32), ..b }),
        ),
        ..c
    }
}

/// The state after pixel `(x, y)` of the current buffer is set to `color`.
pub open spec fn pixel_written(c: ContextModel, x: i32, y: i32, color: i32) -> ContextModel {
    let b = c.buffers[c.current_buffer as int].unwrap();
    ContextModel {
        buffers: c.buffers.update(
            c.current_buffer as int,
            Some(BufferModel { data: b.data.update(pixel_index(b.width, x, y), color as u32), ..b }),
        ),
        ..c
    }
}

/// The float that a numeric argument stands for: an integer converted by
/// `from_int`, a float as it is.
pub open spec fn float_of_arg(fm: FloatModel, v: SpecValue) -> u32 {
    match v {
        SpecValue::Integer(i) => (fm.from_int)(i),
        SpecValue::Float(x) => x,
        _ => 0,
    }
}

/// `Sin` and `Cos` take a float or an integer angle in degrees and never
/// refuse it; they leave the library's state alone and give the sine and
/// cosine that `sin_degrees` and `cos_degrees` compute, of the float itself
/// or of the float that `from_int` converts the integer to. `Float` gives
/// that float.
pub proof fn sine_and_cosine_are_float_ops(fm: FloatModel, c0: ContextModel, x: u32, i: i32)
    ensures
        builtin_arg_error(Builtin::Sin, seq![SpecValue::Float(x)]) is None,
        builtin_arg_error(Builtin::Sin, seq![SpecValue::Integer(i)]) is None,
        builtin_arg_error(Builtin::Cos, seq![SpecValue::Float(x)]) is None,
        builtin_arg_error(Builtin::Cos, seq![SpecValue::Integer(i)]) is None,
        forall|r: Result<SpecValue, RuntimeError>, c1: ContextModel|
            builtin_effect(fm, Builtin::Sin, seq![SpecValue::Float(x)], c0, r, c1) ==> c1 == c0 && r == Ok::<
                SpecValue,
                RuntimeError,
            >(SpecValue::Float((fm.sin_degrees)(x))),
        forall|r: Result<SpecValue, RuntimeError>, c1: ContextModel|
            builtin_effect(fm, Builtin::Sin, seq![SpecValue::Integer(i)], c0, r, c1) ==> c1 == c0 && r == Ok::<
                SpecValue,
                RuntimeError,
            >(SpecValue::Float((fm.sin_degrees)((fm.from_int)(i)))),
        forall|r: Result<SpecValue, RuntimeError>, c1: ContextModel|
            builtin_effect(fm, Builtin::Cos, seq![SpecValue::Float(x)], c0, r, c1) ==> c1 == c0 && r == Ok::<
                SpecValue,
                RuntimeError,
            >(SpecValue::Float((fm.cos_degrees)(x))),
        forall|r: Result<SpecValue, RuntimeError>, c1: ContextModel|
            builtin_effect(fm, Builtin::Cos, seq![SpecValue::Integer(i)], c0, r, c1) ==> c1 == c0 && r == Ok::<
                SpecValue,
                RuntimeError,
            >(SpecValue::Float((fm.cos_degrees)((fm.from_int)(i)))),
        forall|r: Result<SpecValue, RuntimeError>, c1: ContextModel|
            builtin_effect(fm, Builtin::FloatCast, seq![SpecValue::Integer(i)], c0, r, c1) ==> c1 == c0 && r
                == Ok::<SpecValue, RuntimeError>(SpecValue::Float((fm.from_int)(i))),
{
}

/// What a call of a library function does, given its arguments are
/// acceptable (`builtin_arg_error` is `None`): how the result and the state
/// after the call (`c1`) follow from the state before (`c0`), the float
/// operations being `fm`. Results read from the window system are only
/// given their type; the clock's is the millisecond count of some reading.
pub open spec fn builtin_effect(
    fm: FloatModel,
    b: Builtin,
    args: Seq<SpecValue>,
    c0: ContextModel,
    r: Result<SpecValue, RuntimeError>,
    c1: ContextModel,
) -> bool {
    match b {
        Builtin::FloatCast => c1 == c0 && r == Ok::<SpecValue, RuntimeError>(
            SpecValue::Float(float_of_arg(fm, args[0])),
        ),
        Builtin::Abs => c1 == c0 && r == Ok::<SpecValue, RuntimeError>(
            SpecValue::Float(
                match args[0] {
                    SpecValue::Float(x) => x & 0x7fff_ffffu32,
                    _ => 0,
                },
            ),
        ),
        Builtin::Sin => c1 == c0 && r == Ok::<SpecValue, RuntimeError>(
            SpecValue::Float((fm.sin_degrees)(float_of_arg(fm, args[0]))),
        ),
        Builtin::Cos => c1 == c0 && r == Ok::<SpecValue, RuntimeError>(
            SpecValue::Float((fm.cos_degrees)(float_of_arg(fm, args[0]))),
        ),
        Builtin::SeedRnd => c1 == ContextModel { rng_state: seeded_state(int_arg(args, 0)), ..c0 } && r
            == Ok::<SpecValue, RuntimeError>(SpecValue::Unit),
        Builtin::Rand => {
            let (low, high) = rand_bounds(args);
            if rand_defined(c0.rng_state, low, high) {
                &&& c1 == ContextModel { rng_state: next_state(c0.rng_state), ..c0 }
                &&& r == Ok::<SpecValue, RuntimeError>(
                    SpecValue::Integer(rand_result(c0.rng_state, low, high) as i32),
                )
            } else {
                r == Err::<SpecValue, RuntimeError>(rand_error(low, high))
            }
        },
        Builtin::MilliSecs => c1 == c0 && (r matches Ok(SpecValue::Integer(x)) && exists|ns: u64|
            x == #[trigger] ms_of_ns(ns)),
        Builtin::AppTitle => r == Ok::<SpecValue, RuntimeError>(SpecValue::Unit) && c1 == ContextModel {
            app_title: match args[0] {
                SpecValue::String(s) => s,
                _ => Seq::empty(),
            },
            ..c0
        },
        Builtin::Graphics => {
            let (w, h) = (int_arg(args, 0), int_arg(args, 1));
            let freed = if c0.window_open {
                c0.buffers.update(c0.back_buffer_handle as int, None)
            } else {
                c0.buffers
            };
            match r {
                Ok(v) => {
                    &&& v == SpecValue::Unit
                    &&& valid_size(w, h)
                    &&& c1.window_open
                    &&& c1.width == w
                    &&& c1.height == h
                    &&& is_first_free(freed, c1.back_buffer_handle as int)
                    &&& c1.buffers == store_at(freed, c1.back_buffer_handle as int, blank_buffer(w, h))
                    &&& c1.current_buffer == c1.back_buffer_handle
                    &&& c1.rng_state == c0.rng_state
                    &&& c1.app_title == c0.app_title
                    &&& c1.images == c0.images
                },
                Err(e) => if !graphics_handles_ok(c0) {
                    e == RuntimeError::InvalidHandle && c1 == c0
                } else {
                    &&& e == if valid_size(w, h) {
                        RuntimeError::WindowFailed
                    } else {
                        RuntimeError::InvalidArgument
                    }
                    &&& c1 == ContextModel { buffers: freed, ..c0 }
                },
            }
        },
        Builtin::Flip => c1 == c0 && if !c0.window_open || (c0.back_buffer_handle < c0.buffers.len()
            && c0.buffers[c0.back_buffer_handle as int] is Some) {
            r == Ok::<SpecValue, RuntimeError>(SpecValue::Unit)
        } else {
            r == Err::<SpecValue, RuntimeError>(RuntimeError::InvalidHandle)
        },
        Builtin::BackBuffer | Builtin::HidePointer => c1 == c0 && r == Ok::<SpecValue, RuntimeError>(
            SpecValue::Integer(0),
        ),
        Builtin::KeyDown => c1 == c0 && if c0.window_open {
            ok_of_type(r, ValueType::Bool)
        } else {
            r == Err::<SpecValue, RuntimeError>(RuntimeError::NoWindow)
        },
        Builtin::MouseDown => c1 == c0 && if !c0.window_open {
            r == Err::<SpecValue, RuntimeError>(RuntimeError::NoWindow)
        } else if button_of_index(int_arg(args, 0)) is None {
            r == Err::<SpecValue, RuntimeError>(RuntimeError::InvalidArgument)
        } else {
            ok_of_type(r, ValueType::Bool)
        },
        Builtin::MouseX | Builtin::MouseY => c1 == c0 && (!c0.window_open ==> r
            == Err::<SpecValue, RuntimeError>(RuntimeError::NoWindow)) && (r is Err ==> r
            == Err::<SpecValue, RuntimeError>(RuntimeError::NoWindow)) && (r is Ok ==> ok_of_type(r, ValueType::Integer)),
        Builtin::Cls => if c0.current_buffer < c0.buffers.len() && c0.buffers[c0.current_buffer as int] is Some {
            c1 == cleared(c0) && r == Ok::<SpecValue, RuntimeError>(SpecValue::Unit)
        } else {
            r == Err::<SpecValue, RuntimeError>(RuntimeError::InvalidHandle)
        },
        Builtin::WritePixelFast => {
            let (x, y, color) = (int_arg(args, 0), int_arg(args, 1), int_arg(args, 2));
            if c0.current_buffer < c0.buffers.len() && c0.buffers[c0.current_buffer as int] is Some
                && pixel_in_range(c0.buffers[c0.current_buffer as int].unwrap(), x, y) {
                c1 == pixel_written(c0, x, y, color) && r == Ok::<SpecValue, RuntimeError>(SpecValue::Unit)
            } else {
                r == Err::<SpecValue, RuntimeError>(RuntimeError::InvalidHandle)
            }
        },
        _ => c1 == c0 && r == Ok::<SpecValue, RuntimeError>(SpecValue::Unit),
    }
}

/// Whether `Graphics` can free the current window's buffer and allocate a
/// new one: the open window's buffer handle is within the table, which is
/// not full.
pub open spec fn graphics_handles_ok(c: ContextModel) -> bool {
    &&& (c.window_open ==> c.back_buffer_handle < c.buffers.len())
    &&& c.buffers.len() < usize::MAX
}

/// The requests that a call of a library function with acceptable
/// arguments makes of the window system from state `c0`, and how its result
/// `r` follows from the answers: `after` is the record of requests after the
/// call, `before` the one before. `Graphics` asks to open a window with the
/// stored title and the given size when the size is valid, and succeeds
/// exactly when the window opened; `Flip` shows the back buffer of an open
/// window; while a window is open, `KeyDown` and `MouseDown` give the
/// answer about the key or the button, and `MouseX` and `MouseY` the
/// coordinate of the answered position (`NoWindow` when there is none).
pub open spec fn builtin_host_rel(
    b: Builtin,
    args: Seq<SpecValue>,
    c0: ContextModel,
    r: Result<SpecValue, RuntimeError>,
    before: HostLog,
    after: HostLog,
) -> bool {
    match b {
        Builtin::Graphics => {
            let (w, h) = (int_arg(args, 0), int_arg(args, 1));
            if graphics_handles_ok(c0) && valid_size(w, h) {
                after == before.push(HostRequest::Open(c0.app_title, w, h, r is Ok))
            } else {
                after == before
            }
        },
        Builtin::Flip => if c0.window_open && c0.back_buffer_handle < c0.buffers.len()
            && c0.buffers[c0.back_buffer_handle as int] is Some {
            after == before.push(
                HostRequest::Present(
                    c0.buffers[c0.back_buffer_handle as int].unwrap().data,
                    c0.width,
                    c0.height,
                ),
            )
        } else {
            after == before
        },
        Builtin::KeyDown => if c0.window_open {
            after == before.push(
                HostRequest::KeyDown(
                    key_of_code(int_arg(args, 0)),
                    r == Ok::<SpecValue, RuntimeError>(SpecValue::Bool(true)),
                ),
            )
        } else {
            after == before
        },
        Builtin::MouseDown => if c0.window_open && button_of_index(int_arg(args, 0)) is Some {
            after == before.push(
                HostRequest::MouseDown(
                    button_of_index(int_arg(args, 0))->0,
                    r == Ok::<SpecValue, RuntimeError>(SpecValue::Bool(true)),
                ),
            )
        } else {
            after == before
        },
        Builtin::MouseX | Builtin::MouseY => if c0.window_open {
            exists|p: Option<(i32, i32)>|
                #[trigger] asked_position(before, after, p) && r == match (
                    if b == Builtin::MouseX {
                        x_of(p)
                    } else {
                        y_of(p)
                    }
                ) {
                    Some(v) => Ok::<SpecValue, RuntimeError>(SpecValue::Integer(v)),
                    None => Err::<SpecValue, RuntimeError>(RuntimeError::NoWindow),
                }
        } else {
            after == before
        },
        _ => after == before,
    }
}

/// Whether `r` is a value of type `t`.
pub open spec fn ok_of_type(r: Result<SpecValue, RuntimeError>, t: ValueType) -> bool {
    r matches Ok(v) && type_of(v) == t
}

/// The view of a result.
pub open spec fn result_view(r: Result<Value, RuntimeError>) -> Result<SpecValue, RuntimeError> {
    match r {
        Ok(v) => Ok(v@),
        Err(e) => Err(e),
    }
}

fn check_args_exec(args: &Vec<Value>, types: Vec<ValueType>) -> (r: Option<RuntimeError>)
    ensures
        r == check_args(values_view(args@), types@),
        r matches Some(e) ==> e == RuntimeError::InvalidArgument || e == RuntimeError::TypeMismatch,
        r is None ==> types@.len() <= args@.len() && forall|i: int|
            0 <= i < types@.len() ==> type_of(#[trigger] args@[i]@) == types@[i],
{
    let ghost vs = values_view(args@);
    let mut i: usize = 0;
    while i < types.len()
        invariant
            i <= types@.len(),
            vs == values_view(args@),
            check_args(vs, types@.take(i as int)) is None,
        decreases types@.len() - i,
    {
        proof {
            assert(types@.take(i + 1).drop_last() =~= types@.take(i as int));
        }
        if i >= args.len() {
            proof {
                lemma_check_args_prefix(vs, types@, i + 1);
            }
            return Some(RuntimeError::InvalidArgument);
        }
        if args[i].value_type() != types[i] {
            proof {
                lemma_check_args_prefix(vs, types@, i + 1);
            }
            return Some(RuntimeError::TypeMismatch);
        }
        i = i + 1;
    }
    proof {
        assert(types@.take(i as int) =~= types@);
        lemma_check_args_accepts(vs, types@);
        assert forall|j: int| 0 <= j < types@.len() implies type_of(#[trigger] args@[j]@) == types@[j] by {
            assert(vs[j] == args@[j]@);
        }
    }
    None
}

fn type_list(a: ValueType, b: ValueType, c: ValueType, d: ValueType, n: usize) -> (v: Vec<ValueType>)
    requires
        1 <= n <= 4,
    ensures
        n == 1 ==> v@ == seq![a],
        n == 2 ==> v@ == seq![a, b],
        n == 3 ==> v@ == seq![a, b, c],
        n == 4 ==> v@ == seq![a, b, c, d],
{
    let mut v: Vec<ValueType> = Vec::new();
    v.push(a);
    if n >= 2 {
        v.push(b);
    }
    if n >= 3 {
        v.push(c);
    }
    if n >= 4 {
        v.push(d);
    }
    assert(n == 1 ==> v@ =~= seq![a]);
    assert(n == 2 ==> v@ =~= seq![a, b]);
    assert(n == 3 ==> v@ =~= seq![a, b, c]);
    assert(n == 4 ==> v@ =~= seq![a, b, c, d]);
    v
}

/// Calls a library function with the given arguments: `builtin_arg_error`
/// says when the arguments are refused, and `builtin_effect` what the call
/// does otherwise.
#[verifier::rlimit(60)]
pub fn call_builtin<H: Host, F: FloatOps>(
    b: Builtin,
    args: &Vec<Value>,
    ctx: &mut Context,
    host: &mut H,
    floats: &F,
) -> (r: Result<Value, RuntimeError>)
    ensures
        match builtin_arg_error(b, values_view(args@)) {
            Some(e) => r == Err::<Value, RuntimeError>(e) && final(ctx)@ == old(ctx)@,
            None => builtin_effect(floats.model(), b, values_view(args@), old(ctx)@, result_view(r), final(ctx)@),
        },
        builtin_arg_error(b, values_view(args@)) is Some ==> final(host).requests() == old(host).requests(),
        builtin_arg_error(b, values_view(args@)) is None ==> builtin_host_rel(
            b,
            values_view(args@),
            old(ctx)@,
            result_view(r),
            old(host).requests(),
            final(host).requests(),
        ),
        b != Builtin::HidePointer ==> (r matches Ok(v) ==> type_of(v@) == builtin_return_type(b)),
        r != Err::<Value, RuntimeError>(RuntimeError::MalformedProgram),
{
    let ghost vs = values_view(args@);
    proof {
        assert forall|i: int| 0 <= i < args@.len() implies vs[i] == (#[trigger] args@[i])@ by {}
    }
    match b {
        Builtin::FloatCast | Builtin::Sin | Builtin::Cos => {
            if args.len() < 1 {
                return Err(RuntimeError::InvalidArgument);
            }
            let x = match &args[0] {
                Value::Integer(i) => floats.from_int(*i),
                Value::Float(f) => *f,
                _ => {
                    return Err(RuntimeError::TypeMismatch);
                },
            };
            match b {
                Builtin::Sin => Ok(Value::Float(floats.sin_degrees(x))),
                Builtin::Cos => Ok(Value::Float(floats.cos_degrees(x))),
                _ => Ok(Value::Float(x)),
            }
        },
        Builtin::Abs => {
            if let Some(e) = check_args_exec(args, type_list(ValueType::Float, ValueType::Float, ValueType::Float, ValueType::Float, 1)) {
                return Err(e);
            }
            let x = args[0].as_float();
            Ok(Value::Float(x & 0x7fff_ffffu32))
        },
        Builtin::SeedRnd => {
            if let Some(e) = check_args_exec(args, type_list(ValueType::Integer, ValueType::Integer, ValueType::Integer, ValueType::Integer, 1)) {
                return Err(e);
            }
            ctx.rng.seed_rnd(args[0].as_integer());
            Ok(Value::Unit)
        },
        Builtin::Rand => {
            let (low, high) = if args.len() == 1 {
                if let Some(e) = check_args_exec(args, type_list(ValueType::Integer, ValueType::Integer, ValueType::Integer, ValueType::Integer, 1)) {
                    return Err(e);
                }
                (0i32, args[0].as_integer())
            } else if args.len() == 2 {
                if let Some(e) = check_args_exec(args, type_list(ValueType::Integer, ValueType::Integer, ValueType::Integer, ValueType::Integer, 2)) {
                    return Err(e);
                }
                (args[0].as_integer(), args[1].as_integer())
            } else {
                return Err(RuntimeError::InvalidArgument);
            };
            if !ctx.rng.can_rand(low, high) {
                let span: i64 = high as i64 - low as i64;
                if span >= i32::MIN as i64 && span + 1 <= i32::MAX as i64 && span + 1 == 0 {
                    return Err(RuntimeError::DivisionByZero);
                }
                return Err(RuntimeError::IntegerOverflow);
            }
            Ok(Value::Integer(ctx.rng.rand(low, high)))
        },
        Builtin::MilliSecs => Ok(Value::Integer(milli_secs())),
        Builtin::AppTitle => {
            if let Some(e) = check_args_exec(args, type_list(ValueType::String, ValueType::String, ValueType::String, ValueType::String, 1)) {
                return Err(e);
            }
            ctx.window.app_title(args[0].as_string());
            Ok(Value::Unit)
        },
        Builtin::Graphics => {
            if let Some(e) = check_args_exec(
                args,
                type_list(ValueType::Integer, ValueType::Integer, ValueType::Integer, ValueType::Integer, 4),
            ) {
                return Err(e);
            }
            if ctx.window.is_open && ctx.window.back_buffer_handle >= ctx.buffers.len() {
                return Err(RuntimeError::InvalidHandle);
            }
            if ctx.buffers.len() == usize::MAX {
                return Err(RuntimeError::InvalidHandle);
            }
            let w = args[0].as_integer();
            let h = args[1].as_integer();
            match ctx.window.graphics(&mut ctx.buffers, &mut ctx.graphics, host, w, h) {
                Ok(()) => Ok(Value::Unit),
                Err(e) => Err(e),
            }
        },
        Builtin::Flip => {
            if ctx.window.flip(&ctx.buffers, host) {
                Ok(Value::Unit)
            } else {
                Err(RuntimeError::InvalidHandle)
            }
        },
        Builtin::BackBuffer | Builtin::HidePointer => Ok(Value::Integer(0)),
        Builtin::KeyDown => {
            if let Some(e) = check_args_exec(args, type_list(ValueType::Integer, ValueType::Integer, ValueType::Integer, ValueType::Integer, 1)) {
                return Err(e);
            }
            match ctx.window.key_down(host, args[0].as_integer()) {
                Some(d) => Ok(Value::Bool(d)),
                None => Err(RuntimeError::NoWindow),
            }
        },
        Builtin::MouseDown => {
            if let Some(e) = check_args_exec(args, type_list(ValueType::Integer, ValueType::Integer, ValueType::Integer, ValueType::Integer, 1)) {
                return Err(e);
            }
            if !ctx.window.is_open {
                return Err(RuntimeError::NoWindow);
            }
            match ctx.window.mouse_down(host, args[0].as_integer()) {
                Some(d) => Ok(Value::Bool(d)),
                None => Err(RuntimeError::InvalidArgument),
            }
        },
        Builtin::MouseX => match ctx.window.mouse_x(host) {
            Some(x) => Ok(Value::Integer(x)),
            None => Err(RuntimeError::NoWindow),
        },
        Builtin::MouseY => match ctx.window.mouse_y(host) {
            Some(y) => Ok(Value::Integer(y)),
            None => Err(RuntimeError::NoWindow),
        },
        Builtin::Cls => {
            if !ctx.buffers.is_live(ctx.graphics.current_buffer) {
                return Err(RuntimeError::InvalidHandle);
            }
            ctx.graphics.cls(&mut ctx.buffers);
            Ok(Value::Unit)
        },
        Builtin::Text => {
            if let Some(e) = check_args_exec(
                args,
                type_list(ValueType::Integer, ValueType::Integer, ValueType::String, ValueType::String, 3),
            ) {
                return Err(e);
            }
            Ok(Value::Unit)
        },
        Builtin::WritePixelFast => {
            if let Some(e) = check_args_exec(
                args,
                type_list(ValueType::Integer, ValueType::Integer, ValueType::Integer, ValueType::Integer, 3),
            ) {
                return Err(e);
            }
            let x = args[0].as_integer();
            let y = args[1].as_integer();
            let color = args[2].as_integer();
            if !ctx.buffers.is_live(ctx.graphics.current_buffer) {
                return Err(RuntimeError::InvalidHandle);
            }
            if !ctx.graphics.can_write_pixel(&ctx.buffers, x, y) {
                return Err(RuntimeError::InvalidHandle);
            }
            ctx.graphics.write_pixel_fast(&mut ctx.buffers, x, y, color);
            Ok(Value::Unit)
        },
        Builtin::Color | Builtin::SetBuffer | Builtin::LockBuffer | Builtin::UnlockBuffer => Ok(
            Value::Unit,
        ),
    }
}

} // verus!
