use vstd::prelude::*;

use crate::builtins::{builtin_arg_error, builtin_effect, builtin_host_rel};
use crate::error::RuntimeError;
use crate::il;
use crate::impls::Native;
use crate::interpreter::{State, Variable, STACK_SIZE};
use crate::ops::{bin_op_result, float_bin_op_value, un_op_result};
use crate::stdlib::context::ContextModel;
use crate::stdlib::window::HostLog;
use crate::witness::{pick1, pick2, pick3};
use crate::value::{
    can_cast, cast_converts_float, cast_value, default_value, exact_cast, type_of, FloatModel, SpecValue, Value,
    ValueType,
};

verus! {

/// What a global variable holds: a single value of its type, or an array's
/// dimensions and elements.
pub enum GlobalModel {
    Single(SpecValue, ValueType),
    Array(Seq<i32>, Seq<SpecValue>, ValueType),
}

pub open spec fn global_view(v: Variable) -> GlobalModel {
    match v {
        Variable::SingleVariable(x) => GlobalModel::Single(x.value@, x.value_type),
        Variable::Array(a) => GlobalModel::Array(a.dimensions@, values_view(a.values@), a.value_type),
    }
}

pub open spec fn globals_view(gs: Seq<Variable>) -> Seq<GlobalModel> {
    gs.map_values(|g: Variable| global_view(g))
}

pub open spec fn values_view(vs: Seq<Value>) -> Seq<SpecValue> {
    vs.map_values(|v: Value| v@)
}

/// What the state of a running program holds: the library's state, the
/// requests made of the window system so far, the float operations the
/// program runs with, the globals, the stack slots written so far with the
/// stack position, the base pointer of the current frame, the data pointer
/// and the steps left.
pub struct StateModel {
    pub context: ContextModel,
    pub requests: HostLog,
    pub floats: FloatModel,
    pub globals: Seq<GlobalModel>,
    pub stack: Seq<SpecValue>,
    pub position: usize,
    pub base_pointer: usize,
    pub data_pointer: usize,
    pub fuel: u64,
}

impl View for State {
    type V = StateModel;

    open spec fn view(&self) -> StateModel {
        StateModel {
            context: self.context@,
            requests: self.requests@,
            floats: self.floats@,
            globals: globals_view(self.globals@),
            stack: values_view(self.stack.data@),
            position: self.stack.position,
            base_pointer: self.base_pointer,
            data_pointer: self.data_pointer,
            fuel: self.fuel,
        }
    }
}

/// The state after one step.
pub open spec fn ticked(s: StateModel) -> StateModel {
    StateModel { fuel: (s.fuel - 1) as u64, ..s }
}

/// Stack slot `i`: `Unit` where nothing was written.
pub open spec fn slot(s: StateModel, i: int) -> SpecValue {
    if 0 <= i < s.stack.len() {
        s.stack[i]
    } else {
        SpecValue::Unit
    }
}

/// The written slots after `v` is written to slot `i`.
pub open spec fn write_slot(stack: Seq<SpecValue>, i: int, v: SpecValue) -> Seq<SpecValue> {
    if i < stack.len() {
        stack.update(i, v)
    } else {
        stack + Seq::new((i - stack.len()) as nat, |k: int| SpecValue::Unit) + seq![v]
    }
}

/// Pushing a value: it is written at the position, which moves up by one.
pub open spec fn push_result(s: StateModel, v: SpecValue) -> Result<StateModel, RuntimeError> {
    if s.position < STACK_SIZE {
        Ok(StateModel { stack: write_slot(s.stack, s.position as int, v), position: (s.position + 1) as usize, ..s })
    } else {
        Err(RuntimeError::StackOverflow)
    }
}

/// The value of a variable: a global single variable's value, or the stack
/// slot of a local, counted from the base pointer.
pub open spec fn read_variable(s: StateModel, v: il::VariableRef) -> Result<SpecValue, RuntimeError> {
    match v {
        il::VariableRef::Global(g) => match s.globals[g.global_index as int] {
            GlobalModel::Single(x, _) => Ok(x),
            GlobalModel::Array(..) => Err(RuntimeError::TypeMismatch),
        },
        il::VariableRef::Local(l) => {
            let i = s.base_pointer + l.local_index;
            if i < STACK_SIZE {
                Ok(slot(s, i))
            } else {
                Err(RuntimeError::StackOverflow)
            }
        },
    }
}

/// The state after `x` is stored in a variable; a global keeps its type.
pub open spec fn assign_variable_result(s: StateModel, v: il::VariableRef, x: SpecValue) -> Result<
    StateModel,
    RuntimeError,
> {
    match v {
        il::VariableRef::Global(g) => match s.globals[g.global_index as int] {
            GlobalModel::Single(_, t) => Ok(
                StateModel { globals: s.globals.update(g.global_index as int, GlobalModel::Single(x, t)), ..s },
            ),
            GlobalModel::Array(..) => Err(RuntimeError::TypeMismatch),
        },
        il::VariableRef::Local(l) => {
            let i = s.base_pointer + l.local_index;
            if i < STACK_SIZE {
                Ok(StateModel { stack: write_slot(s.stack, i, x), ..s })
            } else {
                Err(RuntimeError::StackOverflow)
            }
        },
    }
}

/// A variable reads back the value last assigned to it: after `x` is stored
/// in a variable that exists, reading that variable gives `x`.
pub proof fn assigned_variable_reads_back(s: StateModel, v: il::VariableRef, x: SpecValue)
    requires
        v matches il::VariableRef::Global(g) ==> g.global_index < s.globals.len(),
        assign_variable_result(s, v, x) is Ok,
    ensures
        read_variable(assign_variable_result(s, v, x).unwrap(), v) == Ok::<SpecValue, RuntimeError>(x),
{
    if let il::VariableRef::Local(l) = v {
        lemma_write_slot(s.stack, s.base_pointer + l.local_index, x);
    }
}

/// Storing a value in one variable leaves every other variable as it was:
/// another global, or another local of the same frame, reads the same before
/// and after.
pub proof fn assignment_leaves_other_variables(
    s: StateModel,
    v: il::VariableRef,
    w: il::VariableRef,
    x: SpecValue,
)
    requires
        v matches il::VariableRef::Global(g) ==> g.global_index < s.globals.len(),
        w matches il::VariableRef::Global(g) ==> g.global_index < s.globals.len(),
        assign_variable_result(s, v, x) is Ok,
        match (v, w) {
            (il::VariableRef::Global(a), il::VariableRef::Global(b)) => a.global_index != b.global_index,
            (il::VariableRef::Local(a), il::VariableRef::Local(b)) => a.local_index != b.local_index,
            _ => true,
        },
    ensures
        read_variable(assign_variable_result(s, v, x).unwrap(), w) == read_variable(s, w),
{
    let s1 = assign_variable_result(s, v, x).unwrap();
    match v {
        il::VariableRef::Global(a) => {
            assert(s1.stack == s.stack);
        },
        il::VariableRef::Local(l) => {
            assert(s1.globals == s.globals);
            if let il::VariableRef::Local(k) = w {
                lemma_slot_after_write(s, s.base_pointer + l.local_index, x, s.base_pointer + k.local_index);
            }
        },
    }
}

/// Writing slot `i` makes it hold `v` and leaves every other slot as it was.
proof fn lemma_write_slot(stack: Seq<SpecValue>, i: int, v: SpecValue)
    requires
        0 <= i,
    ensures
        ({
            let t = write_slot(stack, i, v);
            &&& t.len() == if i < stack.len() { stack.len() as int } else { i + 1 }
            &&& t[i] == v
            &&& forall|j: int| 0 <= j < t.len() && j != i ==> #[trigger] t[j] == (if j < stack.len() {
                stack[j]
            } else {
                SpecValue::Unit
            })
        }),
{
}

/// The slot view of a state whose stack had slot `i` written.
proof fn lemma_slot_after_write(s: StateModel, i: int, v: SpecValue, j: int)
    requires
        0 <= i,
        0 <= j,
    ensures
        slot(StateModel { stack: write_slot(s.stack, i, v), ..s }, j) == if j == i {
            v
        } else {
            slot(s, j)
        },
{
    lemma_write_slot(s.stack, i, v);
}

/// The state after element `k` of array `g` is set to `x`.
pub open spec fn store_element(s: StateModel, g: int, k: int, x: SpecValue) -> StateModel {
    match s.globals[g] {
        GlobalModel::Array(d, vals, t) => StateModel {
            globals: s.globals.update(g, GlobalModel::Array(d, vals.update(k, x), t)),
            ..s
        },
        GlobalModel::Single(..) => s,
    }
}

/// Whether `x` is what casting `v` to an integer gives: integers stay,
/// booleans become 1 or 0, floats become what `to_int` of `fm` gives.
pub open spec fn int_cast(fm: FloatModel, v: SpecValue, x: i32) -> bool {
    match v {
        SpecValue::Integer(y) => x == y,
        SpecValue::Bool(b) => x == (if b {
            1i32
        } else {
            0i32
        }),
        SpecValue::Float(f) => x == (fm.to_int)(f),
        _ => false,
    }
}

/// Whether `w` is what casting `v` to type `t` gives.
pub open spec fn cast_outcome(fm: FloatModel, v: SpecValue, t: ValueType, w: SpecValue) -> bool {
    &&& type_of(w) == t
    &&& (!cast_converts_float(v, t) ==> w == exact_cast(v, t))
    &&& w == cast_value(fm, v, t)
}

/// In a running program, a float constant evaluates to itself; casting the
/// float `f` to an integer gives the integer that `to_int` of the program's
/// float operations truncates it to, and casting the integer `i` to a float
/// gives the float that their `from_int` converts it to.
pub proof fn casts_in_a_run_use_float_ops(
    p: il::Program,
    c: il::Cast,
    s0: StateModel,
    r: Result<SpecValue, RuntimeError>,
    s1: StateModel,
)
    requires
        s0.fuel >= 2,
        eval_rel(p, il::Expr::Cast(c), s0, r, s1),
    ensures
        c.target_type == ValueType::Integer ==> (*c.expr matches il::Expr::Float(f) ==> r == Ok::<
            SpecValue,
            RuntimeError,
        >(SpecValue::Integer((s0.floats.to_int)(f)))),
        c.target_type == ValueType::Float ==> (*c.expr matches il::Expr::Integer(i) ==> r == Ok::<
            SpecValue,
            RuntimeError,
        >(SpecValue::Float((s0.floats.from_int)(i)))),
        *c.expr matches il::Expr::Float(f) ==> c.target_type == ValueType::Float ==> r == Ok::<
            SpecValue,
            RuntimeError,
        >(SpecValue::Float(f)),
{
    reveal_with_fuel(eval_rel, 2);
}

/// The outcome of a native function: what `call_native` does to the
/// library's state (from `c0` to `c1`) and returns, and the requests it
/// makes of the window system (from `log0` to `log1`).
pub open spec fn native_rel(
    fm: FloatModel,
    n: Native,
    args: Seq<SpecValue>,
    c0: ContextModel,
    log0: HostLog,
    r: Result<SpecValue, RuntimeError>,
    c1: ContextModel,
    log1: HostLog,
) -> bool {
    match n {
        Native::Builtin(b) => match builtin_arg_error(b, args) {
            Some(e) => r == Err::<SpecValue, RuntimeError>(e) && c1 == c0 && log1 == log0,
            None => builtin_effect(fm, b, args, c0, r, c1) && builtin_host_rel(b, args, c0, r, log0, log1),
        },
        Native::UnOp(f) => c1 == c0 && log1 == log0 && if args.len() < 1 {
            r == Err::<SpecValue, RuntimeError>(RuntimeError::InvalidArgument)
        } else {
            match un_op_result(f, args[0]) {
                Err(e) => r == Err::<SpecValue, RuntimeError>(e),
                Ok(Some(v)) => r == Ok::<SpecValue, RuntimeError>(v),
                Ok(None) => r is Ok,
            }
        },
        Native::BinOp(f) => c1 == c0 && log1 == log0 && if args.len() < 2 {
            r == Err::<SpecValue, RuntimeError>(RuntimeError::InvalidArgument)
        } else {
            match bin_op_result(f, args[0], args[1]) {
                Err(e) => r == Err::<SpecValue, RuntimeError>(e),
                Ok(Some(v)) => r == Ok::<SpecValue, RuntimeError>(v),
                Ok(None) => r == Ok::<SpecValue, RuntimeError>(float_bin_op_value(fm, f, args[0], args[1])),
            }
        },
    }
}

/// The outcome of a native call on stack state `m` (after its arguments are
/// pushed): the library's state and the record of requests change; on
/// success the stack position goes back to `position`.
pub open spec fn native_call_rel(
    n: Native,
    args: Seq<SpecValue>,
    m: StateModel,
    position: usize,
    r: Result<SpecValue, RuntimeError>,
    s1: StateModel,
) -> bool {
    exists|c1: ContextModel, log1: HostLog|
        #![trigger native_rel(m.floats, n, args, m.context, m.requests, r, c1, log1)]
        native_rel(m.floats, n, args, m.context, m.requests, r, c1, log1) && if r is Ok {
            s1 == StateModel { context: c1, requests: log1, position, ..m }
        } else {
            s1 == StateModel { context: c1, requests: log1, ..m }
        }
}

/// The element position that the stack slots `base..` give for an array
/// with the given dimensions, computed from the last dimension back, with
/// `index` and `multiplier` the sum and factor so far.
pub open spec fn index_calc(
    s: StateModel,
    base: int,
    dims: Seq<i32>,
    j: int,
    index: int,
    multiplier: int,
    len: int,
    r: Result<usize, RuntimeError>,
) -> bool
    decreases j,
{
    if j <= 0 {
        if index < 0 || index >= len {
            r == Err::<usize, RuntimeError>(RuntimeError::IndexOutOfRange)
        } else {
            r == Ok::<usize, RuntimeError>(index as usize)
        }
    } else {
        let jj = j - 1;
        let sl = base + jj;
        if sl >= STACK_SIZE {
            r == Err::<usize, RuntimeError>(RuntimeError::StackOverflow)
        } else if !can_cast(slot(s, sl), ValueType::Integer) {
            r == Err::<usize, RuntimeError>(RuntimeError::TypeMismatch)
        } else {
            exists|x: i32|
                #![trigger int_cast(s.floats, slot(s, sl), x)]
                int_cast(s.floats, slot(s, sl), x) && {
                    let term = x * multiplier;
                    let next = index + term;
                    let m = multiplier * dims[jj];
                    if !(i32::MIN <= term <= i32::MAX) || !(i32::MIN <= next <= i32::MAX) || !(i32::MIN <= m
                        <= i32::MAX) {
                        r == Err::<usize, RuntimeError>(RuntimeError::IntegerOverflow)
                    } else {
                        index_calc(s, base, dims, jj, next, m, len, r)
                    }
                }
        }
    }
}

/// The product of the dimensions, computed left to right; `None` when it
/// overflows `i32`.
pub open spec fn dims_product(ds: Seq<i32>) -> Option<int>
    decreases ds.len(),
{
    if ds.len() == 0 {
        Some(1)
    } else {
        match dims_product(ds.drop_last()) {
            None => None,
            Some(q) => if i32::MIN <= q * ds.last() <= i32::MAX {
                Some(q * ds.last())
            } else {
                None
            },
        }
    }
}

/// The outcome of evaluating expression `e` from state `s0`: every
/// evaluation takes a step, literals give their value, a cast casts the
/// value of its operand, and operators push their operands before calling
/// their implementation.
pub open spec fn eval_rel(
    p: il::Program,
    e: il::Expr,
    s0: StateModel,
    r: Result<SpecValue, RuntimeError>,
    s1: StateModel,
) -> bool
    decreases s0.fuel, 0int,
{
    if s0.fuel == 0 {
        r == Err::<SpecValue, RuntimeError>(RuntimeError::OutOfFuel) && s1 == s0
    } else {
        let s = ticked(s0);
        match e {
            il::Expr::Integer(x) => r == Ok::<SpecValue, RuntimeError>(SpecValue::Integer(x)) && s1 == s,
            il::Expr::Float(x) => r == Ok::<SpecValue, RuntimeError>(SpecValue::Float(x)) && s1 == s,
            il::Expr::Bool(x) => r == Ok::<SpecValue, RuntimeError>(SpecValue::Bool(x)) && s1 == s,
            il::Expr::String(x) => r == Ok::<SpecValue, RuntimeError>(SpecValue::String(x@)) && s1 == s,
            il::Expr::Cast(c) => exists|r1: Result<SpecValue, RuntimeError>|
                #![trigger pick1(r1)]
                eval_rel(p, *c.expr, s, r1, s1) && match r1 {
                    Err(e) => r == Err::<SpecValue, RuntimeError>(e),
                    Ok(v) => if can_cast(v, c.target_type) {
                        r matches Ok(w) && cast_outcome(s.floats, v, c.target_type, w)
                    } else {
                        r == Err::<SpecValue, RuntimeError>(RuntimeError::TypeMismatch)
                    },
                },
            il::Expr::FunctionCall(fc) => call_rel(p, fc, s, r, s1),
            il::Expr::ArrayElemRef(il::ArrayElemRef::Global(a)) => exists|rk: Result<usize, RuntimeError>|
                #![trigger pick1(rk)]
                index_rel(p, a, s, rk, s1) && match rk {
                    Err(e) => r == Err::<SpecValue, RuntimeError>(e),
                    Ok(k) => match s1.globals[a.global_index as int] {
                        GlobalModel::Array(_, vals, _) => r == Ok::<SpecValue, RuntimeError>(vals[k as int]),
                        GlobalModel::Single(..) => r == Err::<SpecValue, RuntimeError>(RuntimeError::TypeMismatch),
                    },
                },
            il::Expr::VariableRef(v) => r == read_variable(s, v) && s1 == s,
            il::Expr::UnOp(u) => un_op_rel(p, u, s, r, s1),
            il::Expr::BinOp(b) => bin_op_rel(p, b, s, r, s1),
        }
    }
}

/// The outcome of an unary operator: the operand, pushed, then the
/// implementation.
pub open spec fn un_op_rel(p: il::Program, u: il::UnOp, s0: StateModel, r: Result<SpecValue, RuntimeError>, s1: StateModel) -> bool
    decreases s0.fuel, 0int,
{
    if s0.fuel == 0 {
        r == Err::<SpecValue, RuntimeError>(RuntimeError::OutOfFuel) && s1 == s0
    } else {
        let s = ticked(s0);
        exists|r1: Result<SpecValue, RuntimeError>, m: StateModel|
            #![trigger pick2(r1, m)]
            eval_rel(p, *u.expr, s, r1, m) && match r1 {
                Err(e) => r == Err::<SpecValue, RuntimeError>(e) && s1 == m,
                Ok(v) => match push_result(m, v) {
                    Err(e) => r == Err::<SpecValue, RuntimeError>(e) && s1 == m,
                    Ok(m2) => native_call_rel(
                        p.un_op_impls_table@[u.impl_index as int].function,
                        seq![v],
                        m2,
                        m.position,
                        r,
                        s1,
                    ),
                },
            }
    }
}

/// The outcome of a binary operator: both operands, pushed, then the
/// implementation.
pub open spec fn bin_op_rel(p: il::Program, b: il::BinOp, s0: StateModel, r: Result<SpecValue, RuntimeError>, s1: StateModel) -> bool
    decreases s0.fuel, 0int,
{
    if s0.fuel == 0 {
        r == Err::<SpecValue, RuntimeError>(RuntimeError::OutOfFuel) && s1 == s0
    } else {
        let s = ticked(s0);
        exists|r1: Result<SpecValue, RuntimeError>, m1: StateModel|
            #![trigger pick2(r1, m1)]
            eval_rel(p, *b.lhs, s, r1, m1) && match r1 {
                Err(e) => r == Err::<SpecValue, RuntimeError>(e) && s1 == m1,
                Ok(v1) => exists|r2: Result<SpecValue, RuntimeError>, m2: StateModel|
                    #![trigger pick2(r2, m2)]
                    m1.fuel < s0.fuel && eval_rel(p, *b.rhs, m1, r2, m2) && match r2 {
                        Err(e) => r == Err::<SpecValue, RuntimeError>(e) && s1 == m2,
                        Ok(v2) => match push_result(m2, v1) {
                            Err(e) => r == Err::<SpecValue, RuntimeError>(e) && s1 == m2,
                            Ok(m3) => match push_result(m3, v2) {
                                Err(e) => r == Err::<SpecValue, RuntimeError>(e) && s1 == m3,
                                Ok(m4) => native_call_rel(
                                    p.bin_op_impls_table@[b.impl_index as int].function,
                                    seq![v1, v2],
                                    m4,
                                    m2.position,
                                    r,
                                    s1,
                                ),
                            },
                        },
                    },
            }
    }
}

/// The outcome of locating an array element: the dimension expressions are
/// evaluated and pushed, then `index_calc` turns the pushed values into the
/// element's position; on success the stack position is restored.
pub open spec fn index_rel(
    p: il::Program,
    a: il::GlobalArrayElemRef,
    s0: StateModel,
    r: Result<usize, RuntimeError>,
    s1: StateModel,
) -> bool
    decreases s0.fuel, 0int,
{
    if s0.fuel == 0 {
        r == Err::<usize, RuntimeError>(RuntimeError::OutOfFuel) && s1 == s0
    } else {
        let s = ticked(s0);
        exists|rd: Result<(), RuntimeError>, m: StateModel|
            #![trigger pick2(rd, m)]
            push_values_rel(p, a.dimensions@, 0, s, rd, m) && match rd {
                Err(e) => r == Err::<usize, RuntimeError>(e) && s1 == m,
                Ok(()) => match m.globals[a.global_index as int] {
                    GlobalModel::Single(..) => r == Err::<usize, RuntimeError>(RuntimeError::TypeMismatch) && s1 == m,
                    GlobalModel::Array(dims, vals, _) => index_calc(
                        m,
                        s.position as int,
                        dims,
                        dims.len() as int,
                        0,
                        1,
                        vals.len() as int,
                        r,
                    ) && if r is Ok {
                        s1 == StateModel { position: s.position, ..m }
                    } else {
                        s1 == m
                    },
                },
            }
    }
}

/// Evaluating expressions `es[i..]` in order and pushing each value.
pub open spec fn push_values_rel(
    p: il::Program,
    es: Seq<Box<il::Expr>>,
    i: int,
    s: StateModel,
    r: Result<(), RuntimeError>,
    s1: StateModel,
) -> bool
    decreases s.fuel, 1int,
{
    if i >= es.len() || i < 0 {
        r == Ok::<(), RuntimeError>(()) && s1 == s
    } else {
        exists|rv: Result<SpecValue, RuntimeError>, m: StateModel|
            #![trigger pick2(rv, m)]
            eval_rel(p, *es[i], s, rv, m) && match rv {
                Err(e) => r == Err::<(), RuntimeError>(e) && s1 == m,
                Ok(v) => match push_result(m, v) {
                    Err(e) => r == Err::<(), RuntimeError>(e) && s1 == m,
                    Ok(m2) => m2.fuel < s.fuel && push_values_rel(p, es, i + 1, m2, r, s1),
                },
            }
    }
}

/// The outcome of a call: a function of the program gets its arguments cast
/// to its parameter types and pushed, a frame of `stack_frame_size` slots
/// with the base pointer at its first argument, and returns `Unit`; a native
/// function gets the argument values.
pub open spec fn call_rel(
    p: il::Program,
    fc: il::FunctionCall,
    s0: StateModel,
    r: Result<SpecValue, RuntimeError>,
    s1: StateModel,
) -> bool
    decreases s0.fuel, 0int,
{
    if s0.fuel == 0 {
        r == Err::<SpecValue, RuntimeError>(RuntimeError::OutOfFuel) && s1 == s0
    } else {
        let s = ticked(s0);
        match p.function_table@[fc.function_index as int] {
            il::FunctionTableEntry::Function(f) => {
                let n = if fc.arguments@.len() < f.signature.args@.len() {
                    fc.arguments@.len()
                } else {
                    f.signature.args@.len()
                };
                exists|ra: Result<(), RuntimeError>, m: StateModel|
                    #![trigger pick2(ra, m)]
                    push_args_rel(p, fc.arguments@, f.signature.args@, n as int, 0, s, ra, m) && match ra {
                        Err(e) => r == Err::<SpecValue, RuntimeError>(e) && s1 == m,
                        Ok(()) => if f.stack_frame_size < fc.arguments@.len() {
                            r == Err::<SpecValue, RuntimeError>(RuntimeError::InvalidArgument) && s1 == m
                        } else if m.position + (f.stack_frame_size - fc.arguments@.len()) > usize::MAX {
                            r == Err::<SpecValue, RuntimeError>(RuntimeError::StackOverflow) && s1 == m
                        } else {
                            let m2 = StateModel {
                                position: (m.position + (f.stack_frame_size - fc.arguments@.len())) as usize,
                                base_pointer: s.position,
                                ..m
                            };
                            exists|rf: Result<(), RuntimeError>, m3: StateModel|
                                #![trigger pick2(rf, m3)]
                                m2.fuel < s0.fuel && function_rel(p, f, m2, rf, m3) && match rf {
                                    Err(e) => r == Err::<SpecValue, RuntimeError>(e) && s1 == m3,
                                    Ok(()) => r == Ok::<SpecValue, RuntimeError>(SpecValue::Unit) && s1 == StateModel {
                                        position: s.position,
                                        base_pointer: s.base_pointer,
                                        ..m3
                                    },
                                }
                        },
                    }
            },
            il::FunctionTableEntry::FunctionImpl(fi) => exists|
                ra: Result<(), RuntimeError>,
                args: Seq<SpecValue>,
                m: StateModel,
            |
                #![trigger pick3(ra, args, m)]
                collect_args_rel(p, fc.arguments@, 0, s, Seq::empty(), ra, args, m) && match ra {
                    Err(e) => r == Err::<SpecValue, RuntimeError>(e) && s1 == m,
                    Ok(()) => native_call_rel(fi.function, args, m, s.position, r, s1),
                },
        }
    }
}

/// Evaluating the first `n` arguments from `i` on, each cast to its
/// parameter's type and pushed.
pub open spec fn push_args_rel(
    p: il::Program,
    es: Seq<Box<il::Expr>>,
    params: Seq<il::SingleVariable>,
    n: int,
    i: int,
    s: StateModel,
    r: Result<(), RuntimeError>,
    s1: StateModel,
) -> bool
    decreases s.fuel, 1int,
{
    if i >= n || i < 0 {
        r == Ok::<(), RuntimeError>(()) && s1 == s
    } else {
        exists|rv: Result<SpecValue, RuntimeError>, m: StateModel|
            #![trigger pick2(rv, m)]
            eval_rel(p, *es[i], s, rv, m) && match rv {
                Err(e) => r == Err::<(), RuntimeError>(e) && s1 == m,
                Ok(v) => if !can_cast(v, params[i].value_type) {
                    r == Err::<(), RuntimeError>(RuntimeError::TypeMismatch) && s1 == m
                } else {
                    exists|w: SpecValue|
                        #![trigger cast_outcome(m.floats, v, params[i].value_type, w)]
                        cast_outcome(m.floats, v, params[i].value_type, w) && match push_result(m, w) {
                            Err(e) => r == Err::<(), RuntimeError>(e) && s1 == m,
                            Ok(m2) => m2.fuel < s.fuel && push_args_rel(p, es, params, n, i + 1, m2, r, s1),
                        }
                },
            }
    }
}

/// Evaluating the arguments `es[i..]` in order, pushing each value; `args`
/// is the values so far and `out` all of them.
pub open spec fn collect_args_rel(
    p: il::Program,
    es: Seq<Box<il::Expr>>,
    i: int,
    s: StateModel,
    args: Seq<SpecValue>,
    r: Result<(), RuntimeError>,
    out: Seq<SpecValue>,
    s1: StateModel,
) -> bool
    decreases s.fuel, 1int,
{
    if i >= es.len() || i < 0 {
        r == Ok::<(), RuntimeError>(()) && out == args && s1 == s
    } else {
        exists|rv: Result<SpecValue, RuntimeError>, m: StateModel|
            #![trigger pick2(rv, m)]
            eval_rel(p, *es[i], s, rv, m) && match rv {
                Err(e) => r == Err::<(), RuntimeError>(e) && s1 == m,
                Ok(v) => match push_result(m, v) {
                    Err(e) => r == Err::<(), RuntimeError>(e) && s1 == m,
                    Ok(m2) => m2.fuel < s.fuel && collect_args_rel(p, es, i + 1, m2, args.push(v), r, out, s1),
                },
            }
    }
}

/// The outcome of running a function's body.
pub open spec fn function_rel(p: il::Program, f: il::Function, s0: StateModel, r: Result<(), RuntimeError>, s1: StateModel) -> bool
    decreases s0.fuel, 0int,
{
    if s0.fuel == 0 {
        r == Err::<(), RuntimeError>(RuntimeError::OutOfFuel) && s1 == s0
    } else {
        stmts_rel(p, f.body@, ticked(s0), r, s1)
    }
}

/// The outcome of running statements in order, stopping at the first that
/// fails.
pub open spec fn stmts_rel(p: il::Program, ss: Seq<il::Statement>, s0: StateModel, r: Result<(), RuntimeError>, s1: StateModel) -> bool
    decreases s0.fuel, 0int,
{
    if s0.fuel == 0 {
        r == Err::<(), RuntimeError>(RuntimeError::OutOfFuel) && s1 == s0
    } else {
        stmts_from_rel(p, ss, 0, ticked(s0), r, s1)
    }
}

/// Running statements `ss[i..]`.
pub open spec fn stmts_from_rel(
    p: il::Program,
    ss: Seq<il::Statement>,
    i: int,
    s: StateModel,
    r: Result<(), RuntimeError>,
    s1: StateModel,
) -> bool
    decreases s.fuel, 1int,
{
    if i >= ss.len() || i < 0 {
        r == Ok::<(), RuntimeError>(()) && s1 == s
    } else {
        exists|rs: Result<(), RuntimeError>, m: StateModel|
            #![trigger pick2(rs, m)]
            stmt_rel(p, ss[i], s, rs, m) && match rs {
                Err(e) => r == Err::<(), RuntimeError>(e) && s1 == m,
                Ok(()) => m.fuel < s.fuel && stmts_from_rel(p, ss, i + 1, m, r, s1),
            }
    }
}

/// The outcome of a condition: its value must be a `Bool`.
pub open spec fn cond_rel(p: il::Program, e: il::Expr, s0: StateModel, r: Result<bool, RuntimeError>, s1: StateModel) -> bool
    decreases s0.fuel, 0int,
{
    if s0.fuel == 0 {
        r == Err::<bool, RuntimeError>(RuntimeError::OutOfFuel) && s1 == s0
    } else {
        exists|rv: Result<SpecValue, RuntimeError>|
            #![trigger pick1(rv)]
            eval_rel(p, e, ticked(s0), rv, s1) && match rv {
                Err(x) => r == Err::<bool, RuntimeError>(x),
                Ok(SpecValue::Bool(b)) => r == Ok::<bool, RuntimeError>(b),
                Ok(_) => r == Err::<bool, RuntimeError>(RuntimeError::TypeMismatch),
            }
    }
}

/// The outcome of one statement.
pub open spec fn stmt_rel(p: il::Program, st: il::Statement, s0: StateModel, r: Result<(), RuntimeError>, s1: StateModel) -> bool
    decreases s0.fuel, 0int,
{
    if s0.fuel == 0 {
        r == Err::<(), RuntimeError>(RuntimeError::OutOfFuel) && s1 == s0
    } else {
        let s = ticked(s0);
        match st {
            il::Statement::ArrayAlloc(a) => array_alloc_rel(p, a, s, r, s1),
            il::Statement::If(i) => if_rel(p, i, s, r, s1),
            il::Statement::While(w) => while_rel(p, w, s, r, s1),
            il::Statement::For(f) => for_rel(p, f, s, r, s1),
            il::Statement::Restore(index) => r == Ok::<(), RuntimeError>(()) && s1 == StateModel {
                data_pointer: index,
                ..s
            },
            il::Statement::Read(l) => read_rel(p, l, s, r, s1),
            il::Statement::Assignment(a) => assignment_rel(p, a, s, r, s1),
            il::Statement::FunctionCall(fc) => exists|rv: Result<SpecValue, RuntimeError>|
                #![trigger pick1(rv)]
                call_rel(p, fc, s, rv, s1) && match rv {
                    Err(e) => r == Err::<(), RuntimeError>(e),
                    Ok(_) => r == Ok::<(), RuntimeError>(()),
                },
            il::Statement::End => r == Err::<(), RuntimeError>(RuntimeError::UnsupportedStatement) && s1 == s,
        }
    }
}

/// The outcome of allocating an array: each dimension's value, cast to an
/// integer, plus one elements; all elements the default value.
pub open spec fn array_alloc_rel(p: il::Program, a: il::ArrayAlloc, s0: StateModel, r: Result<(), RuntimeError>, s1: StateModel) -> bool
    decreases s0.fuel, 0int,
{
    if s0.fuel == 0 {
        r == Err::<(), RuntimeError>(RuntimeError::OutOfFuel) && s1 == s0
    } else {
        let s = ticked(s0);
        exists|rd: Result<(), RuntimeError>, ds: Seq<i32>, m: StateModel|
            #![trigger pick3(rd, ds, m)]
            dims_rel(p, a.dimensions@, 0, s, Seq::empty(), rd, ds, m) && match rd {
                Err(e) => r == Err::<(), RuntimeError>(e) && s1 == m,
                Ok(()) => match dims_product(ds) {
                    None => r == Err::<(), RuntimeError>(RuntimeError::IntegerOverflow) && s1 == m,
                    Some(size) => if size < 0 {
                        r == Err::<(), RuntimeError>(RuntimeError::InvalidArraySize) && s1 == m
                    } else {
                        let g = match a.array_ref {
                            il::ArrayRef::Global(g) => g as int,
                        };
                        match m.globals[g] {
                            GlobalModel::Array(..) => r == Ok::<(), RuntimeError>(()) && s1 == StateModel {
                                globals: m.globals.update(
                                    g,
                                    GlobalModel::Array(ds, default_values(size as nat, a.value_type), a.value_type),
                                ),
                                ..m
                            },
                            GlobalModel::Single(..) => r == Err::<(), RuntimeError>(RuntimeError::TypeMismatch)
                                && s1 == m,
                        }
                    },
                },
            }
    }
}

/// `n` default values of type `t`.
pub open spec fn default_values(n: nat, t: ValueType) -> Seq<SpecValue> {
    Seq::new(n, |k: int| default_value(t))
}

/// Evaluating the dimension expressions `es[i..]`; `ds` the sizes so far,
/// `out` all of them.
pub open spec fn dims_rel(
    p: il::Program,
    es: Seq<Box<il::Expr>>,
    i: int,
    s: StateModel,
    ds: Seq<i32>,
    r: Result<(), RuntimeError>,
    out: Seq<i32>,
    s1: StateModel,
) -> bool
    decreases s.fuel, 1int,
{
    if i >= es.len() || i < 0 {
        r == Ok::<(), RuntimeError>(()) && out == ds && s1 == s
    } else {
        exists|rv: Result<SpecValue, RuntimeError>, m: StateModel|
            #![trigger pick2(rv, m)]
            eval_rel(p, *es[i], s, rv, m) && match rv {
                Err(e) => r == Err::<(), RuntimeError>(e) && s1 == m,
                Ok(v) => if !can_cast(v, ValueType::Integer) {
                    r == Err::<(), RuntimeError>(RuntimeError::TypeMismatch) && s1 == m
                } else {
                    exists|x: i32|
                        #![trigger int_cast(m.floats, v, x)]
                        int_cast(m.floats, v, x) && if x == i32::MAX {
                            r == Err::<(), RuntimeError>(RuntimeError::IntegerOverflow) && s1 == m
                        } else {
                            m.fuel < s.fuel && dims_rel(p, es, i + 1, m, ds.push((x + 1) as i32), r, out, s1)
                        }
                },
            }
    }
}

/// The outcome of `If`.
pub open spec fn if_rel(p: il::Program, i: il::If, s0: StateModel, r: Result<(), RuntimeError>, s1: StateModel) -> bool
    decreases s0.fuel, 0int,
{
    if s0.fuel == 0 {
        r == Err::<(), RuntimeError>(RuntimeError::OutOfFuel) && s1 == s0
    } else {
        exists|rc: Result<bool, RuntimeError>, m: StateModel|
            #![trigger pick2(rc, m)]
            cond_rel(p, *i.condition, ticked(s0), rc, m) && match rc {
                Err(e) => r == Err::<(), RuntimeError>(e) && s1 == m,
                Ok(true) => m.fuel < s0.fuel && stmts_rel(p, i.body@, m, r, s1),
                Ok(false) => match i.else_clause {
                    Some(b) => m.fuel < s0.fuel && stmts_rel(p, b@, m, r, s1),
                    None => r == Ok::<(), RuntimeError>(()) && s1 == m,
                },
            }
    }
}

/// The outcome of `While`.
pub open spec fn while_rel(p: il::Program, w: il::While, s0: StateModel, r: Result<(), RuntimeError>, s1: StateModel) -> bool
    decreases s0.fuel, 0int,
{
    if s0.fuel == 0 {
        r == Err::<(), RuntimeError>(RuntimeError::OutOfFuel) && s1 == s0
    } else {
        while_loop_rel(p, *w.condition, w.body@, ticked(s0), r, s1)
    }
}

/// Repeating: check the condition, stop when it is false, else run the body.
pub open spec fn while_loop_rel(
    p: il::Program,
    cond: il::Expr,
    body: Seq<il::Statement>,
    s: StateModel,
    r: Result<(), RuntimeError>,
    s1: StateModel,
) -> bool
    decreases s.fuel, 1int,
{
    exists|rc: Result<bool, RuntimeError>, m: StateModel|
        #![trigger pick2(rc, m)]
        cond_rel(p, cond, s, rc, m) && match rc {
            Err(e) => r == Err::<(), RuntimeError>(e) && s1 == m,
            Ok(false) => r == Ok::<(), RuntimeError>(()) && s1 == m,
            Ok(true) => exists|rb: Result<(), RuntimeError>, m2: StateModel|
                #![trigger pick2(rb, m2)]
                m.fuel < s.fuel && stmts_rel(p, body, m, rb, m2) && match rb {
                    Err(e) => r == Err::<(), RuntimeError>(e) && s1 == m2,
                    Ok(()) => m2.fuel < s.fuel && while_loop_rel(p, cond, body, m2, r, s1),
                },
        }
}

/// The outcome of `For`: the initialization, then while the condition
/// holds, the body and the increment.
pub open spec fn for_rel(p: il::Program, f: il::For, s0: StateModel, r: Result<(), RuntimeError>, s1: StateModel) -> bool
    decreases s0.fuel, 0int,
{
    if s0.fuel == 0 {
        r == Err::<(), RuntimeError>(RuntimeError::OutOfFuel) && s1 == s0
    } else {
        exists|ri: Result<(), RuntimeError>, m: StateModel|
            #![trigger pick2(ri, m)]
            assignment_rel(p, f.initialization, ticked(s0), ri, m) && match ri {
                Err(e) => r == Err::<(), RuntimeError>(e) && s1 == m,
                Ok(()) => m.fuel < s0.fuel && for_loop_rel(p, f, m, r, s1),
            }
    }
}

pub open spec fn for_loop_rel(p: il::Program, f: il::For, s: StateModel, r: Result<(), RuntimeError>, s1: StateModel) -> bool
    decreases s.fuel, 1int,
{
    exists|rc: Result<bool, RuntimeError>, m: StateModel|
        #![trigger pick2(rc, m)]
        cond_rel(p, *f.condition, s, rc, m) && match rc {
            Err(e) => r == Err::<(), RuntimeError>(e) && s1 == m,
            Ok(false) => r == Ok::<(), RuntimeError>(()) && s1 == m,
            Ok(true) => exists|rb: Result<(), RuntimeError>, m2: StateModel|
                #![trigger pick2(rb, m2)]
                m.fuel < s.fuel && stmts_rel(p, f.body@, m, rb, m2) && match rb {
                    Err(e) => r == Err::<(), RuntimeError>(e) && s1 == m2,
                    Ok(()) => exists|ra: Result<(), RuntimeError>, m3: StateModel|
                        #![trigger pick2(ra, m3)]
                        m2.fuel < s.fuel && assignment_rel(p, f.increment, m2, ra, m3) && match ra {
                            Err(e) => r == Err::<(), RuntimeError>(e) && s1 == m3,
                            Ok(()) => m3.fuel < s.fuel && for_loop_rel(p, f, m3, r, s1),
                        },
                },
        }
}

/// The outcome of `Read`: the next data value is stored, without a cast.
pub open spec fn read_rel(p: il::Program, l: il::LValue, s0: StateModel, r: Result<(), RuntimeError>, s1: StateModel) -> bool
    decreases s0.fuel, 0int,
{
    if s0.fuel == 0 {
        r == Err::<(), RuntimeError>(RuntimeError::OutOfFuel) && s1 == s0
    } else {
        let s = ticked(s0);
        if s.data_pointer >= p.data_table@.len() {
            r == Err::<(), RuntimeError>(RuntimeError::OutOfData) && s1 == s
        } else {
            perform_rel(
                p,
                l,
                p.data_table@[s.data_pointer as int]@,
                StateModel { data_pointer: (s.data_pointer + 1) as usize, ..s },
                r,
                s1,
            )
        }
    }
}

/// The outcome of an assignment: the value first, then the store.
pub open spec fn assignment_rel(p: il::Program, a: il::Assignment, s0: StateModel, r: Result<(), RuntimeError>, s1: StateModel) -> bool
    decreases s0.fuel, 0int,
{
    if s0.fuel == 0 {
        r == Err::<(), RuntimeError>(RuntimeError::OutOfFuel) && s1 == s0
    } else {
        exists|rv: Result<SpecValue, RuntimeError>, m: StateModel|
            #![trigger pick2(rv, m)]
            eval_rel(p, *a.expr, ticked(s0), rv, m) && match rv {
                Err(e) => r == Err::<(), RuntimeError>(e) && s1 == m,
                Ok(v) => m.fuel < s0.fuel && perform_rel(p, a.l_value, v, m, r, s1),
            }
    }
}

/// The outcome of storing `x` in an l-value; for an array element the
/// dimensions are evaluated first.
pub open spec fn perform_rel(p: il::Program, l: il::LValue, x: SpecValue, s0: StateModel, r: Result<(), RuntimeError>, s1: StateModel) -> bool
    decreases s0.fuel, 0int,
{
    if s0.fuel == 0 {
        r == Err::<(), RuntimeError>(RuntimeError::OutOfFuel) && s1 == s0
    } else {
        let s = ticked(s0);
        match l {
            il::LValue::VariableRef(v) => match assign_variable_result(s, v, x) {
                Ok(m) => r == Ok::<(), RuntimeError>(()) && s1 == m,
                Err(e) => r == Err::<(), RuntimeError>(e) && s1 == s,
            },
            il::LValue::ArrayElemRef(il::ArrayElemRef::Global(a)) => exists|rk: Result<usize, RuntimeError>, m: StateModel|
                #![trigger pick2(rk, m)]
                index_rel(p, a, s, rk, m) && match rk {
                    Err(e) => r == Err::<(), RuntimeError>(e) && s1 == m,
                    Ok(k) => r == Ok::<(), RuntimeError>(()) && s1 == store_element(m, a.global_index as int, k as int, x),
                },
        }
    }
}

/// The state a program starts in, with the given number of steps and float
/// operations `fm`, when the window system has had the requests `log`
/// before.
pub open spec fn initial_state(p: il::Program, fuel: u64, log: HostLog, fm: FloatModel) -> StateModel {
    StateModel {
        context: crate::stdlib::context::initial_context(),
        requests: log,
        floats: fm,
        globals: initial_globals(p.globals@),
        stack: Seq::empty(),
        position: 0,
        base_pointer: 0,
        data_pointer: 0,
        fuel,
    }
}

/// What the globals hold at the start.
pub open spec fn initial_globals(vs: Seq<il::Variable>) -> Seq<GlobalModel> {
    vs.map_values(|v: il::Variable| initial_global_model(v))
}

/// What a global holds at the start.
pub open spec fn initial_global_model(v: il::Variable) -> GlobalModel {
    match v {
        il::Variable::SingleVariable(s) => GlobalModel::Single(default_value(s.value_type), s.value_type),
        il::Variable::Array(a) => GlobalModel::Array(Seq::empty(), Seq::empty(), a.value_type),
    }
}

} // verus!
