use vstd::prelude::*;

use crate::builtins::{call_builtin, result_view};
use crate::error::RuntimeError;
use crate::il;
use crate::impls::Native;
use crate::ops::{apply_bin_op, apply_un_op};
use crate::stdlib::context::Context;
use crate::stdlib::window::{Host, HostLog};
use crate::witness::{pick1, pick2, pick3};
use crate::value::{default_value, FloatModel, FloatOps, SpecValue, Value, ValueType};
use crate::semantics::{
    bin_op_rel, call_rel, collect_args_rel, eval_rel, index_calc, index_rel, int_cast, native_rel, push_args_rel,
    push_result, push_values_rel, read_variable,
    assign_variable_result, ticked, un_op_rel, GlobalModel,
    global_view, globals_view, initial_global_model, initial_globals, initial_state, values_view, write_slot, StateModel,
};

verus! {

/// The number of slots of the stack that locals and call arguments live in.
pub const STACK_SIZE: usize = 4194304usize;

/// A global variable while the program runs.
pub enum Variable {
    SingleVariable(SingleVariable),
    Array(Array),
}

pub struct SingleVariable {
    pub value: Value,
    pub value_type: ValueType,
}

/// An array: the size of each dimension and the elements, the last
/// dimension varying fastest.
pub struct Array {
    pub dimensions: Vec<i32>,
    pub values: Vec<Value>,
    pub value_type: ValueType,
}

/// The stack: `STACK_SIZE` slots, each `Unit` until written, and the position
/// of the first free slot. `data` holds the slots written so far; slots
/// above the position keep what was last written to them.
pub struct Stack {
    pub data: Vec<Value>,
    pub position: usize,
}

impl Stack {
    /// An empty stack: every slot `Unit`, position 0.
    pub fn new() -> (s: Stack)
        ensures
            s.position == 0,
            s.data@.len() == 0,
    {
        Stack { data: Vec::new(), position: 0 }
    }

    /// The value in slot `i`.
    pub fn read(&self, i: usize) -> (r: Result<Value, RuntimeError>)
        ensures
            match r {
                Ok(v) => i < STACK_SIZE && v@ == (if i < self.data@.len() {
                    values_view(self.data@)[i as int]
                } else {
                    SpecValue::Unit
                }),
                Err(e) => i >= STACK_SIZE && e == RuntimeError::StackOverflow,
            },
    {
        if i >= STACK_SIZE {
            return Err(RuntimeError::StackOverflow);
        }
        if i < self.data.len() {
            Ok(self.data[i].duplicate())
        } else {
            Ok(Value::Unit)
        }
    }

    /// Stores `v` in slot `i`.
    pub fn write(&mut self, i: usize, v: Value) -> (r: Result<(), RuntimeError>)
        ensures
            final(self).position == old(self).position,
            match r {
                Ok(()) => i < STACK_SIZE && values_view(final(self).data@) == write_slot(
                    values_view(old(self).data@),
                    i as int,
                    v@,
                ),
                Err(e) => i >= STACK_SIZE && e == RuntimeError::StackOverflow && *final(self)
                    == *old(self),
            },
    {
        if i >= STACK_SIZE {
            return Err(RuntimeError::StackOverflow);
        }
        let ghost v0 = v@;
        let ghost old_view = values_view(old(self).data@);
        while self.data.len() <= i
            invariant
                i < STACK_SIZE,
                self.position == old(self).position,
                old(self).data@.len() <= self.data@.len(),
                self.data@.len() <= i + 1 || self.data@ == old(self).data@,
                values_view(self.data@) == old_view + Seq::new(
                    (self.data@.len() - old_view.len()) as nat,
                    |k: int| SpecValue::Unit,
                ),
            decreases i + 1 - self.data@.len(),
        {
            let ghost before = values_view(self.data@);
            self.data.push(Value::Unit);
            proof {
                assert(values_view(self.data@) =~= before.push(SpecValue::Unit));
                assert(values_view(self.data@) =~= old_view + Seq::new(
                    (self.data@.len() - old_view.len()) as nat,
                    |k: int| SpecValue::Unit,
                ));
            }
        }
        let ghost grown = values_view(self.data@);
        self.data.set(i, v);
        proof {
            assert(values_view(self.data@) =~= grown.update(i as int, v0));
            if i < old_view.len() {
                assert(grown =~= old_view);
                assert(values_view(self.data@) =~= write_slot(old_view, i as int, v0));
            } else {
                assert(values_view(self.data@) =~= write_slot(old_view, i as int, v0));
            }
        }
        Ok(())
    }
}

/// The state of a running program.
pub struct State {
    pub context: Context,
    pub globals: Vec<Variable>,
    pub stack: Stack,
    pub base_pointer: usize,
    pub data_pointer: usize,
    /// The number of steps left: every statement, expression and call takes
    /// one.
    pub fuel: u64,
    /// The requests made of the window system so far.
    pub requests: Ghost<HostLog>,
    /// The float operations the program runs with.
    pub floats: Ghost<FloatModel>,
}

impl State {
    /// The state a program starts in, with the given number of steps and no
    /// requests made of the window system yet.
    pub fn new(program: &il::Program, fuel: u64) -> (s: State)
        ensures
            s@ == initial_state(*program, fuel, Seq::empty(), s@.floats),
    {
        let mut globals: Vec<Variable> = Vec::new();
        let mut i: usize = 0;
        while i < program.globals.len()
            invariant
                i <= program.globals@.len(),
                globals@.len() == i,
                forall|j: int|
                    0 <= j < i ==> global_view(#[trigger] globals@[j]) == initial_global_model(program.globals@[j]),
            decreases program.globals@.len() - i,
        {
            let g = match &program.globals[i] {
                il::Variable::SingleVariable(single_variable) => Variable::SingleVariable(
                    SingleVariable {
                        value: Value::default(&single_variable.value_type),
                        value_type: single_variable.value_type,
                    },
                ),
                il::Variable::Array(array) => Variable::Array(
                    Array { dimensions: Vec::new(), values: Vec::new(), value_type: array.value_type },
                ),
            };
            proof {
                assert(values_view(Seq::<Value>::empty()) =~= Seq::<SpecValue>::empty());
            }
            globals.push(g);
            i = i + 1;
        }
        let s = State {
            context: Context::new(),
            globals,
            stack: Stack::new(),
            base_pointer: 0,
            data_pointer: 0,
            fuel,
            requests: Ghost(Seq::empty()),
            floats: Ghost(vstd::pervasive::arbitrary()),
        };
        proof {
            assert(globals_view(s.globals@) =~= initial_globals(program.globals@));
            assert(values_view(s.stack.data@) =~= Seq::<SpecValue>::empty());
        }
        s
    }
}

/// Whether every table index in expression `e` is within its table.
pub open spec fn expr_wf(p: il::Program, e: il::Expr) -> bool
    decreases e,
{
    match e {
        il::Expr::Cast(c) => expr_wf(p, *c.expr),
        il::Expr::FunctionCall(f) => {
            &&& f.function_index < p.function_table@.len()
            &&& forall|i: int| 0 <= i < f.arguments@.len() ==> expr_wf(p, *#[trigger] f.arguments@[i])
        },
        il::Expr::ArrayElemRef(il::ArrayElemRef::Global(a)) => {
            &&& a.global_index < p.globals@.len()
            &&& forall|i: int| 0 <= i < a.dimensions@.len() ==> expr_wf(p, *#[trigger] a.dimensions@[i])
        },
        il::Expr::VariableRef(il::VariableRef::Global(g)) => g.global_index < p.globals@.len(),
        il::Expr::UnOp(u) => u.impl_index < p.un_op_impls_table@.len() && expr_wf(p, *u.expr),
        il::Expr::BinOp(b) => {
            &&& b.impl_index < p.bin_op_impls_table@.len()
            &&& expr_wf(p, *b.lhs)
            &&& expr_wf(p, *b.rhs)
        },
        _ => true,
    }
}

/// Whether every table index in l-value `l` is within its table.
pub open spec fn l_value_wf(p: il::Program, l: il::LValue) -> bool {
    match l {
        il::LValue::VariableRef(il::VariableRef::Global(g)) => g.global_index < p.globals@.len(),
        il::LValue::VariableRef(il::VariableRef::Local(_)) => true,
        il::LValue::ArrayElemRef(a) => expr_wf(p, il::Expr::ArrayElemRef(a)),
    }
}

pub open spec fn assignment_wf(p: il::Program, a: il::Assignment) -> bool {
    l_value_wf(p, a.l_value) && expr_wf(p, *a.expr)
}

/// Whether every table index in statement `s` is within its table.
pub open spec fn stmt_wf(p: il::Program, s: il::Statement) -> bool
    decreases s,
{
    match s {
        il::Statement::ArrayAlloc(a) => {
            &&& (a.array_ref matches il::ArrayRef::Global(g) && g < p.globals@.len())
            &&& forall|i: int| 0 <= i < a.dimensions@.len() ==> expr_wf(p, *#[trigger] a.dimensions@[i])
        },
        il::Statement::If(i) => {
            &&& expr_wf(p, *i.condition)
            &&& forall|k: int| 0 <= k < i.body@.len() ==> stmt_wf(p, #[trigger] i.body@[k])
            &&& match i.else_clause {
                Some(e) => forall|k: int| 0 <= k < e@.len() ==> stmt_wf(p, #[trigger] e@[k]),
                None => true,
            }
        },
        il::Statement::While(w) => {
            &&& expr_wf(p, *w.condition)
            &&& forall|k: int| 0 <= k < w.body@.len() ==> stmt_wf(p, #[trigger] w.body@[k])
        },
        il::Statement::For(f) => {
            &&& assignment_wf(p, f.initialization)
            &&& expr_wf(p, *f.condition)
            &&& assignment_wf(p, f.increment)
            &&& forall|k: int| 0 <= k < f.body@.len() ==> stmt_wf(p, #[trigger] f.body@[k])
        },
        il::Statement::Read(l) => l_value_wf(p, l),
        il::Statement::Assignment(a) => assignment_wf(p, a),
        il::Statement::FunctionCall(f) => expr_wf(p, il::Expr::FunctionCall(f)),
        _ => true,
    }
}

pub open spec fn stmts_wf(p: il::Program, ss: Seq<il::Statement>) -> bool {
    forall|k: int| 0 <= k < ss.len() ==> stmt_wf(p, #[trigger] ss[k])
}

/// Whether a program refers only to table entries, globals and functions that
/// exist, in its main function and in every function of its table.
pub open spec fn program_wf(p: il::Program) -> bool {
    &&& stmts_wf(p, p.main_function.body@)
    &&& forall|j: int|
        0 <= j < p.function_table@.len() ==> (#[trigger] p.function_table@[j] matches il::FunctionTableEntry::Function(f)
            ==> stmts_wf(p, f.body@))
}

fn check_exprs_wf(p: &il::Program, es: &Vec<Box<il::Expr>>) -> (b: bool)
    ensures
        b == forall|i: int| 0 <= i < es@.len() ==> expr_wf(*p, *#[trigger] es@[i]),
    decreases es@,
{
    let mut i: usize = 0;
    while i < es.len()
        invariant
            i <= es@.len(),
            forall|j: int| 0 <= j < i ==> expr_wf(*p, *#[trigger] es@[j]),
        decreases es@.len() - i,
    {
        proof {
            assert(decreases_to!(es@ => es@[i as int]));
        }
        if !check_expr_wf(p, &es[i]) {
            return false;
        }
        i = i + 1;
    }
    true
}

fn check_expr_wf(p: &il::Program, e: &il::Expr) -> (b: bool)
    ensures
        b == expr_wf(*p, *e),
    decreases *e,
{
    match e {
        il::Expr::Cast(c) => check_expr_wf(p, &c.expr),
        il::Expr::FunctionCall(f) => f.function_index < p.function_table.len() && check_exprs_wf(
            p,
            &f.arguments,
        ),
        il::Expr::ArrayElemRef(il::ArrayElemRef::Global(a)) => a.global_index < p.globals.len()
            && check_exprs_wf(p, &a.dimensions),
        il::Expr::VariableRef(il::VariableRef::Global(g)) => g.global_index < p.globals.len(),
        il::Expr::UnOp(u) => u.impl_index < p.un_op_impls_table.len() && check_expr_wf(p, &u.expr),
        il::Expr::BinOp(b) => b.impl_index < p.bin_op_impls_table.len() && check_expr_wf(p, &b.lhs)
            && check_expr_wf(p, &b.rhs),
        _ => true,
    }
}

fn check_l_value_wf(p: &il::Program, l: &il::LValue) -> (b: bool)
    ensures
        b == l_value_wf(*p, *l),
{
    match l {
        il::LValue::VariableRef(il::VariableRef::Global(g)) => g.global_index < p.globals.len(),
        il::LValue::VariableRef(il::VariableRef::Local(_)) => true,
        il::LValue::ArrayElemRef(il::ArrayElemRef::Global(a)) => a.global_index < p.globals.len()
            && check_exprs_wf(p, &a.dimensions),
    }
}

fn check_assignment_wf(p: &il::Program, a: &il::Assignment) -> (b: bool)
    ensures
        b == assignment_wf(*p, *a),
{
    check_l_value_wf(p, &a.l_value) && check_expr_wf(p, &a.expr)
}

fn check_stmts_wf(p: &il::Program, ss: &Vec<il::Statement>) -> (b: bool)
    ensures
        b == stmts_wf(*p, ss@),
    decreases ss@,
{
    let mut i: usize = 0;
    while i < ss.len()
        invariant
            i <= ss@.len(),
            forall|j: int| 0 <= j < i ==> stmt_wf(*p, #[trigger] ss@[j]),
        decreases ss@.len() - i,
    {
        proof {
            assert(decreases_to!(ss@ => ss@[i as int]));
        }
        if !check_stmt_wf(p, &ss[i]) {
            return false;
        }
        i = i + 1;
    }
    true
}

fn check_stmt_wf(p: &il::Program, s: &il::Statement) -> (b: bool)
    ensures
        b == stmt_wf(*p, *s),
    decreases *s,
{
    match s {
        il::Statement::ArrayAlloc(a) => {
            let il::ArrayRef::Global(g) = a.array_ref;
            g < p.globals.len() && check_exprs_wf(p, &a.dimensions)
        },
        il::Statement::If(i) => {
            if !check_expr_wf(p, &i.condition) || !check_stmts_wf(p, &i.body) {
                return false;
            }
            match &i.else_clause {
                Some(e) => check_stmts_wf(p, e),
                None => true,
            }
        },
        il::Statement::While(w) => check_expr_wf(p, &w.condition) && check_stmts_wf(p, &w.body),
        il::Statement::For(f) => check_assignment_wf(p, &f.initialization) && check_expr_wf(
            p,
            &f.condition,
        ) && check_assignment_wf(p, &f.increment) && check_stmts_wf(p, &f.body),
        il::Statement::Read(l) => check_l_value_wf(p, l),
        il::Statement::Assignment(a) => check_assignment_wf(p, a),
        il::Statement::FunctionCall(f) => f.function_index < p.function_table.len()
            && check_exprs_wf(p, &f.arguments),
        _ => true,
    }
}

/// Whether every table index in a program is within its table.
pub fn check_program_wf(p: &il::Program) -> (b: bool)
    ensures
        b == program_wf(*p),
{
    if !check_stmts_wf(p, &p.main_function.body) {
        return false;
    }
    let mut j: usize = 0;
    while j < p.function_table.len()
        invariant
            j <= p.function_table@.len(),
            forall|k: int|
                0 <= k < j ==> (#[trigger] p.function_table@[k] matches il::FunctionTableEntry::Function(f)
                    ==> stmts_wf(*p, f.body@)),
        decreases p.function_table@.len() - j,
    {
        if let il::FunctionTableEntry::Function(f) = &p.function_table[j] {
            if !check_stmts_wf(p, &f.body) {
                return false;
            }
        }
        j = j + 1;
    }
    true
}

/// Whether `s` fits program `p`: it has one global for each of the program's.
pub open spec fn fits(s: State, p: il::Program) -> bool {
    s.globals@.len() == p.globals@.len()
}

/// Takes one step of fuel; fails when none is left.
fn tick(state: &mut State) -> (r: Result<(), RuntimeError>)
    ensures
        match r {
            Ok(()) => old(state).fuel > 0 && *final(state) == State {
                fuel: (old(state).fuel - 1) as u64,
                ..*old(state)
            } && final(state)@ == ticked(old(state)@),
            Err(e) => old(state).fuel == 0 && e == RuntimeError::OutOfFuel && *final(state) == *old(state),
        },
{
    if state.fuel == 0 {
        return Err(RuntimeError::OutOfFuel);
    }
    state.fuel = state.fuel - 1;
    Ok(())
}

/// Pushes a value on the stack.
fn push(state: &mut State, v: Value) -> (r: Result<(), RuntimeError>)
    ensures
        final(state).globals == old(state).globals,
        final(state).fuel == old(state).fuel,
        match push_result(old(state)@, v@) {
            Ok(m) => r is Ok && final(state)@ == m,
            Err(e) => r == Err::<(), RuntimeError>(e) && *final(state) == *old(state),
        },
{
    let position = state.stack.position;
    match state.stack.write(position, v) {
        Ok(()) => {
            state.stack.position = position + 1;
            Ok(())
        },
        Err(e) => Err(e),
    }
}

/// Calls a native function with the values pushed for it.
fn call_native<H: Host, F: FloatOps>(
    n: Native,
    args: &Vec<Value>,
    state: &mut State,
    host: &mut H,
    floats: &F,
) -> (r: Result<Value, RuntimeError>)
    requires
        old(state)@.floats == floats.model(),
        old(state)@.requests == old(host).requests(),
    ensures
        final(state)@.floats == floats.model(),
        final(state)@.requests == final(host).requests(),
        final(state).globals == old(state).globals,
        final(state).fuel == old(state).fuel,
        r != Err::<Value, RuntimeError>(RuntimeError::MalformedProgram),
        native_rel(
            old(state)@.floats,
            n,
            values_view(args@),
            old(state)@.context,
            old(state)@.requests,
            result_view(r),
            final(state)@.context,
            final(state)@.requests,
        ),
        final(state)@ == (StateModel {
            context: final(state)@.context,
            requests: final(state)@.requests,
            ..old(state)@
        }),
{
    proof {
        assert forall|i: int| 0 <= i < args@.len() implies values_view(args@)[i] == (#[trigger] args@[i])@ by {}
    }
    match n {
        Native::Builtin(b) => {
            let r = call_builtin(b, args, &mut state.context, host, floats);
            state.requests = Ghost(host.requests());
            r
        },
        Native::UnOp(f) => {
            if args.len() < 1 {
                return Err(RuntimeError::InvalidArgument);
            }
            apply_un_op(f, &args[0], floats)
        },
        Native::BinOp(f) => {
            if args.len() < 2 {
                return Err(RuntimeError::InvalidArgument);
            }
            apply_bin_op(f, &args[0], &args[1], floats)
        },
    }
}

/// The value of a variable reference: a global single variable's value, or
/// the stack slot of a local, counted from the base pointer.
fn eval_variable_ref(variable_ref: &il::VariableRef, state: &State) -> (r: Result<Value, RuntimeError>)
    requires
        variable_ref matches il::VariableRef::Global(g) ==> g.global_index < state.globals@.len(),
    ensures
        result_view(r) == read_variable(state@, *variable_ref),
{
    match variable_ref {
        il::VariableRef::Global(global_variable_ref) => {
            proof {
                assert(state@.globals[global_variable_ref.global_index as int] == global_view(
                    state.globals@[global_variable_ref.global_index as int],
                ));
            }
            match &state.globals[global_variable_ref.global_index] {
                Variable::SingleVariable(single_variable) => Ok(single_variable.value.duplicate()),
                Variable::Array(_) => Err(RuntimeError::TypeMismatch),
            }
        },
        il::VariableRef::Local(local_variable_ref) => {
            match state.base_pointer.checked_add(local_variable_ref.local_index) {
                Some(i) => state.stack.read(i),
                None => Err(RuntimeError::StackOverflow),
            }
        },
    }
}

/// Stores `value` in the variable a variable reference names.
fn assign_variable(variable_ref: &il::VariableRef, value: Value, state: &mut State) -> (r: Result<(), RuntimeError>)
    requires
        variable_ref matches il::VariableRef::Global(g) ==> g.global_index < old(state).globals@.len(),
    ensures
        final(state).globals@.len() == old(state).globals@.len(),
        final(state).fuel == old(state).fuel,
        match assign_variable_result(old(state)@, *variable_ref, value@) {
            Ok(m) => r is Ok && final(state)@ == m,
            Err(e) => r == Err::<(), RuntimeError>(e) && final(state)@ == old(state)@,
        },
{
    let ghost v0 = value@;
    match variable_ref {
        il::VariableRef::Global(global_variable_ref) => {
            let g = global_variable_ref.global_index;
            proof {
                assert(old(state)@.globals[g as int] == global_view(old(state).globals@[g as int]));
            }
            let value_type = match &state.globals[g] {
                Variable::SingleVariable(single_variable) => single_variable.value_type,
                Variable::Array(_) => {
                    return Err(RuntimeError::TypeMismatch);
                },
            };
            state.globals.set(g, Variable::SingleVariable(SingleVariable { value, value_type }));
            proof {
                assert(globals_view(state.globals@) =~= globals_view(old(state).globals@).update(
                    g as int,
                    GlobalModel::Single(v0, value_type),
                ));
            }
            Ok(())
        },
        il::VariableRef::Local(local_variable_ref) => {
            match state.base_pointer.checked_add(local_variable_ref.local_index) {
                Some(i) => state.stack.write(i, value),
                None => Err(RuntimeError::StackOverflow),
            }
        },
    }
}

/// Evaluates an expression, as `eval_rel` says.
fn eval_expr<H: Host, F: FloatOps>(
    e: &il::Expr,
    p: &il::Program,
    state: &mut State,
    host: &mut H,
    floats: &F,
) -> (r: Result<Value, RuntimeError>)
    requires
        old(state)@.floats == floats.model(),
        old(state)@.requests == old(host).requests(),
        program_wf(*p),
        expr_wf(*p, *e),
        fits(*old(state), *p),
    ensures
        final(state)@.floats == floats.model(),
        final(state)@.requests == final(host).requests(),
        fits(*final(state), *p),
        final(state).fuel <= old(state).fuel,
        r is Ok ==> final(state).fuel < old(state).fuel,
        r != Err::<Value, RuntimeError>(RuntimeError::MalformedProgram),
        eval_rel(*p, *e, old(state)@, result_view(r), final(state)@),
    decreases old(state).fuel,
{
    tick(state)?;
    match e {
        il::Expr::Integer(value) => Ok(Value::Integer(*value)),
        il::Expr::Float(value) => Ok(Value::Float(*value)),
        il::Expr::Bool(value) => Ok(Value::Bool(*value)),
        il::Expr::String(value) => Ok(Value::String(value.clone())),
        il::Expr::Cast(cast) => {
            let res = eval_expr(&cast.expr, p, state, host, floats);
            assert(pick1(result_view(res)));
            let v = match res {
                Ok(v) => v,
                Err(e) => {
                    return Err(e);
                },
            };
            if !v.can_cast_to(&cast.target_type) {
                return Err(RuntimeError::TypeMismatch);
            }
            Ok(v.cast_to(&cast.target_type, floats))
        },
        il::Expr::FunctionCall(function_call) => eval_function_call(function_call, p, state, host, floats),
        il::Expr::ArrayElemRef(il::ArrayElemRef::Global(array_elem_ref)) => {
            let res = index_array_elem_ref(array_elem_ref, p, state, host, floats);
            assert(pick1(res));
            let k = match res {
                Ok(k) => k,
                Err(e) => {
                    return Err(e);
                },
            };
            let g = array_elem_ref.global_index;
            proof {
                assert(state@.globals[g as int] == global_view(state.globals@[g as int]));
            }
            match &state.globals[g] {
                Variable::Array(array) => {
                    proof {
                        assert(values_view(array.values@)[k as int] == array.values@[k as int]@);
                    }
                    Ok(array.values[k].duplicate())
                },
                Variable::SingleVariable(_) => Err(RuntimeError::TypeMismatch),
            }
        },
        il::Expr::VariableRef(variable_ref) => eval_variable_ref(variable_ref, state),
        il::Expr::UnOp(un_op) => eval_un_op(un_op, p, state, host, floats),
        il::Expr::BinOp(bin_op) => eval_bin_op(bin_op, p, state, host, floats),
    }
}

/// Evaluates an unary operator: the operand, pushed, then the
/// implementation.
fn eval_un_op<H: Host, F: FloatOps>(
    un_op: &il::UnOp,
    p: &il::Program,
    state: &mut State,
    host: &mut H,
    floats: &F,
) -> (r: Result<Value, RuntimeError>)
    requires
        old(state)@.floats == floats.model(),
        old(state)@.requests == old(host).requests(),
        program_wf(*p),
        expr_wf(*p, il::Expr::UnOp(*un_op)),
        fits(*old(state), *p),
    ensures
        final(state)@.floats == floats.model(),
        final(state)@.requests == final(host).requests(),
        fits(*final(state), *p),
        final(state).fuel <= old(state).fuel,
        r is Ok ==> final(state).fuel < old(state).fuel,
        r != Err::<Value, RuntimeError>(RuntimeError::MalformedProgram),
        un_op_rel(*p, *un_op, old(state)@, result_view(r), final(state)@),
    decreases old(state).fuel,
{
    tick(state)?;
    let res = eval_expr(&un_op.expr, p, state, host, floats);
    assert(pick2(result_view(res), state@));
    let arg = match res {
        Ok(v) => v,
        Err(e) => {
            return Err(e);
        },
    };
    let callee_base_pointer = state.stack.position;
    let mut args: Vec<Value> = Vec::new();
    args.push(arg.duplicate());
    proof {
        assert(values_view(args@) =~= seq![arg@]);
    }
    push(state, arg)?;
    let ret = call_native(p.un_op_impls_table[un_op.impl_index].function, &args, state, host, floats);
    match ret {
        Ok(v) => {
            state.stack.position = callee_base_pointer;
            Ok(v)
        },
        Err(e) => Err(e),
    }
}

/// Evaluates a binary operator: both operands, pushed, then the
/// implementation.
fn eval_bin_op<H: Host, F: FloatOps>(
    bin_op: &il::BinOp,
    p: &il::Program,
    state: &mut State,
    host: &mut H,
    floats: &F,
) -> (r: Result<Value, RuntimeError>)
    requires
        old(state)@.floats == floats.model(),
        old(state)@.requests == old(host).requests(),
        program_wf(*p),
        expr_wf(*p, il::Expr::BinOp(*bin_op)),
        fits(*old(state), *p),
    ensures
        final(state)@.floats == floats.model(),
        final(state)@.requests == final(host).requests(),
        fits(*final(state), *p),
        final(state).fuel <= old(state).fuel,
        r is Ok ==> final(state).fuel < old(state).fuel,
        r != Err::<Value, RuntimeError>(RuntimeError::MalformedProgram),
        bin_op_rel(*p, *bin_op, old(state)@, result_view(r), final(state)@),
    decreases old(state).fuel,
{
    tick(state)?;
    let ghost s = state@;
    let res1 = eval_expr(&bin_op.lhs, p, state, host, floats);
    assert(pick2(result_view(res1), state@));
    let lhs = match res1 {
        Ok(v) => v,
        Err(e) => {
            return Err(e);
        },
    };
    let res2 = eval_expr(&bin_op.rhs, p, state, host, floats);
    assert(pick2(result_view(res2), state@));
    let rhs = match res2 {
        Ok(v) => v,
        Err(e) => {
            return Err(e);
        },
    };
    let callee_base_pointer = state.stack.position;
    let mut args: Vec<Value> = Vec::new();
    args.push(lhs.duplicate());
    args.push(rhs.duplicate());
    proof {
        assert(values_view(args@) =~= seq![lhs@, rhs@]);
    }
    push(state, lhs)?;
    push(state, rhs)?;
    let ret = call_native(p.bin_op_impls_table[bin_op.impl_index].function, &args, state, host, floats);
    match ret {
        Ok(v) => {
            state.stack.position = callee_base_pointer;
            Ok(v)
        },
        Err(e) => Err(e),
    }
}

/// Finds an array element, as `index_rel` says: the dimension expressions
/// are evaluated and pushed, and the pushed values, last dimension first,
/// give the element's position, row-major with no check per dimension.
/// A position below 0 or past the last element is a run-time error,
/// `IndexOutOfRange`, that stops the program: it depends on values computed
/// while the program runs, so no precondition can rule it out beforehand.
fn index_array_elem_ref<H: Host, F: FloatOps>(
    a: &il::GlobalArrayElemRef,
    p: &il::Program,
    state: &mut State,
    host: &mut H,
    floats: &F,
) -> (r: Result<usize, RuntimeError>)
    requires
        old(state)@.floats == floats.model(),
        old(state)@.requests == old(host).requests(),
        program_wf(*p),
        expr_wf(*p, il::Expr::ArrayElemRef(il::ArrayElemRef::Global(*a))),
        fits(*old(state), *p),
    ensures
        final(state)@.floats == floats.model(),
        final(state)@.requests == final(host).requests(),
        fits(*final(state), *p),
        final(state).fuel <= old(state).fuel,
        r is Ok ==> final(state).fuel < old(state).fuel,
        r != Err::<usize, RuntimeError>(RuntimeError::MalformedProgram),
        r matches Ok(k) ==> (final(state).globals@[a.global_index as int] matches Variable::Array(x)
            && k < x.values@.len()),
        index_rel(*p, *a, old(state)@, r, final(state)@),
    decreases old(state).fuel,
{
    tick(state)?;
    let ghost s = state@;
    let ghost entry_fuel = old(state).fuel;
    let old_stack_pointer = state.stack.position;
    let mut i: usize = 0;
    while i < a.dimensions.len()
        invariant
            state@.floats == floats.model(),
            state@.requests == host.requests(),
            program_wf(*p),
            expr_wf(*p, il::Expr::ArrayElemRef(il::ArrayElemRef::Global(*a))),
            fits(*state, *p),
            state.fuel < entry_fuel,
            entry_fuel == old(state).fuel,
            s == ticked(old(state)@),
            i <= a.dimensions@.len(),
            s.fuel < entry_fuel,
            forall|rd: Result<(), RuntimeError>, s1: StateModel|
                #[trigger] push_values_rel(*p, a.dimensions@, i as int, state@, rd, s1) ==> push_values_rel(
                    *p,
                    a.dimensions@,
                    0,
                    s,
                    rd,
                    s1,
                ),
        decreases a.dimensions@.len() - i,
    {
        let ghost mi = state@;
        let res = eval_expr(&a.dimensions[i], p, state, host, floats);
        assert(pick2(result_view(res), state@));
        let value = match res {
            Ok(v) => v,
            Err(e) => {
                assert(push_values_rel(*p, a.dimensions@, i as int, mi, Err::<(), RuntimeError>(e), state@));
                assert(pick2(Err::<(), RuntimeError>(e), state@));
                return Err(e);
            },
        };
        let ghost m = state@;
        match push(state, value) {
            Ok(()) => {},
            Err(e) => {
                assert(push_values_rel(*p, a.dimensions@, i as int, mi, Err::<(), RuntimeError>(e), state@));
                assert(pick2(Err::<(), RuntimeError>(e), state@));
                return Err(e);
            },
        }
        proof {
            let m2 = state@;
            assert forall|rd: Result<(), RuntimeError>, s1: StateModel|
                #[trigger] push_values_rel(*p, a.dimensions@, i + 1, m2, rd, s1) implies push_values_rel(
                    *p,
                    a.dimensions@,
                    0,
                    s,
                    rd,
                    s1,
                ) by {
                assert(pick2(Ok::<SpecValue, RuntimeError>(value@), m));
                assert(push_values_rel(*p, a.dimensions@, i as int, mi, rd, s1));
            }
        }
        i = i + 1;
    }
    assert(push_values_rel(*p, a.dimensions@, i as int, state@, Ok::<(), RuntimeError>(()), state@));
    let ghost m = state@;
    assert(pick2(Ok::<(), RuntimeError>(()), m));
    let g = a.global_index;
    proof {
        assert(m.globals[g as int] == global_view(state.globals@[g as int]));
    }
    let k = match &state.globals[g] {
        Variable::Array(array) => {
            match compute_index(state, old_stack_pointer, &array.dimensions, array.values.len(), floats) {
                Ok(k) => k,
                Err(e) => {
                    return Err(e);
                },
            }
        },
        Variable::SingleVariable(_) => {
            return Err(RuntimeError::TypeMismatch);
        },
    };
    state.stack.position = old_stack_pointer;
    Ok(k)
}

/// The element position that the stack slots from `base` give for an array
/// with the given dimensions, as `index_calc` says.
fn compute_index<F: FloatOps>(state: &State, base: usize, dims: &Vec<i32>, len: usize, floats: &F) -> (r: Result<
    usize,
    RuntimeError,
>)
    requires
        state@.floats == floats.model(),
    ensures
        index_calc(state@, base as int, dims@, dims@.len() as int, 0, 1, len as int, r),
        r matches Ok(k) ==> k < len,
        r != Err::<usize, RuntimeError>(RuntimeError::MalformedProgram),
{
    let ghost s = state@;
    let mut index: i32 = 0;
    let mut multiplier: i32 = 1;
    let mut j: usize = dims.len();
    while j > 0
        invariant
            j <= dims@.len(),
            s == state@,
            s.floats == floats.model(),
            forall|rr: Result<usize, RuntimeError>|
                #[trigger] index_calc(s, base as int, dims@, j as int, index as int, multiplier as int, len as int, rr)
                    ==> index_calc(s, base as int, dims@, dims@.len() as int, 0, 1, len as int, rr),
        decreases j,
    {
        let ghost j0 = j;
        let ghost index0 = index;
        let ghost multiplier0 = multiplier;
        j = j - 1;
        let sl = match base.checked_add(j) {
            Some(x) => x,
            None => {
                assert(index_calc(s, base as int, dims@, j0 as int, index0 as int, multiplier0 as int, len as int, Err::<usize, RuntimeError>(RuntimeError::StackOverflow)));
                return Err(RuntimeError::StackOverflow);
            },
        };
        let v = match state.stack.read(sl) {
            Ok(v) => v,
            Err(e) => {
                assert(index_calc(s, base as int, dims@, j0 as int, index0 as int, multiplier0 as int, len as int, Err::<usize, RuntimeError>(e)));
                return Err(e);
            },
        };
        assert(v@ == crate::semantics::slot(s, sl as int));
        if !v.can_cast_to(&ValueType::Integer) {
            assert(index_calc(s, base as int, dims@, j0 as int, index0 as int, multiplier0 as int, len as int, Err::<usize, RuntimeError>(RuntimeError::TypeMismatch)));
            return Err(RuntimeError::TypeMismatch);
        }
        let x = v.cast_to_integer(floats).as_integer();
        assert(int_cast(floats.model(), v@, x));
        let term = match x.checked_mul(multiplier) {
            Some(t) => t,
            None => {
                assert(index_calc(s, base as int, dims@, j0 as int, index0 as int, multiplier0 as int, len as int, Err::<usize, RuntimeError>(RuntimeError::IntegerOverflow)));
                return Err(RuntimeError::IntegerOverflow);
            },
        };
        let next = match index.checked_add(term) {
            Some(t) => t,
            None => {
                assert(index_calc(s, base as int, dims@, j0 as int, index0 as int, multiplier0 as int, len as int, Err::<usize, RuntimeError>(RuntimeError::IntegerOverflow)));
                return Err(RuntimeError::IntegerOverflow);
            },
        };
        let m = match multiplier.checked_mul(dims[j]) {
            Some(t) => t,
            None => {
                assert(index_calc(s, base as int, dims@, j0 as int, index0 as int, multiplier0 as int, len as int, Err::<usize, RuntimeError>(RuntimeError::IntegerOverflow)));
                return Err(RuntimeError::IntegerOverflow);
            },
        };
        proof {
            assert forall|rr: Result<usize, RuntimeError>|
                #[trigger] index_calc(s, base as int, dims@, j as int, next as int, m as int, len as int, rr) implies index_calc(
                    s,
                    base as int,
                    dims@,
                    dims@.len() as int,
                    0,
                    1,
                    len as int,
                    rr,
                ) by {
                assert(index_calc(s, base as int, dims@, j0 as int, index0 as int, multiplier0 as int, len as int, rr));
            }
        }
        index = next;
        multiplier = m;
    }
    if index < 0 || index as usize >= len {
        assert(index_calc(s, base as int, dims@, 0, index as int, multiplier as int, len as int, Err::<usize, RuntimeError>(RuntimeError::IndexOutOfRange)));
        return Err(RuntimeError::IndexOutOfRange);
    }
    assert(index_calc(s, base as int, dims@, 0, index as int, multiplier as int, len as int, Ok::<usize, RuntimeError>(index as usize)));
    Ok(index as usize)
}

/// Calls a function, as `call_rel` says.
fn eval_function_call<H: Host, F: FloatOps>(
    function_call: &il::FunctionCall,
    p: &il::Program,
    state: &mut State,
    host: &mut H,
    floats: &F,
) -> (r: Result<Value, RuntimeError>)
    requires
        old(state)@.floats == floats.model(),
        old(state)@.requests == old(host).requests(),
        program_wf(*p),
        expr_wf(*p, il::Expr::FunctionCall(*function_call)),
        fits(*old(state), *p),
    ensures
        final(state)@.floats == floats.model(),
        final(state)@.requests == final(host).requests(),
        fits(*final(state), *p),
        final(state).fuel <= old(state).fuel,
        r is Ok ==> final(state).fuel < old(state).fuel,
        r != Err::<Value, RuntimeError>(RuntimeError::MalformedProgram),
        call_rel(*p, *function_call, old(state)@, result_view(r), final(state)@),
    decreases old(state).fuel,
{
    tick(state)?;
    let ghost s = state@;
    let ghost entry_fuel = old(state).fuel;
    let es = &function_call.arguments;
    match &p.function_table[function_call.function_index] {
        il::FunctionTableEntry::Function(function) => {
            let caller_base_pointer = state.base_pointer;
            let callee_base_pointer = state.stack.position;
            let n = if function_call.arguments.len() < function.signature.args.len() {
                function_call.arguments.len()
            } else {
                function.signature.args.len()
            };
            let ghost params = function.signature.args@;
            let mut i: usize = 0;
            while i < n
                invariant
                    state@.floats == floats.model(),
                    state@.requests == host.requests(),
                    program_wf(*p),
                    expr_wf(*p, il::Expr::FunctionCall(*function_call)),
                    fits(*state, *p),
                    es@ == function_call.arguments@,
                    state.fuel < entry_fuel,
                    entry_fuel == old(state).fuel,
                    s == ticked(old(state)@),
                    s.fuel < entry_fuel,
                    p.function_table@[function_call.function_index as int] == il::FunctionTableEntry::Function(*function),
                    n == (if function_call.arguments@.len() < function.signature.args@.len() {
                        function_call.arguments@.len()
                    } else {
                        function.signature.args@.len()
                    }),
                    params == function.signature.args@,
                    i <= n,
                    forall|ra: Result<(), RuntimeError>, s1: StateModel|
                        #[trigger] push_args_rel(*p, es@, params, n as int, i as int, state@, ra, s1)
                            ==> push_args_rel(*p, es@, params, n as int, 0, s, ra, s1),
                decreases n - i,
            {
                let ghost mi = state@;
                let res = eval_expr(&function_call.arguments[i], p, state, host, floats);
                assert(pick2(result_view(res), state@));
                let value = match res {
                    Ok(v) => v,
                    Err(e) => {
                        assert(push_args_rel(*p, es@, params, n as int, i as int, mi, Err::<(), RuntimeError>(e), state@));
                        assert(pick2(Err::<(), RuntimeError>(e), state@));
                        return Err(e);
                    },
                };
                let ghost m = state@;
                let t = function.signature.args[i].value_type;
                if !value.can_cast_to(&t) {
                    assert(push_args_rel(*p, es@, params, n as int, i as int, mi, Err::<(), RuntimeError>(RuntimeError::TypeMismatch), state@));
                    assert(pick2(Err::<(), RuntimeError>(RuntimeError::TypeMismatch), state@));
                    return Err(RuntimeError::TypeMismatch);
                }
                let cast = value.cast_to(&t, floats);
                assert(crate::semantics::cast_outcome(floats.model(), value@, t, cast@));
                match push(state, cast) {
                    Ok(()) => {},
                    Err(e) => {
                        assert(push_args_rel(*p, es@, params, n as int, i as int, mi, Err::<(), RuntimeError>(e), state@));
                        assert(pick2(Err::<(), RuntimeError>(e), state@));
                        return Err(e);
                    },
                }
                proof {
                    let m2 = state@;
                    assert forall|ra: Result<(), RuntimeError>, s1: StateModel|
                        #[trigger] push_args_rel(*p, es@, params, n as int, i + 1, m2, ra, s1) implies push_args_rel(
                            *p,
                            es@,
                            params,
                            n as int,
                            0,
                            s,
                            ra,
                            s1,
                        ) by {
                        assert(pick2(Ok::<SpecValue, RuntimeError>(value@), m));
                        assert(push_args_rel(*p, es@, params, n as int, i as int, mi, ra, s1));
                    }
                }
                i = i + 1;
            }
            assert(push_args_rel(*p, es@, params, n as int, i as int, state@, Ok::<(), RuntimeError>(()), state@));
            let ghost m = state@;
            assert(pick2(Ok::<(), RuntimeError>(()), m));
            if function.stack_frame_size < function_call.arguments.len() {
                return Err(RuntimeError::InvalidArgument);
            }
            let extra = function.stack_frame_size - function_call.arguments.len();
            state.stack.position = match state.stack.position.checked_add(extra) {
                Some(x) => x,
                None => {
                    return Err(RuntimeError::StackOverflow);
                },
            };
            state.base_pointer = callee_base_pointer;
            let ghost m2 = state@;
            let rf = interpret_function(function, p, state, host, floats);
            assert(pick2(rf, state@));
            match rf {
                Ok(()) => {},
                Err(e) => {
                    return Err(e);
                },
            }
            state.stack.position = callee_base_pointer;
            state.base_pointer = caller_base_pointer;
            Ok(Value::Unit)
        },
        il::FunctionTableEntry::FunctionImpl(function_impl) => {
            let callee_base_pointer = state.stack.position;
            let mut args: Vec<Value> = Vec::new();
            proof {
                assert(values_view(args@) =~= Seq::<SpecValue>::empty());
            }
            let mut i: usize = 0;
            while i < function_call.arguments.len()
                invariant
                    state@.floats == floats.model(),
                    state@.requests == host.requests(),
                    program_wf(*p),
                    expr_wf(*p, il::Expr::FunctionCall(*function_call)),
                    fits(*state, *p),
                    es@ == function_call.arguments@,
                    state.fuel < entry_fuel,
                    entry_fuel == old(state).fuel,
                    s == ticked(old(state)@),
                    s.fuel < entry_fuel,
                    i <= function_call.arguments@.len(),
                    p.function_table@[function_call.function_index as int] == il::FunctionTableEntry::FunctionImpl(*function_impl),
                    forall|ra: Result<(), RuntimeError>, out: Seq<SpecValue>, s1: StateModel|
                        #[trigger] collect_args_rel(*p, es@, i as int, state@, values_view(args@), ra, out, s1)
                            ==> collect_args_rel(*p, es@, 0, s, Seq::empty(), ra, out, s1),
                decreases function_call.arguments@.len() - i,
            {
                let ghost mi = state@;
                let ghost before = values_view(args@);
                let res = eval_expr(&function_call.arguments[i], p, state, host, floats);
                assert(pick2(result_view(res), state@));
                let value = match res {
                    Ok(v) => v,
                    Err(e) => {
                        assert(collect_args_rel(*p, es@, i as int, mi, before, Err::<(), RuntimeError>(e), before, state@));
                        assert(pick3(Err::<(), RuntimeError>(e), before, state@));
                        return Err(e);
                    },
                };
                let ghost m = state@;
                args.push(value.duplicate());
                proof {
                    assert(values_view(args@) =~= before.push(value@));
                }
                match push(state, value) {
                    Ok(()) => {},
                    Err(e) => {
                        assert(collect_args_rel(*p, es@, i as int, mi, before, Err::<(), RuntimeError>(e), before, state@));
                        assert(pick3(Err::<(), RuntimeError>(e), before, state@));
                        return Err(e);
                    },
                }
                proof {
                    let m2 = state@;
                    assert forall|ra: Result<(), RuntimeError>, out: Seq<SpecValue>, s1: StateModel|
                        #[trigger] collect_args_rel(*p, es@, i + 1, m2, values_view(args@), ra, out, s1) implies collect_args_rel(
                            *p,
                            es@,
                            0,
                            s,
                            Seq::empty(),
                            ra,
                            out,
                            s1,
                        ) by {
                        assert(pick2(Ok::<SpecValue, RuntimeError>(value@), m));
                        assert(collect_args_rel(*p, es@, i as int, mi, before, ra, out, s1));
                    }
                }
                i = i + 1;
            }
            let ghost av = values_view(args@);
            assert(collect_args_rel(*p, es@, i as int, state@, av, Ok::<(), RuntimeError>(()), av, state@));
            assert(pick3(Ok::<(), RuntimeError>(()), av, state@));
            let ret = call_native(function_impl.function, &args, state, host, floats);
            match ret {
                Ok(v) => {
                    state.stack.position = callee_base_pointer;
                    Ok(v)
                },
                Err(e) => Err(e),
            }
        },
    }
}

/// Runs the body of a function.
fn interpret_function<H: Host, F: FloatOps>(
    function: &il::Function,
    p: &il::Program,
    state: &mut State,
    host: &mut H,
    floats: &F,
) -> (r: Result<(), RuntimeError>)
    requires
        old(state)@.floats == floats.model(),
        old(state)@.requests == old(host).requests(),
        program_wf(*p),
        stmts_wf(*p, function.body@),
        fits(*old(state), *p),
    ensures
        final(state)@.floats == floats.model(),
        final(state)@.requests == final(host).requests(),
        fits(*final(state), *p),
        final(state).fuel <= old(state).fuel,
        r is Ok ==> final(state).fuel < old(state).fuel,
        r != Err::<(), RuntimeError>(RuntimeError::MalformedProgram),
        crate::semantics::function_rel(*p, *function, old(state)@, r, final(state)@),
    decreases old(state).fuel,
{
    tick(state)?;
    interpret_statements(&function.body, p, state, host, floats)
}

/// Runs statements in order, stopping at the first that fails.
fn interpret_statements<H: Host, F: FloatOps>(
    statements: &Vec<il::Statement>,
    p: &il::Program,
    state: &mut State,
    host: &mut H,
    floats: &F,
) -> (r: Result<(), RuntimeError>)
    requires
        old(state)@.floats == floats.model(),
        old(state)@.requests == old(host).requests(),
        program_wf(*p),
        stmts_wf(*p, statements@),
        fits(*old(state), *p),
    ensures
        final(state)@.floats == floats.model(),
        final(state)@.requests == final(host).requests(),
        fits(*final(state), *p),
        final(state).fuel <= old(state).fuel,
        r is Ok ==> final(state).fuel < old(state).fuel,
        r != Err::<(), RuntimeError>(RuntimeError::MalformedProgram),
        crate::semantics::stmts_rel(*p, statements@, old(state)@, r, final(state)@),
    decreases old(state).fuel,
{
    tick(state)?;
    let ghost s = state@;
    let ghost entry_fuel = old(state).fuel;
    let mut i: usize = 0;
    while i < statements.len()
        invariant
            state@.floats == floats.model(),
            state@.requests == host.requests(),
            program_wf(*p),
            stmts_wf(*p, statements@),
            fits(*state, *p),
            state.fuel < entry_fuel,
            entry_fuel == old(state).fuel,
            s == ticked(old(state)@),
            i <= statements@.len(),
            forall|rs: Result<(), RuntimeError>, s1: StateModel|
                #[trigger] crate::semantics::stmts_from_rel(*p, statements@, i as int, state@, rs, s1)
                    ==> crate::semantics::stmts_from_rel(*p, statements@, 0, s, rs, s1),
        decreases statements@.len() - i,
    {
        let ghost mi = state@;
        let rs = interpret_statement(&statements[i], p, state, host, floats);
        assert(pick2(rs, state@));
        match rs {
            Ok(()) => {},
            Err(e) => {
                assert(crate::semantics::stmts_from_rel(*p, statements@, i as int, mi, Err::<(), RuntimeError>(e), state@));
                return Err(e);
            },
        }
        proof {
            let m = state@;
            assert forall|rs: Result<(), RuntimeError>, s1: StateModel|
                #[trigger] crate::semantics::stmts_from_rel(*p, statements@, i + 1, m, rs, s1) implies crate::semantics::stmts_from_rel(
                    *p,
                    statements@,
                    0,
                    s,
                    rs,
                    s1,
                ) by {
                assert(crate::semantics::stmts_from_rel(*p, statements@, i as int, mi, rs, s1));
            }
        }
        i = i + 1;
    }
    assert(crate::semantics::stmts_from_rel(*p, statements@, i as int, state@, Ok::<(), RuntimeError>(()), state@));
    Ok(())
}

/// Stores a value in what an l-value names; for an array element the
/// dimension expressions are evaluated after the value.
fn perform_assignment<H: Host, F: FloatOps>(
    l_value: &il::LValue,
    value: Value,
    p: &il::Program,
    state: &mut State,
    host: &mut H,
    floats: &F,
) -> (r: Result<(), RuntimeError>)
    requires
        old(state)@.floats == floats.model(),
        old(state)@.requests == old(host).requests(),
        program_wf(*p),
        l_value_wf(*p, *l_value),
        fits(*old(state), *p),
    ensures
        final(state)@.floats == floats.model(),
        final(state)@.requests == final(host).requests(),
        fits(*final(state), *p),
        final(state).fuel <= old(state).fuel,
        r is Ok ==> final(state).fuel < old(state).fuel,
        r != Err::<(), RuntimeError>(RuntimeError::MalformedProgram),
        crate::semantics::perform_rel(*p, *l_value, value@, old(state)@, r, final(state)@),
    decreases old(state).fuel,
{
    tick(state)?;
    let ghost v0 = value@;
    match l_value {
        il::LValue::VariableRef(variable_ref) => match assign_variable(variable_ref, value, state) {
            Ok(()) => Ok(()),
            Err(e) => Err(e),
        },
        il::LValue::ArrayElemRef(il::ArrayElemRef::Global(array_elem_ref)) => {
            let rk = index_array_elem_ref(array_elem_ref, p, state, host, floats);
            assert(pick2(rk, state@));
            let k = match rk {
                Ok(k) => k,
                Err(e) => {
                    return Err(e);
                },
            };
            let ghost m = state@;
            let g = array_elem_ref.global_index;
            let mut variable = Variable::SingleVariable(
                SingleVariable { value: Value::Unit, value_type: ValueType::Unit },
            );
            let ghost gs = state.globals@;
            std::mem::swap(&mut variable, &mut state.globals[g]);
            match variable {
                Variable::Array(mut array) => {
                    let ghost a0 = array;
                    array.values.set(k, value);
                    state.globals.set(g, Variable::Array(array));
                    proof {
                        assert(m.globals[g as int] == global_view(gs[g as int]));
                        assert(values_view(array.values@) =~= values_view(a0.values@).update(k as int, v0));
                        assert(globals_view(state.globals@) =~= globals_view(gs).update(
                            g as int,
                            GlobalModel::Array(a0.dimensions@, values_view(a0.values@).update(k as int, v0), a0.value_type),
                        ));
                    }
                    Ok(())
                },
                Variable::SingleVariable(_) => Err(RuntimeError::TypeMismatch),
            }
        },
    }
}

/// Evaluates the right-hand side, then stores it.
fn interpret_assignment<H: Host, F: FloatOps>(
    assignment: &il::Assignment,
    p: &il::Program,
    state: &mut State,
    host: &mut H,
    floats: &F,
) -> (r: Result<(), RuntimeError>)
    requires
        old(state)@.floats == floats.model(),
        old(state)@.requests == old(host).requests(),
        program_wf(*p),
        assignment_wf(*p, *assignment),
        fits(*old(state), *p),
    ensures
        final(state)@.floats == floats.model(),
        final(state)@.requests == final(host).requests(),
        fits(*final(state), *p),
        final(state).fuel <= old(state).fuel,
        r is Ok ==> final(state).fuel < old(state).fuel,
        r != Err::<(), RuntimeError>(RuntimeError::MalformedProgram),
        crate::semantics::assignment_rel(*p, *assignment, old(state)@, r, final(state)@),
    decreases old(state).fuel,
{
    tick(state)?;
    let res = eval_expr(&assignment.expr, p, state, host, floats);
    assert(pick2(result_view(res), state@));
    let value = match res {
        Ok(v) => v,
        Err(e) => {
            return Err(e);
        },
    };
    perform_assignment(&assignment.l_value, value, p, state, host, floats)
}

/// The truth value of a condition; it must be a `Bool`.
fn eval_condition<H: Host, F: FloatOps>(
    e: &il::Expr,
    p: &il::Program,
    state: &mut State,
    host: &mut H,
    floats: &F,
) -> (r: Result<bool, RuntimeError>)
    requires
        old(state)@.floats == floats.model(),
        old(state)@.requests == old(host).requests(),
        program_wf(*p),
        expr_wf(*p, *e),
        fits(*old(state), *p),
    ensures
        final(state)@.floats == floats.model(),
        final(state)@.requests == final(host).requests(),
        fits(*final(state), *p),
        final(state).fuel <= old(state).fuel,
        r is Ok ==> final(state).fuel < old(state).fuel,
        r != Err::<bool, RuntimeError>(RuntimeError::MalformedProgram),
        crate::semantics::cond_rel(*p, *e, old(state)@, r, final(state)@),
    decreases old(state).fuel,
{
    tick(state)?;
    let res = eval_expr(e, p, state, host, floats);
    assert(pick1(result_view(res)));
    let v = match res {
        Ok(v) => v,
        Err(x) => {
            return Err(x);
        },
    };
    match v {
        Value::Bool(b) => Ok(b),
        _ => Err(RuntimeError::TypeMismatch),
    }
}

/// Runs one statement, as `stmt_rel` says.
fn interpret_statement<H: Host, F: FloatOps>(
    statement: &il::Statement,
    p: &il::Program,
    state: &mut State,
    host: &mut H,
    floats: &F,
) -> (r: Result<(), RuntimeError>)
    requires
        old(state)@.floats == floats.model(),
        old(state)@.requests == old(host).requests(),
        program_wf(*p),
        stmt_wf(*p, *statement),
        fits(*old(state), *p),
    ensures
        final(state)@.floats == floats.model(),
        final(state)@.requests == final(host).requests(),
        fits(*final(state), *p),
        final(state).fuel <= old(state).fuel,
        r is Ok ==> final(state).fuel < old(state).fuel,
        r != Err::<(), RuntimeError>(RuntimeError::MalformedProgram),
        crate::semantics::stmt_rel(*p, *statement, old(state)@, r, final(state)@),
    decreases old(state).fuel,
{
    tick(state)?;
    match statement {
        il::Statement::ArrayAlloc(array_alloc) => interpret_array_alloc(array_alloc, p, state, host, floats),
        il::Statement::If(if_statement) => interpret_if_statement(if_statement, p, state, host, floats),
        il::Statement::While(while_statement) => interpret_while_statement(while_statement, p, state, host, floats),
        il::Statement::For(for_statement) => interpret_for_statement(for_statement, p, state, host, floats),
        il::Statement::Restore(index) => {
            state.data_pointer = *index;
            Ok(())
        },
        il::Statement::Read(l_value) => interpret_read(l_value, p, state, host, floats),
        il::Statement::Assignment(assignment) => interpret_assignment(assignment, p, state, host, floats),
        il::Statement::FunctionCall(function_call) => {
            let rv = eval_function_call(function_call, p, state, host, floats);
            assert(pick1(result_view(rv)));
            match rv {
                Ok(_) => Ok(()),
                Err(e) => Err(e),
            }
        },
        il::Statement::End => Err(RuntimeError::UnsupportedStatement),
    }
}

/// `Read`: stores the next data value, without a cast. Reading past the
/// data table is a run-time error, `OutOfData`, that stops the program and
/// assigns nothing; where the data pointer stands depends on the run, so no
/// precondition can rule it out beforehand.
fn interpret_read<H: Host, F: FloatOps>(
    l_value: &il::LValue,
    p: &il::Program,
    state: &mut State,
    host: &mut H,
    floats: &F,
) -> (r: Result<(), RuntimeError>)
    requires
        old(state)@.floats == floats.model(),
        old(state)@.requests == old(host).requests(),
        program_wf(*p),
        l_value_wf(*p, *l_value),
        fits(*old(state), *p),
    ensures
        final(state)@.floats == floats.model(),
        final(state)@.requests == final(host).requests(),
        fits(*final(state), *p),
        final(state).fuel <= old(state).fuel,
        r is Ok ==> final(state).fuel < old(state).fuel,
        r != Err::<(), RuntimeError>(RuntimeError::MalformedProgram),
        crate::semantics::read_rel(*p, *l_value, old(state)@, r, final(state)@),
    decreases old(state).fuel,
{
    tick(state)?;
    if state.data_pointer >= p.data_table.len() {
        return Err(RuntimeError::OutOfData);
    }
    let value = p.data_table[state.data_pointer].duplicate();
    state.data_pointer = state.data_pointer + 1;
    perform_assignment(l_value, value, p, state, host, floats)
}

/// `If`: the body when the condition holds, else the else branch.
fn interpret_if_statement<H: Host, F: FloatOps>(
    if_statement: &il::If,
    p: &il::Program,
    state: &mut State,
    host: &mut H,
    floats: &F,
) -> (r: Result<(), RuntimeError>)
    requires
        old(state)@.floats == floats.model(),
        old(state)@.requests == old(host).requests(),
        program_wf(*p),
        stmt_wf(*p, il::Statement::If(*if_statement)),
        fits(*old(state), *p),
    ensures
        final(state)@.floats == floats.model(),
        final(state)@.requests == final(host).requests(),
        fits(*final(state), *p),
        final(state).fuel <= old(state).fuel,
        r is Ok ==> final(state).fuel < old(state).fuel,
        r != Err::<(), RuntimeError>(RuntimeError::MalformedProgram),
        crate::semantics::if_rel(*p, *if_statement, old(state)@, r, final(state)@),
    decreases old(state).fuel,
{
    tick(state)?;
    let rc = eval_condition(&if_statement.condition, p, state, host, floats);
    assert(pick2(rc, state@));
    let c = match rc {
        Ok(c) => c,
        Err(e) => {
            return Err(e);
        },
    };
    if c {
        interpret_statements(&if_statement.body, p, state, host, floats)
    } else {
        match &if_statement.else_clause {
            Some(else_clause) => interpret_statements(else_clause, p, state, host, floats),
            None => Ok(()),
        }
    }
}

/// `While`: the body while the condition holds.
fn interpret_while_statement<H: Host, F: FloatOps>(
    while_statement: &il::While,
    p: &il::Program,
    state: &mut State,
    host: &mut H,
    floats: &F,
) -> (r: Result<(), RuntimeError>)
    requires
        old(state)@.floats == floats.model(),
        old(state)@.requests == old(host).requests(),
        program_wf(*p),
        stmt_wf(*p, il::Statement::While(*while_statement)),
        fits(*old(state), *p),
    ensures
        final(state)@.floats == floats.model(),
        final(state)@.requests == final(host).requests(),
        fits(*final(state), *p),
        final(state).fuel <= old(state).fuel,
        r is Ok ==> final(state).fuel < old(state).fuel,
        r != Err::<(), RuntimeError>(RuntimeError::MalformedProgram),
        crate::semantics::while_rel(*p, *while_statement, old(state)@, r, final(state)@),
    decreases old(state).fuel,
{
    tick(state)?;
    let ghost s = state@;
    let ghost entry_fuel = old(state).fuel;
    let ghost cond = *while_statement.condition;
    let ghost body = while_statement.body@;
    loop
        invariant
            state@.floats == floats.model(),
            state@.requests == host.requests(),
            program_wf(*p),
            stmt_wf(*p, il::Statement::While(*while_statement)),
            fits(*state, *p),
            state.fuel < entry_fuel,
            entry_fuel == old(state).fuel,
            s == ticked(old(state)@),
            cond == *while_statement.condition,
            body == while_statement.body@,
            forall|rw: Result<(), RuntimeError>, s1: StateModel|
                #[trigger] crate::semantics::while_loop_rel(*p, cond, body, state@, rw, s1)
                    ==> crate::semantics::while_loop_rel(*p, cond, body, s, rw, s1),
        decreases state.fuel,
    {
        let ghost mi = state@;
        let rc = eval_condition(&while_statement.condition, p, state, host, floats);
        assert(pick2(rc, state@));
        let c = match rc {
            Ok(c) => c,
            Err(e) => {
                assert(crate::semantics::while_loop_rel(*p, cond, body, mi, Err::<(), RuntimeError>(e), state@));
                return Err(e);
            },
        };
        let ghost m = state@;
        if !c {
            assert(crate::semantics::while_loop_rel(*p, cond, body, mi, Ok::<(), RuntimeError>(()), m));
            return Ok(());
        }
        let rb = interpret_statements(&while_statement.body, p, state, host, floats);
        assert(pick2(rb, state@));
        match rb {
            Ok(()) => {},
            Err(e) => {
                assert(crate::semantics::while_loop_rel(*p, cond, body, mi, Err::<(), RuntimeError>(e), state@));
                return Err(e);
            },
        }
        proof {
            let m2 = state@;
            assert forall|rw: Result<(), RuntimeError>, s1: StateModel|
                #[trigger] crate::semantics::while_loop_rel(*p, cond, body, m2, rw, s1) implies crate::semantics::while_loop_rel(
                    *p,
                    cond,
                    body,
                    s,
                    rw,
                    s1,
                ) by {
                assert(crate::semantics::while_loop_rel(*p, cond, body, mi, rw, s1));
            }
        }
    }
}

/// `For`: the initialization, then while the condition holds the body and
/// the increment.
fn interpret_for_statement<H: Host, F: FloatOps>(
    for_statement: &il::For,
    p: &il::Program,
    state: &mut State,
    host: &mut H,
    floats: &F,
) -> (r: Result<(), RuntimeError>)
    requires
        old(state)@.floats == floats.model(),
        old(state)@.requests == old(host).requests(),
        program_wf(*p),
        stmt_wf(*p, il::Statement::For(*for_statement)),
        fits(*old(state), *p),
    ensures
        final(state)@.floats == floats.model(),
        final(state)@.requests == final(host).requests(),
        fits(*final(state), *p),
        final(state).fuel <= old(state).fuel,
        r is Ok ==> final(state).fuel < old(state).fuel,
        r != Err::<(), RuntimeError>(RuntimeError::MalformedProgram),
        crate::semantics::for_rel(*p, *for_statement, old(state)@, r, final(state)@),
    decreases old(state).fuel,
{
    tick(state)?;
    let ghost s = state@;
    let ghost entry_fuel = old(state).fuel;
    let ghost f = *for_statement;
    let ri = interpret_assignment(&for_statement.initialization, p, state, host, floats);
    assert(pick2(ri, state@));
    match ri {
        Ok(()) => {},
        Err(e) => {
            return Err(e);
        },
    }
    let ghost m0 = state@;
    loop
        invariant
            state@.floats == floats.model(),
            state@.requests == host.requests(),
            program_wf(*p),
            stmt_wf(*p, il::Statement::For(*for_statement)),
            fits(*state, *p),
            state.fuel < entry_fuel,
            entry_fuel == old(state).fuel,
            s == ticked(old(state)@),
            f == *for_statement,
            crate::semantics::assignment_rel(*p, f.initialization, s, Ok::<(), RuntimeError>(()), m0),
            pick2(Ok::<(), RuntimeError>(()), m0),
            m0.fuel < entry_fuel,
            forall|rw: Result<(), RuntimeError>, s1: StateModel|
                #[trigger] crate::semantics::for_loop_rel(*p, f, state@, rw, s1)
                    ==> crate::semantics::for_loop_rel(*p, f, m0, rw, s1),
        decreases state.fuel,
    {
        let ghost mi = state@;
        let rc = eval_condition(&for_statement.condition, p, state, host, floats);
        assert(pick2(rc, state@));
        let c = match rc {
            Ok(c) => c,
            Err(e) => {
                assert(crate::semantics::for_loop_rel(*p, f, mi, Err::<(), RuntimeError>(e), state@));
                return Err(e);
            },
        };
        let ghost m = state@;
        if !c {
            assert(crate::semantics::for_loop_rel(*p, f, mi, Ok::<(), RuntimeError>(()), m));
            return Ok(());
        }
        let rb = interpret_statements(&for_statement.body, p, state, host, floats);
        assert(pick2(rb, state@));
        match rb {
            Ok(()) => {},
            Err(e) => {
                assert(crate::semantics::for_loop_rel(*p, f, mi, Err::<(), RuntimeError>(e), state@));
                return Err(e);
            },
        }
        let ra = interpret_assignment(&for_statement.increment, p, state, host, floats);
        assert(pick2(ra, state@));
        match ra {
            Ok(()) => {},
            Err(e) => {
                assert(crate::semantics::for_loop_rel(*p, f, mi, Err::<(), RuntimeError>(e), state@));
                return Err(e);
            },
        }
        proof {
            let m3 = state@;
            assert forall|rw: Result<(), RuntimeError>, s1: StateModel|
                #[trigger] crate::semantics::for_loop_rel(*p, f, m3, rw, s1) implies crate::semantics::for_loop_rel(
                    *p,
                    f,
                    m0,
                    rw,
                    s1,
                ) by {
                assert(crate::semantics::for_loop_rel(*p, f, mi, rw, s1));
            }
        }
    }
}

/// The product of the sizes, left to right, with `None` on overflow.
fn product_of(ds: &Vec<i32>) -> (r: Option<i32>)
    ensures
        match crate::semantics::dims_product(ds@) {
            Some(q) => r == Some(q as i32),
            None => r is None,
        },
{
    let mut size: i32 = 1;
    let mut j: usize = 0;
    while j < ds.len()
        invariant
            j <= ds@.len(),
            crate::semantics::dims_product(ds@.take(j as int)) == Some(size as int),
        decreases ds@.len() - j,
    {
        proof {
            assert(ds@.take(j + 1).drop_last() =~= ds@.take(j as int));
        }
        size = match size.checked_mul(ds[j]) {
            Some(x) => x,
            None => {
                proof {
                    lemma_product_none_persists(ds@, j + 1);
                }
                return None;
            },
        };
        j = j + 1;
    }
    proof {
        assert(ds@.take(j as int) =~= ds@);
    }
    Some(size)
}

/// A product that overflows on a prefix overflows on the whole.
proof fn lemma_product_none_persists(ds: Seq<i32>, k: int)
    requires
        0 <= k <= ds.len(),
        crate::semantics::dims_product(ds.take(k)) is None,
    ensures
        crate::semantics::dims_product(ds) is None,
    decreases ds.len() - k,
{
    if k < ds.len() {
        assert(ds.take(k + 1).drop_last() =~= ds.take(k));
        lemma_product_none_persists(ds, k + 1);
    } else {
        assert(ds.take(k) =~= ds);
    }
}

/// Allocates an array, as `array_alloc_rel` says.
fn interpret_array_alloc<H: Host, F: FloatOps>(
    array_alloc: &il::ArrayAlloc,
    p: &il::Program,
    state: &mut State,
    host: &mut H,
    floats: &F,
) -> (r: Result<(), RuntimeError>)
    requires
        old(state)@.floats == floats.model(),
        old(state)@.requests == old(host).requests(),
        program_wf(*p),
        stmt_wf(*p, il::Statement::ArrayAlloc(*array_alloc)),
        fits(*old(state), *p),
    ensures
        final(state)@.floats == floats.model(),
        final(state)@.requests == final(host).requests(),
        fits(*final(state), *p),
        final(state).fuel <= old(state).fuel,
        r is Ok ==> final(state).fuel < old(state).fuel,
        r != Err::<(), RuntimeError>(RuntimeError::MalformedProgram),
        crate::semantics::array_alloc_rel(*p, *array_alloc, old(state)@, r, final(state)@),
    decreases old(state).fuel,
{
    tick(state)?;
    let ghost s = state@;
    let ghost entry_fuel = old(state).fuel;
    let ghost es = array_alloc.dimensions@;
    let mut dimensions: Vec<i32> = Vec::new();
    let mut i: usize = 0;
    while i < array_alloc.dimensions.len()
        invariant
            state@.floats == floats.model(),
            state@.requests == host.requests(),
            program_wf(*p),
            stmt_wf(*p, il::Statement::ArrayAlloc(*array_alloc)),
            fits(*state, *p),
            state.fuel < entry_fuel,
            entry_fuel == old(state).fuel,
            s == ticked(old(state)@),
            es == array_alloc.dimensions@,
            i <= es.len(),
            forall|rd: Result<(), RuntimeError>, out: Seq<i32>, s1: StateModel|
                #[trigger] crate::semantics::dims_rel(*p, es, i as int, state@, dimensions@, rd, out, s1)
                    ==> crate::semantics::dims_rel(*p, es, 0, s, Seq::empty(), rd, out, s1),
        decreases es.len() - i,
    {
        let ghost mi = state@;
        let ghost before = dimensions@;
        let res = eval_expr(&array_alloc.dimensions[i], p, state, host, floats);
        assert(pick2(result_view(res), state@));
        let v = match res {
            Ok(v) => v,
            Err(e) => {
                assert(crate::semantics::dims_rel(*p, es, i as int, mi, before, Err::<(), RuntimeError>(e), before, state@));
                assert(pick3(Err::<(), RuntimeError>(e), before, state@));
                return Err(e);
            },
        };
        let ghost m = state@;
        if !v.can_cast_to(&ValueType::Integer) {
            assert(crate::semantics::dims_rel(*p, es, i as int, mi, before, Err::<(), RuntimeError>(RuntimeError::TypeMismatch), before, state@));
            assert(pick3(Err::<(), RuntimeError>(RuntimeError::TypeMismatch), before, state@));
            return Err(RuntimeError::TypeMismatch);
        }
        let x = v.cast_to_integer(floats).as_integer();
        assert(int_cast(floats.model(), v@, x));
        let d = match x.checked_add(1) {
            Some(d) => d,
            None => {
                assert(crate::semantics::dims_rel(*p, es, i as int, mi, before, Err::<(), RuntimeError>(RuntimeError::IntegerOverflow), before, state@));
                assert(pick3(Err::<(), RuntimeError>(RuntimeError::IntegerOverflow), before, state@));
                return Err(RuntimeError::IntegerOverflow);
            },
        };
        dimensions.push(d);
        proof {
            assert forall|rd: Result<(), RuntimeError>, out: Seq<i32>, s1: StateModel|
                #[trigger] crate::semantics::dims_rel(*p, es, i + 1, m, dimensions@, rd, out, s1) implies crate::semantics::dims_rel(
                    *p,
                    es,
                    0,
                    s,
                    Seq::empty(),
                    rd,
                    out,
                    s1,
                ) by {
                assert(pick2(Ok::<SpecValue, RuntimeError>(v@), m));
                assert(crate::semantics::dims_rel(*p, es, i as int, mi, before, rd, out, s1));
            }
        }
        i = i + 1;
    }
    let ghost m = state@;
    assert(crate::semantics::dims_rel(*p, es, i as int, m, dimensions@, Ok::<(), RuntimeError>(()), dimensions@, m));
    assert(pick3(Ok::<(), RuntimeError>(()), dimensions@, m));
    let size = match product_of(&dimensions) {
        Some(size) => size,
        None => {
            return Err(RuntimeError::IntegerOverflow);
        },
    };
    if size < 0 {
        return Err(RuntimeError::InvalidArraySize);
    }
    let n = size as usize;
    let mut values: Vec<Value> = Vec::new();
    let mut k: usize = 0;
    while k < n
        invariant
            state@.floats == floats.model(),
            state@.requests == host.requests(),
            k <= n,
            values_view(values@) == Seq::new(k as nat, |j: int| default_value(array_alloc.value_type)),
        decreases n - k,
    {
        let ghost before = values_view(values@);
        let d = Value::default(&array_alloc.value_type);
        values.push(d);
        proof {
            assert(values_view(values@) =~= before.push(d@));
            assert(before.push(d@) =~= Seq::new((k + 1) as nat, |j: int| default_value(array_alloc.value_type)));
        }
        k = k + 1;
    }
    let il::ArrayRef::Global(g) = array_alloc.array_ref;
    proof {
        assert(m.globals[g as int] == global_view(state.globals@[g as int]));
    }
    match &state.globals[g] {
        Variable::Array(_) => {
            let ghost gs = state.globals@;
            let ghost dv = dimensions@;
            state.globals.set(
                g,
                Variable::Array(Array { dimensions, values, value_type: array_alloc.value_type }),
            );
            proof {
                assert(globals_view(state.globals@) =~= globals_view(gs).update(
                    g as int,
                    GlobalModel::Array(
                        dv,
                        crate::semantics::default_values(size as nat, array_alloc.value_type),
                        array_alloc.value_type,
                    ),
                ));
            }
            Ok(())
        },
        Variable::SingleVariable(_) => Err(RuntimeError::TypeMismatch),
    }
}

/// Runs a program from its main function, for at most `fuel` steps, as
/// `function_rel` says for the main function from the initial state; the
/// requests made of `host` on the way (the windows opened, the frames shown,
/// the keys, buttons and mouse positions asked about) are those of that run.
/// Refuses a program whose table indices are out of range. What stops a
/// running program (an array index out of range, a `Read` past the data
/// table, an arithmetic overflow, a division by zero, a failed library call
/// or running out of steps) is returned as the matching `RuntimeError`: it
/// depends on what the program computes and what the window system
/// answers, so no precondition can rule it out beforehand.
pub fn interpret<H: Host, F: FloatOps>(program: &il::Program, host: &mut H, floats: &F, fuel: u64) -> (r: Result<
    (),
    RuntimeError,
>)
    ensures
        !program_wf(*program) <==> r == Err::<(), RuntimeError>(RuntimeError::MalformedProgram),
        !program_wf(*program) ==> final(host).requests() == old(host).requests(),
        program_wf(*program) ==> exists|s1: StateModel|
            {
                &&& crate::semantics::function_rel(
                    *program,
                    program.main_function,
                    initial_state(*program, fuel, old(host).requests(), floats.model()),
                    r,
                    s1,
                )
                &&& s1.requests == final(host).requests()
            },
{
    if !check_program_wf(program) {
        return Err(RuntimeError::MalformedProgram);
    }
    let mut state = State::new(program, fuel);
    state.requests = Ghost(host.requests());
    state.floats = Ghost(floats.model());
    assert(state.globals@.len() == globals_view(state.globals@).len());
    assert(state@ == initial_state(*program, fuel, old(host).requests(), floats.model()));
    let r = interpret_function(&program.main_function, program, &mut state, host, floats);
    assert(crate::semantics::function_rel(
        *program,
        program.main_function,
        initial_state(*program, fuel, old(host).requests(), floats.model()),
        r,
        state@,
    ));
    r
}

} // verus!
