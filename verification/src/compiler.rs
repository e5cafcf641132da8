use vstd::prelude::*;

use crate::ast;
use crate::il;
use crate::impls::{self, FunctionImpl};
use crate::value::{FloatModel, FloatOps, Value, ValueType};

verus! {

/// Why a program could not be compiled.
#[derive(Debug, Clone, Copy, PartialEq, Eq, Structural)]
pub enum CompileError {
    /// A custom type was used where only `%`, `#` and `$` are supported.
    UnsupportedTypeSpecifier,
    /// A `Data` statement holds something other than a literal.
    InvalidDataValue,
    /// A `Repeat` or `Select` statement, which the compiler does not support.
    UnsupportedStatement,
    /// An array name that is no global.
    UnresolvedArray,
    /// A called name that is no function.
    UnresolvedFunction,
    /// A variable name that is neither a local nor a global.
    UnresolvedVariable,
    /// A name used with arguments that is neither a function nor a global.
    UnresolvedFunctionOrArray,
    /// A `Restore` of a label that no `Data` section has.
    UnresolvedLabel,
    /// An unary operator applied to an operand type it has no implementation for.
    UnsupportedUnOp,
    /// A binary operator applied to operand types it has no implementation for.
    UnsupportedBinOp,
    /// A `For` loop whose counter is an array element.
    ArrayElemAsForCounter,
    /// An assignment to an element of an array that is not declared.
    AssignmentToUndefinedArrayElem,
}

/// Whether `i` is the last position of `x` in `s`, or -1 when `x` does not
/// occur.
pub open spec fn is_last_index<T>(s: Seq<T>, x: T, i: int) -> bool {
    if i == -1 {
        forall|j: int| 0 <= j < s.len() ==> s[j] != x
    } else {
        &&& 0 <= i < s.len()
        &&& s[i] == x
        &&& forall|j: int| i < j < s.len() ==> s[j] != x
    }
}

/// The last position of `x` in `s`, or -1 when it does not occur: the entry a
/// map built from `s` by inserting its elements in order keeps for `x`.
pub open spec fn last_index<T>(s: Seq<T>, x: T) -> int {
    if exists|i: int| #![trigger s[i]] 0 <= i < s.len() && s[i] == x {
        choose|i: int| is_last_index(s, x, i)
    } else {
        -1
    }
}

/// Whether `i` is the first position of `x` in `s`, or -1 when it does not
/// occur.
pub open spec fn is_first_index<T>(s: Seq<T>, x: T, i: int) -> bool {
    if i == -1 {
        forall|j: int| 0 <= j < s.len() ==> s[j] != x
    } else {
        &&& 0 <= i < s.len()
        &&& s[i] == x
        &&& forall|j: int| 0 <= j < i ==> s[j] != x
    }
}

/// The first position of `x` in `s`, or -1 when it does not occur.
pub open spec fn first_index<T>(s: Seq<T>, x: T) -> int {
    if exists|i: int| #![trigger s[i]] 0 <= i < s.len() && s[i] == x {
        choose|i: int| is_first_index(s, x, i)
    } else {
        -1
    }
}

pub proof fn lemma_last_index<T>(s: Seq<T>, x: T, i: int)
    requires
        is_last_index(s, x, i),
    ensures
        last_index(s, x) == i,
{
    if exists|k: int| #![trigger s[k]] 0 <= k < s.len() && s[k] == x {
        let k = choose|k: int| #![trigger s[k]] 0 <= k < s.len() && s[k] == x;
        let mut m = k;
        assert(exists|m: int| is_last_index(s, x, m)) by {
            assert(i != -1) by {
                if i == -1 {
                    assert(s[k] != x);
                }
            }
        }
        let c = choose|m: int| is_last_index(s, x, m);
        if c < i {
            assert(s[i] != x);
        } else if i < c {
            assert(s[c] != x);
        }
    }
}

pub proof fn lemma_first_index<T>(s: Seq<T>, x: T, i: int)
    requires
        is_first_index(s, x, i),
    ensures
        first_index(s, x) == i,
{
    if exists|k: int| #![trigger s[k]] 0 <= k < s.len() && s[k] == x {
        let k = choose|k: int| #![trigger s[k]] 0 <= k < s.len() && s[k] == x;
        assert(i != -1) by {
            if i == -1 {
                assert(s[k] != x);
            }
        }
        assert(exists|m: int| is_first_index(s, x, m));
        let c = choose|m: int| is_first_index(s, x, m);
        if c < i {
            assert(s[c] != x);
        } else if i < c {
            assert(s[i] != x);
        }
    }
}

/// What the compiler knows while it compiles a function: the operator
/// implementations with the operand types each is for, the globals and the
/// function's locals, the data labels with their positions in the data table,
/// and the functions that can be called with their return types.
pub struct CompileEnv {
    pub un_op_keys: Seq<(ast::Op, ValueType)>,
    pub un_op_types: Seq<ValueType>,
    pub bin_op_keys: Seq<(ast::Op, ValueType, ValueType)>,
    pub bin_op_types: Seq<ValueType>,
    pub global_names: Seq<Seq<char>>,
    pub global_types: Seq<ValueType>,
    pub local_names: Seq<Seq<char>>,
    pub local_types: Seq<ValueType>,
    pub label_names: Seq<Seq<char>>,
    pub label_positions: Seq<usize>,
    pub function_names: Seq<Seq<char>>,
    pub function_types: Seq<ValueType>,
}

/// The type a type specifier gives; `None` for a custom type.
pub open spec fn specifier_type(ts: Option<ast::TypeSpecifier>) -> Option<ValueType> {
    match ts {
        None => Some(ValueType::Integer),
        Some(ast::TypeSpecifier::Int) => Some(ValueType::Integer),
        Some(ast::TypeSpecifier::Float) => Some(ValueType::Float),
        Some(ast::TypeSpecifier::String) => Some(ValueType::String),
        Some(ast::TypeSpecifier::Custom(_)) => None,
    }
}

/// Whether a variable name can be resolved: as a local first, else as a
/// global.
pub open spec fn resolvable(env: CompileEnv, name: Seq<char>) -> bool {
    first_index(env.local_names, name) >= 0 || last_index(env.global_names, name) >= 0
}

/// The reference a variable name resolves to: the first local of that name,
/// else the last global of that name.
pub open spec fn resolves_to(env: CompileEnv, name: Seq<char>, r: il::VariableRef) -> bool {
    let li = first_index(env.local_names, name);
    let gi = last_index(env.global_names, name);
    if li >= 0 {
        r == il::VariableRef::Local(
            il::LocalVariableRef { local_index: li as usize, value_type: env.local_types[li] },
        )
    } else {
        gi >= 0 && r == il::VariableRef::Global(
            il::GlobalVariableRef { global_index: gi as usize, value_type: env.global_types[gi] },
        )
    }
}

/// The type of a resolvable variable name.
pub open spec fn resolved_type(env: CompileEnv, name: Seq<char>) -> ValueType {
    let li = first_index(env.local_names, name);
    if li >= 0 {
        env.local_types[li]
    } else {
        env.global_types[last_index(env.global_names, name)]
    }
}

/// The type of the expression an AST expression compiles to.
pub open spec fn compiled_type(env: CompileEnv, e: ast::Expr) -> ValueType
    decreases e,
{
    match e {
        ast::Expr::FloatLiteral(_) => ValueType::Float,
        ast::Expr::IntegerLiteral(_) => ValueType::Integer,
        ast::Expr::BoolLiteral(_) => ValueType::Bool,
        ast::Expr::StringLiteral(_) => ValueType::String,
        ast::Expr::FunctionCallOrArrayElemRef(f) => {
            let fi = last_index(env.function_names, f.function_name@);
            if fi >= 0 {
                env.function_types[fi]
            } else {
                env.global_types[last_index(env.global_names, f.function_name@)]
            }
        },
        ast::Expr::VariableRef(v) => resolved_type(env, v.name@),
        ast::Expr::UnOp(u) => env.un_op_types[last_index(
            env.un_op_keys,
            (u.op, compiled_type(env, *u.expr)),
        )],
        ast::Expr::BinOp(b) => env.bin_op_types[last_index(
            env.bin_op_keys,
            (b.op, compiled_type(env, *b.lhs), compiled_type(env, *b.rhs)),
        )],
    }
}

/// Whether an AST expression compiles: every name resolves and every operator
/// has an implementation for its operand types.
pub open spec fn expr_ok(env: CompileEnv, e: ast::Expr) -> bool
    decreases e,
{
    match e {
        ast::Expr::FunctionCallOrArrayElemRef(f) => {
            &&& forall|i: int|
                0 <= i < f.arguments@.len() ==> expr_ok(env, *#[trigger] f.arguments@[i])
            &&& (last_index(env.function_names, f.function_name@) >= 0 || last_index(
                env.global_names,
                f.function_name@,
            ) >= 0)
        },
        ast::Expr::VariableRef(v) => resolvable(env, v.name@),
        ast::Expr::UnOp(u) => {
            &&& expr_ok(env, *u.expr)
            &&& last_index(env.un_op_keys, (u.op, compiled_type(env, *u.expr))) >= 0
        },
        ast::Expr::BinOp(b) => {
            &&& expr_ok(env, *b.lhs)
            &&& expr_ok(env, *b.rhs)
            &&& last_index(
                env.bin_op_keys,
                (b.op, compiled_type(env, *b.lhs), compiled_type(env, *b.rhs)),
            ) >= 0
        },
        _ => true,
    }
}

/// Whether `o` is what AST expression `e` compiles to, the float operations
/// being `fm`: a float literal compiles to the constant that `parse_literal`
/// reads from its text.
pub open spec fn compiles_expr(fm: FloatModel, env: CompileEnv, e: ast::Expr, o: il::Expr) -> bool
    decreases e,
{
    match e {
        ast::Expr::FloatLiteral(text) => o == il::Expr::Float((fm.parse_literal)(text@)),
        ast::Expr::IntegerLiteral(v) => o == il::Expr::Integer(v),
        ast::Expr::BoolLiteral(v) => o == il::Expr::Bool(v),
        ast::Expr::StringLiteral(s) => o matches il::Expr::String(t) && t@ == s@,
        ast::Expr::FunctionCallOrArrayElemRef(f) => {
            let fi = last_index(env.function_names, f.function_name@);
            let gi = last_index(env.global_names, f.function_name@);
            if fi >= 0 {
                &&& o matches il::Expr::FunctionCall(c)
                &&& c.function_index == fi
                &&& c.return_type == env.function_types[fi]
                &&& c.arguments@.len() == f.arguments@.len()
                &&& forall|i: int|
                    0 <= i < f.arguments@.len() ==> compiles_expr(fm, 
                        env,
                        *#[trigger] f.arguments@[i],
                        *c.arguments@[i],
                    )
            } else {
                &&& o matches il::Expr::ArrayElemRef(il::ArrayElemRef::Global(a))
                &&& a.global_index == gi
                &&& a.value_type == env.global_types[gi]
                &&& a.dimensions@.len() == f.arguments@.len()
                &&& forall|i: int|
                    0 <= i < f.arguments@.len() ==> compiles_expr(fm, 
                        env,
                        *#[trigger] f.arguments@[i],
                        *a.dimensions@[i],
                    )
            }
        },
        ast::Expr::VariableRef(v) => o matches il::Expr::VariableRef(r) && resolves_to(env, v.name@, r),
        ast::Expr::UnOp(u) => {
            &&& o matches il::Expr::UnOp(x)
            &&& compiles_expr(fm, env, *u.expr, *x.expr)
            &&& x.impl_index == last_index(env.un_op_keys, (u.op, il::expr_type(*x.expr)))
            &&& x.return_type == env.un_op_types[x.impl_index as int]
        },
        ast::Expr::BinOp(b) => {
            &&& o matches il::Expr::BinOp(x)
            &&& compiles_expr(fm, env, *b.lhs, *x.lhs)
            &&& compiles_expr(fm, env, *b.rhs, *x.rhs)
            &&& x.impl_index == last_index(
                env.bin_op_keys,
                (b.op, il::expr_type(*x.lhs), il::expr_type(*x.rhs)),
            )
            &&& x.return_type == env.bin_op_types[x.impl_index as int]
        },
    }
}

/// Whether an l-value compiles.
pub open spec fn l_value_ok(env: CompileEnv, l: ast::LValue) -> bool {
    match l {
        ast::LValue::VariableRef(v) => resolvable(env, v.name@),
        ast::LValue::ArrayElemRef(a) => {
            &&& forall|i: int|
                0 <= i < a.dimensions@.len() ==> expr_ok(env, *#[trigger] a.dimensions@[i])
            &&& last_index(env.global_names, a.array_name@) >= 0
        },
    }
}

/// Whether `o` is what l-value `l` compiles to: a variable resolves as in an
/// expression, an array element names the last global of its name.
pub open spec fn compiles_l_value(fm: FloatModel, env: CompileEnv, l: ast::LValue, o: il::LValue) -> bool {
    match l {
        ast::LValue::VariableRef(v) => o matches il::LValue::VariableRef(r) && resolves_to(env, v.name@, r),
        ast::LValue::ArrayElemRef(a) => {
            let gi = last_index(env.global_names, a.array_name@);
            &&& o matches il::LValue::ArrayElemRef(il::ArrayElemRef::Global(g))
            &&& g.global_index == gi
            &&& g.value_type == env.global_types[gi]
            &&& g.dimensions@.len() == a.dimensions@.len()
            &&& forall|i: int|
                0 <= i < a.dimensions@.len() ==> compiles_expr(fm, 
                    env,
                    *#[trigger] a.dimensions@[i],
                    *g.dimensions@[i],
                )
        },
    }
}

/// Whether `o` is expression `e` compiled and then converted to type `t`: a
/// cast is wrapped around it exactly when its type differs from `t`.
pub open spec fn compiles_cast_to(fm: FloatModel, env: CompileEnv, e: ast::Expr, t: ValueType, o: il::Expr) -> bool {
    if compiled_type(env, e) == t {
        compiles_expr(fm, env, e, o)
    } else {
        &&& o matches il::Expr::Cast(c)
        &&& c.target_type == t
        &&& compiles_expr(fm, env, e, *c.expr)
    }
}

pub open spec fn assignment_ok(env: CompileEnv, a: ast::Assignment) -> bool {
    l_value_ok(env, a.l_value) && expr_ok(env, *a.expr)
}

/// Whether `o` is what assignment `a` compiles to: the value is converted to
/// the type of the target.
pub open spec fn compiles_assignment(fm: FloatModel, env: CompileEnv, a: ast::Assignment, o: il::Assignment) -> bool {
    &&& compiles_l_value(fm, env, a.l_value, o.l_value)
    &&& compiles_cast_to(fm, env, *a.expr, il::l_value_type(o.l_value), *o.expr)
}

/// The name of a `For` loop's counter.
pub open spec fn for_counter(f: ast::For) -> Seq<char> {
    match f.initialization.l_value {
        ast::LValue::VariableRef(v) => v.name@,
        ast::LValue::ArrayElemRef(a) => a.array_name@,
    }
}

/// The type of a `For` loop's step: an integer 1 when none is given.
pub open spec fn step_type(env: CompileEnv, f: ast::For) -> ValueType {
    match f.step {
        Some(st) => compiled_type(env, *st),
        None => ValueType::Integer,
    }
}

/// Whether a `For` loop compiles: its counter is a variable, and `<=` and `+`
/// have implementations for the counter's type and the types of the bound
/// and of the step.
pub open spec fn for_ok(env: CompileEnv, f: ast::For) -> bool {
    let name = for_counter(f);
    &&& f.initialization.l_value is VariableRef
    &&& assignment_ok(env, f.initialization)
    &&& expr_ok(env, *f.to)
    &&& (f.step matches Some(st) ==> expr_ok(env, *st))
    &&& last_index(
        env.bin_op_keys,
        (ast::Op::LtEq, resolved_type(env, name), compiled_type(env, *f.to)),
    ) >= 0
    &&& last_index(env.bin_op_keys, (ast::Op::Add, resolved_type(env, name), step_type(env, f)))
        >= 0
}

/// Whether `o` is `counter <= to` compiled.
pub open spec fn compiles_for_condition(fm: FloatModel, env: CompileEnv, f: ast::For, o: il::Expr) -> bool {
    &&& o matches il::Expr::BinOp(b)
    &&& *b.lhs matches il::Expr::VariableRef(r)
    &&& resolves_to(env, for_counter(f), r)
    &&& compiles_expr(fm, env, *f.to, *b.rhs)
    &&& b.impl_index == last_index(
        env.bin_op_keys,
        (ast::Op::LtEq, il::expr_type(*b.lhs), il::expr_type(*b.rhs)),
    )
    &&& b.return_type == env.bin_op_types[b.impl_index as int]
}

/// Whether `o` is `counter + step` compiled, with an integer 1 as the step
/// when none is given.
pub open spec fn compiles_for_sum(fm: FloatModel, env: CompileEnv, f: ast::For, o: il::Expr) -> bool {
    &&& o matches il::Expr::BinOp(b)
    &&& *b.lhs matches il::Expr::VariableRef(r)
    &&& resolves_to(env, for_counter(f), r)
    &&& match f.step {
        Some(st) => compiles_expr(fm, env, *st, *b.rhs),
        None => *b.rhs == il::Expr::Integer(1),
    }
    &&& b.impl_index == last_index(
        env.bin_op_keys,
        (ast::Op::Add, il::expr_type(*b.lhs), il::expr_type(*b.rhs)),
    )
    &&& b.return_type == env.bin_op_types[b.impl_index as int]
}

/// The type of `counter + step`.
pub open spec fn for_sum_type(env: CompileEnv, f: ast::For) -> ValueType {
    env.bin_op_types[last_index(
        env.bin_op_keys,
        (ast::Op::Add, resolved_type(env, for_counter(f)), step_type(env, f)),
    )]
}

/// Whether `o` is what `For` loop `f` compiles to: the initialization, the
/// condition `counter <= to`, the increment `counter = counter + step`
/// (converted to the counter's type), and the body.
pub open spec fn compiles_for(fm: FloatModel, env: CompileEnv, f: ast::For, o: il::For) -> bool {
    &&& compiles_assignment(fm, env, f.initialization, o.initialization)
    &&& compiles_for_condition(fm, env, f, *o.condition)
    &&& compiles_l_value(fm, env, f.initialization.l_value, o.increment.l_value)
    &&& if for_sum_type(env, f) == il::l_value_type(o.increment.l_value) {
        compiles_for_sum(fm, env, f, *o.increment.expr)
    } else {
        &&& *o.increment.expr matches il::Expr::Cast(c)
        &&& c.target_type == il::l_value_type(o.increment.l_value)
        &&& compiles_for_sum(fm, env, f, *c.expr)
    }
}

/// Whether a statement compiles.
pub open spec fn stmt_ok(env: CompileEnv, s: ast::Statement) -> bool
    decreases s,
{
    match s {
        ast::Statement::ArrayDecl(a) => {
            &&& forall|i: int|
                0 <= i < a.dimensions@.len() ==> expr_ok(env, *#[trigger] a.dimensions@[i])
            &&& last_index(env.global_names, a.name@) >= 0
            &&& specifier_type(a.type_specifier) is Some
        },
        ast::Statement::If(i) => {
            &&& expr_ok(env, *i.condition)
            &&& forall|k: int| 0 <= k < i.body@.len() ==> stmt_ok(env, #[trigger] i.body@[k])
            &&& match i.else_clause {
                Some(e) => forall|k: int|
                    0 <= k < e.body@.len() ==> stmt_ok(env, #[trigger] e.body@[k]),
                None => true,
            }
        },
        ast::Statement::While(w) => {
            &&& expr_ok(env, *w.condition)
            &&& forall|k: int| 0 <= k < w.body@.len() ==> stmt_ok(env, #[trigger] w.body@[k])
        },
        ast::Statement::For(f) => {
            &&& for_ok(env, f)
            &&& forall|k: int| 0 <= k < f.body@.len() ==> stmt_ok(env, #[trigger] f.body@[k])
        },
        ast::Statement::Restore(l) => last_index(env.label_names, l@) >= 0,
        ast::Statement::Read(l) => l_value_ok(env, l),
        ast::Statement::Assignment(a) => assignment_ok(env, a),
        ast::Statement::FunctionCall(c) => {
            &&& forall|i: int| 0 <= i < c.arguments@.len() ==> expr_ok(env, *#[trigger] c.arguments@[i])
            &&& last_index(env.function_names, c.function_name@) >= 0
        },
        ast::Statement::End => true,
        _ => false,
    }
}

/// Whether every statement of a sequence compiles.
pub open spec fn stmts_ok(env: CompileEnv, ss: Seq<ast::Statement>) -> bool {
    forall|k: int| 0 <= k < ss.len() ==> stmt_ok(env, #[trigger] ss[k])
}

/// Whether `o` is what statement `s` compiles to.
pub open spec fn compiles_stmt(fm: FloatModel, env: CompileEnv, s: ast::Statement, o: il::Statement) -> bool
    decreases s,
{
    match s {
        ast::Statement::ArrayDecl(a) => {
            &&& o matches il::Statement::ArrayAlloc(x)
            &&& x.array_ref == il::ArrayRef::Global(last_index(env.global_names, a.name@) as usize)
            &&& Some(x.value_type) == specifier_type(a.type_specifier)
            &&& x.dimensions@.len() == a.dimensions@.len()
            &&& forall|i: int|
                0 <= i < a.dimensions@.len() ==> compiles_expr(fm, 
                    env,
                    *#[trigger] a.dimensions@[i],
                    *x.dimensions@[i],
                )
        },
        ast::Statement::If(i) => {
            &&& o matches il::Statement::If(x)
            &&& compiles_expr(fm, env, *i.condition, *x.condition)
            &&& x.body@.len() == i.body@.len()
            &&& forall|k: int|
                0 <= k < i.body@.len() ==> compiles_stmt(fm, env, #[trigger] i.body@[k], x.body@[k])
            &&& match i.else_clause {
                Some(e) => {
                    &&& x.else_clause matches Some(b)
                    &&& b@.len() == e.body@.len()
                    &&& forall|k: int|
                        0 <= k < e.body@.len() ==> compiles_stmt(fm, env, #[trigger] e.body@[k], b@[k])
                },
                None => x.else_clause is None,
            }
        },
        ast::Statement::While(w) => {
            &&& o matches il::Statement::While(x)
            &&& compiles_expr(fm, env, *w.condition, *x.condition)
            &&& x.body@.len() == w.body@.len()
            &&& forall|k: int|
                0 <= k < w.body@.len() ==> compiles_stmt(fm, env, #[trigger] w.body@[k], x.body@[k])
        },
        ast::Statement::For(f) => {
            &&& o matches il::Statement::For(x)
            &&& compiles_for(fm, env, f, x)
            &&& x.body@.len() == f.body@.len()
            &&& forall|k: int|
                0 <= k < f.body@.len() ==> compiles_stmt(fm, env, #[trigger] f.body@[k], x.body@[k])
        },
        ast::Statement::Restore(l) => o == il::Statement::Restore(
            env.label_positions[last_index(env.label_names, l@)],
        ),
        ast::Statement::Read(l) => o matches il::Statement::Read(x) && compiles_l_value(fm, env, l, x),
        ast::Statement::Assignment(a) => o matches il::Statement::Assignment(x)
            && compiles_assignment(fm, env, a, x),
        ast::Statement::FunctionCall(c) => {
            let fi = last_index(env.function_names, c.function_name@);
            &&& o matches il::Statement::FunctionCall(x)
            &&& x.function_index == fi
            &&& x.return_type == env.function_types[fi]
            &&& x.arguments@.len() == c.arguments@.len()
            &&& forall|i: int|
                0 <= i < c.arguments@.len() ==> compiles_expr(fm, 
                    env,
                    *#[trigger] c.arguments@[i],
                    *x.arguments@[i],
                )
        },
        ast::Statement::End => o is End,
        _ => false,
    }
}

/// Whether `os` is what the statements `ss` compile to.
pub open spec fn compiles_stmts(fm: FloatModel, env: CompileEnv, ss: Seq<ast::Statement>, os: Seq<il::Statement>) -> bool {
    &&& os.len() == ss.len()
    &&& forall|k: int| 0 <= k < ss.len() ==> compiles_stmt(fm, env, #[trigger] ss[k], os[k])
}

/// The name and type specifier of the variable or array an l-value assigns.
pub open spec fn l_value_target(l: ast::LValue) -> (String, Option<ast::TypeSpecifier>) {
    match l {
        ast::LValue::VariableRef(v) => (v.name, v.type_specifier),
        ast::LValue::ArrayElemRef(a) => (a.array_name, a.type_specifier),
    }
}

/// The locals after an assignment is visited: its target becomes a new local
/// unless a local or a global of that name exists; `None` when the target's
/// type is custom, or when it is an element of an array that does not exist.
pub open spec fn locals_visit_assignment(
    global_names: Seq<Seq<char>>,
    locals: Seq<il::Variable>,
    a: ast::Assignment,
) -> Option<Seq<il::Variable>> {
    let (name, ts) = l_value_target(a.l_value);
    match specifier_type(ts) {
        None => None,
        Some(t) => if first_index(names_of(locals), name@) >= 0 || last_index(global_names, name@)
            >= 0 {
            Some(locals)
        } else if a.l_value is VariableRef {
            Some(
                locals.push(
                    il::Variable::SingleVariable(
                        il::SingleVariable { name, is_const: false, value_type: t },
                    ),
                ),
            )
        } else {
            None
        },
    }
}

/// The locals after a statement is visited, in source order; `None` when the
/// statement cannot be compiled.
pub open spec fn locals_visit_stmt(
    global_names: Seq<Seq<char>>,
    locals: Seq<il::Variable>,
    s: ast::Statement,
) -> Option<Seq<il::Variable>>
    decreases s,
{
    match s {
        ast::Statement::If(i) => match locals_visit_stmts(global_names, locals, i.body@) {
            None => None,
            Some(l) => match i.else_clause {
                Some(e) => locals_visit_stmts(global_names, l, e.body@),
                None => Some(l),
            },
        },
        ast::Statement::While(w) => locals_visit_stmts(global_names, locals, w.body@),
        ast::Statement::For(f) => match locals_visit_assignment(global_names, locals, f.initialization) {
            None => None,
            Some(l) => locals_visit_stmts(global_names, l, f.body@),
        },
        ast::Statement::Assignment(a) => locals_visit_assignment(global_names, locals, a),
        ast::Statement::Repeat(_) => None,
        ast::Statement::Select(_) => None,
        _ => Some(locals),
    }
}

/// The locals after a sequence of statements is visited.
pub open spec fn locals_visit_stmts(
    global_names: Seq<Seq<char>>,
    locals: Seq<il::Variable>,
    ss: Seq<ast::Statement>,
) -> Option<Seq<il::Variable>>
    decreases ss,
{
    if ss.len() == 0 {
        Some(locals)
    } else {
        match locals_visit_stmts(global_names, locals, ss.drop_last()) {
            None => None,
            Some(l) => locals_visit_stmt(global_names, l, ss.last()),
        }
    }
}

/// An environment with the given locals.
pub open spec fn with_locals(env: CompileEnv, locals: Seq<il::Variable>) -> CompileEnv {
    CompileEnv { local_names: names_of(locals), local_types: types_of(locals), ..env }
}

/// The parameter a declared argument becomes.
pub open spec fn arg_variable(d: ast::VariableDecl) -> il::SingleVariable {
    il::SingleVariable {
        name: d.name,
        is_const: false,
        value_type: specifier_type(d.type_specifier).unwrap(),
    }
}

pub open spec fn single_variable(s: il::SingleVariable) -> il::Variable {
    il::Variable::SingleVariable(s)
}

/// The locals of a function before its body is visited: its parameters.
pub open spec fn parameter_locals(decl: ast::FunctionDecl) -> Seq<il::Variable> {
    decl.args@.map_values(|d: ast::VariableDecl| single_variable(arg_variable(d)))
}

/// Whether a function declaration compiles against an environment of globals.
pub open spec fn function_ok(env: CompileEnv, decl: ast::FunctionDecl) -> bool {
    &&& forall|i: int|
        0 <= i < decl.args@.len() ==> (specifier_type((#[trigger] decl.args@[i]).type_specifier) is Some)
    &&& locals_visit_stmts(env.global_names, parameter_locals(decl), decl.body@) matches Some(l)
        && stmts_ok(with_locals(env, l), decl.body@)
}

/// Whether `o` is what function declaration `decl` compiles to.
pub open spec fn compiles_function(fm: FloatModel, env: CompileEnv, decl: ast::FunctionDecl, o: il::Function) -> bool {
    &&& o.signature.name@ == decl.name@
    &&& o.signature.args@.len() == decl.args@.len()
    &&& forall|i: int|
        0 <= i < decl.args@.len() ==> o.signature.args@[i] == arg_variable(#[trigger] decl.args@[i])
    &&& locals_visit_stmts(env.global_names, parameter_locals(decl), decl.body@) == Some(o.locals@)
    &&& o.stack_frame_size == o.locals@.len()
    &&& compiles_stmts(fm, with_locals(env, o.locals@), decl.body@, o.body@)
}

/// The global a top-level node declares: `Some(None)` when it declares none,
/// `None` when its type is custom.
pub open spec fn global_of(n: ast::Node) -> Option<Option<il::Variable>> {
    match n {
        ast::Node::GlobalVariableDecl(v) => match specifier_type(v.type_specifier) {
            Some(t) => Some(
                Some(
                    il::Variable::SingleVariable(
                        il::SingleVariable { name: v.name, is_const: false, value_type: t },
                    ),
                ),
            ),
            None => None,
        },
        ast::Node::ConstDecl(c) => match specifier_type(c.type_specifier) {
            Some(t) => Some(
                Some(
                    il::Variable::SingleVariable(
                        il::SingleVariable { name: c.name, is_const: true, value_type: t },
                    ),
                ),
            ),
            None => None,
        },
        ast::Node::Statement(ast::Statement::ArrayDecl(a)) => match specifier_type(a.type_specifier) {
            Some(t) => Some(Some(il::Variable::Array(il::Array { name: a.name, value_type: t }))),
            None => None,
        },
        _ => Some(None),
    }
}

/// The globals of a program: its global variables, constants and top-level
/// arrays in source order; `None` when one has a custom type.
pub open spec fn globals_of(nodes: Seq<ast::Node>) -> Option<Seq<il::Variable>>
    decreases nodes.len(),
{
    if nodes.len() == 0 {
        Some(Seq::empty())
    } else {
        match (globals_of(nodes.drop_last()), global_of(nodes.last())) {
            (Some(g), Some(None)) => Some(g),
            (Some(g), Some(Some(v))) => Some(g.push(v)),
            _ => None,
        }
    }
}

/// The values of the `Data` sections of a program, in source order.
pub open spec fn data_entries(nodes: Seq<ast::Node>) -> Seq<Box<ast::Expr>>
    decreases nodes.len(),
{
    if nodes.len() == 0 {
        Seq::empty()
    } else {
        data_entries(nodes.drop_last()) + match nodes.last() {
            ast::Node::Data(d) => d.values@,
            _ => Seq::empty(),
        }
    }
}

/// The labels of a program with the number of data values that precede each.
pub open spec fn labels_of(nodes: Seq<ast::Node>) -> Seq<(Seq<char>, nat)>
    decreases nodes.len(),
{
    if nodes.len() == 0 {
        Seq::empty()
    } else {
        labels_of(nodes.drop_last()) + match nodes.last() {
            ast::Node::Label(name) => seq![(name@, data_entries(nodes.drop_last()).len())],
            _ => Seq::empty(),
        }
    }
}

/// Whether a data value is a literal.
pub open spec fn is_data_literal(e: ast::Expr) -> bool {
    ||| e is FloatLiteral
    ||| e is IntegerLiteral
    ||| e is BoolLiteral
    ||| e is StringLiteral
}

/// A float literal compiles to the float constant that `parse_literal`
/// reads from its text and to nothing else, in an expression and in the data
/// table alike.
pub proof fn float_literals_compile_to_their_value(
    fm: FloatModel,
    env: CompileEnv,
    text: String,
    o: il::Expr,
    v: crate::value::SpecValue,
)
    ensures
        compiles_expr(fm, env, ast::Expr::FloatLiteral(text), o) <==> o == il::Expr::Float(
            (fm.parse_literal)(text@),
        ),
        data_value_matches(fm, ast::Expr::FloatLiteral(text), v) <==> v == crate::value::SpecValue::Float(
            (fm.parse_literal)(text@),
        ),
{
}

/// Whether `v` is the value of data literal `e`; a float literal gives the
/// float that `parse_literal` of `fm` reads from its text.
pub open spec fn data_value_matches(fm: FloatModel, e: ast::Expr, v: crate::value::SpecValue) -> bool {
    match e {
        ast::Expr::FloatLiteral(text) => v == crate::value::SpecValue::Float((fm.parse_literal)(text@)),
        ast::Expr::IntegerLiteral(x) => v == crate::value::SpecValue::Integer(x),
        ast::Expr::BoolLiteral(x) => v == crate::value::SpecValue::Bool(x),
        ast::Expr::StringLiteral(x) => v == crate::value::SpecValue::String(x@),
        _ => false,
    }
}

/// The function declarations of a program, in source order.
pub open spec fn function_decls(nodes: Seq<ast::Node>) -> Seq<ast::FunctionDecl>
    decreases nodes.len(),
{
    if nodes.len() == 0 {
        Seq::empty()
    } else {
        function_decls(nodes.drop_last()) + match nodes.last() {
            ast::Node::FunctionDecl(d) => seq![d],
            _ => Seq::empty(),
        }
    }
}

/// The assignment a declaration with an initial value stands for.
pub open spec fn decl_assignment(name: String, ts: Option<ast::TypeSpecifier>, e: Box<ast::Expr>) -> ast::Statement {
    ast::Statement::Assignment(
        ast::Assignment {
            l_value: ast::LValue::VariableRef(ast::VariableRef { name, type_specifier: ts }),
            expr: e,
        },
    )
}

/// The statement a top-level node contributes to the main function, if any:
/// declarations with a value become assignments, statements stay, `End` ends.
pub open spec fn main_item(n: ast::Node) -> Option<ast::Statement> {
    match n {
        ast::Node::GlobalVariableDecl(v) => match v.init_expr {
            Some(e) => Some(decl_assignment(v.name, v.type_specifier, e)),
            None => None,
        },
        ast::Node::ConstDecl(c) => Some(decl_assignment(c.name, c.type_specifier, c.init_expr)),
        ast::Node::Statement(s) => Some(s),
        ast::Node::End => Some(ast::Statement::End),
        _ => None,
    }
}

/// The body of the main function: the top-level code in source order.
pub open spec fn main_items(nodes: Seq<ast::Node>) -> Seq<ast::Statement>
    decreases nodes.len(),
{
    if nodes.len() == 0 {
        Seq::empty()
    } else {
        main_items(nodes.drop_last()) + match main_item(nodes.last()) {
            Some(s) => seq![s],
            None => Seq::empty(),
        }
    }
}

pub open spec fn decl_name(d: ast::FunctionDecl) -> Seq<char> {
    d.name@
}

/// The names of function declarations.
pub open spec fn decl_names(ds: Seq<ast::FunctionDecl>) -> Seq<Seq<char>> {
    ds.map_values(|d: ast::FunctionDecl| decl_name(d))
}

/// The contents of strings.
pub open spec fn string_views(ss: Seq<String>) -> Seq<Seq<char>> {
    ss.map_values(|s: String| string_view(s))
}

/// The names of library functions.
pub open spec fn builtin_names(bs: Seq<impls::Builtin>) -> Seq<Seq<char>> {
    bs.map_values(|b: impls::Builtin| impls::builtin_name(b))
}

/// The return types of library functions.
pub open spec fn builtin_types(bs: Seq<impls::Builtin>) -> Seq<ValueType> {
    bs.map_values(|b: impls::Builtin| impls::builtin_return_type(b))
}

pub open spec fn un_op_fn_type(f: impls::UnOpFn) -> ValueType {
    impls::un_op_return_type(f)
}

pub open spec fn bin_op_fn_type(f: impls::BinOpFn) -> ValueType {
    impls::bin_op_return_type(f)
}

pub open spec fn label_entry_name(l: (Seq<char>, nat)) -> Seq<char> {
    l.0
}

pub open spec fn label_entry_position(l: (Seq<char>, nat)) -> usize {
    l.1 as usize
}

/// The environment the functions of a program are compiled in.
pub open spec fn program_env(nodes: Seq<ast::Node>, globals: Seq<il::Variable>) -> CompileEnv {
    let decls = function_decls(nodes);
    CompileEnv {
        un_op_keys: impls::un_op_fns().map_values(|f: impls::UnOpFn| impls::un_op_key(f)),
        un_op_types: impls::un_op_fns().map_values(|f: impls::UnOpFn| un_op_fn_type(f)),
        bin_op_keys: impls::bin_op_fns().map_values(|f: impls::BinOpFn| impls::bin_op_key(f)),
        bin_op_types: impls::bin_op_fns().map_values(|f: impls::BinOpFn| bin_op_fn_type(f)),
        global_names: names_of(globals),
        global_types: types_of(globals),
        local_names: Seq::empty(),
        local_types: Seq::empty(),
        label_names: labels_of(nodes).map_values(|l: (Seq<char>, nat)| label_entry_name(l)),
        label_positions: labels_of(nodes).map_values(|l: (Seq<char>, nat)| label_entry_position(l)),
        function_names: decl_names(decls) + builtin_names(impls::builtins()),
        function_types: Seq::new(decls.len(), |i: int| ValueType::Unit) + builtin_types(impls::builtins()),
    }
}

/// Whether the main function compiles.
pub open spec fn main_ok(env: CompileEnv, nodes: Seq<ast::Node>) -> bool {
    locals_visit_stmts(env.global_names, Seq::empty(), main_items(nodes)) matches Some(l)
        && stmts_ok(with_locals(env, l), main_items(nodes))
}

/// Whether `o` is the main function compiled: named `$main`, without
/// parameters, with the top-level code as its body.
pub open spec fn compiles_main(fm: FloatModel, env: CompileEnv, nodes: Seq<ast::Node>, o: il::Function) -> bool {
    &&& o.signature.name@ == "$main"@
    &&& o.signature.args@.len() == 0
    &&& locals_visit_stmts(env.global_names, Seq::empty(), main_items(nodes)) == Some(o.locals@)
    &&& o.stack_frame_size == o.locals@.len()
    &&& compiles_stmts(fm, with_locals(env, o.locals@), main_items(nodes), o.body@)
}

/// Whether a program compiles: no custom types, only literals as data, every
/// function and the main function compile.
pub open spec fn program_ok(root: ast::Root) -> bool {
    let nodes = root.nodes@;
    &&& globals_of(nodes) matches Some(g)
    &&& forall|i: int| 0 <= i < data_entries(nodes).len() ==> is_data_literal(*#[trigger] data_entries(nodes)[i])
    &&& forall|i: int|
        0 <= i < function_decls(nodes).len() ==> function_ok(program_env(nodes, g), #[trigger] function_decls(nodes)[i])
    &&& main_ok(program_env(nodes, g), nodes)
}

/// Whether `p` is program `root` compiled.
pub open spec fn compiles_program(fm: FloatModel, root: ast::Root, p: il::Program) -> bool {
    let nodes = root.nodes@;
    let decls = function_decls(nodes);
    let env = program_env(nodes, p.globals@);
    &&& globals_of(nodes) == Some(p.globals@)
    &&& p.un_op_impls_table@.len() == impls::un_op_fns().len()
    &&& forall|i: int|
        0 <= i < p.un_op_impls_table@.len() ==> {
            let f = impls::un_op_fns()[i];
            let e = #[trigger] p.un_op_impls_table@[i];
            e.name@ == impls::un_op_name(f) && e.function == impls::Native::UnOp(f) && e.return_type
                == impls::un_op_return_type(f)
        }
    &&& p.bin_op_impls_table@.len() == impls::bin_op_fns().len()
    &&& forall|i: int|
        0 <= i < p.bin_op_impls_table@.len() ==> {
            let f = impls::bin_op_fns()[i];
            let e = #[trigger] p.bin_op_impls_table@[i];
            e.name@ == impls::bin_op_name(f) && e.function == impls::Native::BinOp(f) && e.return_type
                == impls::bin_op_return_type(f)
        }
    &&& p.data_table@.len() == data_entries(nodes).len()
    &&& forall|i: int|
        0 <= i < p.data_table@.len() ==> data_value_matches(fm, *data_entries(nodes)[i], (#[trigger] p.data_table@[i])@)
    &&& p.function_table@.len() == decls.len() + impls::builtins().len()
    &&& forall|i: int|
        0 <= i < decls.len() ==> (#[trigger] p.function_table@[i] matches il::FunctionTableEntry::Function(f)
            && compiles_function(fm, env, decls[i], f))
    &&& forall|i: int|
        0 <= i < impls::builtins().len() ==> (#[trigger] p.function_table@[decls.len() + i] matches il::FunctionTableEntry::FunctionImpl(x)
            && impls::builtin_entry_matches(x, impls::builtins()[i]))
    &&& compiles_main(fm, env, nodes, p.main_function)
}

/// The tables one function is compiled against.
pub struct Tables<'a> {
    pub un_op_keys: &'a Vec<(ast::Op, ValueType)>,
    pub un_op_impls_table: &'a Vec<FunctionImpl>,
    pub bin_op_keys: &'a Vec<(ast::Op, ValueType, ValueType)>,
    pub bin_op_impls_table: &'a Vec<FunctionImpl>,
    pub globals: &'a Vec<il::Variable>,
    pub locals: &'a Vec<il::Variable>,
    pub data_labels: &'a Vec<(String, usize)>,
    pub function_names: &'a Vec<String>,
    pub function_types: &'a Vec<ValueType>,
}

pub open spec fn impl_return_type(f: FunctionImpl) -> ValueType {
    f.return_type
}

pub open spec fn string_view(s: String) -> Seq<char> {
    s@
}

pub open spec fn label_name(l: (String, usize)) -> Seq<char> {
    l.0@
}

pub open spec fn label_position(l: (String, usize)) -> usize {
    l.1
}

/// The names of a sequence of variables.
pub open spec fn names_of(vars: Seq<il::Variable>) -> Seq<Seq<char>> {
    vars.map_values(|v: il::Variable| il::variable_name(v))
}

/// The types of a sequence of variables.
pub open spec fn types_of(vars: Seq<il::Variable>) -> Seq<ValueType> {
    vars.map_values(|v: il::Variable| il::variable_type(v))
}

impl<'a> Tables<'a> {
    pub open spec fn env(&self) -> CompileEnv {
        CompileEnv {
            un_op_keys: self.un_op_keys@,
            un_op_types: self.un_op_impls_table@.map_values(|f: FunctionImpl| impl_return_type(f)),
            bin_op_keys: self.bin_op_keys@,
            bin_op_types: self.bin_op_impls_table@.map_values(|f: FunctionImpl| impl_return_type(f)),
            global_names: names_of(self.globals@),
            global_types: types_of(self.globals@),
            local_names: names_of(self.locals@),
            local_types: types_of(self.locals@),
            label_names: self.data_labels@.map_values(|l: (String, usize)| label_name(l)),
            label_positions: self.data_labels@.map_values(|l: (String, usize)| label_position(l)),
            function_names: string_views(self.function_names@),
            function_types: self.function_types@,
        }
    }

    /// The operator tables line up with their keys and the function names
    /// with their types.
    pub open spec fn wf(&self) -> bool {
        &&& self.un_op_keys@.len() == self.un_op_impls_table@.len()
        &&& self.bin_op_keys@.len() == self.bin_op_impls_table@.len()
        &&& self.function_names@.len() == self.function_types@.len()
    }
}

fn find_last_variable(vars: &Vec<il::Variable>, name: &String) -> (r: Option<usize>)
    ensures
        match r {
            Some(i) => last_index(names_of(vars@), name@) == i && i < vars@.len(),
            None => last_index(names_of(vars@), name@) == -1,
        },
{
    let mut i = vars.len();
    while i > 0
        invariant
            i <= vars@.len(),
            forall|j: int| i <= j < vars@.len() ==> names_of(vars@)[j] != name@,
        decreases i,
    {
        i = i - 1;
        assert(names_of(vars@)[i as int] == il::variable_name(vars@[i as int]));
        if vars[i].name().eq(name) {
            proof {
                lemma_last_index(names_of(vars@), name@, i as int);
            }
            return Some(i);
        }
    }
    proof {
        lemma_last_index(names_of(vars@), name@, -1);
    }
    None
}

fn find_first_variable(vars: &Vec<il::Variable>, name: &String) -> (r: Option<usize>)
    ensures
        match r {
            Some(i) => first_index(names_of(vars@), name@) == i && i < vars@.len(),
            None => first_index(names_of(vars@), name@) == -1,
        },
{
    let mut i: usize = 0;
    while i < vars.len()
        invariant
            i <= vars@.len(),
            forall|j: int| 0 <= j < i ==> names_of(vars@)[j] != name@,
        decreases vars@.len() - i,
    {
        assert(names_of(vars@)[i as int] == il::variable_name(vars@[i as int]));
        if vars[i].name().eq(name) {
            proof {
                lemma_first_index(names_of(vars@), name@, i as int);
            }
            return Some(i);
        }
        i = i + 1;
    }
    proof {
        lemma_first_index(names_of(vars@), name@, -1);
    }
    None
}

fn find_last_name(names: &Vec<String>, name: &String) -> (r: Option<usize>)
    ensures
        match r {
            Some(i) => last_index(names@.map_values(|s: String| string_view(s)), name@) == i && i < names@.len(),
            None => last_index(names@.map_values(|s: String| string_view(s)), name@) == -1,
        },
{
    let ghost views = names@.map_values(|s: String| string_view(s));
    let mut i = names.len();
    while i > 0
        invariant
            i <= names@.len(),
            views == names@.map_values(|s: String| string_view(s)),
            forall|j: int| i <= j < names@.len() ==> views[j] != name@,
        decreases i,
    {
        i = i - 1;
        assert(views[i as int] == names@[i as int]@);
        if names[i].eq(name) {
            proof {
                lemma_last_index(views, name@, i as int);
            }
            return Some(i);
        }
    }
    proof {
        lemma_last_index(views, name@, -1);
    }
    None
}

fn find_last_label(labels: &Vec<(String, usize)>, name: &String) -> (r: Option<usize>)
    ensures
        match r {
            Some(i) => last_index(labels@.map_values(|l: (String, usize)| label_name(l)), name@) == i && i < labels@.len(),
            None => last_index(labels@.map_values(|l: (String, usize)| label_name(l)), name@) == -1,
        },
{
    let ghost views = labels@.map_values(|l: (String, usize)| label_name(l));
    let mut i = labels.len();
    while i > 0
        invariant
            i <= labels@.len(),
            views == labels@.map_values(|l: (String, usize)| label_name(l)),
            forall|j: int| i <= j < labels@.len() ==> views[j] != name@,
        decreases i,
    {
        i = i - 1;
        assert(views[i as int] == labels@[i as int].0@);
        if labels[i].0.eq(name) {
            proof {
                lemma_last_index(views, name@, i as int);
            }
            return Some(i);
        }
    }
    proof {
        lemma_last_index(views, name@, -1);
    }
    None
}

fn find_last_un_op(keys: &Vec<(ast::Op, ValueType)>, op: ast::Op, t: ValueType) -> (r: Option<usize>)
    ensures
        match r {
            Some(i) => last_index(keys@, (op, t)) == i && i < keys@.len(),
            None => last_index(keys@, (op, t)) == -1,
        },
{
    let mut i = keys.len();
    while i > 0
        invariant
            i <= keys@.len(),
            forall|j: int| i <= j < keys@.len() ==> keys@[j] != (op, t),
        decreases i,
    {
        i = i - 1;
        if keys[i].0 == op && keys[i].1 == t {
            proof {
                lemma_last_index(keys@, (op, t), i as int);
            }
            return Some(i);
        }
    }
    proof {
        lemma_last_index(keys@, (op, t), -1);
    }
    None
}

fn find_last_bin_op(
    keys: &Vec<(ast::Op, ValueType, ValueType)>,
    op: ast::Op,
    lhs: ValueType,
    rhs: ValueType,
) -> (r: Option<usize>)
    ensures
        match r {
            Some(i) => last_index(keys@, (op, lhs, rhs)) == i && i < keys@.len(),
            None => last_index(keys@, (op, lhs, rhs)) == -1,
        },
{
    let mut i = keys.len();
    while i > 0
        invariant
            i <= keys@.len(),
            forall|j: int| i <= j < keys@.len() ==> keys@[j] != (op, lhs, rhs),
        decreases i,
    {
        i = i - 1;
        if keys[i].0 == op && keys[i].1 == lhs && keys[i].2 == rhs {
            proof {
                lemma_last_index(keys@, (op, lhs, rhs), i as int);
            }
            return Some(i);
        }
    }
    proof {
        lemma_last_index(keys@, (op, lhs, rhs), -1);
    }
    None
}

/// The reference a variable name resolves to: the first local of that name,
/// else the last global of that name.
fn resolve_variable_ref(name: &String, tables: &Tables) -> (r: Result<il::VariableRef, CompileError>)
    ensures
        r is Ok <==> resolvable(tables.env(), name@),
        r matches Ok(v) ==> resolves_to(tables.env(), name@, v) && il::variable_ref_type(v)
            == resolved_type(tables.env(), name@),
{
    if let Some(index) = find_first_variable(tables.locals, name) {
        assert(types_of(tables.locals@)[index as int] == il::variable_type(tables.locals@[index as int]));
        return Ok(
            il::VariableRef::Local(
                il::LocalVariableRef { local_index: index, value_type: tables.locals[index].value_type() },
            ),
        );
    }
    if let Some(index) = find_last_variable(tables.globals, name) {
        assert(types_of(tables.globals@)[index as int] == il::variable_type(tables.globals@[index as int]));
        return Ok(
            il::VariableRef::Global(
                il::GlobalVariableRef {
                    global_index: index,
                    value_type: tables.globals[index].value_type(),
                },
            ),
        );
    }
    Err(CompileError::UnresolvedVariable)
}

fn compile_exprs<F: FloatOps>(exprs: &Vec<Box<ast::Expr>>, tables: &Tables, floats: &F) -> (r: Result<
    Vec<Box<il::Expr>>,
    CompileError,
>)
    requires
        tables.wf(),
    ensures
        r is Ok <==> forall|i: int| 0 <= i < exprs@.len() ==> expr_ok(tables.env(), *#[trigger] exprs@[i]),
        r matches Ok(v) ==> {
            &&& v@.len() == exprs@.len()
            &&& forall|i: int|
                0 <= i < exprs@.len() ==> compiles_expr(floats.model(), tables.env(), *#[trigger] exprs@[i], *v@[i])
                    && il::expr_type(*v@[i]) == compiled_type(tables.env(), *exprs@[i])
        },
    decreases exprs,
{
    let mut out: Vec<Box<il::Expr>> = Vec::new();
    let mut i: usize = 0;
    while i < exprs.len()
        invariant
            tables.wf(),
            i <= exprs@.len(),
            out@.len() == i,
            forall|j: int| 0 <= j < i ==> expr_ok(tables.env(), *#[trigger] exprs@[j]),
            forall|j: int|
                0 <= j < i ==> compiles_expr(floats.model(), tables.env(), *#[trigger] exprs@[j], *out@[j])
                    && il::expr_type(*out@[j]) == compiled_type(tables.env(), *exprs@[j]),
        decreases exprs@.len() - i,
    {
        let e = compile_expr(&exprs[i], tables, floats)?;
        out.push(e);
        i = i + 1;
    }
    Ok(out)
}

/// Compiles an expression against the tables of the function it stands in.
fn compile_expr<F: FloatOps>(expr: &ast::Expr, tables: &Tables, floats: &F) -> (r: Result<
    Box<il::Expr>,
    CompileError,
>)
    requires
        tables.wf(),
    ensures
        r is Ok <==> expr_ok(tables.env(), *expr),
        r matches Ok(o) ==> compiles_expr(floats.model(), tables.env(), *expr, *o) && il::expr_type(*o)
            == compiled_type(tables.env(), *expr),
    decreases expr,
{
    match expr {
        ast::Expr::FloatLiteral(text) => Ok(Box::new(il::Expr::Float(floats.parse_literal(text.as_str())))),
        ast::Expr::IntegerLiteral(value) => Ok(Box::new(il::Expr::Integer(*value))),
        ast::Expr::BoolLiteral(value) => Ok(Box::new(il::Expr::Bool(*value))),
        ast::Expr::StringLiteral(value) => Ok(Box::new(il::Expr::String(value.clone()))),
        ast::Expr::FunctionCallOrArrayElemRef(call) => {
            let arguments = compile_exprs(&call.arguments, tables, floats)?;
            if let Some(index) = find_last_name(tables.function_names, &call.function_name) {
                return Ok(
                    Box::new(
                        il::Expr::FunctionCall(
                            il::FunctionCall {
                                function_index: index,
                                arguments,
                                return_type: tables.function_types[index],
                            },
                        ),
                    ),
                );
            }
            if let Some(index) = find_last_variable(tables.globals, &call.function_name) {
                assert(types_of(tables.globals@)[index as int] == il::variable_type(
                    tables.globals@[index as int],
                ));
                return Ok(
                    Box::new(
                        il::Expr::ArrayElemRef(
                            il::ArrayElemRef::Global(
                                il::GlobalArrayElemRef {
                                    global_index: index,
                                    dimensions: arguments,
                                    value_type: tables.globals[index].value_type(),
                                },
                            ),
                        ),
                    ),
                );
            }
            Err(CompileError::UnresolvedFunctionOrArray)
        },
        ast::Expr::VariableRef(variable_ref) => {
            let r = resolve_variable_ref(&variable_ref.name, tables)?;
            Ok(Box::new(il::Expr::VariableRef(r)))
        },
        ast::Expr::UnOp(un_op) => {
            let inner = compile_expr(&un_op.expr, tables, floats)?;
            let inner_type = inner.value_type();
            match find_last_un_op(tables.un_op_keys, un_op.op, inner_type) {
                Some(impl_index) => {
                    assert(tables.env().un_op_types[impl_index as int]
                        == tables.un_op_impls_table@[impl_index as int].return_type);
                    Ok(
                        Box::new(
                            il::Expr::UnOp(
                                il::UnOp {
                                    impl_index,
                                    expr: inner,
                                    return_type: tables.un_op_impls_table[impl_index].return_type,
                                },
                            ),
                        ),
                    )
                },
                None => Err(CompileError::UnsupportedUnOp),
            }
        },
        ast::Expr::BinOp(bin_op) => {
            let lhs = compile_expr(&bin_op.lhs, tables, floats)?;
            let rhs = compile_expr(&bin_op.rhs, tables, floats)?;
            let lhs_type = lhs.value_type();
            let rhs_type = rhs.value_type();
            match find_last_bin_op(tables.bin_op_keys, bin_op.op, lhs_type, rhs_type) {
                Some(impl_index) => {
                    assert(tables.env().bin_op_types[impl_index as int]
                        == tables.bin_op_impls_table@[impl_index as int].return_type);
                    Ok(
                        Box::new(
                            il::Expr::BinOp(
                                il::BinOp {
                                    impl_index,
                                    lhs,
                                    rhs,
                                    return_type: tables.bin_op_impls_table[impl_index].return_type,
                                },
                            ),
                        ),
                    )
                },
                None => Err(CompileError::UnsupportedBinOp),
            }
        },
    }
}

/// `expr` converted to `value_type`: a cast is wrapped around it when its
/// type differs.
fn insert_cast(expr: Box<il::Expr>, value_type: ValueType) -> (r: Box<il::Expr>)
    ensures
        il::expr_type(*expr) == value_type ==> r == expr,
        il::expr_type(*expr) != value_type ==> *r == il::Expr::Cast(
            il::Cast { expr, target_type: value_type },
        ),
        il::expr_type(*r) == value_type,
{
    if expr.value_type() == value_type {
        expr
    } else {
        Box::new(il::Expr::Cast(il::Cast { expr, target_type: value_type }))
    }
}

fn compile_array_elem_ref<F: FloatOps>(
    array_elem_ref: &ast::ArrayElemRef,
    tables: &Tables,
    floats: &F,
) -> (r: Result<il::ArrayElemRef, CompileError>)
    requires
        tables.wf(),
    ensures
        r is Ok <==> l_value_ok(tables.env(), ast::LValue::ArrayElemRef(*array_elem_ref)),
        r matches Ok(o) ==> compiles_l_value(floats.model(), 
            tables.env(),
            ast::LValue::ArrayElemRef(*array_elem_ref),
            il::LValue::ArrayElemRef(o),
        ),
{
    let dimensions = compile_exprs(&array_elem_ref.dimensions, tables, floats)?;
    if let Some(index) = find_last_variable(tables.globals, &array_elem_ref.array_name) {
        assert(types_of(tables.globals@)[index as int] == il::variable_type(
            tables.globals@[index as int],
        ));
        return Ok(
            il::ArrayElemRef::Global(
                il::GlobalArrayElemRef {
                    global_index: index,
                    dimensions,
                    value_type: tables.globals[index].value_type(),
                },
            ),
        );
    }
    Err(CompileError::UnresolvedArray)
}

fn compile_l_value<F: FloatOps>(l_value: &ast::LValue, tables: &Tables, floats: &F) -> (r: Result<
    il::LValue,
    CompileError,
>)
    requires
        tables.wf(),
    ensures
        r is Ok <==> l_value_ok(tables.env(), *l_value),
        r matches Ok(o) ==> compiles_l_value(floats.model(), tables.env(), *l_value, o),
{
    match l_value {
        ast::LValue::VariableRef(variable_ref) => {
            let r = resolve_variable_ref(&variable_ref.name, tables)?;
            Ok(il::LValue::VariableRef(r))
        },
        ast::LValue::ArrayElemRef(array_elem_ref) => {
            let r = compile_array_elem_ref(array_elem_ref, tables, floats)?;
            Ok(il::LValue::ArrayElemRef(r))
        },
    }
}

fn compile_assignment<F: FloatOps>(assignment: &ast::Assignment, tables: &Tables, floats: &F) -> (r:
    Result<il::Assignment, CompileError>)
    requires
        tables.wf(),
    ensures
        r is Ok <==> assignment_ok(tables.env(), *assignment),
        r matches Ok(o) ==> compiles_assignment(floats.model(), tables.env(), *assignment, o),
{
    let l_value = compile_l_value(&assignment.l_value, tables, floats)?;
    let expr = compile_expr(&assignment.expr, tables, floats)?;
    let value_type = l_value.value_type();
    Ok(il::Assignment { l_value, expr: insert_cast(expr, value_type) })
}

/// The value type a type specifier gives.
fn compile_value_type(type_specifier: &Option<ast::TypeSpecifier>) -> (r: Result<ValueType, CompileError>)
    ensures
        match r {
            Ok(t) => specifier_type(*type_specifier) == Some(t),
            Err(_) => specifier_type(*type_specifier) is None,
        },
{
    match type_specifier {
        Some(ast::TypeSpecifier::Int) | None => Ok(ValueType::Integer),
        Some(ast::TypeSpecifier::Float) => Ok(ValueType::Float),
        Some(ast::TypeSpecifier::String) => Ok(ValueType::String),
        Some(ast::TypeSpecifier::Custom(_)) => Err(CompileError::UnsupportedTypeSpecifier),
    }
}

fn compile_array_alloc<F: FloatOps>(array_decl: &ast::ArrayDecl, tables: &Tables, floats: &F) -> (r:
    Result<il::ArrayAlloc, CompileError>)
    requires
        tables.wf(),
    ensures
        r is Ok <==> stmt_ok(tables.env(), ast::Statement::ArrayDecl(*array_decl)),
        r matches Ok(o) ==> compiles_stmt(floats.model(), 
            tables.env(),
            ast::Statement::ArrayDecl(*array_decl),
            il::Statement::ArrayAlloc(o),
        ),
{
    let index = match find_last_variable(tables.globals, &array_decl.name) {
        Some(index) => index,
        None => {
            return Err(CompileError::UnresolvedArray);
        },
    };
    let dimensions = compile_exprs(&array_decl.dimensions, tables, floats)?;
    let value_type = compile_value_type(&array_decl.type_specifier)?;
    Ok(il::ArrayAlloc { array_ref: il::ArrayRef::Global(index), dimensions, value_type })
}

fn compile_function_call<F: FloatOps>(
    function_call: &ast::FunctionCallOrArrayElemRef,
    tables: &Tables,
    floats: &F,
) -> (r: Result<il::FunctionCall, CompileError>)
    requires
        tables.wf(),
    ensures
        r is Ok <==> stmt_ok(tables.env(), ast::Statement::FunctionCall(*function_call)),
        r matches Ok(o) ==> compiles_stmt(floats.model(), 
            tables.env(),
            ast::Statement::FunctionCall(*function_call),
            il::Statement::FunctionCall(o),
        ),
{
    let function_index = match find_last_name(tables.function_names, &function_call.function_name) {
        Some(index) => index,
        None => {
            return Err(CompileError::UnresolvedFunction);
        },
    };
    let arguments = compile_exprs(&function_call.arguments, tables, floats)?;
    Ok(
        il::FunctionCall {
            function_index,
            arguments,
            return_type: tables.function_types[function_index],
        },
    )
}

/// Compiles a `For` loop: the initialization, the condition
/// `counter <= to`, the increment `counter = counter + step` and the body.
fn compile_for_statement<F: FloatOps>(for_statement: &ast::For, tables: &Tables, floats: &F) -> (r:
    Result<il::For, CompileError>)
    requires
        tables.wf(),
    ensures
        r is Ok <==> stmt_ok(tables.env(), ast::Statement::For(*for_statement)),
        r matches Ok(o) ==> compiles_stmt(floats.model(), tables.env(), ast::Statement::For(*for_statement), il::Statement::For(o)),
    decreases for_statement,
{
    let index_l_value = &for_statement.initialization.l_value;
    let index_variable_ref = match index_l_value {
        ast::LValue::VariableRef(variable_ref) => variable_ref,
        ast::LValue::ArrayElemRef(_) => {
            return Err(CompileError::ArrayElemAsForCounter);
        },
    };
    let initialization = compile_assignment(&for_statement.initialization, tables, floats)?;
    let ghost env = tables.env();
    let ghost name = for_counter(*for_statement);
    assert(name == index_variable_ref.name@);
    // counter <= to
    let counter = resolve_variable_ref(&index_variable_ref.name, tables)?;
    let to = compile_expr(&for_statement.to, tables, floats)?;
    let counter_type = counter.value_type();
    let to_type = to.value_type();
    let condition_index = match find_last_bin_op(tables.bin_op_keys, ast::Op::LtEq, counter_type, to_type) {
        Some(i) => i,
        None => {
            return Err(CompileError::UnsupportedBinOp);
        },
    };
    assert(env.bin_op_types[condition_index as int]
        == tables.bin_op_impls_table@[condition_index as int].return_type);
    let condition = Box::new(
        il::Expr::BinOp(
            il::BinOp {
                impl_index: condition_index,
                lhs: Box::new(il::Expr::VariableRef(counter)),
                rhs: to,
                return_type: tables.bin_op_impls_table[condition_index].return_type,
            },
        ),
    );
    // counter = counter + step
    let increment_l_value = compile_l_value(index_l_value, tables, floats)?;
    let counter2 = resolve_variable_ref(&index_variable_ref.name, tables)?;
    let step = match &for_statement.step {
        Some(step) => compile_expr(step, tables, floats)?,
        None => Box::new(il::Expr::Integer(1)),
    };
    let step_type = step.value_type();
    let sum_index = match find_last_bin_op(tables.bin_op_keys, ast::Op::Add, counter_type, step_type) {
        Some(i) => i,
        None => {
            return Err(CompileError::UnsupportedBinOp);
        },
    };
    assert(env.bin_op_types[sum_index as int]
        == tables.bin_op_impls_table@[sum_index as int].return_type);
    let sum = Box::new(
        il::Expr::BinOp(
            il::BinOp {
                impl_index: sum_index,
                lhs: Box::new(il::Expr::VariableRef(counter2)),
                rhs: step,
                return_type: tables.bin_op_impls_table[sum_index].return_type,
            },
        ),
    );
    let l_type = increment_l_value.value_type();
    let increment = il::Assignment { l_value: increment_l_value, expr: insert_cast(sum, l_type) };
    let body = compile_statements(&for_statement.body, tables, floats)?;
    Ok(il::For { initialization, condition, increment, body })
}

fn compile_statements<F: FloatOps>(statements: &Vec<ast::Statement>, tables: &Tables, floats: &F) -> (r:
    Result<Vec<il::Statement>, CompileError>)
    requires
        tables.wf(),
    ensures
        r is Ok <==> stmts_ok(tables.env(), statements@),
        r matches Ok(v) ==> compiles_stmts(floats.model(), tables.env(), statements@, v@),
    decreases statements,
{
    let mut out: Vec<il::Statement> = Vec::new();
    let mut i: usize = 0;
    while i < statements.len()
        invariant
            tables.wf(),
            i <= statements@.len(),
            out@.len() == i,
            forall|k: int| 0 <= k < i ==> stmt_ok(tables.env(), #[trigger] statements@[k]),
            forall|k: int|
                0 <= k < i ==> compiles_stmt(floats.model(), tables.env(), #[trigger] statements@[k], out@[k]),
        decreases statements@.len() - i,
    {
        let s = compile_statement(&statements[i], tables, floats)?;
        out.push(s);
        i = i + 1;
    }
    Ok(out)
}

/// Compiles a statement against the tables of the function it stands in.
fn compile_statement<F: FloatOps>(statement: &ast::Statement, tables: &Tables, floats: &F) -> (r: Result<
    il::Statement,
    CompileError,
>)
    requires
        tables.wf(),
    ensures
        r is Ok <==> stmt_ok(tables.env(), *statement),
        r matches Ok(o) ==> compiles_stmt(floats.model(), tables.env(), *statement, o),
    decreases statement,
{
    match statement {
        ast::Statement::ArrayDecl(array_decl) => {
            let a = compile_array_alloc(array_decl, tables, floats)?;
            Ok(il::Statement::ArrayAlloc(a))
        },
        ast::Statement::If(if_statement) => {
            let condition = compile_expr(&if_statement.condition, tables, floats)?;
            let body = compile_statements(&if_statement.body, tables, floats)?;
            let else_clause = match &if_statement.else_clause {
                Some(else_clause) => Some(compile_statements(&else_clause.body, tables, floats)?),
                None => None,
            };
            Ok(il::Statement::If(il::If { condition, body, else_clause }))
        },
        ast::Statement::While(while_statement) => {
            let condition = compile_expr(&while_statement.condition, tables, floats)?;
            let body = compile_statements(&while_statement.body, tables, floats)?;
            Ok(il::Statement::While(il::While { condition, body }))
        },
        ast::Statement::For(for_statement) => {
            let f = compile_for_statement(for_statement, tables, floats)?;
            Ok(il::Statement::For(f))
        },
        ast::Statement::Restore(label_name) => {
            match find_last_label(tables.data_labels, label_name) {
                Some(i) => Ok(il::Statement::Restore(tables.data_labels[i].1)),
                None => Err(CompileError::UnresolvedLabel),
            }
        },
        ast::Statement::Read(l_value) => {
            let l = compile_l_value(l_value, tables, floats)?;
            Ok(il::Statement::Read(l))
        },
        ast::Statement::Assignment(assignment) => {
            let a = compile_assignment(assignment, tables, floats)?;
            Ok(il::Statement::Assignment(a))
        },
        ast::Statement::FunctionCall(function_call) => {
            let c = compile_function_call(function_call, tables, floats)?;
            Ok(il::Statement::FunctionCall(c))
        },
        ast::Statement::End => Ok(il::Statement::End),
        ast::Statement::Repeat(_) | ast::Statement::Select(_) => Err(CompileError::UnsupportedStatement),
    }
}

fn compile_locals_visit_assignment(
    assignment: &ast::Assignment,
    globals: &Vec<il::Variable>,
    locals: &mut Vec<il::Variable>,
) -> (r: Result<(), CompileError>)
    ensures
        match locals_visit_assignment(names_of(globals@), old(locals)@, *assignment) {
            Some(l) => r is Ok && final(locals)@ == l,
            None => r is Err,
        },
{
    let (l_value_name, type_specifier) = match &assignment.l_value {
        ast::LValue::VariableRef(variable_ref) => (&variable_ref.name, &variable_ref.type_specifier),
        ast::LValue::ArrayElemRef(array_elem_ref) => (
            &array_elem_ref.array_name,
            &array_elem_ref.type_specifier,
        ),
    };
    let value_type = compile_value_type(type_specifier)?;
    if find_first_variable(locals, l_value_name).is_none() && find_last_variable(
        globals,
        l_value_name,
    ).is_none() {
        match &assignment.l_value {
            ast::LValue::VariableRef(_) => {
                locals.push(
                    il::Variable::SingleVariable(
                        il::SingleVariable {
                            name: l_value_name.clone(),
                            is_const: false,
                            value_type,
                        },
                    ),
                );
            },
            ast::LValue::ArrayElemRef(_) => {
                return Err(CompileError::AssignmentToUndefinedArrayElem);
            },
        }
    }
    Ok(())
}

/// Once visiting a prefix of statements fails, visiting all of them fails.
proof fn lemma_locals_visit_failure_persists(
    global_names: Seq<Seq<char>>,
    locals: Seq<il::Variable>,
    ss: Seq<ast::Statement>,
    k: int,
)
    requires
        0 <= k <= ss.len(),
        locals_visit_stmts(global_names, locals, ss.take(k)) is None,
    ensures
        locals_visit_stmts(global_names, locals, ss) is None,
    decreases ss.len() - k,
{
    if k == ss.len() {
        assert(ss.take(k) =~= ss);
    } else {
        assert(ss.drop_last().take(k) =~= ss.take(k));
        lemma_locals_visit_failure_persists(global_names, locals, ss.drop_last(), k);
    }
}

fn compile_locals_visit_statements(
    statements: &Vec<ast::Statement>,
    globals: &Vec<il::Variable>,
    locals: &mut Vec<il::Variable>,
) -> (r: Result<(), CompileError>)
    ensures
        match locals_visit_stmts(names_of(globals@), old(locals)@, statements@) {
            Some(l) => r is Ok && final(locals)@ == l,
            None => r is Err,
        },
    decreases statements,
{
    let mut i: usize = 0;
    while i < statements.len()
        invariant
            i <= statements@.len(),
            locals_visit_stmts(names_of(globals@), old(locals)@, statements@.take(i as int)) == Some(
                locals@,
            ),
        decreases statements@.len() - i,
    {
        proof {
            assert(statements@.take(i + 1).drop_last() =~= statements@.take(i as int));
        }
        let r = compile_locals_visit_statement(&statements[i], globals, locals);
        if r.is_err() {
            proof {
                lemma_locals_visit_failure_persists(
                    names_of(globals@),
                    old(locals)@,
                    statements@,
                    i + 1,
                );
            }
            return r;
        }
        i = i + 1;
    }
    proof {
        assert(statements@.take(i as int) =~= statements@);
    }
    Ok(())
}

fn compile_locals_visit_statement(
    statement: &ast::Statement,
    globals: &Vec<il::Variable>,
    locals: &mut Vec<il::Variable>,
) -> (r: Result<(), CompileError>)
    ensures
        match locals_visit_stmt(names_of(globals@), old(locals)@, *statement) {
            Some(l) => r is Ok && final(locals)@ == l,
            None => r is Err,
        },
    decreases statement,
{
    match statement {
        ast::Statement::If(if_statement) => {
            compile_locals_visit_statements(&if_statement.body, globals, locals)?;
            if let Some(else_clause) = &if_statement.else_clause {
                compile_locals_visit_statements(&else_clause.body, globals, locals)?;
            }
            Ok(())
        },
        ast::Statement::While(while_statement) => {
            compile_locals_visit_statements(&while_statement.body, globals, locals)
        },
        ast::Statement::For(for_statement) => {
            compile_locals_visit_assignment(&for_statement.initialization, globals, locals)?;
            compile_locals_visit_statements(&for_statement.body, globals, locals)
        },
        ast::Statement::Assignment(assignment) => {
            compile_locals_visit_assignment(assignment, globals, locals)
        },
        ast::Statement::Repeat(_) | ast::Statement::Select(_) => Err(CompileError::UnsupportedStatement),
        _ => Ok(()),
    }
}

/// Compiles a function declaration: its parameters and the variables its
/// body assigns become its locals, and its body is compiled against them.
fn compile_function<F: FloatOps>(function_decl: &ast::FunctionDecl, base: &Tables, floats: &F) -> (r:
    Result<il::Function, CompileError>)
    requires
        base.wf(),
    ensures
        r is Ok <==> function_ok(base.env(), *function_decl),
        r matches Ok(o) ==> compiles_function(floats.model(), base.env(), *function_decl, o),
{
    let mut args: Vec<il::SingleVariable> = Vec::new();
    let mut locals: Vec<il::Variable> = Vec::new();
    let mut i: usize = 0;
    while i < function_decl.args.len()
        invariant
            i <= function_decl.args@.len(),
            args@.len() == i,
            locals@.len() == i,
            forall|k: int|
                0 <= k < i ==> specifier_type((#[trigger] function_decl.args@[k]).type_specifier) is Some,
            forall|k: int| 0 <= k < i ==> args@[k] == arg_variable(#[trigger] function_decl.args@[k]),
            forall|k: int|
                0 <= k < i ==> locals@[k] == single_variable(arg_variable(#[trigger] function_decl.args@[k])),
        decreases function_decl.args@.len() - i,
    {
        let arg = &function_decl.args[i];
        let value_type = compile_value_type(&arg.type_specifier)?;
        args.push(il::SingleVariable { name: arg.name.clone(), is_const: false, value_type });
        locals.push(
            il::Variable::SingleVariable(
                il::SingleVariable { name: arg.name.clone(), is_const: false, value_type },
            ),
        );
        i = i + 1;
    }
    assert(locals@ =~= parameter_locals(*function_decl));
    compile_locals_visit_statements(&function_decl.body, base.globals, &mut locals)?;
    let tables = Tables {
        un_op_keys: base.un_op_keys,
        un_op_impls_table: base.un_op_impls_table,
        bin_op_keys: base.bin_op_keys,
        bin_op_impls_table: base.bin_op_impls_table,
        globals: base.globals,
        locals: &locals,
        data_labels: base.data_labels,
        function_names: base.function_names,
        function_types: base.function_types,
    };
    assert(tables.env() == with_locals(base.env(), locals@));
    let body = compile_statements(&function_decl.body, &tables, floats)?;
    let stack_frame_size = locals.len();
    Ok(
        il::Function {
            signature: il::FunctionSignature { name: function_decl.name.clone(), args },
            locals,
            stack_frame_size,
            body,
        },
    )
}

fn compile_single_variable(name: &String, type_specifier: &Option<ast::TypeSpecifier>, is_const: bool) -> (r:
    Result<il::SingleVariable, CompileError>)
    ensures
        match specifier_type(*type_specifier) {
            Some(t) => r == Ok::<il::SingleVariable, CompileError>(
                il::SingleVariable { name: *name, is_const, value_type: t },
            ),
            None => r is Err,
        },
{
    let value_type = compile_value_type(type_specifier)?;
    Ok(il::SingleVariable { name: name.clone(), is_const, value_type })
}

/// The globals of a program: its global variables, constants and top-level
/// arrays in source order.
fn compile_globals(root: &ast::Root) -> (r: Result<Vec<il::Variable>, CompileError>)
    ensures
        match globals_of(root.nodes@) {
            Some(g) => r is Ok && r->Ok_0@ == g,
            None => r is Err,
        },
{
    let mut globals: Vec<il::Variable> = Vec::new();
    let mut i: usize = 0;
    while i < root.nodes.len()
        invariant
            i <= root.nodes@.len(),
            globals_of(root.nodes@.take(i as int)) == Some(globals@),
        decreases root.nodes@.len() - i,
    {
        proof {
            assert(root.nodes@.take(i + 1).drop_last() =~= root.nodes@.take(i as int));
        }
        match &root.nodes[i] {
            ast::Node::GlobalVariableDecl(variable_decl) => {
                match compile_single_variable(&variable_decl.name, &variable_decl.type_specifier, false) {
                    Ok(v) => globals.push(il::Variable::SingleVariable(v)),
                    Err(e) => {
                        proof {
                            lemma_globals_failure_persists(root.nodes@, i + 1);
                        }
                        return Err(e);
                    },
                }
            },
            ast::Node::ConstDecl(const_decl) => {
                match compile_single_variable(&const_decl.name, &const_decl.type_specifier, true) {
                    Ok(v) => globals.push(il::Variable::SingleVariable(v)),
                    Err(e) => {
                        proof {
                            lemma_globals_failure_persists(root.nodes@, i + 1);
                        }
                        return Err(e);
                    },
                }
            },
            ast::Node::Statement(ast::Statement::ArrayDecl(array_decl)) => {
                match compile_value_type(&array_decl.type_specifier) {
                    Ok(value_type) => globals.push(
                        il::Variable::Array(il::Array { name: array_decl.name.clone(), value_type }),
                    ),
                    Err(e) => {
                        proof {
                            lemma_globals_failure_persists(root.nodes@, i + 1);
                        }
                        return Err(e);
                    },
                }
            },
            _ => {},
        }
        i = i + 1;
    }
    proof {
        assert(root.nodes@.take(i as int) =~= root.nodes@);
    }
    Ok(globals)
}

proof fn lemma_globals_failure_persists(nodes: Seq<ast::Node>, k: int)
    requires
        0 <= k <= nodes.len(),
        globals_of(nodes.take(k)) is None,
    ensures
        globals_of(nodes) is None,
    decreases nodes.len() - k,
{
    if k == nodes.len() {
        assert(nodes.take(k) =~= nodes);
    } else {
        assert(nodes.drop_last().take(k) =~= nodes.take(k));
        lemma_globals_failure_persists(nodes.drop_last(), k);
    }
}

proof fn lemma_data_entries_prefix(nodes: Seq<ast::Node>, k: int)
    requires
        0 <= k <= nodes.len(),
    ensures
        data_entries(nodes.take(k)).len() <= data_entries(nodes).len(),
        forall|j: int|
            0 <= j < data_entries(nodes.take(k)).len() ==> data_entries(nodes.take(k))[j]
                == data_entries(nodes)[j],
    decreases nodes.len() - k,
{
    if k == nodes.len() {
        assert(nodes.take(k) =~= nodes);
    } else {
        assert(nodes.drop_last().take(k) =~= nodes.take(k));
        lemma_data_entries_prefix(nodes.drop_last(), k);
    }
}

/// The value a data literal denotes.
fn data_value<F: FloatOps>(expr: &ast::Expr, floats: &F) -> (r: Result<Value, CompileError>)
    ensures
        r is Ok <==> is_data_literal(*expr),
        r matches Ok(v) ==> data_value_matches(floats.model(), *expr, v@),
{
    match expr {
        ast::Expr::FloatLiteral(text) => Ok(Value::Float(floats.parse_literal(text.as_str()))),
        ast::Expr::IntegerLiteral(x) => Ok(Value::Integer(*x)),
        ast::Expr::BoolLiteral(x) => Ok(Value::Bool(*x)),
        ast::Expr::StringLiteral(x) => Ok(Value::String(x.clone())),
        _ => Err(CompileError::InvalidDataValue),
    }
}

/// The data table of a program, and each label with the position in the
/// table of the first value after it.
fn build_data_table_and_labels_map<F: FloatOps>(root: &ast::Root, floats: &F) -> (r: Result<
    (Vec<Value>, Vec<(String, usize)>),
    CompileError,
>)
    ensures
        r is Ok <==> forall|i: int|
            0 <= i < data_entries(root.nodes@).len() ==> is_data_literal(
                *#[trigger] data_entries(root.nodes@)[i],
            ),
        r matches Ok((table, labels)) ==> {
            &&& table@.len() == data_entries(root.nodes@).len()
            &&& forall|i: int|
                0 <= i < table@.len() ==> data_value_matches(floats.model(), 
                    *data_entries(root.nodes@)[i],
                    (#[trigger] table@[i])@,
                )
            &&& labels@.map_values(|l: (String, usize)| label_name(l)) == labels_of(
                root.nodes@,
            ).map_values(|l: (Seq<char>, nat)| label_entry_name(l))
            &&& labels@.map_values(|l: (String, usize)| label_position(l)) == labels_of(
                root.nodes@,
            ).map_values(|l: (Seq<char>, nat)| label_entry_position(l))
        },
{
    let mut table: Vec<Value> = Vec::new();
    let mut labels: Vec<(String, usize)> = Vec::new();
    let mut i: usize = 0;
    while i < root.nodes.len()
        invariant
            i <= root.nodes@.len(),
            table@.len() == data_entries(root.nodes@.take(i as int)).len(),
            forall|j: int|
                0 <= j < table@.len() ==> data_value_matches(floats.model(), 
                    *data_entries(root.nodes@.take(i as int))[j],
                    (#[trigger] table@[j])@,
                ),
            forall|j: int|
                0 <= j < table@.len() ==> is_data_literal(
                    *#[trigger] data_entries(root.nodes@.take(i as int))[j],
                ),
            labels@.len() == labels_of(root.nodes@.take(i as int)).len(),
            forall|j: int|
                0 <= j < labels@.len() ==> (#[trigger] labels@[j]).0@ == labels_of(
                    root.nodes@.take(i as int),
                )[j].0 && labels@[j].1 == labels_of(root.nodes@.take(i as int))[j].1,
        decreases root.nodes@.len() - i,
    {
        let ghost prefix = root.nodes@.take(i as int);
        proof {
            assert(root.nodes@.take(i + 1).drop_last() =~= prefix);
            assert(root.nodes@.take(i + 1).last() == root.nodes@[i as int]);
        }
        match &root.nodes[i] {
            ast::Node::Label(name) => {
                labels.push((name.clone(), table.len()));
            },
            ast::Node::Data(data) => {
                let ghost before = table@;
                let mut k: usize = 0;
                while k < data.values.len()
                    invariant
                        i < root.nodes@.len(),
                        prefix == root.nodes@.take(i as int),
                        root.nodes@[i as int] == ast::Node::Data(*data),
                        k <= data.values@.len(),
                        table@.len() == before.len() + k,
                        before.len() == data_entries(prefix).len(),
                        forall|j: int| 0 <= j < before.len() ==> table@[j] == before[j],
                        forall|j: int|
                            0 <= j < before.len() ==> data_value_matches(floats.model(), 
                                *data_entries(prefix)[j],
                                (#[trigger] before[j])@,
                            ) && is_data_literal(*data_entries(prefix)[j]),
                        forall|j: int|
                            0 <= j < k ==> data_value_matches(floats.model(), 
                                *data.values@[j],
                                (#[trigger] table@[before.len() + j])@,
                            ),
                        forall|j: int| 0 <= j < k ==> is_data_literal(*#[trigger] data.values@[j]),
                    decreases data.values@.len() - k,
                {
                    match data_value(&data.values[k], floats) {
                        Ok(v) => table.push(v),
                        Err(e) => {
                            proof {
                                lemma_data_entries_prefix(root.nodes@, i + 1);
                                let idx = before.len() + k;
                                assert(root.nodes@.take(i + 1).drop_last() =~= prefix);
                                assert(data_entries(root.nodes@.take(i + 1)) == data_entries(prefix)
                                    + data.values@);
                                assert(data_entries(root.nodes@.take(i + 1))[idx] == data.values@[k as int]);
                                assert(!is_data_literal(*data_entries(root.nodes@)[idx]));
                            }
                            return Err(e);
                        },
                    }
                    k = k + 1;
                }
                proof {
                    assert(data_entries(root.nodes@.take(i + 1)) == data_entries(prefix) + data.values@);
                    assert(labels_of(root.nodes@.take(i + 1)) == labels_of(prefix));
                    assert forall|j: int| 0 <= j < table@.len() implies data_value_matches(floats.model(), 
                        *data_entries(root.nodes@.take(i + 1))[j],
                        (#[trigger] table@[j])@,
                    ) && is_data_literal(*data_entries(root.nodes@.take(i + 1))[j]) by {
                        if j >= before.len() {
                            let jj = j - before.len();
                            assert(data_entries(root.nodes@.take(i + 1))[j] == data.values@[jj]);
                            assert(table@[before.len() + jj] == table@[j]);
                        } else {
                            assert(table@[j] == before[j]);
                            assert(data_entries(root.nodes@.take(i + 1))[j] == data_entries(prefix)[j]);
                        }
                    }
                }
            },
            _ => {},
        }
        proof {
            if !(root.nodes@[i as int] is Data) {
                assert(data_entries(root.nodes@.take(i + 1)) =~= data_entries(prefix));
            }
        }
        i = i + 1;
    }
    proof {
        assert(root.nodes@.take(i as int) =~= root.nodes@);
        assert(labels@.map_values(|l: (String, usize)| label_name(l)) =~= labels_of(
            root.nodes@,
        ).map_values(|l: (Seq<char>, nat)| label_entry_name(l)));
        assert(labels@.map_values(|l: (String, usize)| label_position(l)) =~= labels_of(
            root.nodes@,
        ).map_values(|l: (Seq<char>, nat)| label_entry_position(l)));
    }
    Ok((table, labels))
}

proof fn lemma_main_items_prefix(nodes: Seq<ast::Node>, k: int)
    requires
        0 <= k <= nodes.len(),
    ensures
        main_items(nodes.take(k)).len() <= main_items(nodes).len(),
        main_items(nodes.take(k)) == main_items(nodes).take(main_items(nodes.take(k)).len() as int),
    decreases nodes.len() - k,
{
    if k == nodes.len() {
        assert(nodes.take(k) =~= nodes);
        assert(main_items(nodes).take(main_items(nodes).len() as int) =~= main_items(nodes));
    } else {
        assert(nodes.drop_last().take(k) =~= nodes.take(k));
        lemma_main_items_prefix(nodes.drop_last(), k);
        let m = main_items(nodes.take(k)).len() as int;
        assert(main_items(nodes).take(m) =~= main_items(nodes.drop_last()).take(m));
    }
}

/// The assignment of a declaration's initial value, compiled against the
/// main function's tables.
fn compile_decl_assignment<F: FloatOps>(
    name: &String,
    type_specifier: &Option<ast::TypeSpecifier>,
    expr: &Box<ast::Expr>,
    tables: &Tables,
    floats: &F,
) -> (r: Result<il::Statement, CompileError>)
    requires
        tables.wf(),
    ensures
        r is Ok <==> stmt_ok(tables.env(), decl_assignment(*name, *type_specifier, *expr)),
        r matches Ok(o) ==> compiles_stmt(floats.model(), tables.env(), decl_assignment(*name, *type_specifier, *expr), o),
{
    let r = resolve_variable_ref(name, tables)?;
    let l_value = il::LValue::VariableRef(r);
    let e = compile_expr(expr, tables, floats)?;
    let value_type = l_value.value_type();
    Ok(il::Statement::Assignment(il::Assignment { l_value, expr: insert_cast(e, value_type) }))
}

fn compile_locals_visit_decl(
    name: &String,
    type_specifier: &Option<ast::TypeSpecifier>,
    expr: &Box<ast::Expr>,
    globals: &Vec<il::Variable>,
    locals: &mut Vec<il::Variable>,
) -> (r: Result<(), CompileError>)
    ensures
        match locals_visit_stmt(
            names_of(globals@),
            old(locals)@,
            decl_assignment(*name, *type_specifier, *expr),
        ) {
            Some(l) => r is Ok && final(locals)@ == l,
            None => r is Err,
        },
{
    let value_type = compile_value_type(type_specifier)?;
    if find_first_variable(locals, name).is_none() && find_last_variable(globals, name).is_none() {
        locals.push(
            il::Variable::SingleVariable(
                il::SingleVariable { name: name.clone(), is_const: false, value_type },
            ),
        );
    }
    Ok(())
}

/// The locals of the main function: the variables its top-level code assigns
/// that are no globals.
fn compile_main_locals(root: &ast::Root, globals: &Vec<il::Variable>) -> (r: Result<
    Vec<il::Variable>,
    CompileError,
>)
    ensures
        match locals_visit_stmts(names_of(globals@), Seq::empty(), main_items(root.nodes@)) {
            Some(l) => r is Ok && r->Ok_0@ == l,
            None => r is Err,
        },
{
    let ghost g = names_of(globals@);
    let mut locals: Vec<il::Variable> = Vec::new();
    let mut i: usize = 0;
    while i < root.nodes.len()
        invariant
            i <= root.nodes@.len(),
            g == names_of(globals@),
            locals_visit_stmts(g, Seq::empty(), main_items(root.nodes@.take(i as int))) == Some(
                locals@,
            ),
        decreases root.nodes@.len() - i,
    {
        let ghost prefix = root.nodes@.take(i as int);
        let ghost before = locals@;
        proof {
            assert(root.nodes@.take(i + 1).drop_last() =~= prefix);
            assert(root.nodes@.take(i + 1).last() == root.nodes@[i as int]);
        }
        let r = match &root.nodes[i] {
            ast::Node::GlobalVariableDecl(variable_decl) => match &variable_decl.init_expr {
                Some(e) => compile_locals_visit_decl(
                    &variable_decl.name,
                    &variable_decl.type_specifier,
                    e,
                    globals,
                    &mut locals,
                ),
                None => Ok(()),
            },
            ast::Node::ConstDecl(const_decl) => compile_locals_visit_decl(
                &const_decl.name,
                &const_decl.type_specifier,
                &const_decl.init_expr,
                globals,
                &mut locals,
            ),
            ast::Node::Statement(statement) => compile_locals_visit_statement(
                statement,
                globals,
                &mut locals,
            ),
            _ => Ok(()),
        };
        proof {
            let items = main_items(root.nodes@.take(i + 1));
            match main_item(root.nodes@[i as int]) {
                Some(st) => {
                    assert(items == main_items(prefix).push(st));
                    assert(items.drop_last() =~= main_items(prefix));
                },
                None => {
                    assert(items =~= main_items(prefix));
                },
            }
        }
        if let Err(e) = r {
            proof {
                lemma_main_items_prefix(root.nodes@, i + 1);
                let items = main_items(root.nodes@.take(i + 1));
                lemma_locals_visit_failure_persists(
                    g,
                    Seq::empty(),
                    main_items(root.nodes@),
                    items.len() as int,
                );
            }
            return Err(e);
        }
        i = i + 1;
    }
    proof {
        assert(root.nodes@.take(i as int) =~= root.nodes@);
    }
    Ok(locals)
}

/// The main function: the top-level code, with declarations that have an
/// initial value as assignments.
fn compile_main_function<F: FloatOps>(root: &ast::Root, base: &Tables, floats: &F) -> (r: Result<
    il::Function,
    CompileError,
>)
    requires
        base.wf(),
    ensures
        r is Ok <==> main_ok(base.env(), root.nodes@),
        r matches Ok(o) ==> compiles_main(floats.model(), base.env(), root.nodes@, o),
{
    let locals = compile_main_locals(root, base.globals)?;
    let tables = Tables {
        un_op_keys: base.un_op_keys,
        un_op_impls_table: base.un_op_impls_table,
        bin_op_keys: base.bin_op_keys,
        bin_op_impls_table: base.bin_op_impls_table,
        globals: base.globals,
        locals: &locals,
        data_labels: base.data_labels,
        function_names: base.function_names,
        function_types: base.function_types,
    };
    let ghost env = tables.env();
    assert(env == with_locals(base.env(), locals@));
    let mut body: Vec<il::Statement> = Vec::new();
    let mut i: usize = 0;
    while i < root.nodes.len()
        invariant
            tables.wf(),
            env == tables.env(),
            env == with_locals(base.env(), locals@),
            locals_visit_stmts(base.env().global_names, Seq::empty(), main_items(root.nodes@)) == Some(
                locals@,
            ),
            i <= root.nodes@.len(),
            compiles_stmts(floats.model(), env, main_items(root.nodes@.take(i as int)), body@),
            stmts_ok(env, main_items(root.nodes@.take(i as int))),
        decreases root.nodes@.len() - i,
    {
        let ghost prefix = root.nodes@.take(i as int);
        proof {
            assert(root.nodes@.take(i + 1).drop_last() =~= prefix);
            assert(root.nodes@.take(i + 1).last() == root.nodes@[i as int]);
        }
        let r: Option<Result<il::Statement, CompileError>> = match &root.nodes[i] {
            ast::Node::GlobalVariableDecl(variable_decl) => match &variable_decl.init_expr {
                Some(e) => Some(
                    compile_decl_assignment(
                        &variable_decl.name,
                        &variable_decl.type_specifier,
                        e,
                        &tables,
                        floats,
                    ),
                ),
                None => None,
            },
            ast::Node::ConstDecl(const_decl) => Some(
                compile_decl_assignment(
                    &const_decl.name,
                    &const_decl.type_specifier,
                    &const_decl.init_expr,
                    &tables,
                    floats,
                ),
            ),
            ast::Node::Statement(statement) => Some(compile_statement(statement, &tables, floats)),
            ast::Node::End => Some(Ok(il::Statement::End)),
            _ => None,
        };
        let ghost items = main_items(root.nodes@.take(i + 1));
        proof {
            match main_item(root.nodes@[i as int]) {
                Some(st) => {
                    assert(items == main_items(prefix).push(st));
                },
                None => {
                    assert(items =~= main_items(prefix));
                },
            }
        }
        match r {
            Some(Ok(st)) => {
                body.push(st);
            },
            Some(Err(e)) => {
                proof {
                    lemma_main_items_prefix(root.nodes@, i + 1);
                    let k = main_items(prefix).len() as int;
                    assert(items[k] == main_item(root.nodes@[i as int]).unwrap());
                    assert(!stmt_ok(env, items[k]));
                    assert(main_items(root.nodes@)[k] == items[k]);
                    assert(!stmt_ok(env, main_items(root.nodes@)[k]));
                }
                return Err(e);
            },
            None => {},
        }
        i = i + 1;
    }
    proof {
        assert(root.nodes@.take(i as int) =~= root.nodes@);
    }
    let stack_frame_size = locals.len();
    Ok(
        il::Function {
            signature: il::FunctionSignature { name: String::from_str("$main"), args: Vec::new() },
            locals,
            stack_frame_size,
            body,
        },
    )
}

proof fn lemma_function_decls_prefix(nodes: Seq<ast::Node>, k: int)
    requires
        0 <= k <= nodes.len(),
    ensures
        function_decls(nodes.take(k)).len() <= function_decls(nodes).len(),
        forall|j: int|
            0 <= j < function_decls(nodes.take(k)).len() ==> function_decls(nodes.take(k))[j]
                == function_decls(nodes)[j],
    decreases nodes.len() - k,
{
    if k == nodes.len() {
        assert(nodes.take(k) =~= nodes);
    } else {
        assert(nodes.drop_last().take(k) =~= nodes.take(k));
        lemma_function_decls_prefix(nodes.drop_last(), k);
    }
}

/// The names of the functions a program can call, with their return types:
/// its own functions, which return nothing, then the library functions.
fn function_names_and_types(root: &ast::Root, function_impls: &Vec<FunctionImpl>) -> (r: (
    Vec<String>,
    Vec<ValueType>,
))
    requires
        function_impls@.len() == impls::builtins().len(),
        forall|j: int|
            0 <= j < function_impls@.len() ==> impls::builtin_entry_matches(
                #[trigger] function_impls@[j],
                impls::builtins()[j],
            ),
    ensures
        string_views(r.0@) == decl_names(function_decls(root.nodes@)) + builtin_names(impls::builtins()),
        r.1@ == Seq::new(function_decls(root.nodes@).len(), |i: int| ValueType::Unit) + builtin_types(
            impls::builtins(),
        ),
{
    let ghost nodes = root.nodes@;
    let mut names: Vec<String> = Vec::new();
    let mut types: Vec<ValueType> = Vec::new();
    let mut i: usize = 0;
    while i < root.nodes.len()
        invariant
            nodes == root.nodes@,
            i <= nodes.len(),
            string_views(names@) == decl_names(function_decls(nodes.take(i as int))),
            types@ == Seq::new(function_decls(nodes.take(i as int)).len(), |i: int| ValueType::Unit),
        decreases nodes.len() - i,
    {
        proof {
            assert(nodes.take(i + 1).drop_last() =~= nodes.take(i as int));
            assert(nodes.take(i + 1).last() == nodes[i as int]);
        }
        if let ast::Node::FunctionDecl(function_decl) = &root.nodes[i] {
            proof {
                assert(function_decls(nodes.take(i + 1)) == function_decls(nodes.take(i as int)).push(
                    *function_decl,
                ));
            }
            let ghost old_names = names@;
            let ghost old_decls = function_decls(nodes.take(i as int));
            proof {
                assert(string_views(old_names).len() == old_names.len());
                assert(decl_names(old_decls).len() == old_decls.len());
            }
            names.push(function_decl.name.clone());
            types.push(ValueType::Unit);
            proof {
                let new_decls = function_decls(nodes.take(i + 1));
                assert(new_decls == old_decls.push(*function_decl));
                assert(names@ == old_names.push(function_decl.name));
                assert forall|j: int| 0 <= j < names@.len() implies string_views(names@)[j]
                    == decl_names(new_decls)[j] by {
                    if j < old_names.len() {
                        assert(string_views(old_names)[j] == decl_names(old_decls)[j]);
                    }
                }
                assert(string_views(names@) =~= decl_names(function_decls(nodes.take(i + 1))));
                assert(types@ =~= Seq::new(
                    function_decls(nodes.take(i + 1)).len(),
                    |i: int| ValueType::Unit,
                ));
            }
        } else {
            proof {
                assert(function_decls(nodes.take(i + 1)) =~= function_decls(nodes.take(i as int)));
            }
        }
        i = i + 1;
    }
    proof {
        assert(nodes.take(i as int) =~= nodes);
    }
    let ghost first_names = string_views(names@);
    let ghost first_types = types@;
    let mut k: usize = 0;
    while k < function_impls.len()
        invariant
            k <= function_impls@.len(),
            function_impls@.len() == impls::builtins().len(),
            forall|j: int|
                0 <= j < function_impls@.len() ==> impls::builtin_entry_matches(
                    #[trigger] function_impls@[j],
                    impls::builtins()[j],
                ),
            string_views(names@) == first_names + builtin_names(impls::builtins().take(k as int)),
            types@ == first_types + builtin_types(impls::builtins().take(k as int)),
        decreases function_impls@.len() - k,
    {
        assert(impls::builtin_entry_matches(function_impls@[k as int], impls::builtins()[k as int]));
        let ghost old_names = names@;
        proof {
            assert(string_views(old_names).len() == old_names.len());
            assert(builtin_names(impls::builtins().take(k as int)).len() == k);
        }
        names.push(function_impls[k].name.clone());
        types.push(function_impls[k].return_type);
        proof {
            let want = first_names + builtin_names(impls::builtins().take(k + 1));
            assert forall|j: int| 0 <= j < names@.len() implies string_views(names@)[j] == want[j] by {
                if j < old_names.len() {
                    assert(names@[j] == old_names[j]);
                    assert(string_views(old_names)[j] == (first_names + builtin_names(
                        impls::builtins().take(k as int),
                    ))[j]);
                }
            }
            assert(impls::builtins().take(k + 1).drop_last() =~= impls::builtins().take(k as int));
            assert(string_views(names@) =~= first_names + builtin_names(impls::builtins().take(k + 1)));
            assert(types@ =~= first_types + builtin_types(impls::builtins().take(k + 1)));
        }
        k = k + 1;
    }
    proof {
        assert(impls::builtins().take(k as int) =~= impls::builtins());
    }
    (names, types)
}

/// Compiles a program that `program_ok` accepts. The functions that can be
/// called are the program's own functions, in source order, followed by the
/// library functions; operators are resolved by the types of their operands.
pub fn compile<F: FloatOps>(root: &ast::Root, floats: &F) -> (p: il::Program)
    requires
        program_ok(*root),
    ensures
        compiles_program(floats.model(), *root, p),
{
    match compile_checked(root, floats) {
        Ok(p) => p,
        Err(_) => unreached(),
    }
}

/// Compiles any program: `Ok` exactly when `program_ok` accepts it, with
/// the program `compile` gives; else the first error found.
pub fn compile_checked<F: FloatOps>(root: &ast::Root, floats: &F) -> (r: Result<il::Program, CompileError>)
    ensures
        r is Ok <==> program_ok(*root),
        r matches Ok(p) ==> compiles_program(floats.model(), *root, p),
{
    let ghost nodes = root.nodes@;
    let mut un_op_pairs = impls::build_un_op_impls_table();
    let mut un_op_keys: Vec<(ast::Op, ValueType)> = Vec::new();
    let mut un_op_impls_table: Vec<FunctionImpl> = Vec::new();
    while un_op_pairs.len() > 0
        invariant
            un_op_keys@.len() == un_op_impls_table@.len(),
            un_op_keys@.len() + un_op_pairs@.len() == impls::un_op_fns().len(),
            forall|i: int|
                0 <= i < un_op_pairs@.len() ==> impls::un_op_entry_matches(
                    #[trigger] un_op_pairs@[i],
                    impls::un_op_fns()[un_op_keys@.len() + i],
                ),
            forall|i: int|
                0 <= i < un_op_keys@.len() ==> impls::un_op_entry_matches(
                    (#[trigger] un_op_keys@[i], un_op_impls_table@[i]),
                    impls::un_op_fns()[i],
                ),
        decreases un_op_pairs@.len(),
    {
        let (key, f) = un_op_pairs.remove(0);
        un_op_keys.push(key);
        un_op_impls_table.push(f);
    }
    let mut bin_op_pairs = impls::build_bin_op_impls_table();
    let mut bin_op_keys: Vec<(ast::Op, ValueType, ValueType)> = Vec::new();
    let mut bin_op_impls_table: Vec<FunctionImpl> = Vec::new();
    while bin_op_pairs.len() > 0
        invariant
            bin_op_keys@.len() == bin_op_impls_table@.len(),
            bin_op_keys@.len() + bin_op_pairs@.len() == impls::bin_op_fns().len(),
            forall|i: int|
                0 <= i < bin_op_pairs@.len() ==> impls::bin_op_entry_matches(
                    #[trigger] bin_op_pairs@[i],
                    impls::bin_op_fns()[bin_op_keys@.len() + i],
                ),
            forall|i: int|
                0 <= i < bin_op_keys@.len() ==> impls::bin_op_entry_matches(
                    (#[trigger] bin_op_keys@[i], bin_op_impls_table@[i]),
                    impls::bin_op_fns()[i],
                ),
        decreases bin_op_pairs@.len(),
    {
        let (key, f) = bin_op_pairs.remove(0);
        bin_op_keys.push(key);
        bin_op_impls_table.push(f);
    }
    let globals = compile_globals(root)?;
    let (data_table, data_labels) = build_data_table_and_labels_map(root, floats)?;
    let mut function_impls = impls::build_impls_table();
    let (function_names, function_types) = function_names_and_types(root, &function_impls);
    let ghost decl_count = function_decls(nodes).len();
    let empty: Vec<il::Variable> = Vec::new();
    let tables = Tables {
        un_op_keys: &un_op_keys,
        un_op_impls_table: &un_op_impls_table,
        bin_op_keys: &bin_op_keys,
        bin_op_impls_table: &bin_op_impls_table,
        globals: &globals,
        locals: &empty,
        data_labels: &data_labels,
        function_names: &function_names,
        function_types: &function_types,
    };
    let ghost env = program_env(nodes, globals@);
    proof {
        let e = tables.env();
        assert forall|j: int| 0 <= j < un_op_keys@.len() implies e.un_op_types[j] == env.un_op_types[j] by {
            assert(impls::un_op_entry_matches((un_op_keys@[j], un_op_impls_table@[j]), impls::un_op_fns()[j]));
        }
        assert forall|j: int| 0 <= j < un_op_keys@.len() implies e.un_op_keys[j] == env.un_op_keys[j] by {
            assert(impls::un_op_entry_matches((un_op_keys@[j], un_op_impls_table@[j]), impls::un_op_fns()[j]));
        }
        assert forall|j: int| 0 <= j < bin_op_keys@.len() implies e.bin_op_types[j] == env.bin_op_types[j] by {
            assert(impls::bin_op_entry_matches((bin_op_keys@[j], bin_op_impls_table@[j]), impls::bin_op_fns()[j]));
        }
        assert forall|j: int| 0 <= j < bin_op_keys@.len() implies e.bin_op_keys[j] == env.bin_op_keys[j] by {
            assert(impls::bin_op_entry_matches((bin_op_keys@[j], bin_op_impls_table@[j]), impls::bin_op_fns()[j]));
        }
        assert(e.un_op_keys =~= env.un_op_keys);
        assert(e.un_op_types =~= env.un_op_types);
        assert(e.bin_op_keys =~= env.bin_op_keys);
        assert(e.bin_op_types =~= env.bin_op_types);
        assert(e.local_names =~= env.local_names);
        assert(e.local_types =~= env.local_types);
        assert(e.function_names =~= env.function_names);
        assert(e.function_types =~= env.function_types);
        assert(e == env);
    }
    let mut function_table: Vec<il::FunctionTableEntry> = Vec::new();
    let mut i: usize = 0;
    while i < root.nodes.len()
        invariant
            nodes == root.nodes@,
            tables.wf(),
            tables.env() == env,
            env == program_env(nodes, globals@),
            globals_of(nodes) == Some(globals@),
            i <= nodes.len(),
            function_table@.len() == function_decls(nodes.take(i as int)).len(),
            forall|j: int|
                0 <= j < function_table@.len() ==> (#[trigger] function_table@[j] matches il::FunctionTableEntry::Function(
                    f,
                ) && compiles_function(floats.model(), env, function_decls(nodes.take(i as int))[j], f)),
            forall|j: int|
                0 <= j < function_table@.len() ==> function_ok(
                    env,
                    #[trigger] function_decls(nodes.take(i as int))[j],
                ),
        decreases nodes.len() - i,
    {
        proof {
            assert(nodes.take(i + 1).drop_last() =~= nodes.take(i as int));
            assert(nodes.take(i + 1).last() == nodes[i as int]);
        }
        if let ast::Node::FunctionDecl(function_decl) = &root.nodes[i] {
            proof {
                assert(function_decls(nodes.take(i + 1)) == function_decls(nodes.take(i as int)).push(
                    *function_decl,
                ));
            }
            match compile_function(function_decl, &tables, floats) {
                Ok(f) => function_table.push(il::FunctionTableEntry::Function(f)),
                Err(e) => {
                    proof {
                        lemma_function_decls_prefix(nodes, i + 1);
                        let j = function_table@.len() as int;
                        assert(function_decls(nodes.take(i + 1))[j] == *function_decl);
                        assert(function_decls(nodes)[j] == *function_decl);
                        assert(!function_ok(env, function_decls(nodes)[j]));
                    }
                    return Err(e);
                },
            }
        } else {
            proof {
                assert(function_decls(nodes.take(i + 1)) =~= function_decls(nodes.take(i as int)));
            }
        }
        i = i + 1;
    }
    proof {
        assert(nodes.take(i as int) =~= nodes);
    }
    let ghost decl_table = function_table@;
    while function_impls.len() > 0
        invariant
            function_table@.len() + function_impls@.len() == decl_count + impls::builtins().len(),
            decl_count == function_decls(nodes).len(),
            function_table@.len() >= decl_count,
            forall|j: int| 0 <= j < decl_count ==> function_table@[j] == decl_table[j],
            forall|j: int|
                0 <= j < function_impls@.len() ==> impls::builtin_entry_matches(
                    #[trigger] function_impls@[j],
                    impls::builtins()[function_table@.len() - decl_count + j],
                ),
            forall|j: int|
                decl_count <= j < function_table@.len() ==> (#[trigger] function_table@[j] matches il::FunctionTableEntry::FunctionImpl(
                    x,
                ) && impls::builtin_entry_matches(x, impls::builtins()[j - decl_count])),
        decreases function_impls@.len(),
    {
        let f = function_impls.remove(0);
        function_table.push(il::FunctionTableEntry::FunctionImpl(f));
    }
    let main_function = compile_main_function(root, &tables, floats)?;
    let p = il::Program {
        un_op_impls_table,
        bin_op_impls_table,
        globals,
        data_table,
        function_table,
        main_function,
    };
    proof {
        assert forall|j: int| 0 <= j < impls::builtins().len() implies (
        #[trigger] p.function_table@[decl_count + j] matches il::FunctionTableEntry::FunctionImpl(x)
            && impls::builtin_entry_matches(x, impls::builtins()[j])) by {
            assert(decl_count <= decl_count + j < p.function_table@.len());
        }
        let pnodes = root.nodes@;
        assert(globals_of(pnodes) == Some(p.globals@));
        assert(p.un_op_impls_table@.len() == impls::un_op_fns().len());
        assert(p.bin_op_impls_table@.len() == impls::bin_op_fns().len());
        assert(p.data_table@.len() == data_entries(pnodes).len());
        assert(p.function_table@.len() == function_decls(pnodes).len() + impls::builtins().len());
        assert(compiles_main(floats.model(), env, pnodes, p.main_function));
        assert(forall|i: int|
            0 <= i < p.data_table@.len() ==> data_value_matches(floats.model(), *data_entries(pnodes)[i], (#[trigger] p.data_table@[i])@));
        assert forall|i: int| 0 <= i < p.un_op_impls_table@.len() implies {
            let f = impls::un_op_fns()[i];
            let e = #[trigger] p.un_op_impls_table@[i];
            e.name@ == impls::un_op_name(f) && e.function == impls::Native::UnOp(f) && e.return_type
                == impls::un_op_return_type(f)
        } by {
            assert(impls::un_op_entry_matches((un_op_keys@[i], un_op_impls_table@[i]), impls::un_op_fns()[i]));
        }
        assert forall|i: int| 0 <= i < p.bin_op_impls_table@.len() implies {
            let f = impls::bin_op_fns()[i];
            let e = #[trigger] p.bin_op_impls_table@[i];
            e.name@ == impls::bin_op_name(f) && e.function == impls::Native::BinOp(f) && e.return_type
                == impls::bin_op_return_type(f)
        } by {
            assert(impls::bin_op_entry_matches((bin_op_keys@[i], bin_op_impls_table@[i]), impls::bin_op_fns()[i]));
        }
        assert forall|j: int| 0 <= j < function_decls(pnodes).len() implies (
        #[trigger] p.function_table@[j] matches il::FunctionTableEntry::Function(f)
            && compiles_function(floats.model(), env, function_decls(pnodes)[j], f)) by {
            assert(p.function_table@[j] == decl_table[j]);
            assert(decl_table[j] matches il::FunctionTableEntry::Function(f)
                && compiles_function(floats.model(), env, function_decls(nodes)[j], f));
        }
    }
    Ok(p)
}

} // verus!
