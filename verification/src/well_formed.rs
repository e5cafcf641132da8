use vstd::prelude::*;

use crate::ast;
use crate::compiler::{
    assignment_ok, compiled_type, compiles_assignment, compiles_cast_to, compiles_expr, compiles_for,
    compiles_function, compiles_l_value, compiles_program, compiles_stmt, compiles_stmts, expr_ok, for_ok,
    function_decls, function_ok, is_last_index, l_value_ok, last_index, main_items, program_env, program_ok,
    stmt_ok, stmts_ok, with_locals, CompileEnv,
};
use crate::il;
use crate::value::FloatModel;
use crate::interpreter::{assignment_wf, expr_wf, l_value_wf, program_wf, stmt_wf, stmts_wf};

verus! {

/// Whether the tables of `env` have the sizes of those of program `p`.
pub open spec fn env_fits(env: CompileEnv, p: il::Program) -> bool {
    &&& env.function_names.len() == p.function_table@.len()
    &&& env.global_names.len() == p.globals@.len()
    &&& env.un_op_keys.len() == p.un_op_impls_table@.len()
    &&& env.bin_op_keys.len() == p.bin_op_impls_table@.len()
}

/// A value that occurs has a last position.
proof fn lemma_last_index_exists<T>(s: Seq<T>, x: T, k: int)
    requires
        0 <= k < s.len(),
        s[k] == x,
    ensures
        exists|i: int| is_last_index(s, x, i),
    decreases s.len(),
{
    if s.last() == x {
        assert(is_last_index(s, x, s.len() - 1));
    } else {
        let t = s.drop_last();
        assert(t[k] == x);
        lemma_last_index_exists(t, x, k);
        let i = choose|i: int| is_last_index(t, x, i);
        if i == -1 {
            assert(t[k] != x);
        }
        assert(s[i] == t[i]);
        assert forall|j: int| i < j < s.len() implies s[j] != x by {
            if j < s.len() - 1 {
                assert(s[j] == t[j]);
            }
        }
        assert(is_last_index(s, x, i));
    }
}

/// A last position that is not -1 lies within the sequence.
proof fn lemma_last_index_bound<T>(s: Seq<T>, x: T)
    ensures
        last_index(s, x) >= 0 ==> last_index(s, x) < s.len(),
        last_index(s, x) >= 0 ==> s[last_index(s, x)] == x,
{
    if exists|k: int| #![trigger s[k]] 0 <= k < s.len() && s[k] == x {
        let k = choose|k: int| #![trigger s[k]] 0 <= k < s.len() && s[k] == x;
        lemma_last_index_exists(s, x, k);
    }
}

/// The type of a compiled expression is the type the compiler assigns to
/// its source.
proof fn lemma_compiled_type(fm: FloatModel, env: CompileEnv, e: ast::Expr, o: il::Expr)
    requires
        compiles_expr(fm, env, e, o),
    ensures
        il::expr_type(o) == compiled_type(env, e),
    decreases e,
{
    match e {
        ast::Expr::UnOp(u) => {
            let x = o->UnOp_0;
            lemma_compiled_type(fm, env, *u.expr, *x.expr);
        },
        ast::Expr::BinOp(b) => {
            let x = o->BinOp_0;
            lemma_compiled_type(fm, env, *b.lhs, *x.lhs);
            lemma_compiled_type(fm, env, *b.rhs, *x.rhs);
        },
        _ => {},
    }
}

/// A compiled expression refers only to table entries that exist.
proof fn lemma_expr_wf(fm: FloatModel, env: CompileEnv, p: il::Program, e: ast::Expr, o: il::Expr)
    requires
        env_fits(env, p),
        expr_ok(env, e),
        compiles_expr(fm, env, e, o),
    ensures
        expr_wf(p, o),
    decreases e,
{
    match e {
        ast::Expr::FunctionCallOrArrayElemRef(f) => {
            lemma_last_index_bound(env.function_names, f.function_name@);
            lemma_last_index_bound(env.global_names, f.function_name@);
            if last_index(env.function_names, f.function_name@) >= 0 {
                let c = o->FunctionCall_0;
                assert forall|i: int| 0 <= i < c.arguments@.len() implies expr_wf(
                    p,
                    *#[trigger] c.arguments@[i],
                ) by {
                    lemma_expr_wf(fm, env, p, *f.arguments@[i], *c.arguments@[i]);
                }
            } else {
                let a = o->ArrayElemRef_0->Global_0;
                assert forall|i: int| 0 <= i < a.dimensions@.len() implies expr_wf(
                    p,
                    *#[trigger] a.dimensions@[i],
                ) by {
                    lemma_expr_wf(fm, env, p, *f.arguments@[i], *a.dimensions@[i]);
                }
            }
        },
        ast::Expr::VariableRef(v) => {
            lemma_last_index_bound(env.global_names, v.name@);
        },
        ast::Expr::UnOp(u) => {
            let x = o->UnOp_0;
            lemma_expr_wf(fm, env, p, *u.expr, *x.expr);
            lemma_compiled_type(fm, env, *u.expr, *x.expr);
            lemma_last_index_bound(env.un_op_keys, (u.op, il::expr_type(*x.expr)));
        },
        ast::Expr::BinOp(b) => {
            let x = o->BinOp_0;
            lemma_expr_wf(fm, env, p, *b.lhs, *x.lhs);
            lemma_expr_wf(fm, env, p, *b.rhs, *x.rhs);
            lemma_compiled_type(fm, env, *b.lhs, *x.lhs);
            lemma_compiled_type(fm, env, *b.rhs, *x.rhs);
            lemma_last_index_bound(env.bin_op_keys, (b.op, il::expr_type(*x.lhs), il::expr_type(*x.rhs)));
        },
        _ => {},
    }
}

proof fn lemma_cast_wf(fm: FloatModel, env: CompileEnv, p: il::Program, e: ast::Expr, t: crate::value::ValueType, o: il::Expr)
    requires
        env_fits(env, p),
        expr_ok(env, e),
        compiles_cast_to(fm, env, e, t, o),
    ensures
        expr_wf(p, o),
{
    if compiled_type(env, e) == t {
        lemma_expr_wf(fm, env, p, e, o);
    } else {
        lemma_expr_wf(fm, env, p, e, *o->Cast_0.expr);
    }
}

proof fn lemma_l_value_wf(fm: FloatModel, env: CompileEnv, p: il::Program, l: ast::LValue, o: il::LValue)
    requires
        env_fits(env, p),
        l_value_ok(env, l),
        compiles_l_value(fm, env, l, o),
    ensures
        l_value_wf(p, o),
{
    match l {
        ast::LValue::VariableRef(v) => {
            lemma_last_index_bound(env.global_names, v.name@);
        },
        ast::LValue::ArrayElemRef(a) => {
            lemma_last_index_bound(env.global_names, a.array_name@);
            let g = o->ArrayElemRef_0->Global_0;
            assert forall|i: int| 0 <= i < g.dimensions@.len() implies expr_wf(p, *#[trigger] g.dimensions@[i]) by {
                lemma_expr_wf(fm, env, p, *a.dimensions@[i], *g.dimensions@[i]);
            }
        },
    }
}

proof fn lemma_assignment_wf(fm: FloatModel, env: CompileEnv, p: il::Program, a: ast::Assignment, o: il::Assignment)
    requires
        env_fits(env, p),
        assignment_ok(env, a),
        compiles_assignment(fm, env, a, o),
    ensures
        assignment_wf(p, o),
{
    lemma_l_value_wf(fm, env, p, a.l_value, o.l_value);
    lemma_cast_wf(fm, env, p, *a.expr, il::l_value_type(o.l_value), *o.expr);
}

/// The condition and increment of a compiled `For` loop refer only to
/// entries that exist.
proof fn lemma_for_wf(fm: FloatModel, env: CompileEnv, p: il::Program, f: ast::For, o: il::For)
    requires
        env_fits(env, p),
        for_ok(env, f),
        compiles_for(fm, env, f, o),
    ensures
        assignment_wf(p, o.initialization),
        expr_wf(p, *o.condition),
        assignment_wf(p, o.increment),
{
    let name = crate::compiler::for_counter(f);
    lemma_assignment_wf(fm, env, p, f.initialization, o.initialization);
    lemma_last_index_bound(env.global_names, name);
    let c = o.condition->BinOp_0;
    lemma_expr_wf(fm, env, p, *f.to, *c.rhs);
    lemma_compiled_type(fm, env, *f.to, *c.rhs);
    lemma_last_index_bound(env.bin_op_keys, (ast::Op::LtEq, il::expr_type(*c.lhs), il::expr_type(*c.rhs)));
    assert(expr_wf(p, *c.lhs));
    assert(expr_wf(p, *c.rhs));
    assert(c.impl_index < p.bin_op_impls_table@.len());
    lemma_l_value_wf(fm, env, p, f.initialization.l_value, o.increment.l_value);
    let sum = if crate::compiler::for_sum_type(env, f) == il::l_value_type(o.increment.l_value) {
        *o.increment.expr
    } else {
        *o.increment.expr->Cast_0.expr
    };
    let b = sum->BinOp_0;
    match f.step {
        Some(st) => {
            lemma_expr_wf(fm, env, p, *st, *b.rhs);
            lemma_compiled_type(fm, env, *st, *b.rhs);
        },
        None => {},
    }
    lemma_last_index_bound(env.bin_op_keys, (ast::Op::Add, il::expr_type(*b.lhs), il::expr_type(*b.rhs)));
    assert(expr_wf(p, *b.lhs));
    assert(expr_wf(p, *b.rhs));
    assert(expr_wf(p, sum));
}

/// A compiled statement refers only to table entries that exist.
proof fn lemma_stmt_wf(fm: FloatModel, env: CompileEnv, p: il::Program, s: ast::Statement, o: il::Statement)
    requires
        env_fits(env, p),
        stmt_ok(env, s),
        compiles_stmt(fm, env, s, o),
    ensures
        stmt_wf(p, o),
    decreases s,
{
    match s {
        ast::Statement::ArrayDecl(a) => {
            lemma_last_index_bound(env.global_names, a.name@);
            let x = o->ArrayAlloc_0;
            assert forall|i: int| 0 <= i < x.dimensions@.len() implies expr_wf(p, *#[trigger] x.dimensions@[i]) by {
                lemma_expr_wf(fm, env, p, *a.dimensions@[i], *x.dimensions@[i]);
            }
        },
        ast::Statement::If(i) => {
            let x = o->If_0;
            lemma_expr_wf(fm, env, p, *i.condition, *x.condition);
            assert forall|k: int| 0 <= k < x.body@.len() implies stmt_wf(p, #[trigger] x.body@[k]) by {
                lemma_stmt_wf(fm, env, p, i.body@[k], x.body@[k]);
            }
            match i.else_clause {
                Some(e) => {
                    let b = x.else_clause->Some_0;
                    assert forall|k: int| 0 <= k < b@.len() implies stmt_wf(p, #[trigger] b@[k]) by {
                        lemma_stmt_wf(fm, env, p, e.body@[k], b@[k]);
                    }
                },
                None => {},
            }
        },
        ast::Statement::While(w) => {
            let x = o->While_0;
            lemma_expr_wf(fm, env, p, *w.condition, *x.condition);
            assert forall|k: int| 0 <= k < x.body@.len() implies stmt_wf(p, #[trigger] x.body@[k]) by {
                lemma_stmt_wf(fm, env, p, w.body@[k], x.body@[k]);
            }
        },
        ast::Statement::For(f) => {
            let x = o->For_0;
            lemma_for_wf(fm, env, p, f, x);
            assert forall|k: int| 0 <= k < x.body@.len() implies stmt_wf(p, #[trigger] x.body@[k]) by {
                lemma_stmt_wf(fm, env, p, f.body@[k], x.body@[k]);
            }
        },
        ast::Statement::Read(l) => {
            lemma_l_value_wf(fm, env, p, l, o->Read_0);
        },
        ast::Statement::Assignment(a) => {
            lemma_assignment_wf(fm, env, p, a, o->Assignment_0);
        },
        ast::Statement::FunctionCall(c) => {
            lemma_last_index_bound(env.function_names, c.function_name@);
            let x = o->FunctionCall_0;
            assert forall|i: int| 0 <= i < x.arguments@.len() implies expr_wf(p, *#[trigger] x.arguments@[i]) by {
                lemma_expr_wf(fm, env, p, *c.arguments@[i], *x.arguments@[i]);
            }
        },
        _ => {},
    }
}

proof fn lemma_stmts_wf(fm: FloatModel, env: CompileEnv, p: il::Program, ss: Seq<ast::Statement>, os: Seq<il::Statement>)
    requires
        env_fits(env, p),
        stmts_ok(env, ss),
        compiles_stmts(fm, env, ss, os),
    ensures
        stmts_wf(p, os),
{
    assert forall|k: int| 0 <= k < os.len() implies stmt_wf(p, #[trigger] os[k]) by {
        lemma_stmt_wf(fm, env, p, ss[k], os[k]);
    }
}

/// A program that compiles refers only to operator implementations,
/// globals and functions that exist: `interpret` runs every program that
/// `compile` returns, and never answers it with `MalformedProgram`.
pub proof fn compiled_programs_are_well_formed(fm: FloatModel, root: ast::Root, p: il::Program)
    requires
        program_ok(root),
        compiles_program(fm, root, p),
    ensures
        program_wf(p),
{
    let nodes = root.nodes@;
    let decls = function_decls(nodes);
    let env = program_env(nodes, p.globals@);
    assert(env_fits(env, p));
    let main = p.main_function;
    assert(env_fits(with_locals(env, main.locals@), p));
    lemma_stmts_wf(fm, with_locals(env, main.locals@), p, main_items(nodes), main.body@);
    assert forall|j: int| 0 <= j < p.function_table@.len() implies (#[trigger] p.function_table@[j] matches il::FunctionTableEntry::Function(
        f,
    ) ==> stmts_wf(p, f.body@)) by {
        if j < decls.len() {
            let f = p.function_table@[j]->Function_0;
            assert(function_ok(env, decls[j]));
            assert(compiles_function(fm, env, decls[j], f));
            assert(env_fits(with_locals(env, f.locals@), p));
            lemma_stmts_wf(fm, with_locals(env, f.locals@), p, decls[j].body@, f.body@);
        } else {
            assert(p.function_table@[decls.len() + (j - decls.len())] matches il::FunctionTableEntry::FunctionImpl(_));
        }
    }
}

} // verus!
