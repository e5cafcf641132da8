use vstd::prelude::*;

use crate::ast::Op;
use crate::value::ValueType;

verus! {

/// The functions of the runtime library that programs call by name.
#[derive(Clone, Copy, Debug, PartialEq, Eq, Structural)]
pub enum Builtin {
    FloatCast,
    Abs,
    Sin,
    Cos,
    SeedRnd,
    Rand,
    MilliSecs,
    AppTitle,
    Graphics,
    Flip,
    BackBuffer,
    HidePointer,
    KeyDown,
    MouseDown,
    MouseX,
    MouseY,
    Cls,
    Color,
    Text,
    SetBuffer,
    LockBuffer,
    UnlockBuffer,
    WritePixelFast,
}

/// The implementations of the unary operators.
#[derive(Clone, Copy, Debug, PartialEq, Eq, Structural)]
pub enum UnOpFn {
    NotBool,
    NegInt,
    NegFloat,
}

/// The implementations of the binary operators, one per pair of operand
/// types.
#[derive(Clone, Copy, Debug, PartialEq, Eq, Structural)]
pub enum BinOpFn {
    LtEqIntInt,
    GtEqIntInt,
    GtEqFloatInt,
    LtIntInt,
    LtFloatInt,
    GtIntInt,
    GtFloatInt,
    EqIntInt,
    AndBoolBool,
    AddIntInt,
    AddIntFloat,
    AddFloatInt,
    AddFloatFloat,
    AddIntString,
    SubIntInt,
    SubFloatInt,
    SubFloatFloat,
    MulIntInt,
    MulIntFloat,
    MulFloatInt,
    MulFloatFloat,
    DivIntInt,
    DivFloatFloat,
    ShlIntInt,
    ShlFloatInt,
    ShrIntInt,
    ShrFloatInt,
}

/// A native function: a library function or an operator implementation.
#[derive(Clone, Copy, Debug, PartialEq, Eq, Structural)]
pub enum Native {
    Builtin(Builtin),
    UnOp(UnOpFn),
    BinOp(BinOpFn),
}

/// A native function with its name and the type of value it returns.
#[derive(Debug)]
pub struct FunctionImpl {
    pub name: String,
    pub function: Native,
    pub return_type: ValueType,
}

impl FunctionImpl {
    pub fn new(name: String, function: Native, return_type: ValueType) -> (r: FunctionImpl)
        ensures
            r == (FunctionImpl { name, function, return_type }),
    {
        FunctionImpl { name, function, return_type }
    }
}

/// The library functions in the order of the table that names them.
pub open spec fn builtins() -> Seq<Builtin> {
    seq![
        Builtin::FloatCast,
        Builtin::Abs,
        Builtin::Sin,
        Builtin::Cos,
        Builtin::SeedRnd,
        Builtin::Rand,
        Builtin::MilliSecs,
        Builtin::AppTitle,
        Builtin::Graphics,
        Builtin::Flip,
        Builtin::BackBuffer,
        Builtin::HidePointer,
        Builtin::KeyDown,
        Builtin::MouseDown,
        Builtin::MouseX,
        Builtin::MouseY,
        Builtin::Cls,
        Builtin::Color,
        Builtin::Text,
        Builtin::SetBuffer,
        Builtin::LockBuffer,
        Builtin::UnlockBuffer,
        Builtin::WritePixelFast
    ]
}

/// The name a program calls a library function by.
pub open spec fn builtin_name(b: Builtin) -> Seq<char> {
    match b {
        Builtin::FloatCast => "Float"@,
        Builtin::Abs => "Abs"@,
        Builtin::Sin => "Sin"@,
        Builtin::Cos => "Cos"@,
        Builtin::SeedRnd => "SeedRnd"@,
        Builtin::Rand => "Rand"@,
        Builtin::MilliSecs => "MilliSecs"@,
        Builtin::AppTitle => "AppTitle"@,
        Builtin::Graphics => "Graphics"@,
        Builtin::Flip => "Flip"@,
        Builtin::BackBuffer => "BackBuffer"@,
        Builtin::HidePointer => "HidePointer"@,
        Builtin::KeyDown => "KeyDown"@,
        Builtin::MouseDown => "MouseDown"@,
        Builtin::MouseX => "MouseX"@,
        Builtin::MouseY => "MouseY"@,
        Builtin::Cls => "Cls"@,
        Builtin::Color => "Color"@,
        Builtin::Text => "Text"@,
        Builtin::SetBuffer => "SetBuffer"@,
        Builtin::LockBuffer => "LockBuffer"@,
        Builtin::UnlockBuffer => "UnlockBuffer"@,
        Builtin::WritePixelFast => "WritePixelFast"@,
    }
}

/// The type of value a library function returns.
pub open spec fn builtin_return_type(b: Builtin) -> ValueType {
    match b {
        Builtin::FloatCast => ValueType::Float,
        Builtin::Abs => ValueType::Float,
        Builtin::Sin => ValueType::Float,
        Builtin::Cos => ValueType::Float,
        Builtin::SeedRnd => ValueType::Unit,
        Builtin::Rand => ValueType::Integer,
        Builtin::MilliSecs => ValueType::Integer,
        Builtin::AppTitle => ValueType::Unit,
        Builtin::Graphics => ValueType::Unit,
        Builtin::Flip => ValueType::Unit,
        Builtin::BackBuffer => ValueType::Integer,
        Builtin::HidePointer => ValueType::Unit,
        Builtin::KeyDown => ValueType::Bool,
        Builtin::MouseDown => ValueType::Bool,
        Builtin::MouseX => ValueType::Integer,
        Builtin::MouseY => ValueType::Integer,
        Builtin::Cls => ValueType::Unit,
        Builtin::Color => ValueType::Unit,
        Builtin::Text => ValueType::Unit,
        Builtin::SetBuffer => ValueType::Unit,
        Builtin::LockBuffer => ValueType::Unit,
        Builtin::UnlockBuffer => ValueType::Unit,
        Builtin::WritePixelFast => ValueType::Unit,
    }
}

/// The unary operator implementations in table order.
pub open spec fn un_op_fns() -> Seq<UnOpFn> {
    seq![UnOpFn::NotBool, UnOpFn::NegInt, UnOpFn::NegFloat]
}

/// The operator and operand type an unary implementation is chosen for.
pub open spec fn un_op_key(f: UnOpFn) -> (Op, ValueType) {
    match f {
        UnOpFn::NotBool => (Op::Not, ValueType::Bool),
        UnOpFn::NegInt => (Op::Neg, ValueType::Integer),
        UnOpFn::NegFloat => (Op::Neg, ValueType::Float),
    }
}

pub open spec fn un_op_name(f: UnOpFn) -> Seq<char> {
    match f {
        UnOpFn::NotBool => "un_op_not_bool"@,
        UnOpFn::NegInt => "un_op_neg_int"@,
        UnOpFn::NegFloat => "un_op_neg_float"@,
    }
}

pub open spec fn un_op_return_type(f: UnOpFn) -> ValueType {
    match f {
        UnOpFn::NotBool => ValueType::Bool,
        UnOpFn::NegInt => ValueType::Integer,
        UnOpFn::NegFloat => ValueType::Float,
    }
}

/// The binary operator implementations in table order.
pub open spec fn bin_op_fns() -> Seq<BinOpFn> {
    seq![
        BinOpFn::LtEqIntInt,
        BinOpFn::GtEqIntInt,
        BinOpFn::GtEqFloatInt,
        BinOpFn::LtIntInt,
        BinOpFn::LtFloatInt,
        BinOpFn::GtIntInt,
        BinOpFn::GtFloatInt,
        BinOpFn::EqIntInt,
        BinOpFn::AndBoolBool,
        BinOpFn::AddIntInt,
        BinOpFn::AddIntFloat,
        BinOpFn::AddFloatInt,
        BinOpFn::AddFloatFloat,
        BinOpFn::AddIntString,
        BinOpFn::SubIntInt,
        BinOpFn::SubFloatInt,
        BinOpFn::SubFloatFloat,
        BinOpFn::MulIntInt,
        BinOpFn::MulIntFloat,
        BinOpFn::MulFloatInt,
        BinOpFn::MulFloatFloat,
        BinOpFn::DivIntInt,
        BinOpFn::DivFloatFloat,
        BinOpFn::ShlIntInt,
        BinOpFn::ShlFloatInt,
        BinOpFn::ShrIntInt,
        BinOpFn::ShrFloatInt
    ]
}

/// The operator and operand types a binary implementation is chosen for.
pub open spec fn bin_op_key(f: BinOpFn) -> (Op, ValueType, ValueType) {
    match f {
        BinOpFn::LtEqIntInt => (Op::LtEq, ValueType::Integer, ValueType::Integer),
        BinOpFn::GtEqIntInt => (Op::GtEq, ValueType::Integer, ValueType::Integer),
        BinOpFn::GtEqFloatInt => (Op::GtEq, ValueType::Float, ValueType::Integer),
        BinOpFn::LtIntInt => (Op::Lt, ValueType::Integer, ValueType::Integer),
        BinOpFn::LtFloatInt => (Op::Lt, ValueType::Float, ValueType::Integer),
        BinOpFn::GtIntInt => (Op::Gt, ValueType::Integer, ValueType::Integer),
        BinOpFn::GtFloatInt => (Op::Gt, ValueType::Float, ValueType::Integer),
        BinOpFn::EqIntInt => (Op::Eq, ValueType::Integer, ValueType::Integer),
        BinOpFn::AndBoolBool => (Op::And, ValueType::Bool, ValueType::Bool),
        BinOpFn::AddIntInt => (Op::Add, ValueType::Integer, ValueType::Integer),
        BinOpFn::AddIntFloat => (Op::Add, ValueType::Integer, ValueType::Float),
        BinOpFn::AddFloatInt => (Op::Add, ValueType::Float, ValueType::Integer),
        BinOpFn::AddFloatFloat => (Op::Add, ValueType::Float, ValueType::Float),
        BinOpFn::AddIntString => (Op::Add, ValueType::Integer, ValueType::String),
        BinOpFn::SubIntInt => (Op::Sub, ValueType::Integer, ValueType::Integer),
        BinOpFn::SubFloatInt => (Op::Sub, ValueType::Float, ValueType::Integer),
        BinOpFn::SubFloatFloat => (Op::Sub, ValueType::Float, ValueType::Float),
        BinOpFn::MulIntInt => (Op::Mul, ValueType::Integer, ValueType::Integer),
        BinOpFn::MulIntFloat => (Op::Mul, ValueType::Integer, ValueType::Float),
        BinOpFn::MulFloatInt => (Op::Mul, ValueType::Float, ValueType::Integer),
        BinOpFn::MulFloatFloat => (Op::Mul, ValueType::Float, ValueType::Float),
        BinOpFn::DivIntInt => (Op::Div, ValueType::Integer, ValueType::Integer),
        BinOpFn::DivFloatFloat => (Op::Div, ValueType::Float, ValueType::Float),
        BinOpFn::ShlIntInt => (Op::Shl, ValueType::Integer, ValueType::Integer),
        BinOpFn::ShlFloatInt => (Op::Shl, ValueType::Float, ValueType::Integer),
        BinOpFn::ShrIntInt => (Op::Shr, ValueType::Integer, ValueType::Integer),
        BinOpFn::ShrFloatInt => (Op::Shr, ValueType::Float, ValueType::Integer),
    }
}

pub open spec fn bin_op_name(f: BinOpFn) -> Seq<char> {
    match f {
        BinOpFn::LtEqIntInt => "bin_op_lt_eq_int_int"@,
        BinOpFn::GtEqIntInt => "bin_op_gt_eq_int_int"@,
        BinOpFn::GtEqFloatInt => "bin_op_gt_eq_float_int"@,
        BinOpFn::LtIntInt => "bin_op_lt_int_int"@,
        BinOpFn::LtFloatInt => "bin_op_lt_float_int"@,
        BinOpFn::GtIntInt => "bin_op_gt_int_int"@,
        BinOpFn::GtFloatInt => "bin_op_gt_float_int"@,
        BinOpFn::EqIntInt => "bin_op_eq_int_int"@,
        BinOpFn::AndBoolBool => "bin_op_and_bool_bool"@,
        BinOpFn::AddIntInt => "bin_op_add_int_int"@,
        BinOpFn::AddIntFloat => "bin_op_add_int_float"@,
        BinOpFn::AddFloatInt => "bin_op_add_float_int"@,
        BinOpFn::AddFloatFloat => "bin_op_add_float_float"@,
        BinOpFn::AddIntString => "bin_op_add_int_string"@,
        BinOpFn::SubIntInt => "bin_op_sub_int_int"@,
        BinOpFn::SubFloatInt => "bin_op_sub_float_int"@,
        BinOpFn::SubFloatFloat => "bin_op_sub_float_float"@,
        BinOpFn::MulIntInt => "bin_op_mul_int_int"@,
        BinOpFn::MulIntFloat => "bin_op_mul_int_float"@,
        BinOpFn::MulFloatInt => "bin_op_mul_float_int"@,
        BinOpFn::MulFloatFloat => "bin_op_mul_float_float"@,
        BinOpFn::DivIntInt => "bin_op_div_int_int"@,
        BinOpFn::DivFloatFloat => "bin_op_div_float_float"@,
        BinOpFn::ShlIntInt => "bin_op_shl_int_int"@,
        BinOpFn::ShlFloatInt => "bin_op_shl_float_int"@,
        BinOpFn::ShrIntInt => "bin_op_shr_int_int"@,
        BinOpFn::ShrFloatInt => "bin_op_shr_float_int"@,
    }
}

pub open spec fn bin_op_return_type(f: BinOpFn) -> ValueType {
    match f {
        BinOpFn::LtEqIntInt => ValueType::Bool,
        BinOpFn::GtEqIntInt => ValueType::Bool,
        BinOpFn::GtEqFloatInt => ValueType::Bool,
        BinOpFn::LtIntInt => ValueType::Bool,
        BinOpFn::LtFloatInt => ValueType::Bool,
        BinOpFn::GtIntInt => ValueType::Bool,
        BinOpFn::GtFloatInt => ValueType::Bool,
        BinOpFn::EqIntInt => ValueType::Bool,
        BinOpFn::AndBoolBool => ValueType::Bool,
        BinOpFn::AddIntInt => ValueType::Integer,
        BinOpFn::AddIntFloat => ValueType::Float,
        BinOpFn::AddFloatInt => ValueType::Float,
        BinOpFn::AddFloatFloat => ValueType::Float,
        BinOpFn::AddIntString => ValueType::String,
        BinOpFn::SubIntInt => ValueType::Integer,
        BinOpFn::SubFloatInt => ValueType::Float,
        BinOpFn::SubFloatFloat => ValueType::Float,
        BinOpFn::MulIntInt => ValueType::Integer,
        BinOpFn::MulIntFloat => ValueType::Float,
        BinOpFn::MulFloatInt => ValueType::Float,
        BinOpFn::MulFloatFloat => ValueType::Float,
        BinOpFn::DivIntInt => ValueType::Integer,
        BinOpFn::DivFloatFloat => ValueType::Float,
        BinOpFn::ShlIntInt => ValueType::Integer,
        BinOpFn::ShlFloatInt => ValueType::Integer,
        BinOpFn::ShrIntInt => ValueType::Integer,
        BinOpFn::ShrFloatInt => ValueType::Integer,
    }
}

/// The table entry of a library function.
pub open spec fn builtin_entry_matches(e: FunctionImpl, b: Builtin) -> bool {
    &&& e.name@ == builtin_name(b)
    &&& e.function == Native::Builtin(b)
    &&& e.return_type == builtin_return_type(b)
}

/// The table entry of a unary operator implementation.
pub open spec fn un_op_entry_matches(e: ((Op, ValueType), FunctionImpl), f: UnOpFn) -> bool {
    &&& e.0 == un_op_key(f)
    &&& e.1.name@ == un_op_name(f)
    &&& e.1.function == Native::UnOp(f)
    &&& e.1.return_type == un_op_return_type(f)
}

/// The table entry of a binary operator implementation.
pub open spec fn bin_op_entry_matches(e: ((Op, ValueType, ValueType), FunctionImpl), f: BinOpFn) -> bool {
    &&& e.0 == bin_op_key(f)
    &&& e.1.name@ == bin_op_name(f)
    &&& e.1.function == Native::BinOp(f)
    &&& e.1.return_type == bin_op_return_type(f)
}

fn builtin_impl(b: Builtin) -> (r: FunctionImpl)
    ensures
        builtin_entry_matches(r, b),
{
    let name = match b {
        Builtin::FloatCast => String::from_str("Float"),
        Builtin::Abs => String::from_str("Abs"),
        Builtin::Sin => String::from_str("Sin"),
        Builtin::Cos => String::from_str("Cos"),
        Builtin::SeedRnd => String::from_str("SeedRnd"),
        Builtin::Rand => String::from_str("Rand"),
        Builtin::MilliSecs => String::from_str("MilliSecs"),
        Builtin::AppTitle => String::from_str("AppTitle"),
        Builtin::Graphics => String::from_str("Graphics"),
        Builtin::Flip => String::from_str("Flip"),
        Builtin::BackBuffer => String::from_str("BackBuffer"),
        Builtin::HidePointer => String::from_str("HidePointer"),
        Builtin::KeyDown => String::from_str("KeyDown"),
        Builtin::MouseDown => String::from_str("MouseDown"),
        Builtin::MouseX => String::from_str("MouseX"),
        Builtin::MouseY => String::from_str("MouseY"),
        Builtin::Cls => String::from_str("Cls"),
        Builtin::Color => String::from_str("Color"),
        Builtin::Text => String::from_str("Text"),
        Builtin::SetBuffer => String::from_str("SetBuffer"),
        Builtin::LockBuffer => String::from_str("LockBuffer"),
        Builtin::UnlockBuffer => String::from_str("UnlockBuffer"),
        Builtin::WritePixelFast => String::from_str("WritePixelFast"),
    };
    let return_type = match b {
        Builtin::FloatCast => ValueType::Float,
        Builtin::Abs => ValueType::Float,
        Builtin::Sin => ValueType::Float,
        Builtin::Cos => ValueType::Float,
        Builtin::SeedRnd => ValueType::Unit,
        Builtin::Rand => ValueType::Integer,
        Builtin::MilliSecs => ValueType::Integer,
        Builtin::AppTitle => ValueType::Unit,
        Builtin::Graphics => ValueType::Unit,
        Builtin::Flip => ValueType::Unit,
        Builtin::BackBuffer => ValueType::Integer,
        Builtin::HidePointer => ValueType::Unit,
        Builtin::KeyDown => ValueType::Bool,
        Builtin::MouseDown => ValueType::Bool,
        Builtin::MouseX => ValueType::Integer,
        Builtin::MouseY => ValueType::Integer,
        Builtin::Cls => ValueType::Unit,
        Builtin::Color => ValueType::Unit,
        Builtin::Text => ValueType::Unit,
        Builtin::SetBuffer => ValueType::Unit,
        Builtin::LockBuffer => ValueType::Unit,
        Builtin::UnlockBuffer => ValueType::Unit,
        Builtin::WritePixelFast => ValueType::Unit,
    };
    FunctionImpl::new(name, Native::Builtin(b), return_type)
}

fn un_op_impl(f: UnOpFn) -> (r: ((Op, ValueType), FunctionImpl))
    ensures
        un_op_entry_matches(r, f),
{
    match f {
        UnOpFn::NotBool => ((Op::Not, ValueType::Bool), FunctionImpl::new(String::from_str("un_op_not_bool"), Native::UnOp(f), ValueType::Bool)),
        UnOpFn::NegInt => ((Op::Neg, ValueType::Integer), FunctionImpl::new(String::from_str("un_op_neg_int"), Native::UnOp(f), ValueType::Integer)),
        UnOpFn::NegFloat => ((Op::Neg, ValueType::Float), FunctionImpl::new(String::from_str("un_op_neg_float"), Native::UnOp(f), ValueType::Float)),
    }
}

fn bin_op_impl(f: BinOpFn) -> (r: ((Op, ValueType, ValueType), FunctionImpl))
    ensures
        bin_op_entry_matches(r, f),
{
    match f {
        BinOpFn::LtEqIntInt => ((Op::LtEq, ValueType::Integer, ValueType::Integer), FunctionImpl::new(String::from_str("bin_op_lt_eq_int_int"), Native::BinOp(f), ValueType::Bool)),
        BinOpFn::GtEqIntInt => ((Op::GtEq, ValueType::Integer, ValueType::Integer), FunctionImpl::new(String::from_str("bin_op_gt_eq_int_int"), Native::BinOp(f), ValueType::Bool)),
        BinOpFn::GtEqFloatInt => ((Op::GtEq, ValueType::Float, ValueType::Integer), FunctionImpl::new(String::from_str("bin_op_gt_eq_float_int"), Native::BinOp(f), ValueType::Bool)),
        BinOpFn::LtIntInt => ((Op::Lt, ValueType::Integer, ValueType::Integer), FunctionImpl::new(String::from_str("bin_op_lt_int_int"), Native::BinOp(f), ValueType::Bool)),
        BinOpFn::LtFloatInt => ((Op::Lt, ValueType::Float, ValueType::Integer), FunctionImpl::new(String::from_str("bin_op_lt_float_int"), Native::BinOp(f), ValueType::Bool)),
        BinOpFn::GtIntInt => ((Op::Gt, ValueType::Integer, ValueType::Integer), FunctionImpl::new(String::from_str("bin_op_gt_int_int"), Native::BinOp(f), ValueType::Bool)),
        BinOpFn::GtFloatInt => ((Op::Gt, ValueType::Float, ValueType::Integer), FunctionImpl::new(String::from_str("bin_op_gt_float_int"), Native::BinOp(f), ValueType::Bool)),
        BinOpFn::EqIntInt => ((Op::Eq, ValueType::Integer, ValueType::Integer), FunctionImpl::new(String::from_str("bin_op_eq_int_int"), Native::BinOp(f), ValueType::Bool)),
        BinOpFn::AndBoolBool => ((Op::And, ValueType::Bool, ValueType::Bool), FunctionImpl::new(String::from_str("bin_op_and_bool_bool"), Native::BinOp(f), ValueType::Bool)),
        BinOpFn::AddIntInt => ((Op::Add, ValueType::Integer, ValueType::Integer), FunctionImpl::new(String::from_str("bin_op_add_int_int"), Native::BinOp(f), ValueType::Integer)),
        BinOpFn::AddIntFloat => ((Op::Add, ValueType::Integer, ValueType::Float), FunctionImpl::new(String::from_str("bin_op_add_int_float"), Native::BinOp(f), ValueType::Float)),
        BinOpFn::AddFloatInt => ((Op::Add, ValueType::Float, ValueType::Integer), FunctionImpl::new(String::from_str("bin_op_add_float_int"), Native::BinOp(f), ValueType::Float)),
        BinOpFn::AddFloatFloat => ((Op::Add, ValueType::Float, ValueType::Float), FunctionImpl::new(String::from_str("bin_op_add_float_float"), Native::BinOp(f), ValueType::Float)),
        BinOpFn::AddIntString => ((Op::Add, ValueType::Integer, ValueType::String), FunctionImpl::new(String::from_str("bin_op_add_int_string"), Native::BinOp(f), ValueType::String)),
        BinOpFn::SubIntInt => ((Op::Sub, ValueType::Integer, ValueType::Integer), FunctionImpl::new(String::from_str("bin_op_sub_int_int"), Native::BinOp(f), ValueType::Integer)),
        BinOpFn::SubFloatInt => ((Op::Sub, ValueType::Float, ValueType::Integer), FunctionImpl::new(String::from_str("bin_op_sub_float_int"), Native::BinOp(f), ValueType::Float)),
        BinOpFn::SubFloatFloat => ((Op::Sub, ValueType::Float, ValueType::Float), FunctionImpl::new(String::from_str("bin_op_sub_float_float"), Native::BinOp(f), ValueType::Float)),
        BinOpFn::MulIntInt => ((Op::Mul, ValueType::Integer, ValueType::Integer), FunctionImpl::new(String::from_str("bin_op_mul_int_int"), Native::BinOp(f), ValueType::Integer)),
        BinOpFn::MulIntFloat => ((Op::Mul, ValueType::Integer, ValueType::Float), FunctionImpl::new(String::from_str("bin_op_mul_int_float"), Native::BinOp(f), ValueType::Float)),
        BinOpFn::MulFloatInt => ((Op::Mul, ValueType::Float, ValueType::Integer), FunctionImpl::new(String::from_str("bin_op_mul_float_int"), Native::BinOp(f), ValueType::Float)),
        BinOpFn::MulFloatFloat => ((Op::Mul, ValueType::Float, ValueType::Float), FunctionImpl::new(String::from_str("bin_op_mul_float_float"), Native::BinOp(f), ValueType::Float)),
        BinOpFn::DivIntInt => ((Op::Div, ValueType::Integer, ValueType::Integer), FunctionImpl::new(String::from_str("bin_op_div_int_int"), Native::BinOp(f), ValueType::Integer)),
        BinOpFn::DivFloatFloat => ((Op::Div, ValueType::Float, ValueType::Float), FunctionImpl::new(String::from_str("bin_op_div_float_float"), Native::BinOp(f), ValueType::Float)),
        BinOpFn::ShlIntInt => ((Op::Shl, ValueType::Integer, ValueType::Integer), FunctionImpl::new(String::from_str("bin_op_shl_int_int"), Native::BinOp(f), ValueType::Integer)),
        BinOpFn::ShlFloatInt => ((Op::Shl, ValueType::Float, ValueType::Integer), FunctionImpl::new(String::from_str("bin_op_shl_float_int"), Native::BinOp(f), ValueType::Integer)),
        BinOpFn::ShrIntInt => ((Op::Shr, ValueType::Integer, ValueType::Integer), FunctionImpl::new(String::from_str("bin_op_shr_int_int"), Native::BinOp(f), ValueType::Integer)),
        BinOpFn::ShrFloatInt => ((Op::Shr, ValueType::Float, ValueType::Integer), FunctionImpl::new(String::from_str("bin_op_shr_float_int"), Native::BinOp(f), ValueType::Integer)),
    }
}

/// The table of library functions, in the order of `builtins()`.
pub fn build_impls_table() -> (r: Vec<FunctionImpl>)
    ensures
        r@.len() == builtins().len(),
        forall|i: int| 0 <= i < r@.len() ==> builtin_entry_matches(#[trigger] r@[i], builtins()[i]),
{
    let mut r: Vec<FunctionImpl> = Vec::new();
    r.push(builtin_impl(Builtin::FloatCast));
    r.push(builtin_impl(Builtin::Abs));
    r.push(builtin_impl(Builtin::Sin));
    r.push(builtin_impl(Builtin::Cos));
    r.push(builtin_impl(Builtin::SeedRnd));
    r.push(builtin_impl(Builtin::Rand));
    r.push(builtin_impl(Builtin::MilliSecs));
    r.push(builtin_impl(Builtin::AppTitle));
    r.push(builtin_impl(Builtin::Graphics));
    r.push(builtin_impl(Builtin::Flip));
    r.push(builtin_impl(Builtin::BackBuffer));
    r.push(builtin_impl(Builtin::HidePointer));
    r.push(builtin_impl(Builtin::KeyDown));
    r.push(builtin_impl(Builtin::MouseDown));
    r.push(builtin_impl(Builtin::MouseX));
    r.push(builtin_impl(Builtin::MouseY));
    r.push(builtin_impl(Builtin::Cls));
    r.push(builtin_impl(Builtin::Color));
    r.push(builtin_impl(Builtin::Text));
    r.push(builtin_impl(Builtin::SetBuffer));
    r.push(builtin_impl(Builtin::LockBuffer));
    r.push(builtin_impl(Builtin::UnlockBuffer));
    r.push(builtin_impl(Builtin::WritePixelFast));
    r
}

/// The table of unary operator implementations with the operator and operand
/// type each is chosen for, in the order of `un_op_fns()`.
pub fn build_un_op_impls_table() -> (r: Vec<((Op, ValueType), FunctionImpl)>)
    ensures
        r@.len() == un_op_fns().len(),
        forall|i: int| 0 <= i < r@.len() ==> un_op_entry_matches(#[trigger] r@[i], un_op_fns()[i]),
{
    let mut r: Vec<((Op, ValueType), FunctionImpl)> = Vec::new();
    r.push(un_op_impl(UnOpFn::NotBool));
    r.push(un_op_impl(UnOpFn::NegInt));
    r.push(un_op_impl(UnOpFn::NegFloat));
    r
}

/// The table of binary operator implementations with the operator and operand
/// types each is chosen for, in the order of `bin_op_fns()`.
pub fn build_bin_op_impls_table() -> (r: Vec<((Op, ValueType, ValueType), FunctionImpl)>)
    ensures
        r@.len() == bin_op_fns().len(),
        forall|i: int| 0 <= i < r@.len() ==> bin_op_entry_matches(#[trigger] r@[i], bin_op_fns()[i]),
{
    let mut r: Vec<((Op, ValueType, ValueType), FunctionImpl)> = Vec::new();
    r.push(bin_op_impl(BinOpFn::LtEqIntInt));
    r.push(bin_op_impl(BinOpFn::GtEqIntInt));
    r.push(bin_op_impl(BinOpFn::GtEqFloatInt));
    r.push(bin_op_impl(BinOpFn::LtIntInt));
    r.push(bin_op_impl(BinOpFn::LtFloatInt));
    r.push(bin_op_impl(BinOpFn::GtIntInt));
    r.push(bin_op_impl(BinOpFn::GtFloatInt));
    r.push(bin_op_impl(BinOpFn::EqIntInt));
    r.push(bin_op_impl(BinOpFn::AndBoolBool));
    r.push(bin_op_impl(BinOpFn::AddIntInt));
    r.push(bin_op_impl(BinOpFn::AddIntFloat));
    r.push(bin_op_impl(BinOpFn::AddFloatInt));
    r.push(bin_op_impl(BinOpFn::AddFloatFloat));
    r.push(bin_op_impl(BinOpFn::AddIntString));
    r.push(bin_op_impl(BinOpFn::SubIntInt));
    r.push(bin_op_impl(BinOpFn::SubFloatInt));
    r.push(bin_op_impl(BinOpFn::SubFloatFloat));
    r.push(bin_op_impl(BinOpFn::MulIntInt));
    r.push(bin_op_impl(BinOpFn::MulIntFloat));
    r.push(bin_op_impl(BinOpFn::MulFloatInt));
    r.push(bin_op_impl(BinOpFn::MulFloatFloat));
    r.push(bin_op_impl(BinOpFn::DivIntInt));
    r.push(bin_op_impl(BinOpFn::DivFloatFloat));
    r.push(bin_op_impl(BinOpFn::ShlIntInt));
    r.push(bin_op_impl(BinOpFn::ShlFloatInt));
    r.push(bin_op_impl(BinOpFn::ShrIntInt));
    r.push(bin_op_impl(BinOpFn::ShrFloatInt));
    r
}

} // verus!
