use vstd::prelude::*;

use crate::impls::FunctionImpl;
use crate::value::{Value, ValueType};

verus! {

/// A compiled program.
#[derive(Debug)]
pub struct Program {
    pub un_op_impls_table: Vec<FunctionImpl>,
    pub bin_op_impls_table: Vec<FunctionImpl>,
    pub globals: Vec<Variable>,
    pub data_table: Vec<Value>,
    pub function_table: Vec<FunctionTableEntry>,
    pub main_function: Function,
}

#[derive(Debug)]
pub enum Variable {
    SingleVariable(SingleVariable),
    Array(Array),
}

/// The name of a variable.
pub open spec fn variable_name(v: Variable) -> Seq<char> {
    match v {
        Variable::SingleVariable(s) => s.name@,
        Variable::Array(a) => a.name@,
    }
}

/// The type of a variable, or of the elements of an array.
pub open spec fn variable_type(v: Variable) -> ValueType {
    match v {
        Variable::SingleVariable(s) => s.value_type,
        Variable::Array(a) => a.value_type,
    }
}

impl Variable {
    pub fn name(&self) -> (r: &String)
        ensures
            r@ == variable_name(*self),
    {
        match self {
            Variable::SingleVariable(single_variable) => &single_variable.name,
            Variable::Array(array) => &array.name,
        }
    }

    pub fn value_type(&self) -> (r: ValueType)
        ensures
            r == variable_type(*self),
    {
        match self {
            Variable::SingleVariable(single_variable) => single_variable.value_type,
            Variable::Array(array) => array.value_type,
        }
    }
}

#[derive(Debug, Clone)]
pub struct SingleVariable {
    pub name: String,
    pub is_const: bool,
    pub value_type: ValueType,
}

#[derive(Debug)]
pub struct Array {
    pub name: String,
    pub value_type: ValueType,
}

#[derive(Debug)]
pub enum FunctionTableEntry {
    Function(Function),
    FunctionImpl(FunctionImpl),
}

/// A function compiled from source: its locals are its arguments followed by
/// the variables its body assigns, and its stack frame holds one slot for
/// each of them.
#[derive(Debug)]
pub struct Function {
    pub signature: FunctionSignature,
    pub locals: Vec<Variable>,
    pub stack_frame_size: usize,
    pub body: Vec<Statement>,
}

#[derive(Debug)]
pub struct FunctionSignature {
    pub name: String,
    pub args: Vec<SingleVariable>,
}

#[derive(Debug)]
pub enum Statement {
    ArrayAlloc(ArrayAlloc),
    If(If),
    While(While),
    For(For),
    Restore(usize),
    Read(LValue),
    Assignment(Assignment),
    FunctionCall(FunctionCall),
    End,
}

#[derive(Debug)]
pub struct ArrayAlloc {
    pub array_ref: ArrayRef,
    pub dimensions: Vec<Box<Expr>>,
    pub value_type: ValueType,
}

#[derive(Debug, Clone, Copy, PartialEq, Eq, Structural)]
pub enum ArrayRef {
    Global(usize),
}

#[derive(Debug)]
pub struct If {
    pub condition: Box<Expr>,
    pub body: Vec<Statement>,
    pub else_clause: Option<Vec<Statement>>,
}

#[derive(Debug)]
pub struct While {
    pub condition: Box<Expr>,
    pub body: Vec<Statement>,
}

/// A counted loop: `initialization`, then while `condition` holds the body
/// followed by `increment`.
#[derive(Debug)]
pub struct For {
    pub initialization: Assignment,
    pub condition: Box<Expr>,
    pub increment: Assignment,
    pub body: Vec<Statement>,
}

#[derive(Debug)]
pub struct Assignment {
    pub l_value: LValue,
    pub expr: Box<Expr>,
}

#[derive(Debug)]
pub enum LValue {
    VariableRef(VariableRef),
    ArrayElemRef(ArrayElemRef),
}

pub open spec fn l_value_type(l: LValue) -> ValueType {
    match l {
        LValue::VariableRef(v) => variable_ref_type(v),
        LValue::ArrayElemRef(a) => array_elem_ref_type(a),
    }
}

impl LValue {
    pub fn value_type(&self) -> (r: ValueType)
        ensures
            r == l_value_type(*self),
    {
        match self {
            LValue::VariableRef(variable_ref) => variable_ref.value_type(),
            LValue::ArrayElemRef(array_elem_ref) => array_elem_ref.value_type(),
        }
    }
}

#[derive(Debug, Clone, Copy, PartialEq, Eq, Structural)]
pub enum VariableRef {
    Global(GlobalVariableRef),
    Local(LocalVariableRef),
}

pub open spec fn variable_ref_type(v: VariableRef) -> ValueType {
    match v {
        VariableRef::Global(g) => g.value_type,
        VariableRef::Local(l) => l.value_type,
    }
}

impl VariableRef {
    pub fn value_type(&self) -> (r: ValueType)
        ensures
            r == variable_ref_type(*self),
    {
        match self {
            VariableRef::Global(global_variable_ref) => global_variable_ref.value_type,
            VariableRef::Local(local_variable_ref) => local_variable_ref.value_type,
        }
    }
}

#[derive(Debug, Clone, Copy, PartialEq, Eq, Structural)]
pub struct GlobalVariableRef {
    pub global_index: usize,
    pub value_type: ValueType,
}

#[derive(Debug, Clone, Copy, PartialEq, Eq, Structural)]
pub struct LocalVariableRef {
    pub local_index: usize,
    pub value_type: ValueType,
}

#[derive(Debug)]
pub enum ArrayElemRef {
    Global(GlobalArrayElemRef),
}

pub open spec fn array_elem_ref_type(a: ArrayElemRef) -> ValueType {
    match a {
        ArrayElemRef::Global(g) => g.value_type,
    }
}

impl ArrayElemRef {
    pub fn value_type(&self) -> (r: ValueType)
        ensures
            r == array_elem_ref_type(*self),
    {
        match self {
            ArrayElemRef::Global(global_array_elem_ref) => global_array_elem_ref.value_type,
        }
    }
}

#[derive(Debug)]
pub struct GlobalArrayElemRef {
    pub global_index: usize,
    pub dimensions: Vec<Box<Expr>>,
    pub value_type: ValueType,
}

#[derive(Debug)]
pub struct FunctionCall {
    pub function_index: usize,
    pub arguments: Vec<Box<Expr>>,
    pub return_type: ValueType,
}

/// An expression. A `Float` holds the bit pattern of the number.
#[derive(Debug)]
pub enum Expr {
    Float(u32),
    Integer(i32),
    Bool(bool),
    String(String),
    Cast(Cast),
    FunctionCall(FunctionCall),
    ArrayElemRef(ArrayElemRef),
    VariableRef(VariableRef),
    UnOp(UnOp),
    BinOp(BinOp),
}

/// The type of the value an expression computes.
pub open spec fn expr_type(e: Expr) -> ValueType {
    match e {
        Expr::Float(_) => ValueType::Float,
        Expr::Integer(_) => ValueType::Integer,
        Expr::Bool(_) => ValueType::Bool,
        Expr::String(_) => ValueType::String,
        Expr::Cast(c) => c.target_type,
        Expr::FunctionCall(f) => f.return_type,
        Expr::ArrayElemRef(a) => array_elem_ref_type(a),
        Expr::VariableRef(v) => variable_ref_type(v),
        Expr::UnOp(u) => u.return_type,
        Expr::BinOp(b) => b.return_type,
    }
}

impl Expr {
    pub fn value_type(&self) -> (r: ValueType)
        ensures
            r == expr_type(*self),
    {
        match self {
            Expr::Float(_) => ValueType::Float,
            Expr::Integer(_) => ValueType::Integer,
            Expr::Bool(_) => ValueType::Bool,
            Expr::String(_) => ValueType::String,
            Expr::Cast(cast) => cast.target_type,
            Expr::FunctionCall(function_call) => function_call.return_type,
            Expr::ArrayElemRef(array_elem_ref) => array_elem_ref.value_type(),
            Expr::VariableRef(variable_ref) => variable_ref.value_type(),
            Expr::UnOp(un_op) => un_op.return_type,
            Expr::BinOp(bin_op) => bin_op.return_type,
        }
    }
}

#[derive(Debug)]
pub struct Cast {
    pub expr: Box<Expr>,
    pub target_type: ValueType,
}

#[derive(Debug)]
pub struct UnOp {
    pub impl_index: usize,
    pub expr: Box<Expr>,
    pub return_type: ValueType,
}

#[derive(Debug)]
pub struct BinOp {
    pub impl_index: usize,
    pub lhs: Box<Expr>,
    pub rhs: Box<Expr>,
    pub return_type: ValueType,
}

} // verus!
