use vstd::prelude::*;

verus! {

/// A parsed program: its top-level nodes in source order.
#[derive(Debug)]
pub struct Root {
    pub nodes: Vec<Node>,
}

#[derive(Debug)]
pub enum Node {
    Include(String),
    TypeDecl(TypeDecl),
    GlobalVariableDecl(VariableDecl),
    ConstDecl(ConstDecl),
    FunctionDecl(FunctionDecl),
    Statement(Statement),
    Label(String),
    Data(Data),
    End,
}

#[derive(Debug, Clone)]
pub struct TypeDecl {
    pub name: String,
    pub fields: Vec<Field>,
}

#[derive(Debug, Clone)]
pub struct Field {
    pub name: String,
    pub type_specifier: Option<TypeSpecifier>,
    pub array_size: Option<i32>,
}

/// The suffix that gives a name its type: `%` integer, `#` float, `$` string,
/// or `.Name` for a custom type.
#[derive(Debug, Clone)]
pub enum TypeSpecifier {
    Int,
    Float,
    String,
    Custom(String),
}

#[derive(Debug)]
pub struct VariableDecl {
    pub name: String,
    pub type_specifier: Option<TypeSpecifier>,
    pub init_expr: Option<Box<Expr>>,
}

#[derive(Debug)]
pub struct ConstDecl {
    pub name: String,
    pub type_specifier: Option<TypeSpecifier>,
    pub init_expr: Box<Expr>,
}

#[derive(Debug)]
pub struct ArrayDecl {
    pub name: String,
    pub type_specifier: Option<TypeSpecifier>,
    pub dimensions: Vec<Box<Expr>>,
}

#[derive(Debug)]
pub struct FunctionDecl {
    pub name: String,
    pub type_specifier: Option<TypeSpecifier>,
    pub args: Vec<VariableDecl>,
    pub body: Vec<Statement>,
}

/// An expression. A float literal keeps the text it was written with.
#[derive(Debug)]
pub enum Expr {
    FloatLiteral(String),
    IntegerLiteral(i32),
    BoolLiteral(bool),
    StringLiteral(String),
    FunctionCallOrArrayElemRef(FunctionCallOrArrayElemRef),
    VariableRef(VariableRef),
    UnOp(UnOp),
    BinOp(BinOp),
}

/// `name(arguments)`: a call, or an element of an array, which are written
/// alike.
#[derive(Debug)]
pub struct FunctionCallOrArrayElemRef {
    pub function_name: String,
    pub type_specifier: Option<TypeSpecifier>,
    pub arguments: Vec<Box<Expr>>,
}

#[derive(Debug, Clone)]
pub struct VariableRef {
    pub name: String,
    pub type_specifier: Option<TypeSpecifier>,
}

#[derive(Debug)]
pub struct UnOp {
    pub op: Op,
    pub expr: Box<Expr>,
}

#[derive(Debug, Clone, Copy, PartialEq, Eq, Hash, Structural)]
pub enum Op {
    Not,
    Eq,
    Neq,
    And,
    Or,
    Xor,
    LtEq,
    GtEq,
    Lt,
    Gt,
    Add,
    Sub,
    Mul,
    Div,
    Shl,
    Shr,
    Sar,
    Neg,
}

#[derive(Debug)]
pub struct BinOp {
    pub op: Op,
    pub lhs: Box<Expr>,
    pub rhs: Box<Expr>,
}

#[derive(Debug)]
pub enum Statement {
    ArrayDecl(ArrayDecl),
    If(If),
    While(While),
    Repeat(Repeat),
    For(For),
    Select(Select),
    Restore(String),
    Read(LValue),
    Assignment(Assignment),
    FunctionCall(FunctionCallOrArrayElemRef),
    End,
}

#[derive(Debug)]
pub struct If {
    pub condition: Box<Expr>,
    pub body: Vec<Statement>,
    pub else_clause: Option<ElseClause>,
}

#[derive(Debug)]
pub struct ElseClause {
    pub body: Vec<Statement>,
}

#[derive(Debug)]
pub struct While {
    pub condition: Box<Expr>,
    pub body: Vec<Statement>,
}

#[derive(Debug)]
pub struct Repeat {
    pub body: Vec<Statement>,
}

/// `For i = start To to [Step step] ... Next`.
#[derive(Debug)]
pub struct For {
    pub initialization: Assignment,
    pub to: Box<Expr>,
    pub step: Option<Box<Expr>>,
    pub body: Vec<Statement>,
}

#[derive(Debug)]
pub struct Assignment {
    pub l_value: LValue,
    pub expr: Box<Expr>,
}

#[derive(Debug)]
pub enum LValue {
    VariableRef(VariableRef),
    ArrayElemRef(ArrayElemRef),
}

impl LValue {
    /// The variable this l-value names; it must not be an array element.
    pub fn as_variable_ref(&self) -> (r: &VariableRef)
        requires
            self is VariableRef,
        ensures
            *self == LValue::VariableRef(*r),
    {
        match self {
            LValue::VariableRef(variable_ref) => variable_ref,
            LValue::ArrayElemRef(_) => unreached(),
        }
    }
}

#[derive(Debug)]
pub struct ArrayElemRef {
    pub array_name: String,
    pub type_specifier: Option<TypeSpecifier>,
    pub dimensions: Vec<Box<Expr>>,
}

#[derive(Debug)]
pub struct Select {
    pub expr: Box<Expr>,
    pub arms: Vec<CaseArm>,
}

#[derive(Debug)]
pub struct CaseArm {
    pub value: Box<Expr>,
    pub body: Vec<Statement>,
}

#[derive(Debug)]
pub struct Data {
    pub values: Vec<Box<Expr>>,
}

} // verus!
