//! Input language of the backend: a type-annotated syntax tree.
//!
//! The tree arrives already validated by the front end; the backend
//! re-derives expression types only as a local safety net.  Float
//! literals carry their IEEE-754 bit pattern, so the backend itself
//! never computes with floating point.

use vstd::prelude::*;

verus! {

/// Target operating system, selecting entry-point label, exit
/// sequence, external symbols and the argument-register set.
#[derive(Clone, Copy, Debug, PartialEq, Eq, Structural)]
pub enum TargetPlatform {
    Linux,
    Windows,
    Macos,
    Unknown,
}

/// Static type of an expression or variable.
#[derive(Debug, PartialEq)]
pub enum Type {
    I32,
    I64,
    F32,
    F64,
    Bool,
    Str,
    Null,
    Void,
    Unknown,
    Array { elem: Box<Type>, len: Option<u64> },
}

impl Type {
    /// Holds exactly of the two floating-point types.
    pub open spec fn spec_is_float(&self) -> bool {
        self is F32 || self is F64
    }

    #[verifier::when_used_as_spec(spec_is_float)]
    pub fn is_float(&self) -> (b: bool)
        ensures
            b == self.spec_is_float(),
    {
        matches!(self, Type::F32 | Type::F64)
    }

    /// Holds exactly of the two integer types.
    pub open spec fn spec_is_integer(&self) -> bool {
        self is I32 || self is I64
    }

    #[verifier::when_used_as_spec(spec_is_integer)]
    pub fn is_integer(&self) -> (b: bool)
        ensures
            b == self.spec_is_integer(),
    {
        matches!(self, Type::I32 | Type::I64)
    }
}

/// Rebuilds a type value; the result is equal to the argument.
pub fn copy_type(t: &Type) -> (r: Type)
    ensures
        r == *t,
    decreases t,
{
    match t {
        Type::I32 => Type::I32,
        Type::I64 => Type::I64,
        Type::F32 => Type::F32,
        Type::F64 => Type::F64,
        Type::Bool => Type::Bool,
        Type::Str => Type::Str,
        Type::Null => Type::Null,
        Type::Void => Type::Void,
        Type::Unknown => Type::Unknown,
        Type::Array { elem, len } => Type::Array {
            elem: Box::new(copy_type(elem)),
            len: match len {
                Some(n) => Some(*n),
                None => None,
            },
        },
    }
}

/// Compile-time constant value.  Floats are carried as their raw
/// 64-bit IEEE-754 pattern.
#[derive(Clone, Debug, PartialEq)]
pub enum LiteralValue {
    Int(i64),
    Float(u64),
    Str(String),
    Bool(bool),
    Null,
}

/// Binary operator.
#[derive(Clone, Copy, Debug, PartialEq, Eq, Structural)]
pub enum BinOp {
    Add,
    Sub,
    Mul,
    Div,
    Mod,
    Equal,
    NotEqual,
    Greater,
    Less,
    GreaterEqual,
    LessEqual,
    And,
    Or,
}

/// Unary operator.
#[derive(Clone, Copy, Debug, PartialEq, Eq, Structural)]
pub enum UnOp {
    Neg,
    Not,
    PreInc,
    PreDec,
    PostInc,
    PostDec,
}

/// One actual argument of a call; `name` is present for a keyword
/// argument.
#[derive(Debug)]
pub struct CallArg {
    pub name: Option<String>,
    pub value: Expr,
}

/// Expression node.
#[derive(Debug)]
pub enum Expr {
    Literal(LiteralValue),
    Variable(String),
    Binary { left: Box<Expr>, op: BinOp, right: Box<Expr> },
    Unary { op: UnOp, operand: Box<Expr> },
    Assign { name: String, value: Box<Expr> },
    Call { callee: String, args: Vec<CallArg> },
    ArrayLiteral(Vec<Expr>),
    ArrayAccess { name: String, index: Box<Expr> },
    InterpolatedString(Vec<Expr>),
    MemberAccess { object: String, member: String },
}

/// One arm of a match statement; `pattern` is `None` for the default
/// case.
#[derive(Debug)]
pub struct MatchCase {
    pub pattern: Option<Expr>,
    pub body: Stmt,
}

/// Statement node.
#[derive(Debug)]
pub enum Stmt {
    Block(Vec<Stmt>),
    VarDecl { name: String, ty: Type, init: Option<Expr> },
    Assign { name: String, value: Expr },
    Echo(Expr),
    If { cond: Expr, then_branch: Box<Stmt>, else_branch: Option<Box<Stmt>> },
    While { condition: Expr, body: Box<Stmt> },
    For {
        initializer: Option<Box<Stmt>>,
        condition: Option<Expr>,
        increment: Option<Expr>,
        body: Box<Stmt>,
    },
    ForEach { variable: String, iterable: Expr, body: Box<Stmt> },
    Match { discriminant: Expr, cases: Vec<MatchCase> },
    Break,
    Continue,
    Return(Option<Expr>),
    ExprStmt(Expr),
    Empty,
}

/// One formal parameter of a function declaration.
#[derive(Debug)]
pub struct Param {
    pub name: String,
    pub ty: Type,
    pub default: Option<Expr>,
}

/// A function declaration; the program handed to the backend is a
/// list of these.
#[derive(Debug)]
pub struct FunctionDecl {
    pub name: String,
    pub params: Vec<Param>,
    pub return_type: Type,
    pub body: Stmt,
}

} // verus!
