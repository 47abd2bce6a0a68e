//! Static-type derivation for expressions.
//!
//! The tree arrives type-checked; the backend re-derives types from
//! the active frame and the declaration list only to choose register
//! classes and format specifiers.  A mismatch found here indicates an
//! upstream defect, not a user error.

use vstd::prelude::*;
use crate::ast::{Expr, FunctionDecl, LiteralValue, Type, BinOp, UnOp, copy_type};
use crate::frame::{Frame, VariableLocation, spec_lookup};

verus! {

/// Index of the first function named `name`, scanning from `i`.
pub open spec fn spec_find_function_from(
    program: Seq<FunctionDecl>,
    name: Seq<char>,
    i: int,
) -> Option<int>
    decreases program.len() - i,
{
    if i < 0 || i >= program.len() {
        None
    } else if program[i].name@ == name {
        Some(i)
    } else {
        spec_find_function_from(program, name, i + 1)
    }
}

/// Index of the first function named `name`, if any.
pub open spec fn spec_find_function(program: Seq<FunctionDecl>, name: Seq<char>) -> Option<int> {
    spec_find_function_from(program, name, 0)
}

/// Finds the declaration of the function named `name`.
pub fn find_function(program: &Vec<FunctionDecl>, name: &String) -> (r: Option<usize>)
    ensures
        match r {
            Some(i) => spec_find_function(program@, name@) == Some(i as int) && i
                < program@.len(),
            None => spec_find_function(program@, name@) is None,
        },
{
    let mut i: usize = 0;
    while i < program.len()
        invariant
            0 <= i <= program@.len(),
            spec_find_function(program@, name@) == spec_find_function_from(
                program@,
                name@,
                i as int,
            ),
        decreases program@.len() - i,
    {
        if program[i].name.eq(name) {
            return Some(i);
        }
        i = i + 1;
    }
    None
}

/// Result type of a numeric binary operation, as the original
/// dispatch derives it: floats dominate integers, the wider width
/// dominates the narrower.
pub open spec fn spec_numeric_join(l: Type, r: Type) -> Type {
    if l.spec_is_float() || r.spec_is_float() {
        if l is F64 || r is F64 {
            Type::F64
        } else {
            Type::F32
        }
    } else if l.spec_is_integer() && r.spec_is_integer() {
        if l is I64 || r is I64 {
            Type::I64
        } else {
            Type::I32
        }
    } else {
        Type::Unknown
    }
}

/// Static type of an expression, derived from the active frame's
/// bindings and the declaration list.
pub open spec fn spec_expr_type(
    program: Seq<FunctionDecl>,
    entries: Seq<(Seq<char>, VariableLocation)>,
    e: Expr,
) -> Type
    decreases e,
{
    match e {
        Expr::Literal(lit) => match lit {
            LiteralValue::Int(_) => Type::I32,
            LiteralValue::Float(_) => Type::F64,
            LiteralValue::Str(_) => Type::Str,
            LiteralValue::Bool(_) => Type::Bool,
            LiteralValue::Null => Type::Null,
        },
        Expr::Variable(name) => match spec_lookup(entries, name@) {
            Some(loc) => loc.ty,
            None => Type::Unknown,
        },
        Expr::Binary { left, op, right } => match op {
            BinOp::Add | BinOp::Sub | BinOp::Mul | BinOp::Div | BinOp::Mod => spec_numeric_join(
                spec_expr_type(program, entries, *left),
                spec_expr_type(program, entries, *right),
            ),
            _ => Type::Bool,
        },
        Expr::Unary { op, operand } => match op {
            UnOp::Not => Type::Bool,
            _ => spec_expr_type(program, entries, *operand),
        },
        Expr::Assign { name: _, value } => spec_expr_type(program, entries, *value),
        Expr::Call { callee, args: _ } => match spec_find_function(program, callee@) {
            Some(i) => program[i].return_type,
            None => Type::Unknown,
        },
        Expr::ArrayLiteral(elems) => Type::Array {
            elem: Box::new(
                if elems@.len() == 0 {
                    Type::Unknown
                } else {
                    spec_expr_type(program, entries, elems@[0])
                },
            ),
            len: Some(elems@.len() as u64),
        },
        Expr::ArrayAccess { name, index: _ } => match spec_lookup(entries, name@) {
            Some(loc) => match loc.ty {
                Type::Array { elem, len: _ } => *elem,
                _ => Type::Unknown,
            },
            None => Type::Unknown,
        },
        Expr::InterpolatedString(_) => Type::Str,
        Expr::MemberAccess { object: _, member: _ } => Type::Unknown,
    }
}

/// Derives the static type of `e` against the active frame.
pub fn expr_type(program: &Vec<FunctionDecl>, frame: &Frame, e: &Expr) -> (t: Type)
    ensures
        t == spec_expr_type(program@, frame@.entries, *e),
    decreases e,
{
    match e {
        Expr::Literal(lit) => match lit {
            LiteralValue::Int(_) => Type::I32,
            LiteralValue::Float(_) => Type::F64,
            LiteralValue::Str(_) => Type::Str,
            LiteralValue::Bool(_) => Type::Bool,
            LiteralValue::Null => Type::Null,
        },
        Expr::Variable(name) => match frame.lookup(name) {
            Some(loc) => copy_type(&loc.ty),
            None => Type::Unknown,
        },
        Expr::Binary { left, op, right } => match op {
            BinOp::Add | BinOp::Sub | BinOp::Mul | BinOp::Div | BinOp::Mod => {
                let lt = expr_type(program, frame, left);
                let rt = expr_type(program, frame, right);
                numeric_join(&lt, &rt)
            },
            _ => Type::Bool,
        },
        Expr::Unary { op, operand } => match op {
            UnOp::Not => Type::Bool,
            _ => expr_type(program, frame, operand),
        },
        Expr::Assign { name: _, value } => expr_type(program, frame, value),
        Expr::Call { callee, args: _ } => match find_function(program, callee) {
            Some(i) => copy_type(&program[i].return_type),
            None => Type::Unknown,
        },
        Expr::ArrayLiteral(elems) => {
            let elem = if elems.len() == 0 {
                Type::Unknown
            } else {
                expr_type(program, frame, &elems[0])
            };
            Type::Array { elem: Box::new(elem), len: Some(elems.len() as u64) }
        },
        Expr::ArrayAccess { name, index: _ } => match frame.lookup(name) {
            Some(loc) => match &loc.ty {
                Type::Array { elem, len: _ } => copy_type(elem),
                _ => Type::Unknown,
            },
            None => Type::Unknown,
        },
        Expr::InterpolatedString(_) => Type::Str,
        Expr::MemberAccess { object: _, member: _ } => Type::Unknown,
    }
}

/// Executable form of [`spec_numeric_join`].
fn numeric_join(l: &Type, r: &Type) -> (t: Type)
    ensures
        t == spec_numeric_join(*l, *r),
{
    if l.is_float() || r.is_float() {
        if matches!(l, Type::F64) || matches!(r, Type::F64) {
            Type::F64
        } else {
            Type::F32
        }
    } else if l.is_integer() && r.is_integer() {
        if matches!(l, Type::I64) || matches!(r, Type::I64) {
            Type::I64
        } else {
            Type::I32
        }
    } else {
        Type::Unknown
    }
}

} // verus!
