//! Failure taxonomy of the backend.
//!
//! Every failure is an outcome value; a lowering failure aborts the
//! remaining code generation and propagates to the caller.

use vstd::prelude::*;
use crate::ast::BinOp;

verus! {

/// Why binding call arguments to declared parameters failed.
#[derive(Debug, PartialEq)]
pub enum ArgumentFault {
    /// A declared parameter received no argument and has no default.
    MissingParameter(String),
    /// More positional arguments than unbound parameters.
    ExcessPositional,
    /// More float arguments than float argument registers.
    TooManyFloatArguments,
}

/// Outcome value carried by every failed lowering step.
#[derive(Debug, PartialEq)]
pub enum CodegenError {
    /// A referenced name has no slot in the active frame and no
    /// declaration in the program.
    UnresolvedIdentifier(String),
    /// The operator is not lowerable for the operand types it was
    /// given.
    UnsupportedOperator(BinOp),
    /// The expression kind is intentionally not lowered.
    UnsupportedExpression,
    /// The statement kind is intentionally not lowered, or exceeds a
    /// fixed capacity of the backend.
    UnsupportedStatement,
    /// Arguments of a call could not be bound to the callee's
    /// parameters.
    ArgumentBindingError(ArgumentFault),
    /// `break` or `continue` outside of any loop.
    ControlFlowMisuse,
    /// Operand types are mixed or incompatible; an upstream defect,
    /// caught here as a safety net.
    TypeMismatch,
}

} // verus!
