//! Native x86-64 code generator for a small, statically typed,
//! Pascal-like language.
//!
//! The backend walks a type-annotated declaration list and renders
//! assembly text for one of three target platforms.  Lowering first
//! produces structured instruction values; a renderer then prints them
//! in the target assembler dialect.  String and float constants are
//! collected in a literal pool and emitted as one data section.

pub mod ast;
pub mod errors;
pub mod text;
pub mod pool;
pub mod frame;
pub mod instr;
pub mod machine;
pub mod types;
pub mod codegen;
pub mod callconv;
pub mod expr;
pub mod stmt;
pub mod emit;
pub mod config;

use vstd::prelude::*;

verus! {

} // verus!
