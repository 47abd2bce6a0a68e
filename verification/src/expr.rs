//! Expression lowering engine.
//!
//! Each expression node becomes an instruction sequence leaving the
//! expression's value in the primary integer register (`rax`) for
//! integer, boolean and string-address results, or in the primary
//! float register (`xmm0`) for float results; nothing is left on the
//! stack for the caller.  Binary operations evaluate the right
//! operand first, so that the left operand ends in the primary
//! register without a move.

use vstd::prelude::*;
use crate::ast::{CallArg, Expr, FunctionDecl, LiteralValue, Param, TargetPlatform, Type, BinOp, UnOp};
use crate::callconv::{ArgSlot, ArgSource, bind_args, place_args, spec_bind_args,
    spec_place_args};
use crate::codegen::FRAME_LIMIT;
use crate::errors::CodegenError;
use crate::frame::{Frame, FrameModel, spec_lookup};
use crate::instr::{Cond, FReg, Instr, Reg};
use crate::machine::{MachineModel, lemma_run_append, spec_run, spec_step};
use crate::pool::{LiteralPool, PoolEntry, spec_intern_string};
use crate::types::{expr_type, find_function, spec_expr_type, spec_find_function};

verus! {

/// The part of the session that expression lowering reads and
/// writes: the literal pool and the active frame.
pub struct ExprSt {
    pub pool: Seq<PoolEntry>,
    pub frame: FrameModel,
}

/// The float opcode of a binary operator, if the operator is
/// lowerable on floats; modulo is not.
pub open spec fn spec_float_op(op: BinOp) -> Option<Instr> {
    match op {
        BinOp::Add => Some(Instr::AddF(FReg::Xmm0, FReg::Xmm1)),
        BinOp::Sub => Some(Instr::SubF(FReg::Xmm0, FReg::Xmm1)),
        BinOp::Mul => Some(Instr::MulF(FReg::Xmm0, FReg::Xmm1)),
        BinOp::Div => Some(Instr::DivF(FReg::Xmm0, FReg::Xmm1)),
        _ => None,
    }
}

/// The comparison condition of an operator.
pub open spec fn spec_cmp_cond(op: BinOp) -> Option<Cond> {
    match op {
        BinOp::Equal => Some(Cond::E),
        BinOp::NotEqual => Some(Cond::Ne),
        BinOp::Greater => Some(Cond::G),
        BinOp::Less => Some(Cond::L),
        BinOp::GreaterEqual => Some(Cond::Ge),
        BinOp::LessEqual => Some(Cond::Le),
        _ => None,
    }
}

/// The instruction tail of an integer binary operation, applied
/// after the left operand is in `rax` and the right in `rbx`.
/// Multiplication uses the two-operand signed `imul`, which keeps
/// exactly the low 64 bits in `rax` — the same `rax` result the
/// wide form leaves, without clobbering `rdx`.
pub open spec fn spec_int_tail(op: BinOp) -> Option<Seq<Instr>> {
    match op {
        BinOp::Add => Some(seq![Instr::AddReg(Reg::Rax, Reg::Rbx)]),
        BinOp::Sub => Some(seq![Instr::SubReg(Reg::Rax, Reg::Rbx)]),
        BinOp::Mul => Some(seq![Instr::ImulReg(Reg::Rax, Reg::Rbx)]),
        BinOp::Div => Some(seq![Instr::Cqo, Instr::Idiv(Reg::Rbx)]),
        BinOp::Mod => Some(
            seq![Instr::Cqo, Instr::Idiv(Reg::Rbx), Instr::MovReg(Reg::Rax, Reg::Rdx)],
        ),
        _ => match spec_cmp_cond(op) {
            Some(c) => Some(
                seq![Instr::Cmp(Reg::Rax, Reg::Rbx), Instr::Setcc(c), Instr::MovzxRaxAl],
            ),
            None => None,
        },
    }
}

/// The instruction tail of a boolean binary operation.
pub open spec fn spec_bool_tail(op: BinOp) -> Option<Seq<Instr>> {
    match op {
        BinOp::And => Some(seq![Instr::AndReg(Reg::Rax, Reg::Rbx)]),
        BinOp::Or => Some(seq![Instr::OrReg(Reg::Rax, Reg::Rbx)]),
        _ => None,
    }
}

/// The instruction tail of a string binary operation: only address
/// equality and inequality are lowerable.
pub open spec fn spec_str_tail(op: BinOp) -> Option<Seq<Instr>> {
    match op {
        BinOp::Equal => Some(
            seq![Instr::Cmp(Reg::Rax, Reg::Rbx), Instr::Setcc(Cond::E), Instr::MovzxRaxAl],
        ),
        BinOp::NotEqual => Some(
            seq![Instr::Cmp(Reg::Rax, Reg::Rbx), Instr::Setcc(Cond::Ne), Instr::MovzxRaxAl],
        ),
        _ => None,
    }
}

/// Lowering of a literal: integers and booleans load an immediate,
/// strings and floats are pool-interned and addressed by label.
pub open spec fn spec_lower_literal(pool: Seq<PoolEntry>, lit: LiteralValue) -> (
    Seq<PoolEntry>,
    Seq<Instr>,
) {
    match lit {
        LiteralValue::Int(i) => (pool, seq![Instr::MovImm(Reg::Rax, i)]),
        LiteralValue::Bool(b) => (
            pool,
            seq![
                Instr::MovImm(
                    Reg::Rax,
                    if b {
                        1
                    } else {
                        0
                    },
                ),
            ],
        ),
        LiteralValue::Null => (pool, seq![Instr::Xor(Reg::Rax, Reg::Rax)]),
        LiteralValue::Str(s) => {
            let (pool2, idx) = spec_intern_string(pool, s@);
            (pool2, seq![Instr::LeaStr(Reg::Rax, idx as u64)])
        },
        LiteralValue::Float(bits) => (
            pool.push(PoolEntry::Float(bits)),
            seq![Instr::LoadFData(FReg::Xmm0, pool.len() as u64)],
        ),
    }
}

/// Lowering of a variable reference: a load from its frame slot, in
/// the register class of its static type.
pub open spec fn spec_lower_variable(
    entries: Seq<(Seq<char>, crate::frame::VariableLocation)>,
    name: String,
) -> Result<Seq<Instr>, CodegenError> {
    match spec_lookup(entries, name@) {
        Some(loc) => if loc.ty.spec_is_float() {
            Ok(seq![Instr::LoadF(FReg::Xmm0, loc.stack_offset)])
        } else {
            Ok(seq![Instr::Load(Reg::Rax, loc.stack_offset)])
        },
        None => Err(CodegenError::UnresolvedIdentifier(name)),
    }
}

/// Lowering of the simple expressions admitted as parameter
/// defaults: literals and variable references.
pub open spec fn spec_lower_simple(st: ExprSt, e: Expr) -> (ExprSt, Result<
    Seq<Instr>,
    CodegenError,
>) {
    match e {
        Expr::Literal(lit) => {
            let (pool2, code) = spec_lower_literal(st.pool, lit);
            (ExprSt { pool: pool2, ..st }, Ok(code))
        },
        Expr::Variable(name) => (st, spec_lower_variable(st.frame.entries, name)),
        _ => (st, Err(CodegenError::UnsupportedExpression)),
    }
}

/// Pool state and string indices after interning an array literal's
/// elements; only string literals are accepted as elements.
pub open spec fn spec_intern_elems(pool: Seq<PoolEntry>, elems: Seq<Expr>, k: int) -> (
    Seq<PoolEntry>,
    Result<Seq<u64>, CodegenError>,
)
    decreases elems.len() - k,
{
    if k < 0 || k >= elems.len() {
        (pool, Ok(Seq::empty()))
    } else {
        match elems[k] {
            Expr::Literal(lit) => match lit {
                LiteralValue::Str(s) => {
                    let (pool2, idx) = spec_intern_string(pool, s@);
                    match spec_intern_elems(pool2, elems, k + 1) {
                        (pool3, Ok(rest)) => (pool3, Ok(seq![idx as u64] + rest)),
                        (pool3, Err(e)) => (pool3, Err(e)),
                    }
                },
                _ => (pool, Err(CodegenError::UnsupportedExpression)),
            },
            _ => (pool, Err(CodegenError::UnsupportedExpression)),
        }
    }
}

/// Lowering of one expression: the resulting state and, on success,
/// the emitted instruction sequence.
pub open spec fn spec_lower_expr(
    program: Seq<FunctionDecl>,
    p: TargetPlatform,
    st: ExprSt,
    e: Expr,
) -> (ExprSt, Result<Seq<Instr>, CodegenError>)
    decreases e, 1int, 0int,
{
    match e {
        Expr::Literal(lit) => {
            let (pool2, code) = spec_lower_literal(st.pool, lit);
            (ExprSt { pool: pool2, ..st }, Ok(code))
        },
        Expr::Variable(name) => (st, spec_lower_variable(st.frame.entries, name)),
        Expr::Binary { left, op, right } => {
            let lt = spec_expr_type(program, st.frame.entries, *left);
            let rt = spec_expr_type(program, st.frame.entries, *right);
            if lt.spec_is_float() && rt.spec_is_float() {
                let (st1, r1) = spec_lower_expr(program, p, st, *right);
                match r1 {
                    Err(e1) => (st1, Err(e1)),
                    Ok(cr) => {
                        let (st2, r2) = spec_lower_expr(program, p, st1, *left);
                        match r2 {
                            Err(e2) => (st2, Err(e2)),
                            Ok(cl) => match spec_float_op(op) {
                                Some(fi) => (
                                    st2,
                                    Ok(
                                        cr + seq![Instr::MovF(FReg::Xmm1, FReg::Xmm0)] + cl
                                            + seq![fi],
                                    ),
                                ),
                                None => (st2, Err(CodegenError::UnsupportedOperator(op))),
                            },
                        }
                    },
                }
            } else if (lt.spec_is_integer() && rt.spec_is_integer()) || (lt is Bool && rt is Bool)
                || (lt is Str && rt is Str) {
                let tail = if lt.spec_is_integer() {
                    spec_int_tail(op)
                } else if lt is Bool {
                    spec_bool_tail(op)
                } else {
                    spec_str_tail(op)
                };
                let (st1, r1) = spec_lower_expr(program, p, st, *right);
                match r1 {
                    Err(e1) => (st1, Err(e1)),
                    Ok(cr) => {
                        let (st2, r2) = spec_lower_expr(program, p, st1, *left);
                        match r2 {
                            Err(e2) => (st2, Err(e2)),
                            Ok(cl) => match tail {
                                Some(t) => (
                                    st2,
                                    Ok(
                                        cr + seq![Instr::Push(Reg::Rax)] + cl + seq![
                                            Instr::Pop(Reg::Rbx),
                                        ] + t,
                                    ),
                                ),
                                None => (st2, Err(CodegenError::UnsupportedOperator(op))),
                            },
                        }
                    },
                }
            } else {
                (st, Err(CodegenError::TypeMismatch))
            }
        },
        Expr::Unary { op, operand } => match op {
            UnOp::Neg => {
                let (st1, r1) = spec_lower_expr(program, p, st, *operand);
                match r1 {
                    Err(e1) => (st1, Err(e1)),
                    Ok(c) => (st1, Ok(c + seq![Instr::Neg(Reg::Rax)])),
                }
            },
            UnOp::Not => {
                let (st1, r1) = spec_lower_expr(program, p, st, *operand);
                match r1 {
                    Err(e1) => (st1, Err(e1)),
                    Ok(c) => (
                        st1,
                        Ok(
                            c + seq![
                                Instr::Test(Reg::Rax, Reg::Rax),
                                Instr::Setcc(Cond::E),
                                Instr::MovzxRaxAl,
                            ],
                        ),
                    ),
                }
            },
            _ => match *operand {
                Expr::Variable(name) => match spec_lookup(st.frame.entries, name@) {
                    Some(loc) => {
                        let off = loc.stack_offset;
                        let code = match op {
                            UnOp::PostInc => seq![
                                Instr::Load(Reg::Rax, off),
                                Instr::IncSlot(off),
                            ],
                            UnOp::PreInc => seq![Instr::IncSlot(off), Instr::Load(Reg::Rax, off)],
                            UnOp::PostDec => seq![
                                Instr::Load(Reg::Rax, off),
                                Instr::DecSlot(off),
                            ],
                            _ => seq![Instr::DecSlot(off), Instr::Load(Reg::Rax, off)],
                        };
                        (st, Ok(code))
                    },
                    None => (st, Err(CodegenError::UnresolvedIdentifier(name))),
                },
                _ => (st, Err(CodegenError::UnsupportedExpression)),
            },
        },
        Expr::Assign { name, value } => {
            let (st1, r1) = spec_lower_expr(program, p, st, *value);
            match r1 {
                Err(e1) => (st1, Err(e1)),
                Ok(cv) => match spec_lookup(st1.frame.entries, name@) {
                    Some(loc) => if loc.ty.spec_is_float() {
                        (st1, Ok(cv + seq![Instr::StoreF(loc.stack_offset, FReg::Xmm0)]))
                    } else {
                        (st1, Ok(cv + seq![Instr::Store(loc.stack_offset, Reg::Rax)]))
                    },
                    None => if st1.frame.size >= FRAME_LIMIT {
                        (st1, Err(CodegenError::UnsupportedExpression))
                    } else {
                        let vt = spec_expr_type(program, st1.frame.entries, *value);
                        let off = (st1.frame.size + 8) as u64;
                        let frame2 = crate::frame::spec_declare(st1.frame, name@, vt);
                        let store = if vt.spec_is_float() {
                            Instr::StoreF(off, FReg::Xmm0)
                        } else {
                            Instr::Store(off, Reg::Rax)
                        };
                        (
                            ExprSt { frame: frame2, ..st1 },
                            Ok(cv + seq![Instr::SubRsp(8), store]),
                        )
                    },
                },
            }
        },
        Expr::Call { callee, args } => match spec_find_function(program, callee@) {
            None => (st, Err(CodegenError::UnresolvedIdentifier(callee))),
            Some(fi) => {
                let params = program[fi].params;
                match spec_bind_args(params@, args@) {
                    Err(e1) => (st, Err(e1)),
                    Ok(sources) => {
                        let (st2, r2) = spec_lower_call_args(
                            program,
                            p,
                            st,
                            args,
                            params,
                            sources,
                            0,
                        );
                        match r2 {
                            Err(e2) => (st2, Err(e2)),
                            Ok((code1, slots)) => match spec_place_args(p, slots, 0) {
                                Err(e3) => (st2, Err(e3)),
                                Ok((code2, n_stack)) => {
                                    let k = slots.len() as int;
                                    let shadow_pre: Seq<Instr> = if p is Windows {
                                        seq![Instr::SubRsp(32)]
                                    } else {
                                        Seq::empty()
                                    };
                                    let shadow_post: Seq<Instr> = if p is Windows {
                                        seq![Instr::AddRsp(32)]
                                    } else {
                                        Seq::empty()
                                    };
                                    let clean: Seq<Instr> = if n_stack + k > 0 {
                                        seq![Instr::AddRsp((8 * (n_stack + k)) as u64)]
                                    } else {
                                        Seq::empty()
                                    };
                                    let frame3 = FrameModel {
                                        size: st2.frame.size - 8 * k,
                                        entries: st2.frame.entries,
                                    };
                                    (
                                        ExprSt { frame: frame3, ..st2 },
                                        Ok(
                                            code1 + code2 + shadow_pre + seq![
                                                Instr::CallFn(callee),
                                            ] + shadow_post + clean,
                                        ),
                                    )
                                },
                            },
                        }
                    },
                }
            },
        },
        Expr::ArrayLiteral(elems) => {
            let (pool2, r) = spec_intern_elems(st.pool, elems@, 0);
            match r {
                Err(e1) => (ExprSt { pool: pool2, ..st }, Err(e1)),
                Ok(refs) => (
                    ExprSt { pool: pool2.push(PoolEntry::Table(refs)), ..st },
                    Ok(seq![Instr::LeaArr(Reg::Rax, pool2.len() as u64)]),
                ),
            }
        },
        Expr::ArrayAccess { name, index } => match spec_lookup(st.frame.entries, name@) {
            None => (st, Err(CodegenError::UnresolvedIdentifier(name))),
            Some(loc) => {
                let (st1, r1) = spec_lower_expr(program, p, st, *index);
                match r1 {
                    Err(e1) => (st1, Err(e1)),
                    Ok(ci) => (
                        st1,
                        Ok(
                            ci + seq![
                                Instr::Load(Reg::Rbx, loc.stack_offset),
                                Instr::ImulImm(Reg::Rax, 8),
                                Instr::AddReg(Reg::Rbx, Reg::Rax),
                                Instr::LoadInd(Reg::Rax, Reg::Rbx),
                            ],
                        ),
                    ),
                }
            },
        },
        Expr::InterpolatedString(_) => (st, Err(CodegenError::UnsupportedExpression)),
        Expr::MemberAccess { object: _, member: _ } => (
            st,
            Err(CodegenError::UnsupportedExpression),
        ),
    }
}

/// Lowering and spilling of a call's bound arguments, from source
/// `k` on: each argument is evaluated and immediately spilled to a
/// fresh private stack slot, so that evaluating one argument never
/// clobbers a previously evaluated one.
pub open spec fn spec_lower_call_args(
    program: Seq<FunctionDecl>,
    p: TargetPlatform,
    st: ExprSt,
    args: Vec<CallArg>,
    params: Vec<Param>,
    sources: Seq<ArgSource>,
    k: int,
) -> (ExprSt, Result<(Seq<Instr>, Seq<ArgSlot>), CodegenError>)
    decreases args, 0int, sources.len() - k,
{
    if k < 0 || k >= sources.len() {
        (st, Ok((Seq::empty(), Seq::empty())))
    } else {
        let resolved: Result<Expr, CodegenError> = match sources[k] {
            ArgSource::Named(i) => if i < args@.len() {
                Ok(args@[i as int].value)
            } else {
                Err(CodegenError::UnsupportedExpression)
            },
            ArgSource::Positional(i) => if i < args@.len() {
                Ok(args@[i as int].value)
            } else {
                Err(CodegenError::UnsupportedExpression)
            },
            ArgSource::Default(j) => if j < params@.len() {
                match params@[j as int].default {
                    Some(d) => Ok(d),
                    None => Err(CodegenError::UnsupportedExpression),
                }
            } else {
                Err(CodegenError::UnsupportedExpression)
            },
        };
        match resolved {
            Err(e1) => (st, Err(e1)),
            Ok(argexpr) => {
                let ty = spec_expr_type(program, st.frame.entries, argexpr);
                let (st1, r1) = match sources[k] {
                    ArgSource::Default(_) => spec_lower_simple(st, argexpr),
                    _ => spec_lower_expr(program, p, st, argexpr),
                };
                match r1 {
                    Err(e1) => (st1, Err(e1)),
                    Ok(c) => if st1.frame.size >= FRAME_LIMIT {
                        (st1, Err(CodegenError::UnsupportedExpression))
                    } else {
                        let off = (st1.frame.size + 8) as u64;
                        let st2 = ExprSt {
                            frame: FrameModel {
                                size: st1.frame.size + 8,
                                entries: st1.frame.entries,
                            },
                            ..st1
                        };
                        let spill = if ty.spec_is_float() {
                            Instr::StoreF(off, FReg::Xmm0)
                        } else {
                            Instr::Store(off, Reg::Rax)
                        };
                        let slot = ArgSlot { is_float: ty.spec_is_float(), off };
                        match spec_lower_call_args(program, p, st2, args, params, sources, k + 1) {
                            (st3, Err(e3)) => (st3, Err(e3)),
                            (st3, Ok((crest, srest))) => (
                                st3,
                                Ok(
                                    (
                                        c + seq![Instr::SubRsp(8), spill] + crest,
                                        seq![slot] + srest,
                                    ),
                                ),
                            ),
                        }
                    },
                }
            },
        }
    }
}


/// Bounds on the frame after lowering an expression: the frame never
/// shrinks below its starting size, and never grows past the
/// backend's frame capacity (plus the one slot granted after the
/// final capacity check).
pub proof fn lemma_lower_expr_frame(
    program: Seq<FunctionDecl>,
    p: TargetPlatform,
    st: ExprSt,
    e: Expr,
)
    ensures
        ({
            let (st2, r) = spec_lower_expr(program, p, st, e);
            &&& st.frame.size <= st2.frame.size
            &&& st2.frame.size <= (if st.frame.size > FRAME_LIMIT + 8 {
                st.frame.size
            } else {
                (FRAME_LIMIT + 8) as int
            })
        }),
    decreases e, 1int, 0int,
{
    match e {
        Expr::Binary { left, op, right } => {
            let (st1, r1) = spec_lower_expr(program, p, st, *right);
            lemma_lower_expr_frame(program, p, st, *right);
            lemma_lower_expr_frame(program, p, st1, *left);
        },
        Expr::Unary { op, operand } => {
            lemma_lower_expr_frame(program, p, st, *operand);
        },
        Expr::Assign { name, value } => {
            lemma_lower_expr_frame(program, p, st, *value);
        },
        Expr::Call { callee, args } => {
            match spec_find_function(program, callee@) {
                None => {
                },
                Some(fi) => {
                    match spec_bind_args(program[fi].params@, args@) {
                        Err(_) => {
                        },
                        Ok(sources) => {
                            lemma_lower_call_args_frame(
                                program,
                                p,
                                st,
                                args,
                                program[fi].params,
                                sources,
                                0,
                            );
                        },
                    }
                },
            }
        },
        Expr::ArrayAccess { name, index } => {
            lemma_lower_expr_frame(program, p, st, *index);
        },
        _ => {
        },
    }
}

/// Bounds on the frame across argument lowering: on success exactly
/// one slot was returned per remaining source and the frame grew by
/// at least one spill slot per argument.
pub proof fn lemma_lower_call_args_frame(
    program: Seq<FunctionDecl>,
    p: TargetPlatform,
    st: ExprSt,
    args: Vec<CallArg>,
    params: Vec<Param>,
    sources: Seq<ArgSource>,
    k: int,
)
    ensures
        ({
            let (st3, r) = spec_lower_call_args(program, p, st, args, params, sources, k);
            &&& st.frame.size <= st3.frame.size
            &&& st3.frame.size <= (if st.frame.size > FRAME_LIMIT + 8 {
                st.frame.size
            } else {
                (FRAME_LIMIT + 8) as int
            })
            &&& match r {
                Ok(x) => 0 <= k <= sources.len() ==> x.1.len() == sources.len() - k
                    && st3.frame.size >= st.frame.size + 8 * (sources.len() - k),
                Err(_) => true,
            }
        }),
    decreases args, 0int, sources.len() - k,
{
    if 0 <= k < sources.len() {
        let resolved: Result<Expr, CodegenError> = match sources[k] {
            ArgSource::Named(i) => if i < args@.len() {
                Ok(args@[i as int].value)
            } else {
                Err(CodegenError::UnsupportedExpression)
            },
            ArgSource::Positional(i) => if i < args@.len() {
                Ok(args@[i as int].value)
            } else {
                Err(CodegenError::UnsupportedExpression)
            },
            ArgSource::Default(j) => if j < params@.len() {
                match params@[j as int].default {
                    Some(d) => Ok(d),
                    None => Err(CodegenError::UnsupportedExpression),
                }
            } else {
                Err(CodegenError::UnsupportedExpression)
            },
        };
        match resolved {
            Err(_) => {
            },
            Ok(argexpr) => {
                let (st1, r1) = match sources[k] {
                    ArgSource::Default(_) => spec_lower_simple(st, argexpr),
                    _ => spec_lower_expr(program, p, st, argexpr),
                };
                match sources[k] {
                    ArgSource::Default(_) => {
                    },
                    _ => {
                        lemma_lower_expr_frame(program, p, st, argexpr);
                    },
                }
                match r1 {
                    Err(_) => {
                    },
                    Ok(_) => {
                        if st1.frame.size < FRAME_LIMIT {
                            let st2 = ExprSt {
                                frame: FrameModel {
                                    size: st1.frame.size + 8,
                                    entries: st1.frame.entries,
                                },
                                ..st1
                            };
                            lemma_lower_call_args_frame(
                                program,
                                p,
                                st2,
                                args,
                                params,
                                sources,
                                k + 1,
                            );
                        }
                    },
                }
            },
        }
    }
}

/// Executable form of [`spec_float_op`].
fn float_op(op: BinOp) -> (r: Option<Instr>)
    ensures
        r == spec_float_op(op),
{
    match op {
        BinOp::Add => Some(Instr::AddF(FReg::Xmm0, FReg::Xmm1)),
        BinOp::Sub => Some(Instr::SubF(FReg::Xmm0, FReg::Xmm1)),
        BinOp::Mul => Some(Instr::MulF(FReg::Xmm0, FReg::Xmm1)),
        BinOp::Div => Some(Instr::DivF(FReg::Xmm0, FReg::Xmm1)),
        _ => None,
    }
}

/// Executable form of [`spec_int_tail`].
fn int_tail(op: BinOp) -> (r: Option<Vec<Instr>>)
    ensures
        match r {
            Some(v) => spec_int_tail(op) == Some(v@),
            None => spec_int_tail(op) is None,
        },
{
    let v = match op {
        BinOp::Add => vec![Instr::AddReg(Reg::Rax, Reg::Rbx)],
        BinOp::Sub => vec![Instr::SubReg(Reg::Rax, Reg::Rbx)],
        BinOp::Mul => vec![Instr::ImulReg(Reg::Rax, Reg::Rbx)],
        BinOp::Div => vec![Instr::Cqo, Instr::Idiv(Reg::Rbx)],
        BinOp::Mod => vec![Instr::Cqo, Instr::Idiv(Reg::Rbx), Instr::MovReg(Reg::Rax, Reg::Rdx)],
        BinOp::Equal => vec![
            Instr::Cmp(Reg::Rax, Reg::Rbx),
            Instr::Setcc(Cond::E),
            Instr::MovzxRaxAl,
        ],
        BinOp::NotEqual => vec![
            Instr::Cmp(Reg::Rax, Reg::Rbx),
            Instr::Setcc(Cond::Ne),
            Instr::MovzxRaxAl,
        ],
        BinOp::Greater => vec![
            Instr::Cmp(Reg::Rax, Reg::Rbx),
            Instr::Setcc(Cond::G),
            Instr::MovzxRaxAl,
        ],
        BinOp::Less => vec![
            Instr::Cmp(Reg::Rax, Reg::Rbx),
            Instr::Setcc(Cond::L),
            Instr::MovzxRaxAl,
        ],
        BinOp::GreaterEqual => vec![
            Instr::Cmp(Reg::Rax, Reg::Rbx),
            Instr::Setcc(Cond::Ge),
            Instr::MovzxRaxAl,
        ],
        BinOp::LessEqual => vec![
            Instr::Cmp(Reg::Rax, Reg::Rbx),
            Instr::Setcc(Cond::Le),
            Instr::MovzxRaxAl,
        ],
        _ => {
            return None;
        },
    };
    proof {
        assert(spec_int_tail(op) matches Some(t) && v@ =~= t);
    }
    Some(v)
}

/// Executable form of [`spec_bool_tail`].
fn bool_tail(op: BinOp) -> (r: Option<Vec<Instr>>)
    ensures
        match r {
            Some(v) => spec_bool_tail(op) == Some(v@),
            None => spec_bool_tail(op) is None,
        },
{
    let v = match op {
        BinOp::And => vec![Instr::AndReg(Reg::Rax, Reg::Rbx)],
        BinOp::Or => vec![Instr::OrReg(Reg::Rax, Reg::Rbx)],
        _ => {
            return None;
        },
    };
    proof {
        assert(spec_bool_tail(op) matches Some(t) && v@ =~= t);
    }
    Some(v)
}

/// Executable form of [`spec_str_tail`].
fn str_tail(op: BinOp) -> (r: Option<Vec<Instr>>)
    ensures
        match r {
            Some(v) => spec_str_tail(op) == Some(v@),
            None => spec_str_tail(op) is None,
        },
{
    let v = match op {
        BinOp::Equal => vec![
            Instr::Cmp(Reg::Rax, Reg::Rbx),
            Instr::Setcc(Cond::E),
            Instr::MovzxRaxAl,
        ],
        BinOp::NotEqual => vec![
            Instr::Cmp(Reg::Rax, Reg::Rbx),
            Instr::Setcc(Cond::Ne),
            Instr::MovzxRaxAl,
        ],
        _ => {
            return None;
        },
    };
    proof {
        assert(spec_str_tail(op) matches Some(t) && v@ =~= t);
    }
    Some(v)
}

/// Lowers a literal into the pool and an instruction sequence.
fn lower_literal(pool: &mut LiteralPool, lit: &LiteralValue) -> (v: Vec<Instr>)
    ensures
        final(pool)@ == spec_lower_literal(old(pool)@, *lit).0,
        v@ == spec_lower_literal(old(pool)@, *lit).1,
{
    let v = match lit {
        LiteralValue::Int(i) => vec![Instr::MovImm(Reg::Rax, *i)],
        LiteralValue::Bool(b) => vec![
            Instr::MovImm(
                Reg::Rax,
                if *b {
                    1
                } else {
                    0
                },
            ),
        ],
        LiteralValue::Null => vec![Instr::Xor(Reg::Rax, Reg::Rax)],
        LiteralValue::Str(s) => {
            let idx = pool.intern_string(s.clone());
            vec![Instr::LeaStr(Reg::Rax, idx as u64)]
        },
        LiteralValue::Float(bits) => {
            let idx = pool.intern_float(*bits);
            vec![Instr::LoadFData(FReg::Xmm0, idx as u64)]
        },
    };
    proof {
        assert(v@ =~= spec_lower_literal(old(pool)@, *lit).1);
    }
    v
}

/// Lowers a variable reference against the active frame.
fn lower_variable(frame: &Frame, name: &String) -> (r: Result<Vec<Instr>, CodegenError>)
    ensures
        match r {
            Ok(v) => spec_lower_variable(frame@.entries, *name) == Ok::<_, CodegenError>(v@),
            Err(e) => spec_lower_variable(frame@.entries, *name) == Err::<Seq<Instr>, _>(e),
        },
{
    match frame.lookup(name) {
        Some(loc) => {
            let v = if loc.ty.is_float() {
                vec![Instr::LoadF(FReg::Xmm0, loc.stack_offset)]
            } else {
                vec![Instr::Load(Reg::Rax, loc.stack_offset)]
            };
            proof {
                assert(spec_lower_variable(frame@.entries, *name) matches Ok(c) && v@ =~= c);
            }
            Ok(v)
        },
        None => Err(CodegenError::UnresolvedIdentifier(name.clone())),
    }
}

/// Lowers a simple default expression: a literal or a variable
/// reference.
fn lower_simple(pool: &mut LiteralPool, frame: &Frame, e: &Expr) -> (r: Result<
    Vec<Instr>,
    CodegenError,
>)
    ensures
        ({
            let (st2, sr) = spec_lower_simple(
                ExprSt { pool: old(pool)@, frame: frame@ },
                *e,
            );
            &&& final(pool)@ == st2.pool
            &&& st2.frame == frame@
            &&& match (r, sr) {
                (Ok(v), Ok(c)) => v@ == c,
                (Err(a), Err(b)) => a == b,
                _ => false,
            }
        }),
{
    match e {
        Expr::Literal(lit) => Ok(lower_literal(pool, lit)),
        Expr::Variable(name) => lower_variable(frame, name),
        _ => Err(CodegenError::UnsupportedExpression),
    }
}

/// Lowers one expression; on success the returned instructions leave
/// the expression's value in `rax` or `xmm0` by register class.
#[verifier::loop_isolation(false)]
#[verifier::rlimit(100)]
pub fn lower_expr(
    program: &Vec<FunctionDecl>,
    platform: TargetPlatform,
    pool: &mut LiteralPool,
    frame: &mut Frame,
    e: &Expr,
) -> (r: Result<Vec<Instr>, CodegenError>)
    ensures
        ({
            let (st2, sr) = spec_lower_expr(
                program@,
                platform,
                ExprSt { pool: old(pool)@, frame: old(frame)@ },
                *e,
            );
            &&& final(pool)@ == st2.pool
            &&& final(frame)@ == st2.frame
            &&& match (r, sr) {
                (Ok(v), Ok(c)) => v@ == c,
                (Err(a), Err(b)) => a == b,
                _ => false,
            }
        }),
    decreases *e, 1int,
{
    match e {
        Expr::Literal(lit) => Ok(lower_literal(pool, lit)),
        Expr::Variable(name) => lower_variable(frame, name),
        Expr::Binary { left, op, right } => {
            let lt = expr_type(program, frame, left);
            let rt = expr_type(program, frame, right);
            if lt.is_float() && rt.is_float() {
                let cr = match lower_expr(program, platform, pool, frame, right) {
                    Ok(c) => c,
                    Err(er) => {
                        return Err(er);
                    },
                };
                let cl = match lower_expr(program, platform, pool, frame, left) {
                    Ok(c) => c,
                    Err(er) => {
                        return Err(er);
                    },
                };
                match float_op(*op) {
                    Some(fi) => {
                        let mut v = cr;
                        let mut cl2 = cl;
                        v.push(Instr::MovF(FReg::Xmm1, FReg::Xmm0));
                        v.append(&mut cl2);
                        v.push(fi);
                        proof {
                            let (st2, sr) = spec_lower_expr(
                                program@,
                                platform,
                                ExprSt { pool: old(pool)@, frame: old(frame)@ },
                                *e,
                            );
                            assert(sr matches Ok(c) && v@ =~= c);
                        }
                        Ok(v)
                    },
                    None => Err(CodegenError::UnsupportedOperator(*op)),
                }
            } else if (lt.is_integer() && rt.is_integer()) || (matches!(lt, Type::Bool)
                && matches!(rt, Type::Bool)) || (matches!(lt, Type::Str) && matches!(
                rt,
                Type::Str,
            )) {
                let tail = if lt.is_integer() {
                    int_tail(*op)
                } else if matches!(lt, Type::Bool) {
                    bool_tail(*op)
                } else {
                    str_tail(*op)
                };
                let cr = match lower_expr(program, platform, pool, frame, right) {
                    Ok(c) => c,
                    Err(er) => {
                        return Err(er);
                    },
                };
                let cl = match lower_expr(program, platform, pool, frame, left) {
                    Ok(c) => c,
                    Err(er) => {
                        return Err(er);
                    },
                };
                match tail {
                    Some(t) => {
                        let mut v = cr;
                        let mut cl2 = cl;
                        let mut t2 = t;
                        v.push(Instr::Push(Reg::Rax));
                        v.append(&mut cl2);
                        v.push(Instr::Pop(Reg::Rbx));
                        v.append(&mut t2);
                        proof {
                            let (st2, sr) = spec_lower_expr(
                                program@,
                                platform,
                                ExprSt { pool: old(pool)@, frame: old(frame)@ },
                                *e,
                            );
                            assert(sr matches Ok(c) && v@ =~= c);
                        }
                        Ok(v)
                    },
                    None => Err(CodegenError::UnsupportedOperator(*op)),
                }
            } else {
                Err(CodegenError::TypeMismatch)
            }
        },
        Expr::Unary { op, operand } => match op {
            UnOp::Neg => {
                let mut c = match lower_expr(program, platform, pool, frame, operand) {
                    Ok(c) => c,
                    Err(er) => {
                        return Err(er);
                    },
                };
                c.push(Instr::Neg(Reg::Rax));
                proof {
                    let (st2, sr) = spec_lower_expr(
                        program@,
                        platform,
                        ExprSt { pool: old(pool)@, frame: old(frame)@ },
                        *e,
                    );
                    assert(sr matches Ok(cs) && c@ =~= cs);
                }
                Ok(c)
            },
            UnOp::Not => {
                let mut c = match lower_expr(program, platform, pool, frame, operand) {
                    Ok(c) => c,
                    Err(er) => {
                        return Err(er);
                    },
                };
                c.push(Instr::Test(Reg::Rax, Reg::Rax));
                c.push(Instr::Setcc(Cond::E));
                c.push(Instr::MovzxRaxAl);
                proof {
                    let (st2, sr) = spec_lower_expr(
                        program@,
                        platform,
                        ExprSt { pool: old(pool)@, frame: old(frame)@ },
                        *e,
                    );
                    assert(sr matches Ok(cs) && c@ =~= cs);
                }
                Ok(c)
            },
            _ => match &**operand {
                Expr::Variable(name) => match frame.lookup(name) {
                    Some(loc) => {
                        let off = loc.stack_offset;
                        let v = match op {
                            UnOp::PostInc => vec![
                                Instr::Load(Reg::Rax, off),
                                Instr::IncSlot(off),
                            ],
                            UnOp::PreInc => vec![
                                Instr::IncSlot(off),
                                Instr::Load(Reg::Rax, off),
                            ],
                            UnOp::PostDec => vec![
                                Instr::Load(Reg::Rax, off),
                                Instr::DecSlot(off),
                            ],
                            _ => vec![Instr::DecSlot(off), Instr::Load(Reg::Rax, off)],
                        };
                        proof {
                            let (st2, sr) = spec_lower_expr(
                                program@,
                                platform,
                                ExprSt { pool: old(pool)@, frame: old(frame)@ },
                                *e,
                            );
                            assert(sr matches Ok(cs) && v@ =~= cs);
                        }
                        Ok(v)
                    },
                    None => Err(CodegenError::UnresolvedIdentifier(name.clone())),
                },
                _ => Err(CodegenError::UnsupportedExpression),
            },
        },
        Expr::Assign { name, value } => {
            let mut cv = match lower_expr(program, platform, pool, frame, value) {
                Ok(c) => c,
                Err(er) => {
                    return Err(er);
                },
            };
            let existing: Option<(bool, u64)> = match frame.lookup(name) {
                Some(loc) => Some((loc.ty.is_float(), loc.stack_offset)),
                None => None,
            };
            match existing {
                Some((isf, off)) => {
                    if isf {
                        cv.push(Instr::StoreF(off, FReg::Xmm0));
                    } else {
                        cv.push(Instr::Store(off, Reg::Rax));
                    }
                    proof {
                        let (st2, sr) = spec_lower_expr(
                            program@,
                            platform,
                            ExprSt { pool: old(pool)@, frame: old(frame)@ },
                            *e,
                        );
                        assert(sr matches Ok(cs) && cv@ =~= cs);
                    }
                    Ok(cv)
                },
                None => {
                    if frame.size() >= FRAME_LIMIT {
                        return Err(CodegenError::UnsupportedExpression);
                    }
                    let vt = expr_type(program, frame, value);
                    let isf = vt.is_float();
                    let off = frame.declare(name.clone(), vt);
                    cv.push(Instr::SubRsp(8));
                    if isf {
                        cv.push(Instr::StoreF(off, FReg::Xmm0));
                    } else {
                        cv.push(Instr::Store(off, Reg::Rax));
                    }
                    proof {
                        let (st2, sr) = spec_lower_expr(
                            program@,
                            platform,
                            ExprSt { pool: old(pool)@, frame: old(frame)@ },
                            *e,
                        );
                        assert(sr matches Ok(cs) && cv@ =~= cs);
                    }
                    Ok(cv)
                },
            }
        },
        Expr::Call { .. } => lower_call(program, platform, pool, frame, e),
        Expr::ArrayLiteral(elems) => {
            let ghost pool0 = pool@;
            let mut refs: Vec<u64> = Vec::new();
            let mut k: usize = 0;
            proof {
                assert(refs@ =~= Seq::<u64>::empty());
            }
            while k < elems.len()
                invariant
                    0 <= k <= elems@.len(),
                    spec_intern_elems(pool0, elems@, 0) == (match spec_intern_elems(
                        pool@,
                        elems@,
                        k as int,
                    ) {
                        (p3, Ok(rest)) => (
                            p3,
                            Ok::<Seq<u64>, CodegenError>(refs@ + rest),
                        ),
                        (p3, Err(er)) => (p3, Err(er)),
                    }),
                decreases elems@.len() - k,
            {
                let ghost refs0 = refs@;
                match &elems[k] {
                    Expr::Literal(LiteralValue::Str(s)) => {
                        let idx = pool.intern_string(s.clone());
                        refs.push(idx as u64);
                        proof {
                            let rest1 = spec_intern_elems(pool@, elems@, k as int + 1);
                            if rest1.1 is Ok {
                                assert(refs0 + (seq![idx as u64] + rest1.1->Ok_0) =~= refs@
                                    + rest1.1->Ok_0);
                            }
                        }
                    },
                    _ => {
                        return Err(CodegenError::UnsupportedExpression);
                    },
                }
                k = k + 1;
            }
            proof {
                assert(refs@ + Seq::<u64>::empty() =~= refs@);
            }
            let ti = pool.len();
            pool.intern_table(refs);
            let v = vec![Instr::LeaArr(Reg::Rax, ti as u64)];
            proof {
                let (st2, sr) = spec_lower_expr(
                    program@,
                    platform,
                    ExprSt { pool: old(pool)@, frame: old(frame)@ },
                    *e,
                );
                assert(sr matches Ok(cs) && v@ =~= cs);
            }
            Ok(v)
        },
        Expr::ArrayAccess { name, index } => {
            let off = match frame.lookup(name) {
                Some(loc) => loc.stack_offset,
                None => {
                    return Err(CodegenError::UnresolvedIdentifier(name.clone()));
                },
            };
            let mut ci = match lower_expr(program, platform, pool, frame, index) {
                Ok(c) => c,
                Err(er) => {
                    return Err(er);
                },
            };
            ci.push(Instr::Load(Reg::Rbx, off));
            ci.push(Instr::ImulImm(Reg::Rax, 8));
            ci.push(Instr::AddReg(Reg::Rbx, Reg::Rax));
            ci.push(Instr::LoadInd(Reg::Rax, Reg::Rbx));
            proof {
                let (st2, sr) = spec_lower_expr(
                    program@,
                    platform,
                    ExprSt { pool: old(pool)@, frame: old(frame)@ },
                    *e,
                );
                assert(sr matches Ok(cs) && ci@ =~= cs);
            }
            Ok(ci)
        },
        Expr::InterpolatedString(_) => Err(CodegenError::UnsupportedExpression),
        Expr::MemberAccess { .. } => Err(CodegenError::UnsupportedExpression),
    }
}

/// Lowers a call expression: resolves the callee, binds arguments,
/// evaluates and spills each in order, places them per the calling
/// convention, and emits the call with its shadow space and cleanup.
#[verifier::loop_isolation(false)]
#[verifier::rlimit(100)]
fn lower_call(
    program: &Vec<FunctionDecl>,
    platform: TargetPlatform,
    pool: &mut LiteralPool,
    frame: &mut Frame,
    e: &Expr,
) -> (r: Result<Vec<Instr>, CodegenError>)
    requires
        e is Call,
    ensures
        ({
            let (st2, sr) = spec_lower_expr(
                program@,
                platform,
                ExprSt { pool: old(pool)@, frame: old(frame)@ },
                *e,
            );
            &&& final(pool)@ == st2.pool
            &&& final(frame)@ == st2.frame
            &&& match (r, sr) {
                (Ok(v), Ok(c)) => v@ == c,
                (Err(a), Err(b)) => a == b,
                _ => false,
            }
        }),
    decreases *e, 0int,
{
    match e {
        Expr::Call { callee, args } => {
            let fi = match find_function(program, callee) {
                Some(i) => i,
                None => {
                    return Err(CodegenError::UnresolvedIdentifier(callee.clone()));
                },
            };
            let sources = match bind_args(&program[fi].params, args) {
                Ok(s) => s,
                Err(er) => {
                    return Err(er);
                },
            };
            proof {
                crate::frame::lemma_frame_bounds(frame);
            }
            let ghost st0 = ExprSt { pool: pool@, frame: frame@ };
            let ghost paramsv = program@[fi as int].params;
            let mut code: Vec<Instr> = Vec::new();
            let mut slots: Vec<ArgSlot> = Vec::new();
            let mut k: usize = 0;
            proof {
                assert(code@ =~= Seq::<Instr>::empty());
                assert(slots@ =~= Seq::<ArgSlot>::empty());
            }
            while k < sources.len()
                invariant
                    0 <= k <= sources@.len(),
                    slots@.len() == k,
                    frame@.size >= st0.frame.size + 8 * k,
                    frame@.size <= (if st0.frame.size > FRAME_LIMIT + 8 {
                        st0.frame.size
                    } else {
                        (FRAME_LIMIT + 8) as int
                    }),
                    spec_lower_call_args(
                        program@,
                        platform,
                        st0,
                        *args,
                        paramsv,
                        sources@,
                        0,
                    ) == (match spec_lower_call_args(
                        program@,
                        platform,
                        ExprSt { pool: pool@, frame: frame@ },
                        *args,
                        paramsv,
                        sources@,
                        k as int,
                    ) {
                        (st3, Ok((crest, srest))) => (
                            st3,
                            Ok::<_, CodegenError>((code@ + crest, slots@ + srest)),
                        ),
                        (st3, Err(er)) => (st3, Err(er)),
                    }),
                decreases sources@.len() - k,
            {
                let ghost st_k = ExprSt { pool: pool@, frame: frame@ };
                let ghost code0 = code@;
                let ghost slots0 = slots@;
                let src = sources[k];
                let lowered: Result<(Vec<Instr>, bool), CodegenError> = match src {
                    ArgSource::Named(i) | ArgSource::Positional(i) => {
                        if i >= args.len() {
                            return Err(CodegenError::UnsupportedExpression);
                        }
                        let ty = expr_type(program, frame, &args[i].value);
                        let isf = ty.is_float();
                        match lower_expr(program, platform, pool, frame, &args[i].value) {
                            Ok(c) => Ok((c, isf)),
                            Err(er) => Err(er),
                        }
                    },
                    ArgSource::Default(j) => {
                        if j >= program[fi].params.len() {
                            return Err(CodegenError::UnsupportedExpression);
                        }
                        match &program[fi].params[j].default {
                            Some(d) => {
                                let ty = expr_type(program, frame, d);
                                let isf = ty.is_float();
                                match lower_simple(pool, frame, d) {
                                    Ok(c) => Ok((c, isf)),
                                    Err(er) => Err(er),
                                }
                            },
                            None => {
                                return Err(CodegenError::UnsupportedExpression);
                            },
                        }
                    },
                };
                proof {
                    match sources@[k as int] {
                        ArgSource::Named(i) => {
                            if (i as int) < args@.len() {
                                lemma_lower_expr_frame(
                                    program@,
                                    platform,
                                    st_k,
                                    args@[i as int].value,
                                );
                            }
                        },
                        ArgSource::Positional(i) => {
                            if (i as int) < args@.len() {
                                lemma_lower_expr_frame(
                                    program@,
                                    platform,
                                    st_k,
                                    args@[i as int].value,
                                );
                            }
                        },
                        ArgSource::Default(_) => {
                        },
                    }
                }
                let (c, isf) = match lowered {
                    Ok(x) => x,
                    Err(er) => {
                        return Err(er);
                    },
                };
                if frame.size() >= FRAME_LIMIT {
                    return Err(CodegenError::UnsupportedExpression);
                }
                let off = frame.reserve_temp();
                let ghost cv = c@;
                let mut c2 = c;
                let spill = if isf {
                    Instr::StoreF(off, FReg::Xmm0)
                } else {
                    Instr::Store(off, Reg::Rax)
                };
                let ghost spillv = spill;
                c2.push(Instr::SubRsp(8));
                c2.push(spill);
                slots.push(ArgSlot { is_float: isf, off });
                let ghost c2v = c2@;
                code.append(&mut c2);
                proof {
                    let st_next = ExprSt { pool: pool@, frame: frame@ };
                    let rest1 = spec_lower_call_args(
                        program@,
                        platform,
                        st_next,
                        *args,
                        paramsv,
                        sources@,
                        k as int + 1,
                    );
                    assert(c2v =~= cv + seq![Instr::SubRsp(8), spillv]);
                    assert(code@ =~= code0 + c2v);
                    assert(slots@ =~= slots0.push(ArgSlot { is_float: isf, off }));
                    if rest1.1 is Ok {
                        let crest = rest1.1->Ok_0.0;
                        let srest = rest1.1->Ok_0.1;
                        assert(code0 + (c2v + crest) =~= code@ + crest);
                        assert(slots0 + (seq![ArgSlot { is_float: isf, off }] + srest) =~= slots@
                            + srest);
                    }
                }
                k = k + 1;
            }
            proof {
                assert(code@ + Seq::<Instr>::empty() =~= code@);
                assert(slots@ + Seq::<ArgSlot>::empty() =~= slots@);
            }
            let placed = match place_args(platform, &slots, 0) {
                Ok(pr) => pr,
                Err(er) => {
                    return Err(er);
                },
            };
            let (code2, n_stack) = placed;
            let ghost code1v = code@;
            let ghost code2v = code2@;
            let mut code2m = code2;
            code.append(&mut code2m);
            if matches!(platform, TargetPlatform::Windows) {
                code.push(Instr::SubRsp(32));
            }
            code.push(Instr::CallFn(callee.clone()));
            if matches!(platform, TargetPlatform::Windows) {
                code.push(Instr::AddRsp(32));
            }
            let n_slots = slots.len();
            let total: u64 = n_stack as u64 + n_slots as u64;
            if total > 0 {
                code.push(Instr::AddRsp(8 * total));
            }
            frame.release(8 * (n_slots as u64));
            proof {
                let (st2, sr) = spec_lower_expr(
                    program@,
                    platform,
                    ExprSt { pool: old(pool)@, frame: old(frame)@ },
                    *e,
                );
                assert(sr matches Ok(cs) && code@ =~= cs);
            }
            Ok(code)
        },
        _ => {
            proof {
                assert(false);
            }
            Err(CodegenError::UnsupportedExpression)
        },
    }
}


/// A constant integer expression: an integer literal, or `+`, `-`,
/// `*` applied to two constant integer expressions.
pub open spec fn is_const_int_expr(e: Expr) -> bool
    decreases e,
{
    match e {
        Expr::Literal(lit) => lit is Int,
        Expr::Binary { left, op, right } => (op == BinOp::Add || op == BinOp::Sub || op
            == BinOp::Mul) && is_const_int_expr(*left) && is_const_int_expr(*right),
        _ => false,
    }
}

/// The 64-bit two's-complement value of a constant integer
/// expression.
pub open spec fn spec_eval_const_int(e: Expr) -> i64
    decreases e,
{
    match e {
        Expr::Literal(lit) => match lit {
            LiteralValue::Int(v) => v,
            _ => 0,
        },
        Expr::Binary { left, op, right } => {
            let a = spec_eval_const_int(*left);
            let b = spec_eval_const_int(*right);
            if op == BinOp::Add {
                vstd::wrapping::i64_specs::wrapping_add(a, b)
            } else if op == BinOp::Sub {
                vstd::wrapping::i64_specs::wrapping_sub(a, b)
            } else {
                vstd::wrapping::i64_specs::wrapping_mul(a, b)
            }
        },
        _ => 0,
    }
}

/// A constant integer expression derives an integer static type.
proof fn lemma_const_int_type(
    program: Seq<FunctionDecl>,
    entries: Seq<(Seq<char>, crate::frame::VariableLocation)>,
    e: Expr,
)
    requires
        is_const_int_expr(e),
    ensures
        spec_expr_type(program, entries, e).spec_is_integer(),
    decreases e,
{
    match e {
        Expr::Binary { left, op, right } => {
            lemma_const_int_type(program, entries, *left);
            lemma_const_int_type(program, entries, *right);
        },
        _ => {
        },
    }
}

/// Lowering a well-typed constant integer expression whose operators
/// are `+`, `-` and `*` always succeeds, leaves the session
/// untouched, and the emitted instructions, run from any machine
/// state, leave exactly the expression's 64-bit two's-complement
/// value in the primary integer register with nothing left on the
/// stack for the caller.
#[verifier::rlimit(100)]
pub proof fn lemma_lower_const_int_expr(
    program: Seq<FunctionDecl>,
    p: TargetPlatform,
    st: ExprSt,
    e: Expr,
    s: MachineModel,
)
    requires
        is_const_int_expr(e),
    ensures
        ({
            let (st2, r) = spec_lower_expr(program, p, st, e);
            &&& st2 == st
            &&& match r {
                Ok(c) => {
                    let ran = spec_run(s, c);
                    &&& ran is Some
                    &&& ran.unwrap().rax == spec_eval_const_int(e)
                    &&& ran.unwrap().stack == s.stack
                },
                Err(_) => false,
            }
        }),
    decreases e,
{
    match e {
        Expr::Literal(lit) => {
            match lit {
                LiteralValue::Int(v) => {
                    let c = seq![Instr::MovImm(Reg::Rax, v)];
                    assert(c.drop_first() =~= Seq::<Instr>::empty());
                    assert(c[0] == Instr::MovImm(Reg::Rax, v));
                    let s1 = MachineModel { rax: v, ..s };
                    assert(spec_step(s, c[0]) == Some(s1));
                    assert(spec_run(s1, Seq::<Instr>::empty()) == Some(s1));
                    assert(spec_run(s, c) == Some(s1));
                },
                _ => {
                },
            }
        },
        Expr::Binary { left, op, right } => {
            lemma_const_int_type(program, st.frame.entries, *left);
            lemma_const_int_type(program, st.frame.entries, *right);
            let (st1, r1) = spec_lower_expr(program, p, st, *right);
            lemma_lower_const_int_expr(program, p, st, *right, s);
            let cr = r1->Ok_0;
            let vb = spec_eval_const_int(*right);
            let va = spec_eval_const_int(*left);
            let sr1 = spec_run(s, cr).unwrap();
            let s_push = MachineModel { stack: sr1.stack.push(sr1.rax), ..sr1 };
            let (st2, r2) = spec_lower_expr(program, p, st1, *left);
            lemma_lower_const_int_expr(program, p, st1, *left, s_push);
            let cl = r2->Ok_0;
            let sl = spec_run(s_push, cl).unwrap();
            let opi: Instr = if op == BinOp::Add {
                Instr::AddReg(Reg::Rax, Reg::Rbx)
            } else if op == BinOp::Sub {
                Instr::SubReg(Reg::Rax, Reg::Rbx)
            } else {
                Instr::ImulReg(Reg::Rax, Reg::Rbx)
            };
            let pushes = seq![Instr::Push(Reg::Rax)];
            let pops = seq![Instr::Pop(Reg::Rbx)];
            let t = seq![opi];
            let c = cr + pushes + cl + pops + t;
            assert(spec_int_tail(op) == Some(t));
            lemma_run_append(s, cr + pushes + cl + pops, t);
            lemma_run_append(s, cr + pushes + cl, pops);
            lemma_run_append(s, cr + pushes, cl);
            lemma_run_append(s, cr, pushes);
            assert(pushes.drop_first() =~= Seq::<Instr>::empty());
            assert(pops.drop_first() =~= Seq::<Instr>::empty());
            assert(t.drop_first() =~= Seq::<Instr>::empty());
            assert(pushes[0] == Instr::Push(Reg::Rax));
            assert(spec_step(sr1, pushes[0]) == Some(s_push));
            assert(spec_run(s_push, Seq::<Instr>::empty()) == Some(s_push));
            assert(spec_run(sr1, pushes) == Some(s_push));
            let s_pop = MachineModel { rbx: sl.stack.last(), stack: sl.stack.drop_last(), ..sl };
            assert(sl.stack == s_push.stack);
            assert(sl.stack.len() > 0);
            assert(pops[0] == Instr::Pop(Reg::Rbx));
            assert(spec_step(sl, pops[0]) == Some(s_pop));
            assert(spec_run(s_pop, Seq::<Instr>::empty()) == Some(s_pop));
            assert(spec_run(sl, pops) == Some(s_pop));
            assert(s_pop.stack =~= s.stack);
            assert(s_pop.rax == va && s_pop.rbx == vb);
            assert(t[0] == opi);
            let s_fin = MachineModel {
                rax: spec_eval_const_int(e),
                ..s_pop
            };
            assert(spec_step(s_pop, opi) == Some(s_fin));
            assert(spec_run(s_fin, Seq::<Instr>::empty()) == Some(s_fin));
            assert(spec_run(s_pop, t) == Some(s_fin));
            assert(spec_run(s, c) == Some(s_fin));
        },
        _ => {
        },
    }
}
} // verus!
