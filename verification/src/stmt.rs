//! Statement / control-flow engine.
//!
//! Statements lower to straight-line or branching code.  The engine
//! owns label generation and the stack of enclosing loop contexts, so
//! an inner loop's `break` or `continue` can never corrupt an outer
//! loop's targets.

use vstd::prelude::*;
use vstd::string::StringExecFns;
use crate::ast::{Expr, LiteralValue, Stmt, TargetPlatform, Type, UnOp};
use crate::callconv::{ArgSlot, place_args, spec_float_count, spec_place_args};
use crate::codegen::{CgModel, Codegen, FRAME_LIMIT, LABEL_LIMIT, LoopContext,
    get_arg_registers, spec_exit_sequence, spec_format_specifier, spec_int_arg_regs,
    spec_line_term, exit_sequence, get_format_specifier, line_term};
use crate::errors::CodegenError;
use crate::expr::{ExprSt, lower_expr, spec_lower_expr, lemma_lower_expr_frame};
use crate::frame::{FrameModel, spec_declare, spec_lookup};
use crate::instr::{Cond, FReg, FixedSym, Instr, LabelKind, Reg};
use crate::pool::spec_intern_string;
use crate::text::{spec_dec_nat, push_dec_u64};
use crate::types::{expr_type, spec_expr_type};

verus! {

/// The print routine called for formatted output: the platform
/// library's `printf` where its variadic convention is reliable (on
/// the Macos target that library symbol is spelled `_printf`), and
/// the self-hosted formatter, emitted under the same `_printf`
/// label, on the Windows path.  The unknown-platform sentinel
/// behaves like the Linux target.
pub open spec fn spec_print_sym(p: TargetPlatform) -> FixedSym {
    match p {
        TargetPlatform::Windows => FixedSym::PrintfHelper,
        TargetPlatform::Linux => FixedSym::Printf,
        TargetPlatform::Macos => FixedSym::PrintfHelper,
        TargetPlatform::Unknown => FixedSym::Printf,
    }
}

/// Executable form of [`spec_print_sym`].
pub fn print_sym(p: TargetPlatform) -> (s: FixedSym)
    ensures
        s == spec_print_sym(p),
{
    match p {
        TargetPlatform::Windows => FixedSym::PrintfHelper,
        TargetPlatform::Linux => FixedSym::Printf,
        TargetPlatform::Macos => FixedSym::PrintfHelper,
        TargetPlatform::Unknown => FixedSym::Printf,
    }
}

/// Expression lowering wired into the whole session model.
pub open spec fn spec_cg_expr(m: CgModel, e: Expr) -> (CgModel, Result<Seq<Instr>, CodegenError>) {
    let (est, r) = spec_lower_expr(
        m.program,
        m.platform,
        ExprSt { pool: m.pool, frame: m.frame },
        e,
    );
    (CgModel { pool: est.pool, frame: est.frame, ..m }, r)
}

/// Walk of an interpolated print's pieces from index `k` on: literal
/// pieces extend the format string; every other piece contributes a
/// conversion specifier chosen by its static type and is evaluated
/// and spilled to a fresh private slot.
pub open spec fn spec_echo_parts(
    program: Seq<crate::ast::FunctionDecl>,
    p: TargetPlatform,
    st: ExprSt,
    parts: Seq<Expr>,
    k: int,
) -> (ExprSt, Result<(Seq<char>, Seq<Instr>, Seq<ArgSlot>), CodegenError>)
    decreases parts.len() - k,
{
    if k < 0 || k >= parts.len() {
        (st, Ok((Seq::empty(), Seq::empty(), Seq::empty())))
    } else {
        match parts[k] {
            Expr::Literal(LiteralValue::Str(s)) => {
                match spec_echo_parts(program, p, st, parts, k + 1) {
                    (st2, Ok((f, c, sl))) => (st2, Ok((s@ + f, c, sl))),
                    (st2, Err(e1)) => (st2, Err(e1)),
                }
            },
            part => {
                let ty = spec_expr_type(program, st.frame.entries, part);
                let (st1, r1) = spec_lower_expr(program, p, st, part);
                match r1 {
                    Err(e1) => (st1, Err(e1)),
                    Ok(c) => if st1.frame.size >= FRAME_LIMIT {
                        (st1, Err(CodegenError::UnsupportedStatement))
                    } else {
                        let off = (st1.frame.size + 8) as u64;
                        let st2 = ExprSt {
                            frame: FrameModel {
                                size: st1.frame.size + 8,
                                entries: st1.frame.entries,
                            },
                            ..st1
                        };
                        let spill = if ty.spec_is_float() {
                            Instr::StoreF(off, FReg::Xmm0)
                        } else {
                            Instr::Store(off, Reg::Rax)
                        };
                        let slot = ArgSlot { is_float: ty.spec_is_float(), off };
                        match spec_echo_parts(program, p, st2, parts, k + 1) {
                            (st3, Err(e3)) => (st3, Err(e3)),
                            (st3, Ok((f, crest, srest))) => (
                                st3,
                                Ok(
                                    (
                                        spec_format_specifier(ty) + f,
                                        c + seq![Instr::SubRsp(8), spill] + crest,
                                        seq![slot] + srest,
                                    ),
                                ),
                            ),
                        }
                    },
                }
            },
        }
    }
}

/// The variadic formatted-print call: the format string is interned,
/// the spilled arguments are placed per the calling convention with
/// the format's address in the first integer argument register, and
/// on the Windows path the float-argument count rides in the fixed
/// count register.
pub open spec fn spec_echo_finish(
    p: TargetPlatform,
    st: ExprSt,
    code: Seq<Instr>,
    slots: Seq<ArgSlot>,
    fmt: Seq<char>,
) -> (ExprSt, Result<Seq<Instr>, CodegenError>) {
    let (pool2, fidx) = spec_intern_string(st.pool, fmt);
    let st1 = ExprSt { pool: pool2, ..st };
    match spec_place_args(p, slots, 1) {
        Err(e1) => (st1, Err(e1)),
        Ok((code2, n_stack)) => {
            let k = slots.len() as int;
            let fcount = spec_float_count(slots, slots.len() as int);
            let count_code: Seq<Instr> = if p is Windows {
                seq![Instr::MovImm(Reg::Rax, fcount as i64)]
            } else {
                Seq::empty()
            };
            let shadow_pre: Seq<Instr> = if p is Windows {
                seq![Instr::SubRsp(32)]
            } else {
                Seq::empty()
            };
            let shadow_post: Seq<Instr> = if p is Windows {
                seq![Instr::AddRsp(32)]
            } else {
                Seq::empty()
            };
            let clean: Seq<Instr> = if n_stack + k > 0 {
                seq![Instr::AddRsp((8 * (n_stack + k)) as u64)]
            } else {
                Seq::empty()
            };
            let st2 = ExprSt {
                frame: FrameModel { size: st1.frame.size - 8 * k, entries: st1.frame.entries },
                ..st1
            };
            (
                st2,
                Ok(
                    code + code2 + seq![Instr::LeaStr(spec_int_arg_regs(p)[0], fidx as u64)]
                        + count_code + shadow_pre + seq![Instr::CallSym(spec_print_sym(p))]
                        + shadow_post + clean,
                ),
            )
        },
    }
}

/// Lowering of a print statement.  A bare string literal is printed
/// through a fixed `%s` conversion carrying the platform's line
/// terminator, so the literal's own bytes are never read as a format
/// string; anything else builds a format string and a variadic
/// formatted-print call.
pub open spec fn spec_lower_echo(
    program: Seq<crate::ast::FunctionDecl>,
    p: TargetPlatform,
    st: ExprSt,
    e: Expr,
) -> (ExprSt, Result<Seq<Instr>, CodegenError>) {
    match e {
        Expr::Literal(LiteralValue::Str(s)) => {
            let (pool1, lidx) = spec_intern_string(st.pool, s@);
            let (pool2, fidx) = spec_intern_string(pool1, "%s"@ + spec_line_term(p));
            let st1 = ExprSt { pool: pool2, ..st };
            let count_code: Seq<Instr> = if p is Windows {
                seq![Instr::MovImm(Reg::Rax, 0)]
            } else {
                Seq::empty()
            };
            let shadow_pre: Seq<Instr> = if p is Windows {
                seq![Instr::SubRsp(32)]
            } else {
                Seq::empty()
            };
            let shadow_post: Seq<Instr> = if p is Windows {
                seq![Instr::AddRsp(32)]
            } else {
                Seq::empty()
            };
            (
                st1,
                Ok(
                    seq![
                        Instr::LeaStr(spec_int_arg_regs(p)[1], lidx as u64),
                        Instr::LeaStr(spec_int_arg_regs(p)[0], fidx as u64),
                    ] + count_code + shadow_pre + seq![Instr::CallSym(spec_print_sym(p))]
                        + shadow_post,
                ),
            )
        },
        Expr::InterpolatedString(parts) => {
            match spec_echo_parts(program, p, st, parts@, 0) {
                (st1, Err(e1)) => (st1, Err(e1)),
                (st1, Ok((fmt, code, slots))) => spec_echo_finish(
                    p,
                    st1,
                    code,
                    slots,
                    fmt + spec_line_term(p),
                ),
            }
        },
        part => {
            let ty = spec_expr_type(program, st.frame.entries, part);
            let (st1, r1) = spec_lower_expr(program, p, st, part);
            match r1 {
                Err(e1) => (st1, Err(e1)),
                Ok(c) => if st1.frame.size >= FRAME_LIMIT {
                    (st1, Err(CodegenError::UnsupportedStatement))
                } else {
                    let off = (st1.frame.size + 8) as u64;
                    let st2 = ExprSt {
                        frame: FrameModel {
                            size: st1.frame.size + 8,
                            entries: st1.frame.entries,
                        },
                        ..st1
                    };
                    let spill = if ty.spec_is_float() {
                        Instr::StoreF(off, FReg::Xmm0)
                    } else {
                        Instr::Store(off, Reg::Rax)
                    };
                    let slot = ArgSlot { is_float: ty.spec_is_float(), off };
                    spec_echo_finish(
                        p,
                        st2,
                        c + seq![Instr::SubRsp(8), spill],
                        seq![slot],
                        spec_format_specifier(ty) + spec_line_term(p),
                    )
                },
            }
        },
    }
}

/// Echo lowering wired into the whole session model.
pub open spec fn spec_cg_echo(m: CgModel, e: Expr) -> (CgModel, Result<Seq<Instr>, CodegenError>) {
    let (est, r) = spec_lower_echo(
        m.program,
        m.platform,
        ExprSt { pool: m.pool, frame: m.frame },
        e,
    );
    (CgModel { pool: est.pool, frame: est.frame, ..m }, r)
}

/// Lowering of one statement: the resulting session and, on success,
/// the emitted instruction sequence.
pub open spec fn spec_lower_stmt(m: CgModel, s: Stmt) -> (CgModel, Result<
    Seq<Instr>,
    CodegenError,
>)
    decreases s, 1int, 0int,
{
    match s {
        Stmt::Empty => (m, Ok(Seq::empty())),
        Stmt::Block(stmts) => spec_lower_block(m, stmts, 0),
        Stmt::VarDecl { name, ty, init } => match init {
            Some(e0) => {
                let (m1, r1) = spec_cg_expr(m, e0);
                match r1 {
                    Err(e1) => (m1, Err(e1)),
                    Ok(cv) => if m1.frame.size >= FRAME_LIMIT {
                        (m1, Err(CodegenError::UnsupportedStatement))
                    } else {
                        let off = (m1.frame.size + 8) as u64;
                        let store = if ty.spec_is_float() {
                            Instr::StoreF(off, FReg::Xmm0)
                        } else {
                            Instr::Store(off, Reg::Rax)
                        };
                        (
                            CgModel { frame: spec_declare(m1.frame, name@, ty), ..m1 },
                            Ok(cv + seq![Instr::SubRsp(8), store]),
                        )
                    },
                }
            },
            None => if m.frame.size >= FRAME_LIMIT {
                (m, Err(CodegenError::UnsupportedStatement))
            } else {
                (
                    CgModel { frame: spec_declare(m.frame, name@, ty), ..m },
                    Ok(seq![Instr::SubRsp(8)]),
                )
            },
        },
        Stmt::Assign { name, value } => {
            let (m1, r1) = spec_cg_expr(m, value);
            match r1 {
                Err(e1) => (m1, Err(e1)),
                Ok(cv) => match spec_lookup(m1.frame.entries, name@) {
                    Some(loc) => if loc.ty.spec_is_float() {
                        (m1, Ok(cv + seq![Instr::StoreF(loc.stack_offset, FReg::Xmm0)]))
                    } else {
                        (m1, Ok(cv + seq![Instr::Store(loc.stack_offset, Reg::Rax)]))
                    },
                    None => if m1.frame.size >= FRAME_LIMIT {
                        (m1, Err(CodegenError::UnsupportedStatement))
                    } else {
                        let vt = spec_expr_type(m1.program, m1.frame.entries, value);
                        let off = (m1.frame.size + 8) as u64;
                        let store = if vt.spec_is_float() {
                            Instr::StoreF(off, FReg::Xmm0)
                        } else {
                            Instr::Store(off, Reg::Rax)
                        };
                        (
                            CgModel { frame: spec_declare(m1.frame, name@, vt), ..m1 },
                            Ok(cv + seq![Instr::SubRsp(8), store]),
                        )
                    },
                },
            }
        },
        Stmt::Echo(e0) => spec_cg_echo(m, e0),
        Stmt::If { cond, then_branch, else_branch } => {
            if m.labels >= LABEL_LIMIT {
                (m, Err(CodegenError::UnsupportedStatement))
            } else {
                let else_id = (m.labels + 1) as u64;
                let end_id = (m.labels + 2) as u64;
                let ml = CgModel { labels: m.labels + 2, ..m };
                let (m1, r1) = spec_cg_expr(ml, cond);
                match r1 {
                    Err(e1) => (m1, Err(e1)),
                    Ok(cc) => {
                        let (m2, r2) = spec_lower_stmt(m1, *then_branch);
                        match r2 {
                            Err(e2) => (m2, Err(e2)),
                            Ok(ct) => match else_branch {
                                Some(eb) => {
                                    let (m3, r3) = spec_lower_stmt(m2, *eb);
                                    match r3 {
                                        Err(e3) => (m3, Err(e3)),
                                        Ok(ce) => (
                                            m3,
                                            Ok(
                                                cc + seq![
                                                    Instr::CmpImm(Reg::Rax, 0),
                                                    Instr::Je(LabelKind::IfElse, else_id),
                                                ] + ct + seq![
                                                    Instr::Jmp(LabelKind::IfEnd, end_id),
                                                    Instr::LocalLabel(LabelKind::IfElse, else_id),
                                                ] + ce + seq![
                                                    Instr::LocalLabel(LabelKind::IfEnd, end_id),
                                                ],
                                            ),
                                        ),
                                    }
                                },
                                None => (
                                    m2,
                                    Ok(
                                        cc + seq![
                                            Instr::CmpImm(Reg::Rax, 0),
                                            Instr::Je(LabelKind::IfEnd, end_id),
                                        ] + ct + seq![Instr::LocalLabel(LabelKind::IfEnd, end_id)],
                                    ),
                                ),
                            },
                        }
                    },
                }
            }
        },
        Stmt::While { condition, body } => {
            if m.labels >= LABEL_LIMIT {
                (m, Err(CodegenError::UnsupportedStatement))
            } else {
                let s_id = (m.labels + 1) as u64;
                let e_id = (m.labels + 2) as u64;
                let ctx = LoopContext {
                    start_kind: LabelKind::WhileStart,
                    start_id: s_id,
                    end_kind: LabelKind::WhileEnd,
                    end_id: e_id,
                };
                let ml = CgModel { labels: m.labels + 2, loops: m.loops.push(ctx), ..m };
                let (m1, r1) = spec_cg_expr(ml, condition);
                match r1 {
                    Err(e1) => (m1, Err(e1)),
                    Ok(cc) => {
                        let (m2, r2) = spec_lower_stmt(m1, *body);
                        match r2 {
                            Err(e2) => (m2, Err(e2)),
                            Ok(cb) => (
                                CgModel { loops: m2.loops.drop_last(), ..m2 },
                                Ok(
                                    seq![Instr::LocalLabel(LabelKind::WhileStart, s_id)] + cc
                                        + seq![
                                        Instr::CmpImm(Reg::Rax, 0),
                                        Instr::Je(LabelKind::WhileEnd, e_id),
                                    ] + cb + seq![
                                        Instr::Jmp(LabelKind::WhileStart, s_id),
                                        Instr::LocalLabel(LabelKind::WhileEnd, e_id),
                                    ],
                                ),
                            ),
                        }
                    },
                }
            }
        },
        Stmt::For { initializer, condition, increment, body } => {
            if m.labels >= LABEL_LIMIT {
                (m, Err(CodegenError::UnsupportedStatement))
            } else {
                let s_id = (m.labels + 1) as u64;
                let e_id = (m.labels + 2) as u64;
                let ctx = LoopContext {
                    start_kind: LabelKind::ForStart,
                    start_id: s_id,
                    end_kind: LabelKind::ForEnd,
                    end_id: e_id,
                };
                let ml = CgModel { labels: m.labels + 2, loops: m.loops.push(ctx), ..m };
                let (m1, r1) = match initializer {
                    Some(is) => spec_lower_stmt(ml, *is),
                    None => (ml, Ok(Seq::empty())),
                };
                match r1 {
                    Err(e1) => (m1, Err(e1)),
                    Ok(ci) => {
                        let (m2, r2) = match condition {
                            Some(ce) => {
                                let (mc, rc) = spec_cg_expr(m1, ce);
                                match rc {
                                    Err(ec) => (mc, Err(ec)),
                                    Ok(cc) => (
                                        mc,
                                        Ok(
                                            cc + seq![
                                                Instr::CmpImm(Reg::Rax, 0),
                                                Instr::Je(LabelKind::ForEnd, e_id),
                                            ],
                                        ),
                                    ),
                                }
                            },
                            None => (m1, Ok(Seq::empty())),
                        };
                        match r2 {
                            Err(e2) => (m2, Err(e2)),
                            Ok(cc) => {
                                let (m3, r3) = spec_lower_stmt(m2, *body);
                                match r3 {
                                    Err(e3) => (m3, Err(e3)),
                                    Ok(cb) => {
                                        let (m4, r4) = match increment {
                                            Some(ie) => spec_cg_expr(m3, ie),
                                            None => (m3, Ok(Seq::empty())),
                                        };
                                        match r4 {
                                            Err(e4) => (m4, Err(e4)),
                                            Ok(cinc) => (
                                                CgModel { loops: m4.loops.drop_last(), ..m4 },
                                                Ok(
                                                    ci + seq![
                                                        Instr::LocalLabel(
                                                            LabelKind::ForStart,
                                                            s_id,
                                                        ),
                                                    ] + cc + cb + cinc + seq![
                                                        Instr::Jmp(LabelKind::ForStart, s_id),
                                                        Instr::LocalLabel(LabelKind::ForEnd, e_id),
                                                    ],
                                                ),
                                            ),
                                        }
                                    },
                                }
                            },
                        }
                    },
                }
            }
        },
        Stmt::ForEach { variable, iterable, body } => {
            if m.labels >= LABEL_LIMIT {
                (m, Err(CodegenError::UnsupportedStatement))
            } else {
                let s_id = (m.labels + 1) as u64;
                let e_id = (m.labels + 2) as u64;
                let ml = CgModel { labels: m.labels + 2, ..m };
                let ity = spec_expr_type(ml.program, ml.frame.entries, iterable);
                match ity {
                    Type::Array { elem, len: Some(n) } => {
                        if n > i64::MAX as u64 {
                            (ml, Err(CodegenError::UnsupportedStatement))
                        } else {
                            match iterable {
                                Expr::Variable(arr_name) => {
                                    match spec_lookup(ml.frame.entries, arr_name@) {
                                        None => (
                                            ml,
                                            Err(CodegenError::UnresolvedIdentifier(arr_name)),
                                        ),
                                        Some(arr_loc) => {
                                            if ml.frame.size + 16 > FRAME_LIMIT {
                                                (ml, Err(CodegenError::UnsupportedStatement))
                                            } else {
                                                let idx_name = "__index_"@ + spec_dec_nat(
                                                    e_id as nat,
                                                );
                                                let off_i = (ml.frame.size + 8) as u64;
                                                let off_v = (ml.frame.size + 16) as u64;
                                                let frame2 = spec_declare(
                                                    spec_declare(ml.frame, idx_name, Type::I64),
                                                    variable@,
                                                    *elem,
                                                );
                                                let ctx = LoopContext {
                                                    start_kind: LabelKind::ForInStart,
                                                    start_id: s_id,
                                                    end_kind: LabelKind::ForInEnd,
                                                    end_id: e_id,
                                                };
                                                let m2 = CgModel {
                                                    frame: frame2,
                                                    loops: ml.loops.push(ctx),
                                                    ..ml
                                                };
                                                let (m3, r3) = spec_lower_stmt(m2, *body);
                                                match r3 {
                                                    Err(e3) => (m3, Err(e3)),
                                                    Ok(cb) => (
                                                        CgModel {
                                                            loops: m3.loops.drop_last(),
                                                            ..m3
                                                        },
                                                        Ok(
                                                            seq![
                                                                Instr::SubRsp(8),
                                                                Instr::MovImm(Reg::Rax, 0),
                                                                Instr::Store(off_i, Reg::Rax),
                                                                Instr::SubRsp(8),
                                                                Instr::LocalLabel(
                                                                    LabelKind::ForInStart,
                                                                    s_id,
                                                                ),
                                                                Instr::Load(Reg::Rax, off_i),
                                                                Instr::CmpImm(
                                                                    Reg::Rax,
                                                                    n as i64,
                                                                ),
                                                                Instr::Jge(
                                                                    LabelKind::ForInEnd,
                                                                    e_id,
                                                                ),
                                                                Instr::Load(
                                                                    Reg::Rbx,
                                                                    arr_loc.stack_offset,
                                                                ),
                                                                Instr::Load(Reg::Rax, off_i),
                                                                Instr::ImulImm(Reg::Rax, 8),
                                                                Instr::AddReg(Reg::Rbx, Reg::Rax),
                                                                Instr::LoadInd(Reg::Rax, Reg::Rbx),
                                                                Instr::Store(off_v, Reg::Rax),
                                                            ] + cb + seq![
                                                                Instr::IncSlot(off_i),
                                                                Instr::Jmp(
                                                                    LabelKind::ForInStart,
                                                                    s_id,
                                                                ),
                                                                Instr::LocalLabel(
                                                                    LabelKind::ForInEnd,
                                                                    e_id,
                                                                ),
                                                            ],
                                                        ),
                                                    ),
                                                }
                                            }
                                        },
                                    }
                                },
                                _ => (ml, Err(CodegenError::UnsupportedStatement)),
                            }
                        }
                    },
                    _ => (ml, Err(CodegenError::UnsupportedStatement)),
                }
            }
        },
        Stmt::Match { discriminant, cases } => {
            if m.labels >= LABEL_LIMIT {
                (m, Err(CodegenError::UnsupportedStatement))
            } else {
                let end_id = (m.labels + 1) as u64;
                let ml = CgModel { labels: m.labels + 1, ..m };
                let (m1, r1) = spec_cg_expr(ml, discriminant);
                match r1 {
                    Err(e1) => (m1, Err(e1)),
                    Ok(cd) => {
                        let (m2, r2) = spec_match_dispatch(m1, cases, 0);
                        match r2 {
                            Err(e2) => (m2, Err(e2)),
                            Ok((cdisp, ids, dflt)) => {
                                let jmpseq: Seq<Instr> = match dflt {
                                    Some(d) => seq![Instr::Jmp(LabelKind::MatchCase, d)],
                                    None => seq![Instr::Jmp(LabelKind::MatchEnd, end_id)],
                                };
                                let (m3, r3) = spec_match_bodies(m2, cases, ids, end_id, 0);
                                match r3 {
                                    Err(e3) => (m3, Err(e3)),
                                    Ok(cbodies) => (
                                        m3,
                                        Ok(
                                            cd + cdisp + jmpseq + cbodies + seq![
                                                Instr::LocalLabel(LabelKind::MatchEnd, end_id),
                                                Instr::Xor(Reg::Rax, Reg::Rax),
                                            ],
                                        ),
                                    ),
                                }
                            },
                        }
                    },
                }
            }
        },
        Stmt::Break => {
            if m.loops.len() == 0 {
                (m, Err(CodegenError::ControlFlowMisuse))
            } else {
                (m, Ok(seq![Instr::Jmp(m.loops.last().end_kind, m.loops.last().end_id)]))
            }
        },
        Stmt::Continue => {
            if m.loops.len() == 0 {
                (m, Err(CodegenError::ControlFlowMisuse))
            } else {
                (m, Ok(seq![Instr::Jmp(m.loops.last().start_kind, m.loops.last().start_id)]))
            }
        },
        Stmt::Return(opt) => {
            let (m1, r1) = match opt {
                Some(e0) => spec_cg_expr(m, e0),
                None => (m, Ok(seq![Instr::Xor(Reg::Rax, Reg::Rax)])),
            };
            match r1 {
                Err(e1) => (m1, Err(e1)),
                Ok(cv) => {
                    let is_entry = match m1.cur_fn {
                        Some(nm) => nm == "main"@,
                        None => false,
                    };
                    if is_entry {
                        (m1, Ok(cv + spec_exit_sequence(m1.platform)))
                    } else {
                        (
                            m1,
                            Ok(
                                cv + seq![
                                    Instr::MovReg(Reg::Rsp, Reg::Rbp),
                                    Instr::Pop(Reg::Rbp),
                                    Instr::Ret,
                                ],
                            ),
                        )
                    }
                },
            }
        },
        Stmt::ExprStmt(e0) => match e0 {
            Expr::Unary { op, operand } => match op {
                UnOp::PostInc | UnOp::PreInc => match *operand {
                    Expr::Variable(nm) => match spec_lookup(m.frame.entries, nm@) {
                        Some(loc) => (m, Ok(seq![Instr::IncSlot(loc.stack_offset)])),
                        None => (m, Err(CodegenError::UnresolvedIdentifier(nm))),
                    },
                    _ => spec_cg_expr(m, e0),
                },
                UnOp::PostDec | UnOp::PreDec => match *operand {
                    Expr::Variable(nm) => match spec_lookup(m.frame.entries, nm@) {
                        Some(loc) => (m, Ok(seq![Instr::DecSlot(loc.stack_offset)])),
                        None => (m, Err(CodegenError::UnresolvedIdentifier(nm))),
                    },
                    _ => spec_cg_expr(m, e0),
                },
                _ => spec_cg_expr(m, e0),
            },
            _ => spec_cg_expr(m, e0),
        },
    }
}

/// Lowering of the statements of a block from index `k` on.
pub open spec fn spec_lower_block(m: CgModel, stmts: Vec<Stmt>, k: int) -> (CgModel, Result<
    Seq<Instr>,
    CodegenError,
>)
    decreases stmts, 0int, stmts@.len() - k,
{
    if k < 0 || k >= stmts@.len() {
        (m, Ok(Seq::empty()))
    } else {
        let (m1, r1) = spec_lower_stmt(m, stmts@[k]);
        match r1 {
            Err(e1) => (m1, Err(e1)),
            Ok(c) => {
                match spec_lower_block(m1, stmts, k + 1) {
                    (m2, Err(e2)) => (m2, Err(e2)),
                    (m2, Ok(crest)) => (m2, Ok(c + crest)),
                }
            },
        }
    }
}

/// Dispatch section of a match statement from case `k` on: each case
/// draws a label; a non-default case re-compares the discriminant
/// against its pattern value and jumps to its label on match.  Also
/// gives each case's label id and the last default case's id.
pub open spec fn spec_match_dispatch(m: CgModel, cases: Vec<crate::ast::MatchCase>, k: int) -> (
    CgModel,
    Result<(Seq<Instr>, Seq<u64>, Option<u64>), CodegenError>,
)
    decreases cases, 0int, cases@.len() - k,
{
    if k < 0 || k >= cases@.len() {
        (m, Ok((Seq::empty(), Seq::empty(), None)))
    } else if m.labels >= LABEL_LIMIT {
        (m, Err(CodegenError::UnsupportedStatement))
    } else {
        let cid = (m.labels + 1) as u64;
        let ml = CgModel { labels: m.labels + 1, ..m };
        match cases@[k].pattern {
            None => {
                match spec_match_dispatch(ml, cases, k + 1) {
                    (m2, Err(e2)) => (m2, Err(e2)),
                    (m2, Ok((c, ids, dflt))) => {
                        let d2 = match dflt {
                            Some(d) => Some(d),
                            None => Some(cid),
                        };
                        (m2, Ok((c, seq![cid] + ids, d2)))
                    },
                }
            },
            Some(pat) => {
                let (m1, r1) = spec_cg_expr(ml, pat);
                match r1 {
                    Err(e1) => (m1, Err(e1)),
                    Ok(cp) => {
                        let ck = seq![Instr::Push(Reg::Rax)] + cp + seq![
                            Instr::MovReg(Reg::Rbx, Reg::Rax),
                            Instr::Pop(Reg::Rax),
                            Instr::Cmp(Reg::Rax, Reg::Rbx),
                            Instr::Je(LabelKind::MatchCase, cid),
                        ];
                        match spec_match_dispatch(m1, cases, k + 1) {
                            (m2, Err(e2)) => (m2, Err(e2)),
                            (m2, Ok((c, ids, dflt))) => (m2, Ok((ck + c, seq![cid] + ids, dflt))),
                        }
                    },
                }
            },
        }
    }
}

/// Body section of a match statement from case `k` on: each case's
/// label, its body, and a jump to the end label.
pub open spec fn spec_match_bodies(
    m: CgModel,
    cases: Vec<crate::ast::MatchCase>,
    ids: Seq<u64>,
    end_id: u64,
    k: int,
) -> (CgModel, Result<Seq<Instr>, CodegenError>)
    decreases cases, 0int, cases@.len() - k,
{
    if k < 0 || k >= cases@.len() {
        (m, Ok(Seq::empty()))
    } else if k >= ids.len() {
        (m, Err(CodegenError::UnsupportedStatement))
    } else {
        let (m1, r1) = spec_lower_stmt(m, cases@[k].body);
        match r1 {
            Err(e1) => (m1, Err(e1)),
            Ok(cb) => {
                match spec_match_bodies(m1, cases, ids, end_id, k + 1) {
                    (m2, Err(e2)) => (m2, Err(e2)),
                    (m2, Ok(crest)) => (
                        m2,
                        Ok(
                            seq![Instr::LocalLabel(LabelKind::MatchCase, ids[k])] + cb + seq![
                                Instr::Jmp(LabelKind::MatchEnd, end_id),
                            ] + crest,
                        ),
                    ),
                }
            },
        }
    }
}

/// Emits the tail of a formatted print: interns the format string,
/// places the spilled arguments, and calls the print routine.
#[verifier::loop_isolation(false)]
#[verifier::rlimit(100)]
fn echo_finish(
    platform: TargetPlatform,
    pool: &mut crate::pool::LiteralPool,
    frame: &mut crate::frame::Frame,
    code: Vec<Instr>,
    slots: Vec<ArgSlot>,
    fmt: String,
) -> (r: Result<Vec<Instr>, CodegenError>)
    requires
        8 * slots@.len() <= old(frame)@.size,
        8 * slots@.len() <= FRAME_LIMIT + 8,
    ensures
        ({
            let (st2, sr) = spec_echo_finish(
                platform,
                ExprSt { pool: old(pool)@, frame: old(frame)@ },
                code@,
                slots@,
                fmt@,
            );
            &&& final(pool)@ == st2.pool
            &&& final(frame)@ == st2.frame
            &&& match (r, sr) {
                (Ok(v), Ok(c)) => v@ == c,
                (Err(a), Err(b)) => a == b,
                _ => false,
            }
        }),
{
    let ghost code0 = code@;
    let fidx = pool.intern_string(fmt);
    let placed = match place_args(platform, &slots, 1) {
        Ok(pr) => pr,
        Err(er) => {
            return Err(er);
        },
    };
    let (code2, n_stack) = placed;
    let mut fcount: usize = 0;
    let mut i: usize = 0;
    while i < slots.len()
        invariant
            0 <= i <= slots@.len(),
            fcount <= i,
            fcount as int == spec_float_count(slots@, i as int),
        decreases slots@.len() - i,
    {
        if slots[i].is_float {
            fcount = fcount + 1;
        }
        i = i + 1;
    }
    proof {
        if spec_float_count(slots@, slots@.len() as int) > 4 {
            assert(spec_place_args(platform, slots@, 1) is Err);
        }
    }
    let mut out = code;
    let mut code2m = code2;
    out.append(&mut code2m);
    let regs = get_arg_registers(platform);
    out.push(Instr::LeaStr(regs[0], fidx as u64));
    if matches!(platform, TargetPlatform::Windows) {
        out.push(Instr::MovImm(Reg::Rax, fcount as i64));
        out.push(Instr::SubRsp(32));
    }
    out.push(Instr::CallSym(print_sym(platform)));
    if matches!(platform, TargetPlatform::Windows) {
        out.push(Instr::AddRsp(32));
    }
    let k = slots.len();
    let total: u64 = n_stack as u64 + k as u64;
    if total > 0 {
        out.push(Instr::AddRsp(8 * total));
    }
    frame.release(8 * (k as u64));
    proof {
        let (st2, sr) = spec_echo_finish(
            platform,
            ExprSt { pool: old(pool)@, frame: old(frame)@ },
            code0,
            slots@,
            fmt@,
        );
        assert(sr matches Ok(cs) && out@ =~= cs);
    }
    Ok(out)
}

/// Lowers a print statement: a bare string literal becomes a direct
/// write call; any other expression builds a format string and a
/// variadic formatted-print call.
#[verifier::loop_isolation(false)]
#[verifier::rlimit(100)]
pub fn lower_echo(
    program: &Vec<crate::ast::FunctionDecl>,
    platform: TargetPlatform,
    pool: &mut crate::pool::LiteralPool,
    frame: &mut crate::frame::Frame,
    e: &Expr,
) -> (r: Result<Vec<Instr>, CodegenError>)
    ensures
        ({
            let (st2, sr) = spec_lower_echo(
                program@,
                platform,
                ExprSt { pool: old(pool)@, frame: old(frame)@ },
                *e,
            );
            &&& final(pool)@ == st2.pool
            &&& final(frame)@ == st2.frame
            &&& match (r, sr) {
                (Ok(v), Ok(c)) => v@ == c,
                (Err(a), Err(b)) => a == b,
                _ => false,
            }
        }),
{
    match e {
        Expr::Literal(LiteralValue::Str(s)) => {
            // The literal itself is passed as a plain argument behind
            // a fixed conversion, so its own bytes are never read as
            // a format string.
            let lidx = pool.intern_string(s.clone());
            let mut fmt = String::new();
            fmt.append("%s");
            fmt.append(line_term(platform));
            let fidx = pool.intern_string(fmt);
            let regs = get_arg_registers(platform);
            let mut code: Vec<Instr> = Vec::new();
            code.push(Instr::LeaStr(regs[1], lidx as u64));
            code.push(Instr::LeaStr(regs[0], fidx as u64));
            if matches!(platform, TargetPlatform::Windows) {
                code.push(Instr::MovImm(Reg::Rax, 0));
                code.push(Instr::SubRsp(32));
            }
            code.push(Instr::CallSym(print_sym(platform)));
            if matches!(platform, TargetPlatform::Windows) {
                code.push(Instr::AddRsp(32));
            }
            proof {
                let (st2, sr) = spec_lower_echo(
                    program@,
                    platform,
                    ExprSt { pool: old(pool)@, frame: old(frame)@ },
                    *e,
                );
                assert(sr matches Ok(cs) && code@ =~= cs);
            }
            Ok(code)
        },
        Expr::InterpolatedString(parts) => {
            proof {
                crate::frame::lemma_frame_bounds(frame);
            }
            let ghost st0 = ExprSt { pool: pool@, frame: frame@ };
            let mut fmt = String::new();
            let mut code: Vec<Instr> = Vec::new();
            let mut slots: Vec<ArgSlot> = Vec::new();
            let mut k: usize = 0;
            proof {
                assert(code@ =~= Seq::<Instr>::empty());
                assert(slots@ =~= Seq::<ArgSlot>::empty());
                assert(fmt@ + Seq::<char>::empty() =~= fmt@);
            }
            while k < parts.len()
                invariant
                    0 <= k <= parts@.len(),
                    frame@.size >= st0.frame.size + 8 * slots@.len(),
                    frame@.size <= (if st0.frame.size > FRAME_LIMIT + 8 {
                        st0.frame.size
                    } else {
                        (FRAME_LIMIT + 8) as int
                    }),
                    spec_echo_parts(program@, platform, st0, parts@, 0) == (
                    match spec_echo_parts(
                        program@,
                        platform,
                        ExprSt { pool: pool@, frame: frame@ },
                        parts@,
                        k as int,
                    ) {
                        (st3, Ok((f, c, sl))) => (
                            st3,
                            Ok::<_, CodegenError>((fmt@ + f, code@ + c, slots@ + sl)),
                        ),
                        (st3, Err(er)) => (st3, Err(er)),
                    }),
                decreases parts@.len() - k,
            {
                let ghost st_k = ExprSt { pool: pool@, frame: frame@ };
                let ghost fmt0 = fmt@;
                let ghost code0 = code@;
                let ghost slots0 = slots@;
                match &parts[k] {
                    Expr::Literal(LiteralValue::Str(s)) => {
                        fmt.append(s.as_str());
                        proof {
                            let rest1 = spec_echo_parts(
                                program@,
                                platform,
                                st_k,
                                parts@,
                                k as int + 1,
                            );
                            if rest1.1 is Ok {
                                let f = rest1.1->Ok_0.0;
                                assert(fmt0 + (s@ + f) =~= fmt@ + f);
                            }
                        }
                    },
                    part => {
                        let ty = expr_type(program, frame, part);
                        let isf = ty.is_float();
                        fmt.append(get_format_specifier(&ty));
                        let c = match lower_expr(program, platform, pool, frame, part) {
                            Ok(c) => c,
                            Err(er) => {
                                return Err(er);
                            },
                        };
                        proof {
                            lemma_lower_expr_frame(program@, platform, st_k, parts@[k as int]);
                        }
                        if frame.size() >= FRAME_LIMIT {
                            return Err(CodegenError::UnsupportedStatement);
                        }
                        let off = frame.reserve_temp();
                        let spill = if isf {
                            Instr::StoreF(off, FReg::Xmm0)
                        } else {
                            Instr::Store(off, Reg::Rax)
                        };
                        let ghost spillv = spill;
                        let ghost cv = c@;
                        let mut c2 = c;
                        c2.push(Instr::SubRsp(8));
                        c2.push(spill);
                        slots.push(ArgSlot { is_float: isf, off });
                        let ghost c2v = c2@;
                        code.append(&mut c2);
                        proof {
                            let rest1 = spec_echo_parts(
                                program@,
                                platform,
                                ExprSt { pool: pool@, frame: frame@ },
                                parts@,
                                k as int + 1,
                            );
                            assert(c2v =~= cv + seq![Instr::SubRsp(8), spillv]);
                            assert(code@ =~= code0 + c2v);
                            assert(slots@ =~= slots0.push(ArgSlot { is_float: isf, off }));
                            if rest1.1 is Ok {
                                let f = rest1.1->Ok_0.0;
                                let crest = rest1.1->Ok_0.1;
                                let srest = rest1.1->Ok_0.2;
                                assert(fmt0 + (spec_format_specifier(
                                    spec_expr_type(program@, st_k.frame.entries, parts@[k as int]),
                                ) + f) =~= fmt@ + f);
                                assert(code0 + (c2v + crest) =~= code@ + crest);
                                assert(slots0 + (seq![ArgSlot { is_float: isf, off }] + srest)
                                    =~= slots@ + srest);
                            }
                        }
                    },
                }
                k = k + 1;
            }
            proof {
                assert(fmt@ + Seq::<char>::empty() =~= fmt@);
                assert(code@ + Seq::<Instr>::empty() =~= code@);
                assert(slots@ + Seq::<ArgSlot>::empty() =~= slots@);
            }
            let ghost fmt_parts = fmt@;
            fmt.append(line_term(platform));
            let r = echo_finish(platform, pool, frame, code, slots, fmt);
            proof {
                let (st2, sr) = spec_lower_echo(
                    program@,
                    platform,
                    ExprSt { pool: old(pool)@, frame: old(frame)@ },
                    *e,
                );
                match (&r, sr) {
                    (Ok(v), Ok(cs)) => {
                        assert(v@ =~= cs);
                    },
                    _ => {
                    },
                }
            }
            r
        },
        _ => {
            proof {
                crate::frame::lemma_frame_bounds(frame);
            }
            let ty = expr_type(program, frame, e);
            let isf = ty.is_float();
            let c = match lower_expr(program, platform, pool, frame, e) {
                Ok(c) => c,
                Err(er) => {
                    return Err(er);
                },
            };
            proof {
                lemma_lower_expr_frame(
                    program@,
                    platform,
                    ExprSt { pool: old(pool)@, frame: old(frame)@ },
                    *e,
                );
            }
            if frame.size() >= FRAME_LIMIT {
                return Err(CodegenError::UnsupportedStatement);
            }
            let off = frame.reserve_temp();
            let spill = if isf {
                Instr::StoreF(off, FReg::Xmm0)
            } else {
                Instr::Store(off, Reg::Rax)
            };
            let ghost spillv = spill;
            let ghost cv = c@;
            let mut c2 = c;
            c2.push(Instr::SubRsp(8));
            c2.push(spill);
            let mut slots: Vec<ArgSlot> = Vec::new();
            slots.push(ArgSlot { is_float: isf, off });
            let mut fmt = String::new();
            fmt.append(get_format_specifier(&ty));
            fmt.append(line_term(platform));
            proof {
                assert(c2@ =~= cv + seq![Instr::SubRsp(8), spillv]);
                assert(slots@ =~= seq![ArgSlot { is_float: isf, off }]);
                assert(fmt@ =~= spec_format_specifier(ty) + spec_line_term(platform));
            }
            let r = echo_finish(platform, pool, frame, c2, slots, fmt);
            proof {
                let (st2, sr) = spec_lower_echo(
                    program@,
                    platform,
                    ExprSt { pool: old(pool)@, frame: old(frame)@ },
                    *e,
                );
                match (&r, sr) {
                    (Ok(v), Ok(cs)) => {
                        assert(v@ =~= cs);
                    },
                    _ => {
                    },
                }
            }
            r
        },
    }
}

/// Model of an optional current-function name.
pub open spec fn opt_name_view(o: Option<String>) -> Option<Seq<char>> {
    match o {
        Some(n) => Some(n@),
        None => None,
    }
}

/// Draws the next unique label id from the counter.
fn gen_label_in(labels: &mut u64) -> (n: u64)
    requires
        *old(labels) < u64::MAX,
    ensures
        *final(labels) == *old(labels) + 1,
        n == *old(labels) + 1,
{
    *labels = *labels + 1;
    *labels
}

/// Lowers one statement against the session's parts: the declaration
/// list and platform are read, the pool, frame, label counter and
/// loop-context stack are threaded through.
#[verifier::spinoff_prover]
#[verifier::loop_isolation(false)]
#[verifier::rlimit(100)]
pub fn lower_stmt_in(
    program: &Vec<crate::ast::FunctionDecl>,
    platform: TargetPlatform,
    pool: &mut crate::pool::LiteralPool,
    frame: &mut crate::frame::Frame,
    labels: &mut u64,
    loops: &mut Vec<LoopContext>,
    cur_fn: &Option<String>,
    s: &Stmt,
) -> (r: Result<Vec<Instr>, CodegenError>)
    ensures
        ({
            let m0 = CgModel {
                program: program@,
                platform,
                pool: old(pool)@,
                frame: old(frame)@,
                labels: *old(labels) as int,
                loops: old(loops)@,
                cur_fn: opt_name_view(*cur_fn),
            };
            let (m2, sr) = spec_lower_stmt(m0, *s);
            &&& final(pool)@ == m2.pool
            &&& final(frame)@ == m2.frame
            &&& *final(labels) as int == m2.labels
            &&& final(loops)@ == m2.loops
            &&& match (r, sr) {
                (Ok(v), Ok(c)) => v@ == c,
                (Err(a), Err(b)) => a == b,
                _ => false,
            }
        }),
    decreases *s, 1int,
{
    let ghost m0 = CgModel {
        program: program@,
        platform,
        pool: pool@,
        frame: frame@,
        labels: *labels as int,
        loops: loops@,
        cur_fn: opt_name_view(*cur_fn),
    };
    match s {
        Stmt::Empty => {
            let v: Vec<Instr> = Vec::new();
            proof {
                assert(v@ =~= Seq::<Instr>::empty());
            }
            Ok(v)
        },
        Stmt::Block(..) => lower_block_in(program, platform, pool, frame, labels, loops, cur_fn, s),
        Stmt::If { .. } => lower_if_in(program, platform, pool, frame, labels, loops, cur_fn, s),
        Stmt::While { .. } => lower_while_in(
            program,
            platform,
            pool,
            frame,
            labels,
            loops,
            cur_fn,
            s,
        ),
        Stmt::For { .. } => lower_forloop_in(
            program,
            platform,
            pool,
            frame,
            labels,
            loops,
            cur_fn,
            s,
        ),
        Stmt::ForEach { .. } => lower_foreach_in(
            program,
            platform,
            pool,
            frame,
            labels,
            loops,
            cur_fn,
            s,
        ),
        Stmt::Match { .. } => lower_match_in(
            program,
            platform,
            pool,
            frame,
            labels,
            loops,
            cur_fn,
            s,
        ),
        Stmt::VarDecl { .. } | Stmt::Assign { .. } | Stmt::Echo(..) | Stmt::Break
            | Stmt::Continue | Stmt::Return(..) | Stmt::ExprStmt(..) => lower_simple_stmt_in(
            program,
            platform,
            pool,
            frame,
            labels,
            loops,
            cur_fn,
            s,
        ),
    }
}

/// Lowers the loop-free statement kinds: declarations, assignments,
/// prints, loop jumps, returns and expression statements.
#[verifier::spinoff_prover]
#[verifier::loop_isolation(false)]
#[verifier::rlimit(100)]
fn lower_simple_stmt_in(
    program: &Vec<crate::ast::FunctionDecl>,
    platform: TargetPlatform,
    pool: &mut crate::pool::LiteralPool,
    frame: &mut crate::frame::Frame,
    labels: &mut u64,
    loops: &mut Vec<LoopContext>,
    cur_fn: &Option<String>,
    s: &Stmt,
) -> (r: Result<Vec<Instr>, CodegenError>)
    requires
        s is VarDecl || s is Assign || s is Echo || s is Break || s is Continue || s is Return
            || s is ExprStmt,
    ensures
        ({
            let m0 = CgModel {
                program: program@,
                platform,
                pool: old(pool)@,
                frame: old(frame)@,
                labels: *old(labels) as int,
                loops: old(loops)@,
                cur_fn: opt_name_view(*cur_fn),
            };
            let (m2, sr) = spec_lower_stmt(m0, *s);
            &&& final(pool)@ == m2.pool
            &&& final(frame)@ == m2.frame
            &&& *final(labels) as int == m2.labels
            &&& final(loops)@ == m2.loops
            &&& match (r, sr) {
                (Ok(v), Ok(c)) => v@ == c,
                (Err(a), Err(b)) => a == b,
                _ => false,
            }
        }),
{
    let ghost m0 = CgModel {
        program: program@,
        platform,
        pool: pool@,
        frame: frame@,
        labels: *labels as int,
        loops: loops@,
        cur_fn: opt_name_view(*cur_fn),
    };
    match s {
        Stmt::VarDecl { name, ty, init } => {
            match init {
                Some(e0) => {
                    let cv = match lower_expr(program, platform, pool, frame, e0) {
                        Ok(c) => c,
                        Err(er) => {
                            return Err(er);
                        },
                    };
                    if frame.size() >= FRAME_LIMIT {
                        return Err(CodegenError::UnsupportedStatement);
                    }
                    let isf = ty.is_float();
                    let off = frame.declare(name.clone(), crate::ast::copy_type(ty));
                    let mut v = cv;
                    v.push(Instr::SubRsp(8));
                    if isf {
                        v.push(Instr::StoreF(off, FReg::Xmm0));
                    } else {
                        v.push(Instr::Store(off, Reg::Rax));
                    }
                    proof {
                        let (m2, sr) = spec_lower_stmt(m0, *s);
                        assert(sr matches Ok(cs) && v@ =~= cs);
                    }
                    Ok(v)
                },
                None => {
                    if frame.size() >= FRAME_LIMIT {
                        return Err(CodegenError::UnsupportedStatement);
                    }
                    let off = frame.declare(name.clone(), crate::ast::copy_type(ty));
                    let v = vec![Instr::SubRsp(8)];
                    proof {
                        let (m2, sr) = spec_lower_stmt(m0, *s);
                        assert(sr matches Ok(cs) && v@ =~= cs);
                    }
                    Ok(v)
                },
            }
        },
        Stmt::Assign { name, value } => {
            let cv = match lower_expr(program, platform, pool, frame, value) {
                Ok(c) => c,
                Err(er) => {
                    return Err(er);
                },
            };
            let existing: Option<(bool, u64)> = match frame.lookup(name) {
                Some(loc) => Some((loc.ty.is_float(), loc.stack_offset)),
                None => None,
            };
            let mut v = cv;
            match existing {
                Some((isf, off)) => {
                    if isf {
                        v.push(Instr::StoreF(off, FReg::Xmm0));
                    } else {
                        v.push(Instr::Store(off, Reg::Rax));
                    }
                },
                None => {
                    if frame.size() >= FRAME_LIMIT {
                        return Err(CodegenError::UnsupportedStatement);
                    }
                    let vt = expr_type(program, frame, value);
                    let isf = vt.is_float();
                    let off = frame.declare(name.clone(), vt);
                    v.push(Instr::SubRsp(8));
                    if isf {
                        v.push(Instr::StoreF(off, FReg::Xmm0));
                    } else {
                        v.push(Instr::Store(off, Reg::Rax));
                    }
                },
            }
            proof {
                let (m2, sr) = spec_lower_stmt(m0, *s);
                assert(sr matches Ok(cs) && v@ =~= cs);
            }
            Ok(v)
        },
        Stmt::Echo(e0) => lower_echo(program, platform, pool, frame, e0),
        Stmt::Break => {
            if loops.len() == 0 {
                Err(CodegenError::ControlFlowMisuse)
            } else {
                let ctx = loops[loops.len() - 1];
                let v = vec![Instr::Jmp(ctx.end_kind, ctx.end_id)];
                proof {
                    let (m2, sr) = spec_lower_stmt(m0, *s);
                    assert(sr matches Ok(cs) && v@ =~= cs);
                }
                Ok(v)
            }
        },
        Stmt::Continue => {
            if loops.len() == 0 {
                Err(CodegenError::ControlFlowMisuse)
            } else {
                let ctx = loops[loops.len() - 1];
                let v = vec![Instr::Jmp(ctx.start_kind, ctx.start_id)];
                proof {
                    let (m2, sr) = spec_lower_stmt(m0, *s);
                    assert(sr matches Ok(cs) && v@ =~= cs);
                }
                Ok(v)
            }
        },
        Stmt::Return(opt) => {
            let cv: Vec<Instr> = match opt {
                Some(e0) => {
                    match lower_expr(program, platform, pool, frame, e0) {
                        Ok(c) => c,
                        Err(er) => {
                            return Err(er);
                        },
                    }
                },
                None => {
                    let v = vec![Instr::Xor(Reg::Rax, Reg::Rax)];
                    proof {
                        assert(v@ =~= seq![Instr::Xor(Reg::Rax, Reg::Rax)]);
                    }
                    v
                },
            };
            let is_entry = match cur_fn {
                Some(n) => n.eq(&("main".to_owned())),
                None => false,
            };
            let mut v = cv;
            if is_entry {
                let mut ex = exit_sequence(platform);
                v.append(&mut ex);
            } else {
                v.push(Instr::MovReg(Reg::Rsp, Reg::Rbp));
                v.push(Instr::Pop(Reg::Rbp));
                v.push(Instr::Ret);
            }
            proof {
                let (m2, sr) = spec_lower_stmt(m0, *s);
                assert(sr matches Ok(cs) && v@ =~= cs);
            }
            Ok(v)
        },
        Stmt::ExprStmt(e0) => {
            match e0 {
                Expr::Unary { op, operand } => {
                    match op {
                        UnOp::PostInc | UnOp::PreInc => {
                            match &**operand {
                                Expr::Variable(nm) => {
                                    match frame.lookup(nm) {
                                        Some(loc) => {
                                            let v = vec![Instr::IncSlot(loc.stack_offset)];
                                            proof {
                                                let (m2, sr) = spec_lower_stmt(m0, *s);
                                                assert(sr matches Ok(cs) && v@ =~= cs);
                                            }
                                            Ok(v)
                                        },
                                        None => Err(
                                            CodegenError::UnresolvedIdentifier(nm.clone()),
                                        ),
                                    }
                                },
                                _ => lower_expr(program, platform, pool, frame, e0),
                            }
                        },
                        UnOp::PostDec | UnOp::PreDec => {
                            match &**operand {
                                Expr::Variable(nm) => {
                                    match frame.lookup(nm) {
                                        Some(loc) => {
                                            let v = vec![Instr::DecSlot(loc.stack_offset)];
                                            proof {
                                                let (m2, sr) = spec_lower_stmt(m0, *s);
                                                assert(sr matches Ok(cs) && v@ =~= cs);
                                            }
                                            Ok(v)
                                        },
                                        None => Err(
                                            CodegenError::UnresolvedIdentifier(nm.clone()),
                                        ),
                                    }
                                },
                                _ => lower_expr(program, platform, pool, frame, e0),
                            }
                        },
                        _ => lower_expr(program, platform, pool, frame, e0),
                    }
                },
                _ => lower_expr(program, platform, pool, frame, e0),
            }
        },
        _ => {
            proof {
                assert(false);
            }
            Err(CodegenError::UnsupportedStatement)
        },
    }
}

/// Lowers a block: its statements in order.
#[verifier::spinoff_prover]
#[verifier::loop_isolation(false)]
#[verifier::rlimit(100)]
fn lower_block_in(
    program: &Vec<crate::ast::FunctionDecl>,
    platform: TargetPlatform,
    pool: &mut crate::pool::LiteralPool,
    frame: &mut crate::frame::Frame,
    labels: &mut u64,
    loops: &mut Vec<LoopContext>,
    cur_fn: &Option<String>,
    s: &Stmt,
) -> (r: Result<Vec<Instr>, CodegenError>)
    requires
        s is Block,
    ensures
        ({
            let m0 = CgModel {
                program: program@,
                platform,
                pool: old(pool)@,
                frame: old(frame)@,
                labels: *old(labels) as int,
                loops: old(loops)@,
                cur_fn: opt_name_view(*cur_fn),
            };
            let (m2, sr) = spec_lower_stmt(m0, *s);
            &&& final(pool)@ == m2.pool
            &&& final(frame)@ == m2.frame
            &&& *final(labels) as int == m2.labels
            &&& final(loops)@ == m2.loops
            &&& match (r, sr) {
                (Ok(v), Ok(c)) => v@ == c,
                (Err(a), Err(b)) => a == b,
                _ => false,
            }
        }),
    decreases *s, 0int,
{
    match s {
        Stmt::Block(stmts) => {
            let ghost m0 = CgModel {
                program: program@,
                platform,
                pool: pool@,
                frame: frame@,
                labels: *labels as int,
                loops: loops@,
                cur_fn: opt_name_view(*cur_fn),
            };
            let mut code: Vec<Instr> = Vec::new();
            let mut k: usize = 0;
            proof {
                assert(code@ =~= Seq::<Instr>::empty());
            }
            while k < stmts.len()
                invariant
                    0 <= k <= stmts@.len(),
                    spec_lower_block(m0, *stmts, 0) == (match spec_lower_block(
                        CgModel {
                            program: program@,
                            platform,
                            pool: pool@,
                            frame: frame@,
                            labels: *labels as int,
                            loops: loops@,
                            cur_fn: opt_name_view(*cur_fn),
                        },
                        *stmts,
                        k as int,
                    ) {
                        (m2, Ok(crest)) => (m2, Ok::<_, CodegenError>(code@ + crest)),
                        (m2, Err(er)) => (m2, Err(er)),
                    }),
                decreases stmts@.len() - k,
            {
                let ghost code0 = code@;
                let ghost m_bk = CgModel {
                    program: program@,
                    platform,
                    pool: pool@,
                    frame: frame@,
                    labels: *labels as int,
                    loops: loops@,
                    cur_fn: opt_name_view(*cur_fn),
                };
                let c = match lower_stmt_in(
                    program,
                    platform,
                    pool,
                    frame,
                    labels,
                    loops,
                    cur_fn,
                    &stmts[k],
                ) {
                    Ok(c) => c,
                    Err(er) => {
                        proof {
                            lemma_lower_stmt_loops(m_bk, stmts@[k as int]);
                        }
                        return Err(er);
                    },
                };
                let ghost cv = c@;
                let mut cm = c;
                code.append(&mut cm);
                proof {
                    lemma_lower_stmt_loops(m_bk, stmts@[k as int]);
                    let rest1 = spec_lower_block(
                        CgModel {
                            program: program@,
                            platform,
                            pool: pool@,
                            frame: frame@,
                            labels: *labels as int,
                            loops: loops@,
                            cur_fn: opt_name_view(*cur_fn),
                        },
                        *stmts,
                        k as int + 1,
                    );
                    if rest1.1 is Ok {
                        assert(code0 + (cv + rest1.1->Ok_0) =~= code@ + rest1.1->Ok_0);
                    }
                }
                k = k + 1;
            }
            proof {
                assert(code@ + Seq::<Instr>::empty() =~= code@);
            }
            Ok(code)
        },
        _ => {
            proof {
                assert(false);
            }
            Err(CodegenError::UnsupportedStatement)
        },
    }
}

/// Lowers a conditional: condition, branch to the else label (or
/// the end label when no else exists), then-block, else-block.
#[verifier::spinoff_prover]
#[verifier::loop_isolation(false)]
#[verifier::rlimit(100)]
fn lower_if_in(
    program: &Vec<crate::ast::FunctionDecl>,
    platform: TargetPlatform,
    pool: &mut crate::pool::LiteralPool,
    frame: &mut crate::frame::Frame,
    labels: &mut u64,
    loops: &mut Vec<LoopContext>,
    cur_fn: &Option<String>,
    s: &Stmt,
) -> (r: Result<Vec<Instr>, CodegenError>)
    requires
        s is If,
    ensures
        ({
            let m0 = CgModel {
                program: program@,
                platform,
                pool: old(pool)@,
                frame: old(frame)@,
                labels: *old(labels) as int,
                loops: old(loops)@,
                cur_fn: opt_name_view(*cur_fn),
            };
            let (m2, sr) = spec_lower_stmt(m0, *s);
            &&& final(pool)@ == m2.pool
            &&& final(frame)@ == m2.frame
            &&& *final(labels) as int == m2.labels
            &&& final(loops)@ == m2.loops
            &&& match (r, sr) {
                (Ok(v), Ok(c)) => v@ == c,
                (Err(a), Err(b)) => a == b,
                _ => false,
            }
        }),
    decreases *s, 0int,
{
    match s {
        Stmt::If { cond, then_branch, else_branch } => {
            let ghost m0 = CgModel {
                program: program@,
                platform,
                pool: pool@,
                frame: frame@,
                labels: *labels as int,
                loops: loops@,
                cur_fn: opt_name_view(*cur_fn),
            };
            if *labels >= LABEL_LIMIT {
                return Err(CodegenError::UnsupportedStatement);
            }
            let else_id = gen_label_in(labels);
            let end_id = gen_label_in(labels);
            let cc = match lower_expr(program, platform, pool, frame, cond) {
                Ok(c) => c,
                Err(er) => {
                    return Err(er);
                },
            };
            let ghost m_tg = CgModel {
                program: program@,
                platform,
                pool: pool@,
                frame: frame@,
                labels: *labels as int,
                loops: loops@,
                cur_fn: opt_name_view(*cur_fn),
            };
            let ct = match lower_stmt_in(
                program,
                platform,
                pool,
                frame,
                labels,
                loops,
                cur_fn,
                then_branch,
            ) {
                Ok(c) => c,
                Err(er) => {
                    proof {
                        lemma_lower_stmt_loops(m_tg, **then_branch);
                    }
                    return Err(er);
                },
            };
            proof {
                lemma_lower_stmt_loops(m_tg, **then_branch);
            }
            let mut v = cc;
            v.push(Instr::CmpImm(Reg::Rax, 0));
            match else_branch {
                Some(eb) => {
                    v.push(Instr::Je(LabelKind::IfElse, else_id));
                    let mut ctm = ct;
                    v.append(&mut ctm);
                    v.push(Instr::Jmp(LabelKind::IfEnd, end_id));
                    v.push(Instr::LocalLabel(LabelKind::IfElse, else_id));
                    let ghost m_eg = CgModel {
                        program: program@,
                        platform,
                        pool: pool@,
                        frame: frame@,
                        labels: *labels as int,
                        loops: loops@,
                        cur_fn: opt_name_view(*cur_fn),
                    };
                    let ce = match lower_stmt_in(
                        program,
                        platform,
                        pool,
                        frame,
                        labels,
                        loops,
                        cur_fn,
                        eb,
                    ) {
                        Ok(c) => c,
                        Err(er) => {
                            proof {
                                lemma_lower_stmt_loops(m_eg, **eb);
                            }
                            return Err(er);
                        },
                    };
                    proof {
                        lemma_lower_stmt_loops(m_eg, **eb);
                    }
                    let mut cem = ce;
                    v.append(&mut cem);
                    v.push(Instr::LocalLabel(LabelKind::IfEnd, end_id));
                    proof {
                        let (m2, sr) = spec_lower_stmt(m0, *s);
                        assert(sr matches Ok(cs) && v@ =~= cs);
                    }
                    Ok(v)
                },
                None => {
                    v.push(Instr::Je(LabelKind::IfEnd, end_id));
                    let mut ctm = ct;
                    v.append(&mut ctm);
                    v.push(Instr::LocalLabel(LabelKind::IfEnd, end_id));
                    proof {
                        let (m2, sr) = spec_lower_stmt(m0, *s);
                        assert(sr matches Ok(cs) && v@ =~= cs);
                    }
                    Ok(v)
                },
            }
        },
        _ => {
            proof {
                assert(false);
            }
            Err(CodegenError::UnsupportedStatement)
        },
    }
}

/// Lowers a while loop: start label before the condition test, a
/// back-edge from the body's end, the end label after a failed
/// test; the loop context is pushed for `break`/`continue` and
/// popped on exit.
#[verifier::spinoff_prover]
#[verifier::loop_isolation(false)]
#[verifier::rlimit(100)]
fn lower_while_in(
    program: &Vec<crate::ast::FunctionDecl>,
    platform: TargetPlatform,
    pool: &mut crate::pool::LiteralPool,
    frame: &mut crate::frame::Frame,
    labels: &mut u64,
    loops: &mut Vec<LoopContext>,
    cur_fn: &Option<String>,
    s: &Stmt,
) -> (r: Result<Vec<Instr>, CodegenError>)
    requires
        s is While,
    ensures
        ({
            let m0 = CgModel {
                program: program@,
                platform,
                pool: old(pool)@,
                frame: old(frame)@,
                labels: *old(labels) as int,
                loops: old(loops)@,
                cur_fn: opt_name_view(*cur_fn),
            };
            let (m2, sr) = spec_lower_stmt(m0, *s);
            &&& final(pool)@ == m2.pool
            &&& final(frame)@ == m2.frame
            &&& *final(labels) as int == m2.labels
            &&& final(loops)@ == m2.loops
            &&& match (r, sr) {
                (Ok(v), Ok(c)) => v@ == c,
                (Err(a), Err(b)) => a == b,
                _ => false,
            }
        }),
    decreases *s, 0int,
{
    match s {
        Stmt::While { condition, body } => {
            let ghost m0 = CgModel {
                program: program@,
                platform,
                pool: pool@,
                frame: frame@,
                labels: *labels as int,
                loops: loops@,
                cur_fn: opt_name_view(*cur_fn),
            };
            if *labels >= LABEL_LIMIT {
                return Err(CodegenError::UnsupportedStatement);
            }
            let s_id = gen_label_in(labels);
            let e_id = gen_label_in(labels);
            let ctx = LoopContext {
                start_kind: LabelKind::WhileStart,
                start_id: s_id,
                end_kind: LabelKind::WhileEnd,
                end_id: e_id,
            };
            loops.push(ctx);
            let cc = match lower_expr(program, platform, pool, frame, condition) {
                Ok(c) => c,
                Err(er) => {
                    return Err(er);
                },
            };
            let ghost m1 = CgModel {
                program: program@,
                platform,
                pool: pool@,
                frame: frame@,
                labels: *labels as int,
                loops: loops@,
                cur_fn: opt_name_view(*cur_fn),
            };
            let cb = match lower_stmt_in(
                program,
                platform,
                pool,
                frame,
                labels,
                loops,
                cur_fn,
                body,
            ) {
                Ok(c) => c,
                Err(er) => {
                    proof {
                        lemma_lower_stmt_loops(m1, **body);
                    }
                    return Err(er);
                },
            };
            proof {
                lemma_lower_stmt_loops(m1, **body);
            }
            let _ = loops.pop();
            let mut v = vec![Instr::LocalLabel(LabelKind::WhileStart, s_id)];
            let mut ccm = cc;
            v.append(&mut ccm);
            v.push(Instr::CmpImm(Reg::Rax, 0));
            v.push(Instr::Je(LabelKind::WhileEnd, e_id));
            let mut cbm = cb;
            v.append(&mut cbm);
            v.push(Instr::Jmp(LabelKind::WhileStart, s_id));
            v.push(Instr::LocalLabel(LabelKind::WhileEnd, e_id));
            proof {
                let (m2, sr) = spec_lower_stmt(m0, *s);
                assert(loops@ =~= m2.loops);
                assert(sr matches Ok(cs) && v@ =~= cs);
            }
            Ok(v)
        },
        _ => {
            proof {
                assert(false);
            }
            Err(CodegenError::UnsupportedStatement)
        },
    }
}

/// Lowers a C-style for loop: the initializer runs once, the
/// condition test (if present) precedes the body, the increment
/// runs after the body, before the back-edge.
#[verifier::spinoff_prover]
#[verifier::loop_isolation(false)]
#[verifier::rlimit(100)]
fn lower_forloop_in(
    program: &Vec<crate::ast::FunctionDecl>,
    platform: TargetPlatform,
    pool: &mut crate::pool::LiteralPool,
    frame: &mut crate::frame::Frame,
    labels: &mut u64,
    loops: &mut Vec<LoopContext>,
    cur_fn: &Option<String>,
    s: &Stmt,
) -> (r: Result<Vec<Instr>, CodegenError>)
    requires
        s is For,
    ensures
        ({
            let m0 = CgModel {
                program: program@,
                platform,
                pool: old(pool)@,
                frame: old(frame)@,
                labels: *old(labels) as int,
                loops: old(loops)@,
                cur_fn: opt_name_view(*cur_fn),
            };
            let (m2, sr) = spec_lower_stmt(m0, *s);
            &&& final(pool)@ == m2.pool
            &&& final(frame)@ == m2.frame
            &&& *final(labels) as int == m2.labels
            &&& final(loops)@ == m2.loops
            &&& match (r, sr) {
                (Ok(v), Ok(c)) => v@ == c,
                (Err(a), Err(b)) => a == b,
                _ => false,
            }
        }),
    decreases *s, 0int,
{
    match s {
        Stmt::For { initializer, condition, increment, body } => {
            let ghost m0 = CgModel {
                program: program@,
                platform,
                pool: pool@,
                frame: frame@,
                labels: *labels as int,
                loops: loops@,
                cur_fn: opt_name_view(*cur_fn),
            };
            if *labels >= LABEL_LIMIT {
                return Err(CodegenError::UnsupportedStatement);
            }
            let s_id = gen_label_in(labels);
            let e_id = gen_label_in(labels);
            let ctx = LoopContext {
                start_kind: LabelKind::ForStart,
                start_id: s_id,
                end_kind: LabelKind::ForEnd,
                end_id: e_id,
            };
            loops.push(ctx);
            let ghost m_ig = CgModel {
                program: program@,
                platform,
                pool: pool@,
                frame: frame@,
                labels: *labels as int,
                loops: loops@,
                cur_fn: opt_name_view(*cur_fn),
            };
            let ci: Vec<Instr> = match initializer {
                Some(is) => {
                    let c = match lower_stmt_in(
                        program,
                        platform,
                        pool,
                        frame,
                        labels,
                        loops,
                        cur_fn,
                        is,
                    ) {
                        Ok(c) => c,
                        Err(er) => {
                            proof {
                                lemma_lower_stmt_loops(m_ig, **is);
                            }
                            return Err(er);
                        },
                    };
                    proof {
                        lemma_lower_stmt_loops(m_ig, **is);
                    }
                    c
                },
                None => Vec::new(),
            };
            let cc: Vec<Instr> = match condition {
                Some(ce) => {
                    let mut c = match lower_expr(program, platform, pool, frame, ce) {
                        Ok(c) => c,
                        Err(er) => {
                            return Err(er);
                        },
                    };
                    c.push(Instr::CmpImm(Reg::Rax, 0));
                    c.push(Instr::Je(LabelKind::ForEnd, e_id));
                    c
                },
                None => Vec::new(),
            };
            let ghost m2g = CgModel {
                program: program@,
                platform,
                pool: pool@,
                frame: frame@,
                labels: *labels as int,
                loops: loops@,
                cur_fn: opt_name_view(*cur_fn),
            };
            let cb = match lower_stmt_in(
                program,
                platform,
                pool,
                frame,
                labels,
                loops,
                cur_fn,
                body,
            ) {
                Ok(c) => c,
                Err(er) => {
                    proof {
                        lemma_lower_stmt_loops(m2g, **body);
                    }
                    return Err(er);
                },
            };
            proof {
                lemma_lower_stmt_loops(m2g, **body);
            }
            let cinc: Vec<Instr> = match increment {
                Some(ie) => {
                    match lower_expr(program, platform, pool, frame, ie) {
                        Ok(c) => c,
                        Err(er) => {
                            return Err(er);
                        },
                    }
                },
                None => Vec::new(),
            };
            let _ = loops.pop();
            let mut v = ci;
            v.push(Instr::LocalLabel(LabelKind::ForStart, s_id));
            let mut ccm = cc;
            v.append(&mut ccm);
            let mut cbm = cb;
            v.append(&mut cbm);
            let mut cincm = cinc;
            v.append(&mut cincm);
            v.push(Instr::Jmp(LabelKind::ForStart, s_id));
            v.push(Instr::LocalLabel(LabelKind::ForEnd, e_id));
            proof {
                let (m2, sr) = spec_lower_stmt(m0, *s);
                assert(loops@ =~= m2.loops);
                assert(sr matches Ok(cs) && v@ =~= cs);
            }
            Ok(v)
        },
        _ => {
            proof {
                assert(false);
            }
            Err(CodegenError::UnsupportedStatement)
        },
    }
}

/// Lowers a for-each loop by rewriting it into the C-style form:
/// an implicit index variable initialized to zero, a
/// per-iteration bounds check against the collection's element
/// count, an element fetch bound to the loop variable, and an
/// index increment before the back-edge.
#[verifier::spinoff_prover]
#[verifier::loop_isolation(false)]
#[verifier::rlimit(100)]
fn lower_foreach_in(
    program: &Vec<crate::ast::FunctionDecl>,
    platform: TargetPlatform,
    pool: &mut crate::pool::LiteralPool,
    frame: &mut crate::frame::Frame,
    labels: &mut u64,
    loops: &mut Vec<LoopContext>,
    cur_fn: &Option<String>,
    s: &Stmt,
) -> (r: Result<Vec<Instr>, CodegenError>)
    requires
        s is ForEach,
    ensures
        ({
            let m0 = CgModel {
                program: program@,
                platform,
                pool: old(pool)@,
                frame: old(frame)@,
                labels: *old(labels) as int,
                loops: old(loops)@,
                cur_fn: opt_name_view(*cur_fn),
            };
            let (m2, sr) = spec_lower_stmt(m0, *s);
            &&& final(pool)@ == m2.pool
            &&& final(frame)@ == m2.frame
            &&& *final(labels) as int == m2.labels
            &&& final(loops)@ == m2.loops
            &&& match (r, sr) {
                (Ok(v), Ok(c)) => v@ == c,
                (Err(a), Err(b)) => a == b,
                _ => false,
            }
        }),
    decreases *s, 0int,
{
    match s {
        Stmt::ForEach { variable, iterable, body } => {
            let ghost m0 = CgModel {
                program: program@,
                platform,
                pool: pool@,
                frame: frame@,
                labels: *labels as int,
                loops: loops@,
                cur_fn: opt_name_view(*cur_fn),
            };
            if *labels >= LABEL_LIMIT {
                return Err(CodegenError::UnsupportedStatement);
            }
            let s_id = gen_label_in(labels);
            let e_id = gen_label_in(labels);
            let ity = expr_type(program, frame, iterable);
            let (elem, n) = match ity {
                Type::Array { elem, len: Some(n) } => (elem, n),
                _ => {
                    return Err(CodegenError::UnsupportedStatement);
                },
            };
            if n > (i64::MAX as u64) {
                return Err(CodegenError::UnsupportedStatement);
            }
            let arr_off = match iterable {
                Expr::Variable(arr_name) => {
                    match frame.lookup(arr_name) {
                        Some(loc) => loc.stack_offset,
                        None => {
                            return Err(CodegenError::UnresolvedIdentifier(arr_name.clone()));
                        },
                    }
                },
                _ => {
                    return Err(CodegenError::UnsupportedStatement);
                },
            };
            if frame.size() > FRAME_LIMIT - 16 {
                return Err(CodegenError::UnsupportedStatement);
            }
            let mut idx_name = String::new();
            idx_name.append("__index_");
            push_dec_u64(&mut idx_name, e_id);
            let off_i = frame.declare(idx_name, Type::I64);
            let off_v = frame.declare(variable.clone(), *elem);
            let ctx = LoopContext {
                start_kind: LabelKind::ForInStart,
                start_id: s_id,
                end_kind: LabelKind::ForInEnd,
                end_id: e_id,
            };
            loops.push(ctx);
            let ghost m2g = CgModel {
                program: program@,
                platform,
                pool: pool@,
                frame: frame@,
                labels: *labels as int,
                loops: loops@,
                cur_fn: opt_name_view(*cur_fn),
            };
            let cb = match lower_stmt_in(
                program,
                platform,
                pool,
                frame,
                labels,
                loops,
                cur_fn,
                body,
            ) {
                Ok(c) => c,
                Err(er) => {
                    proof {
                        lemma_lower_stmt_loops(m2g, **body);
                    }
                    return Err(er);
                },
            };
            proof {
                lemma_lower_stmt_loops(m2g, **body);
            }
            let _ = loops.pop();
            let mut v = vec![
                Instr::SubRsp(8),
                Instr::MovImm(Reg::Rax, 0),
                Instr::Store(off_i, Reg::Rax),
                Instr::SubRsp(8),
                Instr::LocalLabel(LabelKind::ForInStart, s_id),
                Instr::Load(Reg::Rax, off_i),
                Instr::CmpImm(Reg::Rax, n as i64),
                Instr::Jge(LabelKind::ForInEnd, e_id),
                Instr::Load(Reg::Rbx, arr_off),
                Instr::Load(Reg::Rax, off_i),
                Instr::ImulImm(Reg::Rax, 8),
                Instr::AddReg(Reg::Rbx, Reg::Rax),
                Instr::LoadInd(Reg::Rax, Reg::Rbx),
                Instr::Store(off_v, Reg::Rax),
            ];
            let mut cbm = cb;
            v.append(&mut cbm);
            v.push(Instr::IncSlot(off_i));
            v.push(Instr::Jmp(LabelKind::ForInStart, s_id));
            v.push(Instr::LocalLabel(LabelKind::ForInEnd, e_id));
            proof {
                let (m2, sr) = spec_lower_stmt(m0, *s);
                assert(loops@ =~= m2.loops);
                assert(sr matches Ok(cs) && v@ =~= cs);
            }
            Ok(v)
        },
        _ => {
            proof {
                assert(false);
            }
            Err(CodegenError::UnsupportedStatement)
        },
    }
}

/// Lowers a match statement: the discriminant once, then one
/// re-comparison and jump per case, a default jump, the case
/// bodies each ending in a jump to the end label.
#[verifier::spinoff_prover]
#[verifier::loop_isolation(false)]
#[verifier::rlimit(100)]
fn lower_match_in(
    program: &Vec<crate::ast::FunctionDecl>,
    platform: TargetPlatform,
    pool: &mut crate::pool::LiteralPool,
    frame: &mut crate::frame::Frame,
    labels: &mut u64,
    loops: &mut Vec<LoopContext>,
    cur_fn: &Option<String>,
    s: &Stmt,
) -> (r: Result<Vec<Instr>, CodegenError>)
    requires
        s is Match,
    ensures
        ({
            let m0 = CgModel {
                program: program@,
                platform,
                pool: old(pool)@,
                frame: old(frame)@,
                labels: *old(labels) as int,
                loops: old(loops)@,
                cur_fn: opt_name_view(*cur_fn),
            };
            let (m2, sr) = spec_lower_stmt(m0, *s);
            &&& final(pool)@ == m2.pool
            &&& final(frame)@ == m2.frame
            &&& *final(labels) as int == m2.labels
            &&& final(loops)@ == m2.loops
            &&& match (r, sr) {
                (Ok(v), Ok(c)) => v@ == c,
                (Err(a), Err(b)) => a == b,
                _ => false,
            }
        }),
    decreases *s, 0int,
{
    match s {
        Stmt::Match { discriminant, cases } => {
            let ghost m0 = CgModel {
                program: program@,
                platform,
                pool: pool@,
                frame: frame@,
                labels: *labels as int,
                loops: loops@,
                cur_fn: opt_name_view(*cur_fn),
            };
            if *labels >= LABEL_LIMIT {
                return Err(CodegenError::UnsupportedStatement);
            }
            let end_id = gen_label_in(labels);
            let cd = match lower_expr(program, platform, pool, frame, discriminant) {
                Ok(c) => c,
                Err(er) => {
                    return Err(er);
                },
            };
            let ghost m1 = CgModel {
                program: program@,
                platform,
                pool: pool@,
                frame: frame@,
                labels: *labels as int,
                loops: loops@,
                cur_fn: opt_name_view(*cur_fn),
            };
            let mut cdisp: Vec<Instr> = Vec::new();
            let mut ids: Vec<u64> = Vec::new();
            let mut dflt: Option<u64> = None;
            let mut k: usize = 0;
            proof {
                assert(cdisp@ =~= Seq::<Instr>::empty());
                assert(ids@ =~= Seq::<u64>::empty());
            }
            while k < cases.len()
                invariant
                    0 <= k <= cases@.len(),
                    ids@.len() == k,
                    spec_match_dispatch(m1, *cases, 0) == (match spec_match_dispatch(
                        CgModel {
                    program: program@,
                    platform,
                    pool: pool@,
                    frame: frame@,
                    labels: *labels as int,
                    loops: loops@,
                    cur_fn: opt_name_view(*cur_fn),
                },
                        *cases,
                        k as int,
                    ) {
                        (m2, Ok((c, idsr, dfltr))) => (
                            m2,
                            Ok::<_, CodegenError>(
                                (
                                    cdisp@ + c,
                                    ids@ + idsr,
                                    match dfltr {
                                        Some(d) => Some(d),
                                        None => dflt,
                                    },
                                ),
                            ),
                        ),
                        (m2, Err(er)) => (m2, Err(er)),
                    }),
                decreases cases@.len() - k,
            {
                let ghost cdisp0 = cdisp@;
                let ghost ids0 = ids@;
                if *labels >= LABEL_LIMIT {
                    return Err(CodegenError::UnsupportedStatement);
                }
                let cid = gen_label_in(labels);
                match &cases[k].pattern {
                    None => {
                        ids.push(cid);
                        dflt = Some(cid);
                        proof {
                            let rest1 = spec_match_dispatch(
                                CgModel {
                    program: program@,
                    platform,
                    pool: pool@,
                    frame: frame@,
                    labels: *labels as int,
                    loops: loops@,
                    cur_fn: opt_name_view(*cur_fn),
                },
                                *cases,
                                k as int + 1,
                            );
                            if rest1.1 is Ok {
                                assert(ids0 + (seq![cid] + rest1.1->Ok_0.1) =~= ids@
                                    + rest1.1->Ok_0.1);
                            }
                        }
                    },
                    Some(pat) => {
                        let cp = match lower_expr(program, platform, pool, frame, pat) {
                            Ok(c) => c,
                            Err(er) => {
                                return Err(er);
                            },
                        };
                        let ghost cpv = cp@;
                        cdisp.push(Instr::Push(Reg::Rax));
                        let mut cpm = cp;
                        cdisp.append(&mut cpm);
                        cdisp.push(Instr::MovReg(Reg::Rbx, Reg::Rax));
                        cdisp.push(Instr::Pop(Reg::Rax));
                        cdisp.push(Instr::Cmp(Reg::Rax, Reg::Rbx));
                        cdisp.push(Instr::Je(LabelKind::MatchCase, cid));
                        ids.push(cid);
                        proof {
                            let ck = seq![Instr::Push(Reg::Rax)] + cpv + seq![
                                Instr::MovReg(Reg::Rbx, Reg::Rax),
                                Instr::Pop(Reg::Rax),
                                Instr::Cmp(Reg::Rax, Reg::Rbx),
                                Instr::Je(LabelKind::MatchCase, cid),
                            ];
                            assert(cdisp@ =~= cdisp0 + ck);
                            let rest1 = spec_match_dispatch(
                                CgModel {
                    program: program@,
                    platform,
                    pool: pool@,
                    frame: frame@,
                    labels: *labels as int,
                    loops: loops@,
                    cur_fn: opt_name_view(*cur_fn),
                },
                                *cases,
                                k as int + 1,
                            );
                            if rest1.1 is Ok {
                                assert(cdisp0 + (ck + rest1.1->Ok_0.0) =~= cdisp@
                                    + rest1.1->Ok_0.0);
                                assert(ids0 + (seq![cid] + rest1.1->Ok_0.1) =~= ids@
                                    + rest1.1->Ok_0.1);
                            }
                        }
                    },
                }
                k = k + 1;
            }
            proof {
                assert(cdisp@ + Seq::<Instr>::empty() =~= cdisp@);
                assert(ids@ + Seq::<u64>::empty() =~= ids@);
            }
            let mut code = cd;
            let ghost cdv = code@;
            let mut cdispm = cdisp;
            let ghost cdispv = cdispm@;
            code.append(&mut cdispm);
            match dflt {
                Some(d) => {
                    code.push(Instr::Jmp(LabelKind::MatchCase, d));
                },
                None => {
                    code.push(Instr::Jmp(LabelKind::MatchEnd, end_id));
                },
            }
            let ghost m2g = CgModel {
                program: program@,
                platform,
                pool: pool@,
                frame: frame@,
                labels: *labels as int,
                loops: loops@,
                cur_fn: opt_name_view(*cur_fn),
            };
            let ghost idsv = ids@;
            let mut cbodies: Vec<Instr> = Vec::new();
            let mut k2: usize = 0;
            proof {
                assert(cbodies@ =~= Seq::<Instr>::empty());
            }
            while k2 < cases.len()
                invariant
                    0 <= k2 <= cases@.len(),
                    idsv == ids@,
                    ids@.len() == cases@.len(),
                    spec_match_bodies(m2g, *cases, idsv, end_id, 0) == (
                    match spec_match_bodies(
                        CgModel {
                    program: program@,
                    platform,
                    pool: pool@,
                    frame: frame@,
                    labels: *labels as int,
                    loops: loops@,
                    cur_fn: opt_name_view(*cur_fn),
                },
                        *cases,
                        idsv,
                        end_id,
                        k2 as int,
                    ) {
                        (m3, Ok(crest)) => (m3, Ok::<_, CodegenError>(cbodies@ + crest)),
                        (m3, Err(er)) => (m3, Err(er)),
                    }),
                decreases cases@.len() - k2,
            {
                let ghost cb0 = cbodies@;
                let ghost m_bk = CgModel {
                    program: program@,
                    platform,
                    pool: pool@,
                    frame: frame@,
                    labels: *labels as int,
                    loops: loops@,
                    cur_fn: opt_name_view(*cur_fn),
                };
                cbodies.push(Instr::LocalLabel(LabelKind::MatchCase, ids[k2]));
                let cb = match lower_stmt_in(
                    program,
                    platform,
                    pool,
                    frame,
                    labels,
                    loops,
                    cur_fn,
                    &cases[k2].body,
                ) {
                    Ok(c) => c,
                    Err(er) => {
                        proof {
                            lemma_lower_stmt_loops(m_bk, cases@[k2 as int].body);
                        }
                        return Err(er);
                    },
                };
                proof {
                    lemma_lower_stmt_loops(m_bk, cases@[k2 as int].body);
                }
                let ghost cbv = cb@;
                let mut cbm = cb;
                cbodies.append(&mut cbm);
                cbodies.push(Instr::Jmp(LabelKind::MatchEnd, end_id));
                proof {
                    let ck = seq![Instr::LocalLabel(LabelKind::MatchCase, idsv[k2 as int])] + cbv
                        + seq![Instr::Jmp(LabelKind::MatchEnd, end_id)];
                    assert(cbodies@ =~= cb0 + ck);
                    let rest1 = spec_match_bodies(
                        CgModel {
                    program: program@,
                    platform,
                    pool: pool@,
                    frame: frame@,
                    labels: *labels as int,
                    loops: loops@,
                    cur_fn: opt_name_view(*cur_fn),
                },
                        *cases,
                        idsv,
                        end_id,
                        k2 as int + 1,
                    );
                    if rest1.1 is Ok {
                        assert(cb0 + (ck + rest1.1->Ok_0) =~= cbodies@ + rest1.1->Ok_0);
                    }
                }
                k2 = k2 + 1;
            }
            proof {
                assert(cbodies@ + Seq::<Instr>::empty() =~= cbodies@);
            }
            let mut cbodiesm = cbodies;
            code.append(&mut cbodiesm);
            code.push(Instr::LocalLabel(LabelKind::MatchEnd, end_id));
            code.push(Instr::Xor(Reg::Rax, Reg::Rax));
            proof {
                let (m2, sr) = spec_lower_stmt(m0, *s);
                assert(sr matches Ok(cs) && code@ =~= cs);
            }
            Ok(code)
        },
        _ => {
            proof {
                assert(false);
            }
            Err(CodegenError::UnsupportedStatement)
        },
    }
}

impl Codegen {
    /// Lowers one statement against the session state.
    pub fn lower_stmt(&mut self, s: &Stmt) -> (r: Result<Vec<Instr>, CodegenError>)
        ensures
            ({
                let (m2, sr) = spec_lower_stmt(old(self)@, *s);
                &&& final(self)@ == m2
                &&& match (r, sr) {
                    (Ok(v), Ok(c)) => v@ == c,
                    (Err(a), Err(b)) => a == b,
                    _ => false,
                }
            }),
    {
        let r = lower_stmt_in(
            &self.program,
            self.target_platform,
            &mut self.pool,
            &mut self.frame,
            &mut self.label_counter,
            &mut self.loop_stack,
            &self.current_function,
            s,
        );
        proof {
            lemma_lower_stmt_loops(old(self)@, *s);
        }
        r
    }
}

/// An interpolated print over one string variable then one float
/// variable, in that source order, builds a format string of exactly
/// `%s` then `%f` and spills two arguments whose register classes
/// and slots follow the same source order.
pub proof fn lemma_echo_two_piece_order(
    program: Seq<crate::ast::FunctionDecl>,
    p: TargetPlatform,
    st: ExprSt,
    s_name: String,
    f_name: String,
)
    requires
        ({
            let l = spec_lookup(st.frame.entries, s_name@);
            l is Some && l.unwrap().ty is Str
        }),
        ({
            let l = spec_lookup(st.frame.entries, f_name@);
            l is Some && l.unwrap().ty is F64
        }),
        0 <= st.frame.size,
        st.frame.size + 16 < FRAME_LIMIT,
    ensures
        ({
            let parts = seq![Expr::Variable(s_name), Expr::Variable(f_name)];
            let (st3, r) = spec_echo_parts(program, p, st, parts, 0);
            &&& r is Ok
            &&& r.unwrap().0 == "%s"@ + "%f"@
            &&& r.unwrap().2.len() == 2
            &&& !r.unwrap().2[0].is_float
            &&& r.unwrap().2[1].is_float
            &&& r.unwrap().2[0].off < r.unwrap().2[1].off
        }),
{
    let parts = seq![Expr::Variable(s_name), Expr::Variable(f_name)];
    assert(parts[0] == Expr::Variable(s_name));
    assert(parts[1] == Expr::Variable(f_name));
    let st1 = ExprSt {
        frame: FrameModel { size: st.frame.size + 8, entries: st.frame.entries },
        ..st
    };
    let st2 = ExprSt {
        frame: FrameModel { size: st1.frame.size + 8, entries: st1.frame.entries },
        ..st1
    };
    let (st3e, r3) = spec_echo_parts(program, p, st2, parts, 2);
    assert(r3 is Ok);
    let (st2e, r2) = spec_echo_parts(program, p, st1, parts, 1);
    assert(r2 is Ok);
    let (st1e, r1) = spec_echo_parts(program, p, st, parts, 0);
    assert(r1 is Ok);
    assert(r2.unwrap().0 =~= "%f"@);
    assert(r1.unwrap().0 =~= "%s"@ + "%f"@);
    assert(r2.unwrap().2 =~= seq![
        ArgSlot { is_float: true, off: (st.frame.size + 16) as u64 },
    ]);
    assert(r1.unwrap().2 =~= seq![
        ArgSlot { is_float: false, off: (st.frame.size + 8) as u64 },
        ArgSlot { is_float: true, off: (st.frame.size + 16) as u64 },
    ]);
}

/// Successful statement lowering restores the loop-context stack and
/// never touches the program, platform or current-function fields.
#[verifier::rlimit(100)]
pub proof fn lemma_lower_stmt_loops(m: CgModel, s: Stmt)
    ensures
        ({
            let (m2, r) = spec_lower_stmt(m, s);
            &&& r is Ok ==> m2.loops == m.loops
            &&& m2.program == m.program
            &&& m2.platform == m.platform
            &&& m2.cur_fn == m.cur_fn
        }),
    decreases s, 1int, 0int,
{
    match s {
        Stmt::Block(stmts) => {
            lemma_lower_block_loops(m, stmts, 0);
        },
        Stmt::If { cond, then_branch, else_branch } => {
            if m.labels < LABEL_LIMIT {
                let ml = CgModel { labels: m.labels + 2, ..m };
                let (m1, r1) = spec_cg_expr(ml, cond);
                if r1 is Ok {
                    lemma_lower_stmt_loops(m1, *then_branch);
                    let (m2, r2) = spec_lower_stmt(m1, *then_branch);
                    if r2 is Ok {
                        match else_branch {
                            Some(eb) => {
                                lemma_lower_stmt_loops(m2, *eb);
                            },
                            None => {
                            },
                        }
                    }
                }
            }
        },
        Stmt::While { condition, body } => {
            if m.labels < LABEL_LIMIT {
                let ctx = LoopContext {
                    start_kind: LabelKind::WhileStart,
                    start_id: (m.labels + 1) as u64,
                    end_kind: LabelKind::WhileEnd,
                    end_id: (m.labels + 2) as u64,
                };
                let ml = CgModel { labels: m.labels + 2, loops: m.loops.push(ctx), ..m };
                let (m1, r1) = spec_cg_expr(ml, condition);
                if r1 is Ok {
                    lemma_lower_stmt_loops(m1, *body);
                    let (m2, r2) = spec_lower_stmt(m1, *body);
                    if r2 is Ok {
                        assert(m.loops.push(ctx).drop_last() =~= m.loops);
                    }
                }
            }
        },
        Stmt::For { initializer, condition, increment, body } => {
            if m.labels < LABEL_LIMIT {
                let ctx = LoopContext {
                    start_kind: LabelKind::ForStart,
                    start_id: (m.labels + 1) as u64,
                    end_kind: LabelKind::ForEnd,
                    end_id: (m.labels + 2) as u64,
                };
                let ml = CgModel { labels: m.labels + 2, loops: m.loops.push(ctx), ..m };
                let (m1, r1) = match initializer {
                    Some(is) => spec_lower_stmt(ml, *is),
                    None => (ml, Ok::<Seq<Instr>, CodegenError>(Seq::empty())),
                };
                match initializer {
                    Some(is) => {
                        lemma_lower_stmt_loops(ml, *is);
                    },
                    None => {
                    },
                }
                if r1 is Ok {
                    let (m2, r2) = match condition {
                        Some(ce) => {
                            let (mc, rc) = spec_cg_expr(m1, ce);
                            (mc, rc)
                        },
                        None => (m1, Ok::<Seq<Instr>, CodegenError>(Seq::empty())),
                    };
                    if r2 is Ok {
                        lemma_lower_stmt_loops(m2, *body);
                        let (m3, r3) = spec_lower_stmt(m2, *body);
                        if r3 is Ok {
                            assert(m.loops.push(ctx).drop_last() =~= m.loops);
                        }
                    }
                }
            }
        },
        Stmt::ForEach { variable, iterable, body } => {
            if m.labels < LABEL_LIMIT {
                let ml = CgModel { labels: m.labels + 2, ..m };
                let ity = spec_expr_type(ml.program, ml.frame.entries, iterable);
                match ity {
                    Type::Array { elem, len: Some(n) } => {
                        if n <= i64::MAX as u64 {
                            match iterable {
                                Expr::Variable(arr_name) => {
                                    match spec_lookup(ml.frame.entries, arr_name@) {
                                        None => {
                                        },
                                        Some(arr_loc) => {
                                            if ml.frame.size + 16 <= FRAME_LIMIT {
                                                let idx_name = "__index_"@ + spec_dec_nat(
                                                    ((m.labels + 2) as u64) as nat,
                                                );
                                                let frame2 = spec_declare(
                                                    spec_declare(ml.frame, idx_name, Type::I64),
                                                    variable@,
                                                    *elem,
                                                );
                                                let ctx = LoopContext {
                                                    start_kind: LabelKind::ForInStart,
                                                    start_id: (m.labels + 1) as u64,
                                                    end_kind: LabelKind::ForInEnd,
                                                    end_id: (m.labels + 2) as u64,
                                                };
                                                let m2 = CgModel {
                                                    frame: frame2,
                                                    loops: ml.loops.push(ctx),
                                                    ..ml
                                                };
                                                lemma_lower_stmt_loops(m2, *body);
                                                let (m3, r3) = spec_lower_stmt(m2, *body);
                                                if r3 is Ok {
                                                    assert(m.loops.push(ctx).drop_last()
                                                        =~= m.loops);
                                                }
                                            }
                                        },
                                    }
                                },
                                _ => {
                                },
                            }
                        }
                    },
                    _ => {
                    },
                }
            }
        },
        Stmt::Match { discriminant, cases } => {
            if m.labels < LABEL_LIMIT {
                let ml = CgModel { labels: m.labels + 1, ..m };
                let (m1, r1) = spec_cg_expr(ml, discriminant);
                if r1 is Ok {
                    lemma_match_dispatch_loops(m1, cases, 0);
                    let (m2, r2) = spec_match_dispatch(m1, cases, 0);
                    match r2 {
                        Ok((cdisp, ids, dflt)) => {
                            lemma_match_bodies_loops(m2, cases, ids, (m.labels + 1) as u64, 0);
                        },
                        Err(_) => {
                        },
                    }
                }
            }
        },
        _ => {
        },
    }
}

/// Block form of [`lemma_lower_stmt_loops`].
proof fn lemma_lower_block_loops(m: CgModel, stmts: Vec<Stmt>, k: int)
    ensures
        ({
            let (m2, r) = spec_lower_block(m, stmts, k);
            &&& r is Ok ==> m2.loops == m.loops
            &&& m2.program == m.program
            &&& m2.platform == m.platform
            &&& m2.cur_fn == m.cur_fn
        }),
    decreases stmts, 0int, stmts@.len() - k,
{
    if 0 <= k < stmts@.len() {
        lemma_lower_stmt_loops(m, stmts@[k]);
        let (m1, r1) = spec_lower_stmt(m, stmts@[k]);
        if r1 is Ok {
            lemma_lower_block_loops(m1, stmts, k + 1);
        }
    }
}

/// Dispatch form of [`lemma_lower_stmt_loops`].
proof fn lemma_match_dispatch_loops(m: CgModel, cases: Vec<crate::ast::MatchCase>, k: int)
    ensures
        ({
            let (m2, r) = spec_match_dispatch(m, cases, k);
            &&& r is Ok ==> m2.loops == m.loops
            &&& m2.program == m.program
            &&& m2.platform == m.platform
            &&& m2.cur_fn == m.cur_fn
        }),
    decreases cases, 0int, cases@.len() - k,
{
    if 0 <= k < cases@.len() && m.labels < LABEL_LIMIT {
        let ml = CgModel { labels: m.labels + 1, ..m };
        match cases@[k].pattern {
            None => {
                lemma_match_dispatch_loops(ml, cases, k + 1);
            },
            Some(pat) => {
                let (m1, r1) = spec_cg_expr(ml, pat);
                if r1 is Ok {
                    lemma_match_dispatch_loops(m1, cases, k + 1);
                }
            },
        }
    }
}

/// Body form of [`lemma_lower_stmt_loops`].
proof fn lemma_match_bodies_loops(
    m: CgModel,
    cases: Vec<crate::ast::MatchCase>,
    ids: Seq<u64>,
    end_id: u64,
    k: int,
)
    ensures
        ({
            let (m2, r) = spec_match_bodies(m, cases, ids, end_id, k);
            &&& r is Ok ==> m2.loops == m.loops
            &&& m2.program == m.program
            &&& m2.platform == m.platform
            &&& m2.cur_fn == m.cur_fn
        }),
    decreases cases, 0int, cases@.len() - k,
{
    if 0 <= k < cases@.len() && k < ids.len() {
        lemma_lower_stmt_loops(m, cases@[k].body);
        let (m1, r1) = spec_lower_stmt(m, cases@[k].body);
        if r1 is Ok {
            lemma_match_bodies_loops(m1, cases, ids, end_id, k + 1);
        }
    }
}

} // verus!
