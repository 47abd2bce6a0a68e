//! Function lowering and whole-program emission.
//!
//! A function lowers to its label, prologue, one 8-byte slot per
//! parameter stored from its ABI register in declaration order, the
//! lowered body, and an epilogue (the entry function instead ends in
//! the platform's process-exit sequence).  The program renders as one
//! data section followed by one text section; the Windows path
//! appends the self-hosted formatter routine.

use vstd::prelude::*;
use vstd::string::StringExecFns;
use crate::ast::{FunctionDecl, Param, TargetPlatform, copy_type};
use crate::codegen::{CgModel, Codegen, FRAME_LIMIT, entry_sym, exit_sequence,
    get_arg_registers, get_float_arg_registers, spec_entry_sym, spec_exit_sequence,
    spec_float_arg_regs, spec_int_arg_regs};
use crate::errors::{ArgumentFault, CodegenError};
use crate::frame::{FrameModel, empty_frame, spec_declare};
use crate::instr::{FixedSym, Instr, Reg, push_instrs, spec_render_instrs};
use crate::pool::spec_render_data_segment;
use crate::stmt::{lower_stmt_in, spec_lower_stmt, lemma_lower_stmt_loops};

verus! {

/// Binding of the parameters from index `k` on, with `ii` integer and
/// `fi` float registers already consumed: each parameter takes one
/// 8-byte slot, stored from its class's next argument register; a
/// parameter past the register count is refused.
pub open spec fn spec_bind_params(
    p: TargetPlatform,
    frame: FrameModel,
    params: Vec<Param>,
    k: int,
    ii: int,
    fi: int,
) -> (FrameModel, Result<Seq<Instr>, CodegenError>)
    decreases params@.len() - k,
{
    if k < 0 || k >= params@.len() {
        (frame, Ok(Seq::empty()))
    } else {
        let prm = params@[k];
        if frame.size >= FRAME_LIMIT {
            (frame, Err(CodegenError::UnsupportedStatement))
        } else if prm.ty.spec_is_float() {
            if fi >= spec_float_arg_regs().len() {
                (
                    frame,
                    Err(CodegenError::ArgumentBindingError(ArgumentFault::TooManyFloatArguments)),
                )
            } else {
                let off = (frame.size + 8) as u64;
                let frame2 = spec_declare(frame, prm.name@, prm.ty);
                match spec_bind_params(p, frame2, params, k + 1, ii, fi + 1) {
                    (f3, Ok(rest)) => (
                        f3,
                        Ok(
                            seq![
                                Instr::SubRsp(8),
                                Instr::StoreF(off, spec_float_arg_regs()[fi]),
                            ] + rest,
                        ),
                    ),
                    (f3, Err(e)) => (f3, Err(e)),
                }
            }
        } else {
            if ii >= spec_int_arg_regs(p).len() {
                (frame, Err(CodegenError::UnsupportedStatement))
            } else {
                let off = (frame.size + 8) as u64;
                let frame2 = spec_declare(frame, prm.name@, prm.ty);
                match spec_bind_params(p, frame2, params, k + 1, ii + 1, fi) {
                    (f3, Ok(rest)) => (
                        f3,
                        Ok(
                            seq![
                                Instr::SubRsp(8),
                                Instr::Store(off, spec_int_arg_regs(p)[ii]),
                            ] + rest,
                        ),
                    ),
                    (f3, Err(e)) => (f3, Err(e)),
                }
            }
        }
    }
}

/// Lowering of one declared function: its label (the entry-point
/// label for the entry function), prologue, console setup on the
/// entry/Windows path, parameter binding, body, and epilogue — the
/// entry function instead ends in the process-exit sequence with
/// status zero.
pub open spec fn spec_lower_function(m: CgModel, f: FunctionDecl) -> (CgModel, Result<
    Seq<Instr>,
    CodegenError,
>) {
    let is_entry = f.name@ == "main"@;
    let head: Seq<Instr> = seq![
        if is_entry {
            Instr::SymLabel(spec_entry_sym(m.platform))
        } else {
            Instr::FuncLabel(f.name)
        },
        Instr::Push(Reg::Rbp),
        Instr::MovReg(Reg::Rbp, Reg::Rsp),
    ];
    let console: Seq<Instr> = if is_entry && m.platform is Windows {
        seq![Instr::MovImm(Reg::Rcx, 65001), Instr::CallSym(FixedSym::SetConsoleOutputCP)]
    } else {
        Seq::empty()
    };
    let m1 = CgModel { frame: empty_frame(), cur_fn: Some(f.name@), ..m };
    let (fr2, rp) = spec_bind_params(m.platform, m1.frame, f.params, 0, 0, 0);
    let m2 = CgModel { frame: fr2, ..m1 };
    match rp {
        Err(e) => (m2, Err(e)),
        Ok(cp) => {
            let (m3, rb) = spec_lower_stmt(m2, f.body);
            match rb {
                Err(e) => (m3, Err(e)),
                Ok(cb) => {
                    let tail: Seq<Instr> = if is_entry {
                        seq![Instr::Xor(Reg::Rax, Reg::Rax)] + spec_exit_sequence(m.platform)
                    } else if cb.len() == 0 || !(cb.last() is Ret) {
                        seq![
                            Instr::MovReg(Reg::Rsp, Reg::Rbp),
                            Instr::Pop(Reg::Rbp),
                            Instr::Ret,
                        ]
                    } else {
                        Seq::empty()
                    };
                    (CgModel { cur_fn: None, ..m3 }, Ok(head + console + cp + cb + tail))
                },
            }
        },
    }
}

/// Lowering a function never touches the declaration list, the
/// platform, or the loop-context stack (on success).
pub proof fn lemma_lower_function_fields(m: CgModel, f: FunctionDecl)
    ensures
        ({
            let (m2, r) = spec_lower_function(m, f);
            &&& m2.program == m.program
            &&& m2.platform == m.platform
            &&& (r is Ok ==> m2.loops == m.loops)
        }),
{
    let m1 = CgModel { frame: empty_frame(), cur_fn: Some(f.name@), ..m };
    let (fr2, rp) = spec_bind_params(m.platform, m1.frame, f.params, 0, 0, 0);
    let m2 = CgModel { frame: fr2, ..m1 };
    if rp is Ok {
        lemma_lower_stmt_loops(m2, f.body);
    }
}

/// Lowering the declaration list never touches the declaration list
/// itself or the platform.
pub proof fn lemma_lower_functions_fields(m: CgModel, decls: Seq<FunctionDecl>, k: int)
    ensures
        ({
            let (m2, r) = spec_lower_functions(m, decls, k);
            &&& m2.program == m.program
            &&& m2.platform == m.platform
        }),
    decreases decls.len() - k,
{
    if 0 <= k < decls.len() {
        lemma_lower_function_fields(m, decls[k]);
        let (m1, r1) = spec_lower_function(m, decls[k]);
        if r1 is Ok {
            lemma_lower_functions_fields(m1, decls, k + 1);
        }
    }
}

/// Lowering of the declarations from index `k` on, in order.
pub open spec fn spec_lower_functions(m: CgModel, decls: Seq<FunctionDecl>, k: int) -> (
    CgModel,
    Result<Seq<Instr>, CodegenError>,
)
    decreases decls.len() - k,
{
    if k < 0 || k >= decls.len() {
        (m, Ok(Seq::empty()))
    } else {
        let (m1, r1) = spec_lower_function(m, decls[k]);
        match r1 {
            Err(e) => (m1, Err(e)),
            Ok(c) => {
                match spec_lower_functions(m1, decls, k + 1) {
                    (m2, Err(e2)) => (m2, Err(e2)),
                    (m2, Ok(crest)) => (m2, Ok(c + crest)),
                }
            },
        }
    }
}

/// The text section's opening: the entry point's `global` line and
/// the external-symbol declarations the platform's generated code
/// needs (process exit, console setup and raw write primitives on
/// the Windows path; the print routine elsewhere).
pub open spec fn spec_header(p: TargetPlatform) -> Seq<Instr> {
    match p {
        TargetPlatform::Windows => seq![
            Instr::Global(FixedSym::Main),
            Instr::ExternSym(FixedSym::ExitProcess),
            Instr::ExternSym(FixedSym::GetStdHandle),
            Instr::ExternSym(FixedSym::WriteFile),
            Instr::ExternSym(FixedSym::SetConsoleOutputCP),
        ],
        TargetPlatform::Linux => seq![
            Instr::Global(FixedSym::Start),
            Instr::ExternSym(FixedSym::Printf),
        ],
        TargetPlatform::Macos => seq![
            Instr::Global(FixedSym::UnderMain),
            Instr::ExternSym(FixedSym::PrintfHelper),
            Instr::ExternSym(FixedSym::ExitC),
        ],
        TargetPlatform::Unknown => seq![
            Instr::Global(FixedSym::Main),
            Instr::ExternSym(FixedSym::Printf),
        ],
    }
}

/// Executable form of [`spec_header`].
fn header_instrs(p: TargetPlatform) -> (v: Vec<Instr>)
    ensures
        v@ == spec_header(p),
{
    let v = match p {
        TargetPlatform::Windows => vec![
            Instr::Global(FixedSym::Main),
            Instr::ExternSym(FixedSym::ExitProcess),
            Instr::ExternSym(FixedSym::GetStdHandle),
            Instr::ExternSym(FixedSym::WriteFile),
            Instr::ExternSym(FixedSym::SetConsoleOutputCP),
        ],
        TargetPlatform::Linux => vec![
            Instr::Global(FixedSym::Start),
            Instr::ExternSym(FixedSym::Printf),
        ],
        TargetPlatform::Macos => vec![
            Instr::Global(FixedSym::UnderMain),
            Instr::ExternSym(FixedSym::PrintfHelper),
            Instr::ExternSym(FixedSym::ExitC),
        ],
        TargetPlatform::Unknown => vec![
            Instr::Global(FixedSym::Main),
            Instr::ExternSym(FixedSym::Printf),
        ],
    };
    proof {
        assert(v@ =~= spec_header(p));
    }
    v
}

/// The text section's instructions for a whole session: the header,
/// then every declared function in declaration order.
pub open spec fn spec_text_instrs(m: CgModel) -> (CgModel, Result<Seq<Instr>, CodegenError>) {
    let (m2, r) = spec_lower_functions(m, m.program, 0);
    match r {
        Err(e) => (m2, Err(e)),
        Ok(c) => (m2, Ok(spec_header(m.platform) + c)),
    }
}

/// The fixed self-hosted formatter routine of the Windows path: a
/// byte-by-byte scan of the format text into an internal buffer —
/// `%d` through a minimal signed-decimal conversion, `%s` copying a
/// null-terminated string, `%f` as the integer part with a fixed
/// `.00` suffix, `%%` a literal percent — flushed with one write to
/// the process's standard-output handle.
pub open spec fn spec_printf_helper_text() -> Seq<char> {
    "section .bss\n_printf_buf resb 4096\n_printf_tmp resb 64\nsection .text\n_printf:\n    push rbp\n    mov rbp, rsp\n    sub rsp, 128\n    mov [rbp+16], rdx\n    mov [rbp+24], r8\n    mov [rbp+32], r9\n    lea rsi, [rcx]\n    lea rdi, [rel _printf_buf]\n    lea r12, [rbp+16]\n"@
        + ".scan:\n    lodsb\n    test al, al\n    jz .flush\n    cmp al, '%'\n    jne .emit_char\n    lodsb\n    cmp al, 'd'\n    je .int_arg\n    cmp al, 's'\n    je .str_arg\n    cmp al, 'f'\n    je .float_arg\n    cmp al, '%'\n    je .emit_char\n    jmp .scan\n.emit_char:\n    stosb\n    jmp .scan\n"@
        + ".int_arg:\n    mov rax, [r12]\n    add r12, 8\n    call .itoa\n    jmp .scan\n.str_arg:\n    mov r9, [r12]\n    add r12, 8\n.str_copy:\n    mov al, [r9]\n    test al, al\n    jz .scan\n    stosb\n    inc r9\n    jmp .str_copy\n.float_arg:\n    mov rax, [r12]\n    add r12, 8\n    call .itoa\n    mov al, '.'\n    stosb\n    mov al, '0'\n    stosb\n    stosb\n    jmp .scan\n"@
        + ".flush:\n    mov ecx, -11\n    call GetStdHandle\n    mov rcx, rax\n    lea rdx, [rel _printf_buf]\n    lea rax, [rel _printf_buf]\n    mov r8, rdi\n    sub r8, rax\n    lea r9, [rbp-8]\n    mov qword [rsp+32], 0\n    call WriteFile\n    add rsp, 128\n    pop rbp\n    ret\n"@
        + ".itoa:\n    push rdi\n    lea rdi, [rel _printf_tmp+63]\n    mov byte [rdi], 0\n    mov rbx, 10\n    mov r10, rax\n    test rax, rax\n    jns .digits\n    neg rax\n.digits:\n    xor rdx, rdx\n    div rbx\n    add dl, '0'\n    dec rdi\n    mov [rdi], dl\n    test rax, rax\n    jnz .digits\n    test r10, r10\n    jns .sign_done\n    dec rdi\n    mov byte [rdi], '-'\n.sign_done:\n    mov rsi, rdi\n    pop rdi\n.out_copy:\n    lodsb\n    test al, al\n    jz .itoa_done\n    stosb\n    jmp .out_copy\n.itoa_done:\n    ret\n"@
}

/// Executable form of [`spec_printf_helper_text`].
pub fn printf_helper_text() -> (s: String)
    ensures
        s@ == spec_printf_helper_text(),
{
    let mut s = String::new();
    s.append(
        "section .bss\n_printf_buf resb 4096\n_printf_tmp resb 64\nsection .text\n_printf:\n    push rbp\n    mov rbp, rsp\n    sub rsp, 128\n    mov [rbp+16], rdx\n    mov [rbp+24], r8\n    mov [rbp+32], r9\n    lea rsi, [rcx]\n    lea rdi, [rel _printf_buf]\n    lea r12, [rbp+16]\n",
    );
    s.append(
        ".scan:\n    lodsb\n    test al, al\n    jz .flush\n    cmp al, '%'\n    jne .emit_char\n    lodsb\n    cmp al, 'd'\n    je .int_arg\n    cmp al, 's'\n    je .str_arg\n    cmp al, 'f'\n    je .float_arg\n    cmp al, '%'\n    je .emit_char\n    jmp .scan\n.emit_char:\n    stosb\n    jmp .scan\n",
    );
    s.append(
        ".int_arg:\n    mov rax, [r12]\n    add r12, 8\n    call .itoa\n    jmp .scan\n.str_arg:\n    mov r9, [r12]\n    add r12, 8\n.str_copy:\n    mov al, [r9]\n    test al, al\n    jz .scan\n    stosb\n    inc r9\n    jmp .str_copy\n.float_arg:\n    mov rax, [r12]\n    add r12, 8\n    call .itoa\n    mov al, '.'\n    stosb\n    mov al, '0'\n    stosb\n    stosb\n    jmp .scan\n",
    );
    s.append(
        ".flush:\n    mov ecx, -11\n    call GetStdHandle\n    mov rcx, rax\n    lea rdx, [rel _printf_buf]\n    lea rax, [rel _printf_buf]\n    mov r8, rdi\n    sub r8, rax\n    lea r9, [rbp-8]\n    mov qword [rsp+32], 0\n    call WriteFile\n    add rsp, 128\n    pop rbp\n    ret\n",
    );
    s.append(
        ".itoa:\n    push rdi\n    lea rdi, [rel _printf_tmp+63]\n    mov byte [rdi], 0\n    mov rbx, 10\n    mov r10, rax\n    test rax, rax\n    jns .digits\n    neg rax\n.digits:\n    xor rdx, rdx\n    div rbx\n    add dl, '0'\n    dec rdi\n    mov [rdi], dl\n    test rax, rax\n    jnz .digits\n    test r10, r10\n    jns .sign_done\n    dec rdi\n    mov byte [rdi], '-'\n.sign_done:\n    mov rsi, rdi\n    pop rdi\n.out_copy:\n    lodsb\n    test al, al\n    jz .itoa_done\n    stosb\n    jmp .out_copy\n.itoa_done:\n    ret\n",
    );
    s
}

/// Binds a function's parameters: one 8-byte slot per parameter,
/// stored from its class's next ABI argument register in declaration
/// order.
#[verifier::spinoff_prover]
#[verifier::loop_isolation(false)]
#[verifier::rlimit(100)]
fn bind_params_in(
    p: TargetPlatform,
    frame: &mut crate::frame::Frame,
    params: &Vec<Param>,
) -> (r: Result<Vec<Instr>, CodegenError>)
    ensures
        ({
            let (fr2, rp) = spec_bind_params(p, old(frame)@, *params, 0, 0, 0);
            &&& final(frame)@ == fr2
            &&& match (r, rp) {
                (Ok(v), Ok(c)) => v@ == c,
                (Err(a), Err(b)) => a == b,
                _ => false,
            }
        }),
{
    let ghost fr0 = frame@;
    let mut pcode: Vec<Instr> = Vec::new();
    let mut ii: usize = 0;
    let mut fi: usize = 0;
    let mut i: usize = 0;
    proof {
        assert(pcode@ =~= Seq::<Instr>::empty());
    }
    while i < params.len()
        invariant
            0 <= i <= params@.len(),
            ii + fi == i,
            spec_bind_params(p, fr0, *params, 0, 0, 0) == (match spec_bind_params(
                p,
                frame@,
                *params,
                i as int,
                ii as int,
                fi as int,
            ) {
                (f3, Ok(rest)) => (f3, Ok::<_, CodegenError>(pcode@ + rest)),
                (f3, Err(er)) => (f3, Err(er)),
            }),
        decreases params@.len() - i,
    {
        let ghost pcode0 = pcode@;
        if frame.size() >= FRAME_LIMIT {
            return Err(CodegenError::UnsupportedStatement);
        }
        let isf = params[i].ty.is_float();
        if isf {
            let fregs = get_float_arg_registers();
            if fi >= fregs.len() {
                return Err(
                    CodegenError::ArgumentBindingError(ArgumentFault::TooManyFloatArguments),
                );
            }
            let off = frame.declare(params[i].name.clone(), copy_type(&params[i].ty));
            pcode.push(Instr::SubRsp(8));
            pcode.push(Instr::StoreF(off, fregs[fi]));
            fi = fi + 1;
            proof {
                let rest1 = spec_bind_params(
                    p,
                    frame@,
                    *params,
                    i as int + 1,
                    ii as int,
                    fi as int,
                );
                if rest1.1 is Ok {
                    assert(pcode0 + (seq![
                        Instr::SubRsp(8),
                        Instr::StoreF(off, spec_float_arg_regs()[fi - 1]),
                    ] + rest1.1->Ok_0) =~= pcode@ + rest1.1->Ok_0);
                }
            }
        } else {
            let iregs = get_arg_registers(p);
            if ii >= iregs.len() {
                return Err(CodegenError::UnsupportedStatement);
            }
            let off = frame.declare(params[i].name.clone(), copy_type(&params[i].ty));
            pcode.push(Instr::SubRsp(8));
            pcode.push(Instr::Store(off, iregs[ii]));
            ii = ii + 1;
            proof {
                let rest1 = spec_bind_params(
                    p,
                    frame@,
                    *params,
                    i as int + 1,
                    ii as int,
                    fi as int,
                );
                if rest1.1 is Ok {
                    assert(pcode0 + (seq![
                        Instr::SubRsp(8),
                        Instr::Store(off, spec_int_arg_regs(p)[ii - 1]),
                    ] + rest1.1->Ok_0) =~= pcode@ + rest1.1->Ok_0);
                }
            }
        }
        i = i + 1;
    }
    proof {
        assert(pcode@ + Seq::<Instr>::empty() =~= pcode@);
    }
    Ok(pcode)
}

impl Codegen {
    /// Lowers the declaration at index `k` of the program.
    #[verifier::spinoff_prover]
    #[verifier::loop_isolation(false)]
    #[verifier::rlimit(100)]
    pub fn lower_function_at(&mut self, k: usize) -> (r: Result<Vec<Instr>, CodegenError>)
        requires
            k < old(self)@.program.len(),
        ensures
            ({
                let (m2, sr) = spec_lower_function(old(self)@, old(self)@.program[k as int]);
                &&& final(self)@ == m2
                &&& match (r, sr) {
                    (Ok(v), Ok(c)) => v@ == c,
                    (Err(a), Err(b)) => a == b,
                    _ => false,
                }
            }),
    {
        let ghost m_entry = self@;
        let ghost f = self@.program[k as int];
        let is_entry = self.program[k].name.eq(&("main".to_owned()));
        self.current_function = Some(self.program[k].name.clone());
        self.frame.reset();
        let ghost m1s = CgModel { frame: empty_frame(), cur_fn: Some(f.name@), ..m_entry };
        let mut code: Vec<Instr> = Vec::new();
        if is_entry {
            code.push(Instr::SymLabel(entry_sym(self.target_platform)));
        } else {
            code.push(Instr::FuncLabel(self.program[k].name.clone()));
        }
        code.push(Instr::Push(Reg::Rbp));
        code.push(Instr::MovReg(Reg::Rbp, Reg::Rsp));
        if is_entry && matches!(self.target_platform, TargetPlatform::Windows) {
            code.push(Instr::MovImm(Reg::Rcx, 65001));
            code.push(Instr::CallSym(FixedSym::SetConsoleOutputCP));
        }
        let pcode = match bind_params_in(
            self.target_platform,
            &mut self.frame,
            &self.program[k].params,
        ) {
            Ok(c) => c,
            Err(er) => {
                proof {
                    let (fr2, rp) = spec_bind_params(
                        m_entry.platform,
                        m1s.frame,
                        f.params,
                        0,
                        0,
                        0,
                    );
                    assert(self@ == CgModel { frame: fr2, ..m1s });
                }
                return Err(er);
            },
        };
        let ghost m2 = self@;
        proof {
            let (fr2, rp) = spec_bind_params(m_entry.platform, m1s.frame, f.params, 0, 0, 0);
            assert(m2 == CgModel { frame: fr2, ..m1s });
        }
        let cb = match lower_stmt_in(
            &self.program,
            self.target_platform,
            &mut self.pool,
            &mut self.frame,
            &mut self.label_counter,
            &mut self.loop_stack,
            &self.current_function,
            &self.program[k].body,
        ) {
            Ok(c) => c,
            Err(er) => {
                proof {
                    lemma_lower_stmt_loops(m2, f.body);
                }
                return Err(er);
            },
        };
        proof {
            lemma_lower_stmt_loops(m2, f.body);
        }
        let ghost cbv = cb@;
        let mut cbm = cb;
        let ends_ret = cbm.len() > 0 && matches!(cbm[cbm.len() - 1], Instr::Ret);
        proof {
            if cbv.len() > 0 {
                assert(cbv.last() == cbv[cbv.len() - 1]);
            }
        }
        let mut pcodem = pcode;
        code.append(&mut pcodem);
        code.append(&mut cbm);
        if is_entry {
            code.push(Instr::Xor(Reg::Rax, Reg::Rax));
            let mut ex = exit_sequence(self.target_platform);
            code.append(&mut ex);
        } else {
            if !ends_ret {
                code.push(Instr::MovReg(Reg::Rsp, Reg::Rbp));
                code.push(Instr::Pop(Reg::Rbp));
                code.push(Instr::Ret);
            }
        }
        self.current_function = None;
        proof {
            let (m4, sr) = spec_lower_function(m_entry, f);
            assert(sr matches Ok(cs) && code@ =~= cs);
        }
        Ok(code)
    }

    /// Lowers every declared function in declaration order.
    #[verifier::spinoff_prover]
    #[verifier::loop_isolation(false)]
    #[verifier::rlimit(100)]
    fn lower_all_functions(&mut self) -> (r: Result<Vec<Instr>, CodegenError>)
        ensures
            ({
                let (m2, sr) = spec_lower_functions(old(self)@, old(self)@.program, 0);
                &&& final(self)@ == m2
                &&& match (r, sr) {
                    (Ok(v), Ok(c)) => v@ == c,
                    (Err(a), Err(b)) => a == b,
                    _ => false,
                }
            }),
    {
        let ghost m_h = self@;
        let ghost declsv = self@.program;
        let mut fcode: Vec<Instr> = Vec::new();
        let mut k: usize = 0;
        proof {
            assert(fcode@ =~= Seq::<Instr>::empty());
        }
        while k < self.program.len()
            invariant
                0 <= k <= self.program@.len(),
                declsv == self.program@,
                spec_lower_functions(m_h, declsv, 0) == (match spec_lower_functions(
                    self@,
                    declsv,
                    k as int,
                ) {
                    (m2, Ok(crest)) => (m2, Ok::<_, CodegenError>(fcode@ + crest)),
                    (m2, Err(er)) => (m2, Err(er)),
                }),
            decreases self.program@.len() - k,
        {
            let ghost fcode0 = fcode@;
            let ghost m_bk = self@;
            let c = match self.lower_function_at(k) {
                Ok(c) => c,
                Err(er) => {
                    proof {
                        lemma_lower_function_fields(m_bk, declsv[k as int]);
                    }
                    return Err(er);
                },
            };
            let ghost cv = c@;
            let mut cm = c;
            fcode.append(&mut cm);
            proof {
                lemma_lower_function_fields(m_bk, declsv[k as int]);
                let rest1 = spec_lower_functions(self@, declsv, k as int + 1);
                if rest1.1 is Ok {
                    assert(fcode0 + (cv + rest1.1->Ok_0) =~= fcode@ + rest1.1->Ok_0);
                }
            }
            k = k + 1;
        }
        proof {
            assert(fcode@ + Seq::<Instr>::empty() =~= fcode@);
        }
        Ok(fcode)
    }

    /// Generates the whole program: one data section, then one text
    /// section holding the header and every declared function in
    /// order, with the self-hosted formatter appended on the Windows
    /// path.
    #[verifier::spinoff_prover]
    #[verifier::loop_isolation(false)]
    #[verifier::rlimit(100)]
    pub fn generate(&mut self) -> (r: Result<String, CodegenError>)
        ensures
            ({
                let (m2, sr) = spec_text_instrs(old(self)@);
                &&& final(self)@ == m2
                &&& match (r, sr) {
                    (Ok(s), Ok(c)) => s@ == spec_render_data_segment(m2.pool)
                        + "section .text\n"@ + spec_render_instrs(c) + (
                    if old(self)@.platform is Windows {
                        spec_printf_helper_text()
                    } else {
                        Seq::<char>::empty()
                    }),
                    (Err(a), Err(b)) => a == b,
                    _ => false,
                }
            }),
    {
        let ghost m_h = self@;
        let hdr = header_instrs(self.target_platform);
        let fcode = match self.lower_all_functions() {
            Ok(c) => c,
            Err(er) => {
                return Err(er);
            },
        };
        let mut all = hdr;
        let mut fcodem = fcode;
        all.append(&mut fcodem);
        proof {
            lemma_lower_functions_fields(m_h, m_h.program, 0);
            let (m2, sr) = spec_text_instrs(m_h);
            assert(sr matches Ok(cs) && all@ =~= cs);
            assert(self@ == m2);
        }
        let mut out = self.pool.render_data_segment();
        let ghost datav = out@;
        out.append("section .text\n");
        push_instrs(&mut out, &all);
        if matches!(self.target_platform, TargetPlatform::Windows) {
            let helper = printf_helper_text();
            out.append(helper.as_str());
        }
        proof {
            let (m2, sr) = spec_text_instrs(m_h);
            match sr {
                Ok(cs) => {
                    assert(datav == spec_render_data_segment(m2.pool));
                    assert(spec_render_instrs(all@) == spec_render_instrs(cs));
                    if m_h.platform is Windows {
                        assert(out@ =~= datav + "section .text\n"@ + spec_render_instrs(all@)
                            + spec_printf_helper_text());
                    } else {
                        assert(out@ =~= datav + "section .text\n"@ + spec_render_instrs(all@));
                    }
                    assert(out@ =~= spec_render_data_segment(m2.pool) + "section .text\n"@
                        + spec_render_instrs(cs) + (if m_h.platform is Windows {
                        spec_printf_helper_text()
                    } else {
                        Seq::<char>::empty()
                    }));
                },
                Err(_) => {
                },
            }
        }
        Ok(out)
    }
}

} // verus!
