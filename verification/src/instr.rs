//! Structured instructions and their rendering in the target
//! assembler dialect.
//!
//! Lowering produces values of [`Instr`]; the renderer prints one
//! line per instruction.  Keeping instructions structured lets the
//! rest of the backend reason about code shape instead of raw text.

use vstd::prelude::*;
use vstd::string::StringExecFns;
use crate::text::{spec_dec_nat, spec_dec_int, push_dec_u64, push_dec_i64};

verus! {

/// General-purpose register.
#[derive(Clone, Copy, Debug, PartialEq, Eq, Structural)]
pub enum Reg {
    Rax,
    Rbx,
    Rcx,
    Rdx,
    Rsi,
    Rdi,
    Rsp,
    Rbp,
    R8,
    R9,
}

/// SSE register, used for float values.
#[derive(Clone, Copy, Debug, PartialEq, Eq, Structural)]
pub enum FReg {
    Xmm0,
    Xmm1,
    Xmm2,
    Xmm3,
}

/// Condition of a conditional-set instruction.
#[derive(Clone, Copy, Debug, PartialEq, Eq, Structural)]
pub enum Cond {
    E,
    Ne,
    G,
    L,
    Ge,
    Le,
}

/// A symbol of the fixed runtime vocabulary: entry-point labels and
/// the external OS or library entry points the generated code needs.
#[derive(Clone, Copy, Debug, PartialEq, Eq, Structural)]
pub enum FixedSym {
    /// `main`
    Main,
    /// `_start`
    Start,
    /// `_main`
    UnderMain,
    /// `ExitProcess`
    ExitProcess,
    /// `printf`
    Printf,
    /// `_printf`: the platform library's `printf` on the Macos
    /// target, and the label of the self-hosted formatter on the
    /// Windows path
    PrintfHelper,
    /// `_exit`
    ExitC,
    /// `GetStdHandle`
    GetStdHandle,
    /// `WriteFile`
    WriteFile,
    /// `SetConsoleOutputCP`
    SetConsoleOutputCP,
}

/// Prefix family of a generated local label; the label counter's
/// value completes the name.
#[derive(Clone, Copy, Debug, PartialEq, Eq, Structural)]
pub enum LabelKind {
    WhileStart,
    WhileEnd,
    ForStart,
    ForEnd,
    ForInStart,
    ForInEnd,
    IfElse,
    IfEnd,
    MatchCase,
    MatchEnd,
}

/// One assembly line.  Slots are addressed as `[rbp - offset]`; data
/// labels carry the pool index of the constant they refer to.
#[derive(Debug)]
pub enum Instr {
    /// `name:` for a fixed symbol
    SymLabel(FixedSym),
    /// `name:` for a declared function
    FuncLabel(String),
    /// `PREFIX_n:`
    LocalLabel(LabelKind, u64),
    /// `    global name`
    Global(FixedSym),
    /// external-symbol declaration for `name`
    ExternSym(FixedSym),
    /// `    mov r, v`
    MovImm(Reg, i64),
    /// `    mov a, b`
    MovReg(Reg, Reg),
    /// `    mov r, [rbp - off]`
    Load(Reg, u64),
    /// `    mov [rbp - off], r`
    Store(u64, Reg),
    /// `    lea r, [rel str_idx]`
    LeaStr(Reg, u64),
    /// `    movsd f, [rel float_idx]`
    LoadFData(FReg, u64),
    /// `    movsd f, [rbp - off]`
    LoadF(FReg, u64),
    /// `    movsd [rbp - off], f`
    StoreF(u64, FReg),
    /// `    movsd a, b`
    MovF(FReg, FReg),
    /// `    movq r, f`
    MovqRegF(Reg, FReg),
    /// `    push r`
    Push(Reg),
    /// `    pop r`
    Pop(Reg),
    /// `    add a, b`
    AddReg(Reg, Reg),
    /// `    sub a, b`
    SubReg(Reg, Reg),
    /// `    imul a, b`
    ImulReg(Reg, Reg),
    /// `    cqo`
    Cqo,
    /// `    idiv r`
    Idiv(Reg),
    /// `    addsd a, b`
    AddF(FReg, FReg),
    /// `    subsd a, b`
    SubF(FReg, FReg),
    /// `    mulsd a, b`
    MulF(FReg, FReg),
    /// `    divsd a, b`
    DivF(FReg, FReg),
    /// `    neg r`
    Neg(Reg),
    /// `    test a, b`
    Test(Reg, Reg),
    /// `    xor a, b`
    Xor(Reg, Reg),
    /// `    cmp r, v`
    CmpImm(Reg, i64),
    /// `    cmp a, b`
    Cmp(Reg, Reg),
    /// `    setcc al`
    Setcc(Cond),
    /// `    movzx rax, al`
    MovzxRaxAl,
    /// `    inc qword [rbp - off]`
    IncSlot(u64),
    /// `    dec qword [rbp - off]`
    DecSlot(u64),
    /// `    jmp PREFIX_n`
    Jmp(LabelKind, u64),
    /// `    je PREFIX_n`
    Je(LabelKind, u64),
    /// `    jge PREFIX_n`
    Jge(LabelKind, u64),
    /// `    call sym` for a fixed symbol
    CallSym(FixedSym),
    /// `    call name` for a declared function
    CallFn(String),
    /// `    ret`
    Ret,
    /// `    syscall`
    Syscall,
    /// `    add rsp, n`
    AddRsp(u64),
    /// `    sub rsp, n`
    SubRsp(u64),
    /// `    and a, b`
    AndReg(Reg, Reg),
    /// `    or a, b`
    OrReg(Reg, Reg),
    /// `    imul r, n`
    ImulImm(Reg, u64),
    /// `    mov a, [b]`
    LoadInd(Reg, Reg),
    /// `    lea r, [rel arr_idx]`
    LeaArr(Reg, u64),
}

/// Name of a general-purpose register.
pub open spec fn spec_reg_name(r: Reg) -> Seq<char> {
    match r {
        Reg::Rax => "rax"@,
        Reg::Rbx => "rbx"@,
        Reg::Rcx => "rcx"@,
        Reg::Rdx => "rdx"@,
        Reg::Rsi => "rsi"@,
        Reg::Rdi => "rdi"@,
        Reg::Rsp => "rsp"@,
        Reg::Rbp => "rbp"@,
        Reg::R8 => "r8"@,
        Reg::R9 => "r9"@,
    }
}

/// Name of an SSE register.
pub open spec fn spec_freg_name(f: FReg) -> Seq<char> {
    match f {
        FReg::Xmm0 => "xmm0"@,
        FReg::Xmm1 => "xmm1"@,
        FReg::Xmm2 => "xmm2"@,
        FReg::Xmm3 => "xmm3"@,
    }
}

/// Mnemonic suffix of a condition.
pub open spec fn spec_cond_name(c: Cond) -> Seq<char> {
    match c {
        Cond::E => "e"@,
        Cond::Ne => "ne"@,
        Cond::G => "g"@,
        Cond::L => "l"@,
        Cond::Ge => "ge"@,
        Cond::Le => "le"@,
    }
}

/// Name of a fixed symbol.
pub open spec fn spec_sym_name(s: FixedSym) -> Seq<char> {
    match s {
        FixedSym::Main => "main"@,
        FixedSym::Start => "_start"@,
        FixedSym::UnderMain => "_main"@,
        FixedSym::ExitProcess => "ExitProcess"@,
        FixedSym::Printf => "printf"@,
        FixedSym::PrintfHelper => "_printf"@,
        FixedSym::ExitC => "_exit"@,
        FixedSym::GetStdHandle => "GetStdHandle"@,
        FixedSym::WriteFile => "WriteFile"@,
        FixedSym::SetConsoleOutputCP => "SetConsoleOutputCP"@,
    }
}

/// Prefix text of a label family.
pub open spec fn spec_label_prefix(k: LabelKind) -> Seq<char> {
    match k {
        LabelKind::WhileStart => "WHILE_START"@,
        LabelKind::WhileEnd => "WHILE_END"@,
        LabelKind::ForStart => "FOR_START"@,
        LabelKind::ForEnd => "FOR_END"@,
        LabelKind::ForInStart => "FOR_IN_START"@,
        LabelKind::ForInEnd => "FOR_IN_END"@,
        LabelKind::IfElse => "IF_ELSE"@,
        LabelKind::IfEnd => "IF_END"@,
        LabelKind::MatchCase => "MATCH_CASE"@,
        LabelKind::MatchEnd => "MATCH_END"@,
    }
}

/// Full text of a generated local label.
pub open spec fn spec_label_text(k: LabelKind, n: u64) -> Seq<char> {
    spec_label_prefix(k) + "_"@ + spec_dec_nat(n as nat)
}

/// `[rbp - off]`
pub open spec fn spec_slot_text(off: u64) -> Seq<char> {
    "[rbp - "@ + spec_dec_nat(off as nat) + "]"@
}

/// Rendered text of one instruction, newline-terminated.
pub open spec fn spec_render_instr(i: Instr) -> Seq<char> {
    match i {
        Instr::SymLabel(sy) => spec_sym_name(sy) + ":\n"@,
        Instr::FuncLabel(l) => l@ + ":\n"@,
        Instr::LocalLabel(k, n) => spec_label_text(k, n) + ":\n"@,
        Instr::Global(sy) => "    global "@ + spec_sym_name(sy) + "\n"@,
        Instr::ExternSym(sy) => "    ext"@ + "ern "@ + spec_sym_name(sy) + "\n"@,
        Instr::MovImm(r, v) => "    mov "@ + spec_reg_name(r) + ", "@ + spec_dec_int(v as int)
            + "\n"@,
        Instr::MovReg(a, b) => "    mov "@ + spec_reg_name(a) + ", "@ + spec_reg_name(b) + "\n"@,
        Instr::Load(r, off) => "    mov "@ + spec_reg_name(r) + ", "@ + spec_slot_text(off)
            + "\n"@,
        Instr::Store(off, r) => "    mov "@ + spec_slot_text(off) + ", "@ + spec_reg_name(r)
            + "\n"@,
        Instr::LeaStr(r, idx) => "    lea "@ + spec_reg_name(r) + ", [rel str_"@ + spec_dec_nat(
            idx as nat,
        ) + "]\n"@,
        Instr::LoadFData(f, idx) => "    movsd "@ + spec_freg_name(f) + ", [rel float_"@
            + spec_dec_nat(idx as nat) + "]\n"@,
        Instr::LoadF(f, off) => "    movsd "@ + spec_freg_name(f) + ", "@ + spec_slot_text(off)
            + "\n"@,
        Instr::StoreF(off, f) => "    movsd "@ + spec_slot_text(off) + ", "@ + spec_freg_name(f)
            + "\n"@,
        Instr::MovF(a, b) => "    movsd "@ + spec_freg_name(a) + ", "@ + spec_freg_name(b) + "\n"@,
        Instr::MovqRegF(r, f) => "    movq "@ + spec_reg_name(r) + ", "@ + spec_freg_name(f)
            + "\n"@,
        Instr::Push(r) => "    push "@ + spec_reg_name(r) + "\n"@,
        Instr::Pop(r) => "    pop "@ + spec_reg_name(r) + "\n"@,
        Instr::AddReg(a, b) => "    add "@ + spec_reg_name(a) + ", "@ + spec_reg_name(b) + "\n"@,
        Instr::SubReg(a, b) => "    sub "@ + spec_reg_name(a) + ", "@ + spec_reg_name(b) + "\n"@,
        Instr::ImulReg(a, b) => "    imul "@ + spec_reg_name(a) + ", "@ + spec_reg_name(b) + "\n"@,
        Instr::Cqo => "    cqo\n"@,
        Instr::Idiv(r) => "    idiv "@ + spec_reg_name(r) + "\n"@,
        Instr::AddF(a, b) => "    addsd "@ + spec_freg_name(a) + ", "@ + spec_freg_name(b) + "\n"@,
        Instr::SubF(a, b) => "    subsd "@ + spec_freg_name(a) + ", "@ + spec_freg_name(b) + "\n"@,
        Instr::MulF(a, b) => "    mulsd "@ + spec_freg_name(a) + ", "@ + spec_freg_name(b) + "\n"@,
        Instr::DivF(a, b) => "    divsd "@ + spec_freg_name(a) + ", "@ + spec_freg_name(b) + "\n"@,
        Instr::Neg(r) => "    neg "@ + spec_reg_name(r) + "\n"@,
        Instr::Test(a, b) => "    test "@ + spec_reg_name(a) + ", "@ + spec_reg_name(b) + "\n"@,
        Instr::Xor(a, b) => "    xor "@ + spec_reg_name(a) + ", "@ + spec_reg_name(b) + "\n"@,
        Instr::CmpImm(r, v) => "    cmp "@ + spec_reg_name(r) + ", "@ + spec_dec_int(v as int)
            + "\n"@,
        Instr::Cmp(a, b) => "    cmp "@ + spec_reg_name(a) + ", "@ + spec_reg_name(b) + "\n"@,
        Instr::Setcc(c) => "    set"@ + spec_cond_name(c) + " al\n"@,
        Instr::MovzxRaxAl => "    movzx rax, al\n"@,
        Instr::IncSlot(off) => "    inc qword "@ + spec_slot_text(off) + "\n"@,
        Instr::DecSlot(off) => "    dec qword "@ + spec_slot_text(off) + "\n"@,
        Instr::Jmp(k, n) => "    jmp "@ + spec_label_text(k, n) + "\n"@,
        Instr::Je(k, n) => "    je "@ + spec_label_text(k, n) + "\n"@,
        Instr::Jge(k, n) => "    jge "@ + spec_label_text(k, n) + "\n"@,
        Instr::CallSym(sy) => "    call "@ + spec_sym_name(sy) + "\n"@,
        Instr::CallFn(l) => "    call "@ + l@ + "\n"@,
        Instr::Ret => "    ret\n"@,
        Instr::Syscall => "    syscall\n"@,
        Instr::AddRsp(n) => "    add rsp, "@ + spec_dec_nat(n as nat) + "\n"@,
        Instr::SubRsp(n) => "    sub rsp, "@ + spec_dec_nat(n as nat) + "\n"@,
        Instr::AndReg(a, b) => "    and "@ + spec_reg_name(a) + ", "@ + spec_reg_name(b) + "\n"@,
        Instr::OrReg(a, b) => "    or "@ + spec_reg_name(a) + ", "@ + spec_reg_name(b) + "\n"@,
        Instr::ImulImm(r, n) => "    imul "@ + spec_reg_name(r) + ", "@ + spec_dec_nat(n as nat)
            + "\n"@,
        Instr::LoadInd(a, b) => "    mov "@ + spec_reg_name(a) + ", ["@ + spec_reg_name(b)
            + "]\n"@,
        Instr::LeaArr(r, idx) => "    lea "@ + spec_reg_name(r) + ", [rel arr_"@ + spec_dec_nat(
            idx as nat,
        ) + "]\n"@,
    }
}

/// Rendered text of the instructions from index `j` on.
pub open spec fn spec_render_instrs_from(instrs: Seq<Instr>, j: int) -> Seq<char>
    decreases instrs.len() - j,
{
    if j < 0 || j >= instrs.len() {
        Seq::empty()
    } else {
        spec_render_instr(instrs[j]) + spec_render_instrs_from(instrs, j + 1)
    }
}

/// Rendered text of an instruction sequence.
pub open spec fn spec_render_instrs(instrs: Seq<Instr>) -> Seq<char> {
    spec_render_instrs_from(instrs, 0)
}

fn reg_str(r: Reg) -> (s: &'static str)
    ensures
        s@ == spec_reg_name(r),
{
    match r {
        Reg::Rax => "rax",
        Reg::Rbx => "rbx",
        Reg::Rcx => "rcx",
        Reg::Rdx => "rdx",
        Reg::Rsi => "rsi",
        Reg::Rdi => "rdi",
        Reg::Rsp => "rsp",
        Reg::Rbp => "rbp",
        Reg::R8 => "r8",
        Reg::R9 => "r9",
    }
}

fn freg_str(f: FReg) -> (s: &'static str)
    ensures
        s@ == spec_freg_name(f),
{
    match f {
        FReg::Xmm0 => "xmm0",
        FReg::Xmm1 => "xmm1",
        FReg::Xmm2 => "xmm2",
        FReg::Xmm3 => "xmm3",
    }
}

fn cond_str(c: Cond) -> (s: &'static str)
    ensures
        s@ == spec_cond_name(c),
{
    match c {
        Cond::E => "e",
        Cond::Ne => "ne",
        Cond::G => "g",
        Cond::L => "l",
        Cond::Ge => "ge",
        Cond::Le => "le",
    }
}

fn sym_str(sy: FixedSym) -> (s: &'static str)
    ensures
        s@ == spec_sym_name(sy),
{
    match sy {
        FixedSym::Main => "main",
        FixedSym::Start => "_start",
        FixedSym::UnderMain => "_main",
        FixedSym::ExitProcess => "ExitProcess",
        FixedSym::Printf => "printf",
        FixedSym::PrintfHelper => "_printf",
        FixedSym::ExitC => "_exit",
        FixedSym::GetStdHandle => "GetStdHandle",
        FixedSym::WriteFile => "WriteFile",
        FixedSym::SetConsoleOutputCP => "SetConsoleOutputCP",
    }
}

fn label_prefix_str(k: LabelKind) -> (s: &'static str)
    ensures
        s@ == spec_label_prefix(k),
{
    match k {
        LabelKind::WhileStart => "WHILE_START",
        LabelKind::WhileEnd => "WHILE_END",
        LabelKind::ForStart => "FOR_START",
        LabelKind::ForEnd => "FOR_END",
        LabelKind::ForInStart => "FOR_IN_START",
        LabelKind::ForInEnd => "FOR_IN_END",
        LabelKind::IfElse => "IF_ELSE",
        LabelKind::IfEnd => "IF_END",
        LabelKind::MatchCase => "MATCH_CASE",
        LabelKind::MatchEnd => "MATCH_END",
    }
}

/// Appends `PREFIX_n`.
fn push_label_text(out: &mut String, k: LabelKind, n: u64)
    ensures
        final(out)@ == old(out)@ + spec_label_text(k, n),
{
    out.append(label_prefix_str(k));
    out.append("_");
    push_dec_u64(out, n);
    proof {
        assert(out@ =~= old(out)@ + spec_label_text(k, n));
    }
}

/// Appends `[rbp - off]`.
fn push_slot(out: &mut String, off: u64)
    ensures
        final(out)@ == old(out)@ + spec_slot_text(off),
{
    out.append("[rbp - ");
    push_dec_u64(out, off);
    out.append("]");
    proof {
        assert(out@ =~= old(out)@ + spec_slot_text(off));
    }
}

#[verifier::rlimit(60)]
fn push_instr_g1(out: &mut String, i: &Instr)
    requires
        i is SymLabel || i is FuncLabel || i is LocalLabel || i is Global || i is ExternSym || i is MovImm || i is MovReg || i is Load || i is Store || i is LeaStr || i is LoadFData || i is LoadF,
    ensures
        final(out)@ == old(out)@ + spec_render_instr(*i),
{
    match i {
        Instr::SymLabel(sy) => {
            out.append(sym_str(*sy));
            out.append(":\n");
            proof {
                assert(out@ =~= old(out)@ + spec_render_instr(*i));
            }
        },
        Instr::FuncLabel(l) => {
            out.append(l.as_str());
            out.append(":\n");
            proof {
                assert(out@ =~= old(out)@ + spec_render_instr(*i));
            }
        },
        Instr::LocalLabel(k, n) => {
            push_label_text(out, *k, *n);
            out.append(":\n");
            proof {
                assert(out@ =~= old(out)@ + spec_render_instr(*i));
            }
        },
        Instr::Global(sy) => {
            out.append("    global ");
            out.append(sym_str(*sy));
            out.append("\n");
            proof {
                assert(out@ =~= old(out)@ + spec_render_instr(*i));
            }
        },
        Instr::ExternSym(sy) => {
            out.append("    ext");
            out.append("ern ");
            out.append(sym_str(*sy));
            out.append("\n");
            proof {
                assert(out@ =~= old(out)@ + spec_render_instr(*i));
            }
        },
        Instr::MovImm(r, v) => {
            out.append("    mov ");
            out.append(reg_str(*r));
            out.append(", ");
            push_dec_i64(out, *v);
            out.append("\n");
            proof {
                assert(out@ =~= old(out)@ + spec_render_instr(*i));
            }
        },
        Instr::MovReg(a, b) => {
            out.append("    mov ");
            out.append(reg_str(*a));
            out.append(", ");
            out.append(reg_str(*b));
            out.append("\n");
            proof {
                assert(out@ =~= old(out)@ + spec_render_instr(*i));
            }
        },
        Instr::Load(r, off) => {
            out.append("    mov ");
            out.append(reg_str(*r));
            out.append(", ");
            push_slot(out, *off);
            out.append("\n");
            proof {
                assert(out@ =~= old(out)@ + spec_render_instr(*i));
            }
        },
        Instr::Store(off, r) => {
            out.append("    mov ");
            push_slot(out, *off);
            out.append(", ");
            out.append(reg_str(*r));
            out.append("\n");
            proof {
                assert(out@ =~= old(out)@ + spec_render_instr(*i));
            }
        },
        Instr::LeaStr(r, idx) => {
            out.append("    lea ");
            out.append(reg_str(*r));
            out.append(", [rel str_");
            push_dec_u64(out, *idx);
            out.append("]\n");
            proof {
                assert(out@ =~= old(out)@ + spec_render_instr(*i));
            }
        },
        Instr::LoadFData(f, idx) => {
            out.append("    movsd ");
            out.append(freg_str(*f));
            out.append(", [rel float_");
            push_dec_u64(out, *idx);
            out.append("]\n");
            proof {
                assert(out@ =~= old(out)@ + spec_render_instr(*i));
            }
        },
        Instr::LoadF(f, off) => {
            out.append("    movsd ");
            out.append(freg_str(*f));
            out.append(", ");
            push_slot(out, *off);
            out.append("\n");
            proof {
                assert(out@ =~= old(out)@ + spec_render_instr(*i));
            }
        },
        _ => {
            proof {
                assert(false);
            }
        },
    }
}

#[verifier::rlimit(60)]
fn push_instr_g2(out: &mut String, i: &Instr)
    requires
        i is StoreF || i is MovF || i is MovqRegF || i is Push || i is Pop || i is AddReg || i is SubReg || i is ImulReg || i is Cqo || i is Idiv,
    ensures
        final(out)@ == old(out)@ + spec_render_instr(*i),
{
    match i {
        Instr::StoreF(off, f) => {
            out.append("    movsd ");
            push_slot(out, *off);
            out.append(", ");
            out.append(freg_str(*f));
            out.append("\n");
            proof {
                assert(out@ =~= old(out)@ + spec_render_instr(*i));
            }
        },
        Instr::MovF(a, b) => {
            out.append("    movsd ");
            out.append(freg_str(*a));
            out.append(", ");
            out.append(freg_str(*b));
            out.append("\n");
            proof {
                assert(out@ =~= old(out)@ + spec_render_instr(*i));
            }
        },
        Instr::MovqRegF(r, f) => {
            out.append("    movq ");
            out.append(reg_str(*r));
            out.append(", ");
            out.append(freg_str(*f));
            out.append("\n");
            proof {
                assert(out@ =~= old(out)@ + spec_render_instr(*i));
            }
        },
        Instr::Push(r) => {
            out.append("    push ");
            out.append(reg_str(*r));
            out.append("\n");
            proof {
                assert(out@ =~= old(out)@ + spec_render_instr(*i));
            }
        },
        Instr::Pop(r) => {
            out.append("    pop ");
            out.append(reg_str(*r));
            out.append("\n");
            proof {
                assert(out@ =~= old(out)@ + spec_render_instr(*i));
            }
        },
        Instr::AddReg(a, b) => {
            out.append("    add ");
            out.append(reg_str(*a));
            out.append(", ");
            out.append(reg_str(*b));
            out.append("\n");
            proof {
                assert(out@ =~= old(out)@ + spec_render_instr(*i));
            }
        },
        Instr::SubReg(a, b) => {
            out.append("    sub ");
            out.append(reg_str(*a));
            out.append(", ");
            out.append(reg_str(*b));
            out.append("\n");
            proof {
                assert(out@ =~= old(out)@ + spec_render_instr(*i));
            }
        },
        Instr::ImulReg(a, b) => {
            out.append("    imul ");
            out.append(reg_str(*a));
            out.append(", ");
            out.append(reg_str(*b));
            out.append("\n");
            proof {
                assert(out@ =~= old(out)@ + spec_render_instr(*i));
            }
        },
        Instr::Cqo => {
            out.append("    cqo\n");
            proof {
                assert(out@ =~= old(out)@ + spec_render_instr(*i));
            }
        },
        Instr::Idiv(r) => {
            out.append("    idiv ");
            out.append(reg_str(*r));
            out.append("\n");
            proof {
                assert(out@ =~= old(out)@ + spec_render_instr(*i));
            }
        },
        _ => {
            proof {
                assert(false);
            }
        },
    }
}

#[verifier::rlimit(60)]
fn push_instr_g3(out: &mut String, i: &Instr)
    requires
        i is AddF || i is SubF || i is MulF || i is DivF || i is Neg || i is Test || i is Xor || i is CmpImm || i is Cmp || i is Setcc,
    ensures
        final(out)@ == old(out)@ + spec_render_instr(*i),
{
    match i {
        Instr::AddF(a, b) => {
            out.append("    addsd ");
            out.append(freg_str(*a));
            out.append(", ");
            out.append(freg_str(*b));
            out.append("\n");
            proof {
                assert(out@ =~= old(out)@ + spec_render_instr(*i));
            }
        },
        Instr::SubF(a, b) => {
            out.append("    subsd ");
            out.append(freg_str(*a));
            out.append(", ");
            out.append(freg_str(*b));
            out.append("\n");
            proof {
                assert(out@ =~= old(out)@ + spec_render_instr(*i));
            }
        },
        Instr::MulF(a, b) => {
            out.append("    mulsd ");
            out.append(freg_str(*a));
            out.append(", ");
            out.append(freg_str(*b));
            out.append("\n");
            proof {
                assert(out@ =~= old(out)@ + spec_render_instr(*i));
            }
        },
        Instr::DivF(a, b) => {
            out.append("    divsd ");
            out.append(freg_str(*a));
            out.append(", ");
            out.append(freg_str(*b));
            out.append("\n");
            proof {
                assert(out@ =~= old(out)@ + spec_render_instr(*i));
            }
        },
        Instr::Neg(r) => {
            out.append("    neg ");
            out.append(reg_str(*r));
            out.append("\n");
            proof {
                assert(out@ =~= old(out)@ + spec_render_instr(*i));
            }
        },
        Instr::Test(a, b) => {
            out.append("    test ");
            out.append(reg_str(*a));
            out.append(", ");
            out.append(reg_str(*b));
            out.append("\n");
            proof {
                assert(out@ =~= old(out)@ + spec_render_instr(*i));
            }
        },
        Instr::Xor(a, b) => {
            out.append("    xor ");
            out.append(reg_str(*a));
            out.append(", ");
            out.append(reg_str(*b));
            out.append("\n");
            proof {
                assert(out@ =~= old(out)@ + spec_render_instr(*i));
            }
        },
        Instr::CmpImm(r, v) => {
            out.append("    cmp ");
            out.append(reg_str(*r));
            out.append(", ");
            push_dec_i64(out, *v);
            out.append("\n");
            proof {
                assert(out@ =~= old(out)@ + spec_render_instr(*i));
            }
        },
        Instr::Cmp(a, b) => {
            out.append("    cmp ");
            out.append(reg_str(*a));
            out.append(", ");
            out.append(reg_str(*b));
            out.append("\n");
            proof {
                assert(out@ =~= old(out)@ + spec_render_instr(*i));
            }
        },
        Instr::Setcc(c) => {
            out.append("    set");
            out.append(cond_str(*c));
            out.append(" al\n");
            proof {
                assert(out@ =~= old(out)@ + spec_render_instr(*i));
            }
        },
        _ => {
            proof {
                assert(false);
            }
        },
    }
}

#[verifier::rlimit(60)]
fn push_instr_g4(out: &mut String, i: &Instr)
    requires
        i is MovzxRaxAl || i is IncSlot || i is DecSlot || i is Jmp || i is Je || i is Jge || i is CallSym || i is CallFn || i is Ret || i is Syscall || i is AddRsp || i is SubRsp,
    ensures
        final(out)@ == old(out)@ + spec_render_instr(*i),
{
    match i {
        Instr::MovzxRaxAl => {
            out.append("    movzx rax, al\n");
            proof {
                assert(out@ =~= old(out)@ + spec_render_instr(*i));
            }
        },
        Instr::IncSlot(off) => {
            out.append("    inc qword ");
            push_slot(out, *off);
            out.append("\n");
            proof {
                assert(out@ =~= old(out)@ + spec_render_instr(*i));
            }
        },
        Instr::DecSlot(off) => {
            out.append("    dec qword ");
            push_slot(out, *off);
            out.append("\n");
            proof {
                assert(out@ =~= old(out)@ + spec_render_instr(*i));
            }
        },
        Instr::Jmp(k, n) => {
            out.append("    jmp ");
            push_label_text(out, *k, *n);
            out.append("\n");
            proof {
                assert(out@ =~= old(out)@ + spec_render_instr(*i));
            }
        },
        Instr::Je(k, n) => {
            out.append("    je ");
            push_label_text(out, *k, *n);
            out.append("\n");
            proof {
                assert(out@ =~= old(out)@ + spec_render_instr(*i));
            }
        },
        Instr::Jge(k, n) => {
            out.append("    jge ");
            push_label_text(out, *k, *n);
            out.append("\n");
            proof {
                assert(out@ =~= old(out)@ + spec_render_instr(*i));
            }
        },
        Instr::CallSym(sy) => {
            out.append("    call ");
            out.append(sym_str(*sy));
            out.append("\n");
            proof {
                assert(out@ =~= old(out)@ + spec_render_instr(*i));
            }
        },
        Instr::CallFn(l) => {
            out.append("    call ");
            out.append(l.as_str());
            out.append("\n");
            proof {
                assert(out@ =~= old(out)@ + spec_render_instr(*i));
            }
        },
        Instr::Ret => {
            out.append("    ret\n");
            proof {
                assert(out@ =~= old(out)@ + spec_render_instr(*i));
            }
        },
        Instr::Syscall => {
            out.append("    syscall\n");
            proof {
                assert(out@ =~= old(out)@ + spec_render_instr(*i));
            }
        },
        Instr::AddRsp(n) => {
            out.append("    add rsp, ");
            push_dec_u64(out, *n);
            out.append("\n");
            proof {
                assert(out@ =~= old(out)@ + spec_render_instr(*i));
            }
        },
        Instr::SubRsp(n) => {
            out.append("    sub rsp, ");
            push_dec_u64(out, *n);
            out.append("\n");
            proof {
                assert(out@ =~= old(out)@ + spec_render_instr(*i));
            }
        },
        _ => {
            proof {
                assert(false);
            }
        },
    }
}

#[verifier::rlimit(60)]
fn push_instr_g5(out: &mut String, i: &Instr)
    requires
        i is AndReg || i is OrReg || i is ImulImm || i is LoadInd || i is LeaArr,
    ensures
        final(out)@ == old(out)@ + spec_render_instr(*i),
{
    match i {
        Instr::AndReg(a, b) => {
            out.append("    and ");
            out.append(reg_str(*a));
            out.append(", ");
            out.append(reg_str(*b));
            out.append("\n");
            proof {
                assert(out@ =~= old(out)@ + spec_render_instr(*i));
            }
        },
        Instr::OrReg(a, b) => {
            out.append("    or ");
            out.append(reg_str(*a));
            out.append(", ");
            out.append(reg_str(*b));
            out.append("\n");
            proof {
                assert(out@ =~= old(out)@ + spec_render_instr(*i));
            }
        },
        Instr::ImulImm(r, n) => {
            out.append("    imul ");
            out.append(reg_str(*r));
            out.append(", ");
            push_dec_u64(out, *n);
            out.append("\n");
            proof {
                assert(out@ =~= old(out)@ + spec_render_instr(*i));
            }
        },
        Instr::LoadInd(a, b) => {
            out.append("    mov ");
            out.append(reg_str(*a));
            out.append(", [");
            out.append(reg_str(*b));
            out.append("]\n");
            proof {
                assert(out@ =~= old(out)@ + spec_render_instr(*i));
            }
        },
        Instr::LeaArr(r, idx) => {
            out.append("    lea ");
            out.append(reg_str(*r));
            out.append(", [rel arr_");
            push_dec_u64(out, *idx);
            out.append("]\n");
            proof {
                assert(out@ =~= old(out)@ + spec_render_instr(*i));
            }
        },
        _ => {
            proof {
                assert(false);
            }
        },
    }
}

/// Appends the rendering of one instruction to `out`.
pub fn push_instr(out: &mut String, i: &Instr)
    ensures
        final(out)@ == old(out)@ + spec_render_instr(*i),
{
    match i {
        Instr::SymLabel(..) | Instr::FuncLabel(..) | Instr::LocalLabel(..) | Instr::Global(..) | Instr::ExternSym(..) | Instr::MovImm(..) | Instr::MovReg(..) | Instr::Load(..) | Instr::Store(..) | Instr::LeaStr(..) | Instr::LoadFData(..) | Instr::LoadF(..) => push_instr_g1(out, i),
        Instr::StoreF(..) | Instr::MovF(..) | Instr::MovqRegF(..) | Instr::Push(..) | Instr::Pop(..) | Instr::AddReg(..) | Instr::SubReg(..) | Instr::ImulReg(..) | Instr::Cqo | Instr::Idiv(..) => push_instr_g2(out, i),
        Instr::AddF(..) | Instr::SubF(..) | Instr::MulF(..) | Instr::DivF(..) | Instr::Neg(..) | Instr::Test(..) | Instr::Xor(..) | Instr::CmpImm(..) | Instr::Cmp(..) | Instr::Setcc(..) => push_instr_g3(out, i),
        Instr::MovzxRaxAl | Instr::IncSlot(..) | Instr::DecSlot(..) | Instr::Jmp(..) | Instr::Je(..) | Instr::Jge(..) | Instr::CallSym(..) | Instr::CallFn(..) | Instr::Ret | Instr::Syscall | Instr::AddRsp(..) | Instr::SubRsp(..) => push_instr_g4(out, i),
        Instr::AndReg(..) | Instr::OrReg(..) | Instr::ImulImm(..) | Instr::LoadInd(..) | Instr::LeaArr(..) => push_instr_g5(out, i),
    }
}

/// Appends the rendering of every instruction in order.
pub fn push_instrs(out: &mut String, instrs: &Vec<Instr>)
    ensures
        final(out)@ == old(out)@ + spec_render_instrs(instrs@),
{
    let mut j: usize = 0;
    while j < instrs.len()
        invariant
            0 <= j <= instrs@.len(),
            out@ + spec_render_instrs_from(instrs@, j as int) == old(out)@
                + spec_render_instrs_from(instrs@, 0),
        decreases instrs@.len() - j,
    {
        let ghost before = out@;
        push_instr(out, &instrs[j]);
        proof {
            assert(out@ + spec_render_instrs_from(instrs@, j as int + 1) =~= before
                + spec_render_instrs_from(instrs@, j as int));
        }
        j = j + 1;
    }
    proof {
        assert(out@ + Seq::<char>::empty() =~= out@);
    }
}

} // verus!
