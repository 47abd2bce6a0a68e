//! Backend session: the one in-progress compilation's own state.
//!
//! All ambient state of code generation — the literal pool, the
//! active frame, the label counter and the stack of enclosing loop
//! contexts — lives in one session value passed explicitly into every
//! lowering call.

use vstd::prelude::*;
use crate::ast::{FunctionDecl, TargetPlatform, Type};
use crate::frame::{Frame, FrameModel, empty_frame};
use crate::instr::{Instr, Reg, FReg, FixedSym, LabelKind};
use crate::pool::{LiteralPool, PoolEntry};

verus! {

/// Highest frame size the backend accepts; one more slot past this
/// limit is refused rather than grown.
pub const FRAME_LIMIT: u64 = 0x7FFFFFF8;

/// Highest label-counter value the backend accepts.
pub const LABEL_LIMIT: u64 = 0xFFFFFFFFFFFFFFF0;

/// Branch targets of one enclosing loop: `continue` jumps to the
/// start label, `break` to the end label.
#[derive(Clone, Copy, Debug, PartialEq, Eq, Structural)]
pub struct LoopContext {
    pub start_kind: LabelKind,
    pub start_id: u64,
    pub end_kind: LabelKind,
    pub end_id: u64,
}

/// Mathematical model of a backend session.
pub struct CgModel {
    pub program: Seq<FunctionDecl>,
    pub platform: TargetPlatform,
    pub pool: Seq<PoolEntry>,
    pub frame: FrameModel,
    pub labels: int,
    pub loops: Seq<LoopContext>,
    pub cur_fn: Option<Seq<char>>,
}

/// The code generator for one compilation unit.
#[derive(Debug)]
pub struct Codegen {
    /// The type-annotated declaration list being compiled.
    pub program: Vec<FunctionDecl>,
    /// Selected target operating system.
    pub target_platform: TargetPlatform,
    pub pool: LiteralPool,
    pub frame: Frame,
    pub label_counter: u64,
    pub loop_stack: Vec<LoopContext>,
    pub current_function: Option<String>,
}

impl View for Codegen {
    type V = CgModel;

    open spec fn view(&self) -> CgModel {
        CgModel {
            program: self.program@,
            platform: self.target_platform,
            pool: self.pool@,
            frame: self.frame@,
            labels: self.label_counter as int,
            loops: self.loop_stack@,
            cur_fn: match self.current_function {
                Some(n) => Some(n@),
                None => None,
            },
        }
    }
}

/// The session model right after construction.
pub open spec fn spec_fresh_session(
    program: Seq<FunctionDecl>,
    platform: TargetPlatform,
) -> CgModel {
    CgModel {
        program,
        platform,
        pool: Seq::empty(),
        frame: empty_frame(),
        labels: 0,
        loops: Seq::empty(),
        cur_fn: None,
    }
}

impl Codegen {
    /// A fresh session over `program` for `platform`.
    pub fn new(program: Vec<FunctionDecl>, platform: TargetPlatform) -> (cg: Self)
        ensures
            cg@ == spec_fresh_session(cg@.program, platform),
            cg@.program == program@,
    {
        let cg = Codegen {
            program,
            target_platform: platform,
            pool: LiteralPool::new(),
            frame: Frame::new(),
            label_counter: 0,
            loop_stack: Vec::new(),
            current_function: None,
        };
        proof {
            assert(cg@.loops =~= Seq::<LoopContext>::empty());
            assert(cg@ =~= spec_fresh_session(cg@.program, platform));
        }
        cg
    }

    /// Draws the next unique label id.
    pub fn gen_label(&mut self) -> (n: u64)
        requires
            old(self)@.labels < u64::MAX,
        ensures
            final(self)@ == (CgModel { labels: old(self)@.labels + 1, ..old(self)@ }),
            n as int == old(self)@.labels + 1,
    {
        self.label_counter = self.label_counter + 1;
        self.label_counter
    }
}

/// The integer argument registers of the platform's calling
/// convention, in order.
pub open spec fn spec_int_arg_regs(p: TargetPlatform) -> Seq<Reg> {
    match p {
        TargetPlatform::Windows => seq![Reg::Rcx, Reg::Rdx, Reg::R8, Reg::R9],
        _ => seq![Reg::Rdi, Reg::Rsi, Reg::Rdx, Reg::Rcx, Reg::R8, Reg::R9],
    }
}

/// The float argument registers, in order.
pub open spec fn spec_float_arg_regs() -> Seq<FReg> {
    seq![FReg::Xmm0, FReg::Xmm1, FReg::Xmm2, FReg::Xmm3]
}

/// Executable form of [`spec_int_arg_regs`].
pub fn get_arg_registers(p: TargetPlatform) -> (v: Vec<Reg>)
    ensures
        v@ == spec_int_arg_regs(p),
{
    let v = match p {
        TargetPlatform::Windows => vec![Reg::Rcx, Reg::Rdx, Reg::R8, Reg::R9],
        _ => vec![Reg::Rdi, Reg::Rsi, Reg::Rdx, Reg::Rcx, Reg::R8, Reg::R9],
    };
    proof {
        assert(v@ =~= spec_int_arg_regs(p));
    }
    v
}

/// Executable form of [`spec_float_arg_regs`].
pub fn get_float_arg_registers() -> (v: Vec<FReg>)
    ensures
        v@ == spec_float_arg_regs(),
{
    let v = vec![FReg::Xmm0, FReg::Xmm1, FReg::Xmm2, FReg::Xmm3];
    proof {
        assert(v@ =~= spec_float_arg_regs());
    }
    v
}

/// The platform's entry-point symbol.
pub open spec fn spec_entry_sym(p: TargetPlatform) -> FixedSym {
    match p {
        TargetPlatform::Windows => FixedSym::Main,
        TargetPlatform::Linux => FixedSym::Start,
        TargetPlatform::Macos => FixedSym::UnderMain,
        TargetPlatform::Unknown => FixedSym::Main,
    }
}

/// Executable form of [`spec_entry_sym`].
pub fn entry_sym(p: TargetPlatform) -> (s: FixedSym)
    ensures
        s == spec_entry_sym(p),
{
    match p {
        TargetPlatform::Windows => FixedSym::Main,
        TargetPlatform::Linux => FixedSym::Start,
        TargetPlatform::Macos => FixedSym::UnderMain,
        TargetPlatform::Unknown => FixedSym::Main,
    }
}

/// The platform's process-exit sequence; the exit status is taken
/// from `rax`.
pub open spec fn spec_exit_sequence(p: TargetPlatform) -> Seq<Instr> {
    match p {
        TargetPlatform::Windows => seq![
            Instr::MovReg(Reg::Rcx, Reg::Rax),
            Instr::CallSym(FixedSym::ExitProcess),
        ],
        TargetPlatform::Linux => seq![
            Instr::MovReg(Reg::Rdi, Reg::Rax),
            Instr::MovImm(Reg::Rax, 60),
            Instr::Syscall,
        ],
        TargetPlatform::Macos => seq![
            Instr::MovReg(Reg::Rdi, Reg::Rax),
            Instr::CallSym(FixedSym::ExitC),
        ],
        TargetPlatform::Unknown => Seq::empty(),
    }
}

/// Executable form of [`spec_exit_sequence`].
pub fn exit_sequence(p: TargetPlatform) -> (v: Vec<Instr>)
    ensures
        v@ == spec_exit_sequence(p),
{
    let v = match p {
        TargetPlatform::Windows => vec![
            Instr::MovReg(Reg::Rcx, Reg::Rax),
            Instr::CallSym(FixedSym::ExitProcess),
        ],
        TargetPlatform::Linux => vec![
            Instr::MovReg(Reg::Rdi, Reg::Rax),
            Instr::MovImm(Reg::Rax, 60),
            Instr::Syscall,
        ],
        TargetPlatform::Macos => vec![
            Instr::MovReg(Reg::Rdi, Reg::Rax),
            Instr::CallSym(FixedSym::ExitC),
        ],
        TargetPlatform::Unknown => Vec::new(),
    };
    proof {
        assert(v@ =~= spec_exit_sequence(p));
    }
    v
}

/// The conversion specifier chosen for a value of type `t` in a
/// formatted print: strings, floats, and everything else as integer.
pub open spec fn spec_format_specifier(t: Type) -> Seq<char> {
    if t is Str {
        "%s"@
    } else if t.spec_is_float() {
        "%f"@
    } else {
        "%d"@
    }
}

/// Executable form of [`spec_format_specifier`].
pub fn get_format_specifier(t: &Type) -> (s: &'static str)
    ensures
        s@ == spec_format_specifier(*t),
{
    if matches!(t, Type::Str) {
        "%s"
    } else if t.is_float() {
        "%f"
    } else {
        "%d"
    }
}

/// The platform's line terminator, appended by `echo`.
pub open spec fn spec_line_term(p: TargetPlatform) -> Seq<char> {
    if p is Windows {
        "\r\n"@
    } else {
        "\n"@
    }
}

/// Executable form of [`spec_line_term`].
pub fn line_term(p: TargetPlatform) -> (s: &'static str)
    ensures
        s@ == spec_line_term(p),
{
    if matches!(p, TargetPlatform::Windows) {
        "\r\n"
    } else {
        "\n"
    }
}

} // verus!
