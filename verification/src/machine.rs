//! Semantics of the straight-line integer instruction subset.
//!
//! Only the instructions that integer expression lowering emits are
//! given a meaning: immediate loads of `rax`/`rbx`, pushing `rax`,
//! popping into `rbx`, and the three wrapping arithmetic operations
//! on `rax, rbx`.  Every other instruction steps to `None`.

use vstd::prelude::*;
use crate::instr::{Instr, Reg};

verus! {

/// Machine state of the modelled subset: the two working registers
/// and the stack of 64-bit values.
pub struct MachineModel {
    pub rax: i64,
    pub rbx: i64,
    pub stack: Seq<i64>,
}

/// Effect of one instruction; `None` for instructions outside the
/// modelled subset or a pop from an empty stack.
pub open spec fn spec_step(s: MachineModel, i: Instr) -> Option<MachineModel> {
    match i {
        Instr::MovImm(Reg::Rax, v) => Some(MachineModel { rax: v, ..s }),
        Instr::MovImm(Reg::Rbx, v) => Some(MachineModel { rbx: v, ..s }),
        Instr::Push(Reg::Rax) => Some(MachineModel { stack: s.stack.push(s.rax), ..s }),
        Instr::Pop(Reg::Rbx) => if s.stack.len() > 0 {
            Some(MachineModel { rbx: s.stack.last(), stack: s.stack.drop_last(), ..s })
        } else {
            None
        },
        Instr::AddReg(Reg::Rax, Reg::Rbx) => Some(
            MachineModel { rax: vstd::wrapping::i64_specs::wrapping_add(s.rax, s.rbx), ..s },
        ),
        Instr::SubReg(Reg::Rax, Reg::Rbx) => Some(
            MachineModel { rax: vstd::wrapping::i64_specs::wrapping_sub(s.rax, s.rbx), ..s },
        ),
        Instr::ImulReg(Reg::Rax, Reg::Rbx) => Some(
            MachineModel { rax: vstd::wrapping::i64_specs::wrapping_mul(s.rax, s.rbx), ..s },
        ),
        _ => None,
    }
}

/// Effect of running an instruction sequence from state `s`.
pub open spec fn spec_run(s: MachineModel, instrs: Seq<Instr>) -> Option<MachineModel>
    decreases instrs.len(),
{
    if instrs.len() == 0 {
        Some(s)
    } else {
        match spec_step(s, instrs[0]) {
            Some(s1) => spec_run(s1, instrs.drop_first()),
            None => None,
        }
    }
}

/// Running a concatenation runs the two halves in order.
pub proof fn lemma_run_append(s: MachineModel, a: Seq<Instr>, b: Seq<Instr>)
    ensures
        spec_run(s, a + b) == (match spec_run(s, a) {
            Some(s1) => spec_run(s1, b),
            None => None::<MachineModel>,
        }),
    decreases a.len(),
{
    if a.len() == 0 {
        assert(a + b =~= b);
    } else {
        assert((a + b)[0] == a[0]);
        assert((a + b).drop_first() =~= a.drop_first() + b);
        match spec_step(s, a[0]) {
            Some(s1) => {
                lemma_run_append(s1, a.drop_first(), b);
            },
            None => {
            },
        }
    }
}

/// Executable machine of the modelled subset, used to run lowered
/// code.
#[derive(Debug)]
pub struct Machine {
    pub rax: i64,
    pub rbx: i64,
    pub stack: Vec<i64>,
}

impl View for Machine {
    type V = MachineModel;

    open spec fn view(&self) -> MachineModel {
        MachineModel { rax: self.rax, rbx: self.rbx, stack: self.stack@ }
    }
}

impl Machine {
    /// A machine with zeroed registers and an empty stack.
    pub fn new() -> (m: Self)
        ensures
            m@ == (MachineModel { rax: 0, rbx: 0, stack: Seq::empty() }),
    {
        let m = Machine { rax: 0, rbx: 0, stack: Vec::new() };
        proof {
            assert(m@.stack =~= Seq::<i64>::empty());
        }
        m
    }

    /// Executes one instruction; returns `false` (leaving the state
    /// arbitrary but well-formed) exactly when the instruction has no
    /// modelled meaning.
    fn step(&mut self, i: &Instr) -> (ok: bool)
        ensures
            match spec_step(old(self)@, *i) {
                Some(s2) => ok && final(self)@ == s2,
                None => !ok,
            },
    {
        match i {
            Instr::MovImm(Reg::Rax, v) => {
                self.rax = *v;
                true
            },
            Instr::MovImm(Reg::Rbx, v) => {
                self.rbx = *v;
                true
            },
            Instr::Push(Reg::Rax) => {
                self.stack.push(self.rax);
                true
            },
            Instr::Pop(Reg::Rbx) => {
                match self.stack.pop() {
                    Some(v) => {
                        self.rbx = v;
                        true
                    },
                    None => false,
                }
            },
            Instr::AddReg(Reg::Rax, Reg::Rbx) => {
                self.rax = self.rax.wrapping_add(self.rbx);
                true
            },
            Instr::SubReg(Reg::Rax, Reg::Rbx) => {
                self.rax = self.rax.wrapping_sub(self.rbx);
                true
            },
            Instr::ImulReg(Reg::Rax, Reg::Rbx) => {
                self.rax = self.rax.wrapping_mul(self.rbx);
                true
            },
            _ => false,
        }
    }

    /// Runs an instruction sequence to completion; returns `false`
    /// exactly when the run leaves the modelled subset.
    pub fn run(&mut self, instrs: &Vec<Instr>) -> (ok: bool)
        ensures
            match spec_run(old(self)@, instrs@) {
                Some(s2) => ok && final(self)@ == s2,
                None => !ok,
            },
    {
        let mut j: usize = 0;
        proof {
            assert(instrs@.skip(0) =~= instrs@);
        }
        while j < instrs.len()
            invariant
                0 <= j <= instrs@.len(),
                spec_run(old(self)@, instrs@) == spec_run(self@, instrs@.skip(j as int)),
            decreases instrs@.len() - j,
        {
            let ghost rest = instrs@.skip(j as int);
            proof {
                assert(rest[0] == instrs@[j as int]);
                assert(rest.drop_first() =~= instrs@.skip(j as int + 1));
            }
            let ok = self.step(&instrs[j]);
            if !ok {
                return false;
            }
            j = j + 1;
        }
        proof {
            assert(instrs@.skip(instrs@.len() as int) =~= Seq::<Instr>::empty());
        }
        true
    }
}

} // verus!
