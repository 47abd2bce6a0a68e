//! Calling-convention marshaller.
//!
//! Binding resolves a call's named, positional and defaulted
//! arguments against the callee's declared parameters.  Placement
//! then assigns each already-spilled argument its register or stack
//! position: integer-class arguments fill the platform's integer
//! argument registers in declaration order, float arguments fill the
//! float registers, and integer overflow arguments are pushed to the
//! stack rightmost-first ahead of the call.

use vstd::prelude::*;
use crate::ast::{CallArg, Param};
use crate::codegen::{spec_int_arg_regs, spec_float_arg_regs, get_arg_registers,
    get_float_arg_registers};
use crate::ast::TargetPlatform;
use crate::errors::{ArgumentFault, CodegenError};
use crate::instr::{Instr, Reg};

verus! {

/// Where one bound argument's expression comes from: a named or
/// positional actual argument (index into the argument list), or the
/// declared default of a parameter (index into the parameter list).
#[derive(Clone, Copy, Debug, PartialEq, Eq, Structural)]
pub enum ArgSource {
    Named(usize),
    Positional(usize),
    Default(usize),
}

/// Index of the last argument named `name`, if any (a repeated
/// keyword argument: the last writer wins).
pub open spec fn spec_find_named_last(args: Seq<CallArg>, name: Seq<char>) -> Option<int>
    decreases args.len(),
{
    if args.len() == 0 {
        None
    } else if match args.last().name {
        Some(n) => n@ == name,
        None => false,
    } {
        Some(args.len() - 1)
    } else {
        spec_find_named_last(args.drop_last(), name)
    }
}

/// Number of positional arguments among the first `k`.
pub open spec fn spec_positional_count(args: Seq<CallArg>, k: int) -> int
    decreases k,
{
    if k <= 0 || k > args.len() {
        0
    } else {
        spec_positional_count(args, k - 1) + (if args[k - 1].name is None {
            1int
        } else {
            0int
        })
    }
}

/// Index of the `t`-th positional argument at or after `i`.
pub open spec fn spec_nth_positional_from(args: Seq<CallArg>, t: int, i: int) -> Option<int>
    decreases args.len() - i,
{
    if i < 0 || i >= args.len() {
        None
    } else if args[i].name is None {
        if t == 0 {
            Some(i)
        } else {
            spec_nth_positional_from(args, t - 1, i + 1)
        }
    } else {
        spec_nth_positional_from(args, t, i + 1)
    }
}

/// Binding of the parameters from `j` on, with `used` positional
/// arguments already consumed: a named argument binds first, then the
/// next positional, then the declared default; an unfilled parameter
/// without a default is a binding error, and so are leftover
/// positional arguments.
pub open spec fn spec_bind_step(
    params: Seq<Param>,
    args: Seq<CallArg>,
    j: int,
    used: int,
) -> Result<Seq<ArgSource>, CodegenError>
    decreases params.len() - j,
{
    if j < 0 || j >= params.len() {
        if used < spec_positional_count(args, args.len() as int) {
            Err(CodegenError::ArgumentBindingError(ArgumentFault::ExcessPositional))
        } else {
            Ok(Seq::empty())
        }
    } else {
        match spec_find_named_last(args, params[j].name@) {
            Some(i) => match spec_bind_step(params, args, j + 1, used) {
                Ok(rest) => Ok(seq![ArgSource::Named(i as usize)] + rest),
                Err(e) => Err(e),
            },
            None => match spec_nth_positional_from(args, used, 0) {
                Some(i) => match spec_bind_step(params, args, j + 1, used + 1) {
                    Ok(rest) => Ok(seq![ArgSource::Positional(i as usize)] + rest),
                    Err(e) => Err(e),
                },
                None => if params[j].default is Some {
                    match spec_bind_step(params, args, j + 1, used) {
                        Ok(rest) => Ok(seq![ArgSource::Default(j as usize)] + rest),
                        Err(e) => Err(e),
                    }
                } else {
                    Err(
                        CodegenError::ArgumentBindingError(
                            ArgumentFault::MissingParameter(params[j].name),
                        ),
                    )
                },
            },
        }
    }
}

/// Binding of a whole call: one source per declared parameter.
pub open spec fn spec_bind_args(params: Seq<Param>, args: Seq<CallArg>) -> Result<
    Seq<ArgSource>,
    CodegenError,
> {
    spec_bind_step(params, args, 0, 0)
}

/// Finds the last argument named `name`.
fn find_named_last(args: &Vec<CallArg>, name: &String) -> (r: Option<usize>)
    ensures
        match r {
            Some(i) => spec_find_named_last(args@, name@) == Some(i as int) && i < args@.len(),
            None => spec_find_named_last(args@, name@) is None,
        },
{
    let ghost whole = args@;
    let mut i: usize = args.len();
    proof {
        assert(whole.take(i as int) =~= whole);
    }
    while i > 0
        invariant
            whole == args@,
            0 <= i <= whole.len(),
            spec_find_named_last(whole, name@) == spec_find_named_last(
                whole.take(i as int),
                name@,
            ),
        decreases i,
    {
        i = i - 1;
        let ghost prefix = whole.take(i as int + 1);
        proof {
            assert(prefix.last() == whole[i as int]);
            assert(prefix.drop_last() =~= whole.take(i as int));
        }
        let hit = match &args[i].name {
            Some(n) => n.eq(name),
            None => false,
        };
        if hit {
            return Some(i);
        }
    }
    proof {
        assert(whole.take(0) =~= Seq::<CallArg>::empty());
    }
    None
}

/// Finds the `t`-th positional argument.
fn nth_positional(args: &Vec<CallArg>, t: usize) -> (r: Option<usize>)
    ensures
        match r {
            Some(i) => spec_nth_positional_from(args@, t as int, 0) == Some(i as int) && i
                < args@.len(),
            None => spec_nth_positional_from(args@, t as int, 0) is None,
        },
{
    let mut i: usize = 0;
    let mut t_left = t;
    while i < args.len()
        invariant
            0 <= i <= args@.len(),
            t_left <= t,
            spec_nth_positional_from(args@, t as int, 0) == spec_nth_positional_from(
                args@,
                t_left as int,
                i as int,
            ),
        decreases args@.len() - i,
    {
        if matches!(&args[i].name, None) {
            if t_left == 0 {
                return Some(i);
            }
            t_left = t_left - 1;
        }
        i = i + 1;
    }
    None
}

/// Counts the positional arguments.
fn count_positional(args: &Vec<CallArg>) -> (n: usize)
    ensures
        n as int == spec_positional_count(args@, args@.len() as int),
{
    let mut i: usize = 0;
    let mut n: usize = 0;
    while i < args.len()
        invariant
            0 <= i <= args@.len(),
            n <= i,
            n as int == spec_positional_count(args@, i as int),
        decreases args@.len() - i,
    {
        if matches!(&args[i].name, None) {
            n = n + 1;
        }
        i = i + 1;
    }
    n
}

/// Binds a call's arguments to the callee's declared parameters:
/// named arguments bind by declared parameter identity, remaining
/// positional arguments fill unbound parameters in declaration
/// order, still-unfilled parameters fall back to their default.
pub fn bind_args(params: &Vec<Param>, args: &Vec<CallArg>) -> (r: Result<
    Vec<ArgSource>,
    CodegenError,
>)
    ensures
        match r {
            Ok(v) => spec_bind_args(params@, args@) == Ok::<_, CodegenError>(v@),
            Err(e) => spec_bind_args(params@, args@) == Err::<Seq<ArgSource>, _>(e),
        },
{
    let mut out: Vec<ArgSource> = Vec::new();
    let mut j: usize = 0;
    let mut used: usize = 0;
    while j < params.len()
        invariant
            0 <= j <= params@.len(),
            used <= j,
            out@.len() == j,
            spec_bind_args(params@, args@) == (match spec_bind_step(
                params@,
                args@,
                j as int,
                used as int,
            ) {
                Ok(rest) => Ok::<Seq<ArgSource>, CodegenError>(out@ + rest),
                Err(e) => Err(e),
            }),
        decreases params@.len() - j,
    {
        let ghost out0 = out@;
        if let Some(i) = find_named_last(args, &params[j].name) {
            out.push(ArgSource::Named(i));
            proof {
                assert(out@ =~= out0.push(ArgSource::Named(i)));
            }
        } else if let Some(i) = nth_positional(args, used) {
            out.push(ArgSource::Positional(i));
            used = used + 1;
            proof {
                assert(out@ =~= out0.push(ArgSource::Positional(i)));
            }
        } else if matches!(&params[j].default, Some(_)) {
            out.push(ArgSource::Default(j));
            proof {
                assert(out@ =~= out0.push(ArgSource::Default(j)));
            }
        } else {
            let e = CodegenError::ArgumentBindingError(
                ArgumentFault::MissingParameter(params[j].name.clone()),
            );
            return Err(e);
        }
        proof {
            let rest1 = spec_bind_step(params@, args@, j as int + 1, used as int);
            if rest1 is Ok {
                assert(out0 + (seq![out@.last()] + rest1->Ok_0) =~= out@ + rest1->Ok_0);
            }
        }
        j = j + 1;
    }
    if used < count_positional(args) {
        Err(CodegenError::ArgumentBindingError(ArgumentFault::ExcessPositional))
    } else {
        proof {
            assert(out@ + Seq::<ArgSource>::empty() =~= out@);
        }
        Ok(out)
    }
}

/// One spilled argument awaiting placement: its register class and
/// the offset of its private spill slot.
#[derive(Clone, Copy, Debug, PartialEq, Eq, Structural)]
pub struct ArgSlot {
    pub is_float: bool,
    pub off: u64,
}

/// Number of integer-class slots among the first `k`.
pub open spec fn spec_int_count(slots: Seq<ArgSlot>, k: int) -> int
    decreases k,
{
    if k <= 0 || k > slots.len() {
        0
    } else {
        spec_int_count(slots, k - 1) + (if slots[k - 1].is_float {
            0int
        } else {
            1int
        })
    }
}

/// Number of float slots among the first `k`.
pub open spec fn spec_float_count(slots: Seq<ArgSlot>, k: int) -> int
    decreases k,
{
    if k <= 0 || k > slots.len() {
        0
    } else {
        spec_float_count(slots, k - 1) + (if slots[k - 1].is_float {
            1int
        } else {
            0int
        })
    }
}

/// Stack-spill instructions for the integer-class arguments beyond
/// the register count, emitted rightmost-first, for slots `k` down
/// to `0`.
pub open spec fn spec_stack_pushes(slots: Seq<ArgSlot>, navail: int, k: int) -> Seq<Instr>
    decreases k + 1,
{
    if k < 0 || k >= slots.len() {
        Seq::empty()
    } else {
        (if !slots[k].is_float && spec_int_count(slots, k) >= navail {
            seq![Instr::Load(Reg::Rax, slots[k].off), Instr::Push(Reg::Rax)]
        } else {
            Seq::empty()
        }) + spec_stack_pushes(slots, navail, k - 1)
    }
}

/// Register-load instructions for the register-destined arguments in
/// declaration order, from slot `k` on.  Integer-class arguments use
/// the integer argument registers starting at `first_int`; float
/// arguments use the float registers.
pub open spec fn spec_reg_loads(
    p: TargetPlatform,
    slots: Seq<ArgSlot>,
    first_int: int,
    k: int,
) -> Seq<Instr>
    decreases slots.len() - k,
{
    if k < 0 || k >= slots.len() {
        Seq::empty()
    } else {
        (if slots[k].is_float {
            seq![Instr::LoadF(spec_float_arg_regs()[spec_float_count(slots, k)], slots[k].off)]
        } else if first_int + spec_int_count(slots, k) < spec_int_arg_regs(p).len() {
            seq![
                Instr::Load(spec_int_arg_regs(p)[first_int + spec_int_count(slots, k)], slots[k].off),
            ]
        } else {
            Seq::empty()
        }) + spec_reg_loads(p, slots, first_int, k + 1)
    }
}

/// Placement of a spilled argument list: stack pushes rightmost-first
/// for integer overflow arguments, then register loads in declaration
/// order; more float arguments than float registers is a binding
/// error.  Also gives the number of stack-destined arguments.
pub open spec fn spec_place_args(p: TargetPlatform, slots: Seq<ArgSlot>, first_int: int) -> Result<
    (Seq<Instr>, int),
    CodegenError,
> {
    if spec_float_count(slots, slots.len() as int) > spec_float_arg_regs().len() {
        Err(CodegenError::ArgumentBindingError(ArgumentFault::TooManyFloatArguments))
    } else {
        let navail = spec_int_arg_regs(p).len() - first_int;
        let n_stack = if spec_int_count(slots, slots.len() as int) > navail {
            spec_int_count(slots, slots.len() as int) - navail
        } else {
            0
        };
        Ok(
            (
                spec_stack_pushes(slots, navail, slots.len() - 1) + spec_reg_loads(
                    p,
                    slots,
                    first_int,
                    0,
                ),
                n_stack,
            ),
        )
    }
}

/// Places spilled arguments into registers and stack positions.
pub fn place_args(p: TargetPlatform, slots: &Vec<ArgSlot>, first_int: usize) -> (r: Result<
    (Vec<Instr>, usize),
    CodegenError,
>)
    requires
        first_int <= spec_int_arg_regs(p).len(),
    ensures
        match r {
            Ok(v) => spec_place_args(p, slots@, first_int as int) == Ok::<_, CodegenError>(
                (v.0@, v.1 as int),
            ) && v.1 <= slots@.len(),
            Err(e) => spec_place_args(p, slots@, first_int as int) == Err::<(Seq<Instr>, int), _>(
                e,
            ),
        },
{
    let int_regs = get_arg_registers(p);
    let float_regs = get_float_arg_registers();
    let navail = int_regs.len() - first_int;

    // Count register classes.
    let mut n_int: usize = 0;
    let mut n_float: usize = 0;
    let mut k: usize = 0;
    while k < slots.len()
        invariant
            0 <= k <= slots@.len(),
            n_int + n_float == k,
            n_int as int == spec_int_count(slots@, k as int),
            n_float as int == spec_float_count(slots@, k as int),
        decreases slots@.len() - k,
    {
        if slots[k].is_float {
            n_float = n_float + 1;
        } else {
            n_int = n_int + 1;
        }
        k = k + 1;
    }
    if n_float > float_regs.len() {
        return Err(CodegenError::ArgumentBindingError(ArgumentFault::TooManyFloatArguments));
    }
    let mut code: Vec<Instr> = Vec::new();

    // Stack-destined arguments, rightmost-first.
    let ghost full_pushes = spec_stack_pushes(slots@, navail as int, slots@.len() - 1);
    let mut ints_before = n_int;
    let mut k2 = slots.len();
    proof {
        assert(code@ =~= Seq::<Instr>::empty());
    }
    while k2 > 0
        invariant
            0 <= k2 <= slots@.len(),
            navail as int == spec_int_arg_regs(p).len() - first_int,
            ints_before as int == spec_int_count(slots@, k2 as int),
            code@ + spec_stack_pushes(slots@, navail as int, k2 as int - 1) == full_pushes,
        decreases k2,
    {
        k2 = k2 - 1;
        let ghost before = code@;
        if !slots[k2].is_float {
            proof {
                lemma_counts_nonneg(slots@, k2 as int);
            }
            ints_before = ints_before - 1;
            if ints_before >= navail {
                code.push(Instr::Load(Reg::Rax, slots[k2].off));
                code.push(Instr::Push(Reg::Rax));
            }
        }
        proof {
            assert(code@ + spec_stack_pushes(slots@, navail as int, k2 as int - 1) =~= before
                + spec_stack_pushes(slots@, navail as int, k2 as int));
        }
    }
    proof {
        assert(code@ + Seq::<Instr>::empty() =~= code@);
        assert(code@ == full_pushes);
    }

    // Register-destined arguments in declaration order.
    let ghost full_loads = spec_reg_loads(p, slots@, first_int as int, 0);
    let mut iord: usize = 0;
    let mut ford: usize = 0;
    let mut k3: usize = 0;
    while k3 < slots.len()
        invariant
            0 <= k3 <= slots@.len(),
            navail as int == spec_int_arg_regs(p).len() - first_int,
            first_int <= spec_int_arg_regs(p).len(),
            int_regs@ == spec_int_arg_regs(p),
            float_regs@ == spec_float_arg_regs(),
            iord as int == spec_int_count(slots@, k3 as int),
            ford as int == spec_float_count(slots@, k3 as int),
            iord + ford == k3,
            ford <= n_float <= float_regs@.len(),
            n_float as int == spec_float_count(slots@, slots@.len() as int),
            code@ + spec_reg_loads(p, slots@, first_int as int, k3 as int) == full_pushes
                + full_loads,
        decreases slots@.len() - k3,
    {
        let ghost before = code@;
        if slots[k3].is_float {
            proof {
                lemma_count_mono_float(slots@, k3 as int, slots@.len() as int);
            }
            code.push(Instr::LoadF(float_regs[ford], slots[k3].off));
            ford = ford + 1;
        } else {
            if iord < navail {
                code.push(Instr::Load(int_regs[first_int + iord], slots[k3].off));
            }
            iord = iord + 1;
        }
        proof {
            assert(code@ + spec_reg_loads(p, slots@, first_int as int, k3 as int + 1) =~= before
                + spec_reg_loads(p, slots@, first_int as int, k3 as int));
        }
        k3 = k3 + 1;
    }
    proof {
        assert(code@ + Seq::<Instr>::empty() =~= code@);
    }
    let n_stack = if n_int > navail {
        n_int - navail
    } else {
        0
    };
    Ok((code, n_stack))
}

/// Class counts are nonnegative.
proof fn lemma_counts_nonneg(slots: Seq<ArgSlot>, k: int)
    ensures
        spec_int_count(slots, k) >= 0,
        spec_float_count(slots, k) >= 0,
    decreases k,
{
    if 0 < k <= slots.len() {
        lemma_counts_nonneg(slots, k - 1);
    }
}

/// Counting floats is monotone in the prefix length.
proof fn lemma_count_mono_float(slots: Seq<ArgSlot>, k: int, n: int)
    requires
        0 <= k < n <= slots.len(),
        slots[k].is_float,
    ensures
        spec_float_count(slots, k) + 1 <= spec_float_count(slots, n),
    decreases n,
{
    if n == k + 1 {
    } else {
        lemma_count_mono_float(slots, k, n - 1);
    }
}

} // verus!
