use vstd::prelude::*;

use crate::arch::{Reg, Target, Trap, arg_regs, clobber_regs, number_reg, result_reg, trap_of};
use crate::args::{SyscallArgs, args_of};

verus! {

/// One input register and the word loaded into it before the trap.
#[derive(Clone, Copy, Debug, PartialEq, Eq, Structural)]
pub struct RegLoad {
    pub reg: Reg,
    pub value: usize,
}

/// What a single system call does with the registers: the instruction that
/// enters the kernel, the words loaded before it, the register read back after
/// it (none for a call that never returns), and the registers it overwrites.
#[derive(Clone, Debug, PartialEq, Eq)]
pub struct TrapFrame {
    pub trap: Trap,
    pub loads: Vec<RegLoad>,
    pub result: Option<Reg>,
    pub clobbers: Vec<Reg>,
}

/// The register bookkeeping of a trap frame as values.
pub ghost struct FrameModel {
    pub trap: Trap,
    pub loads: Seq<RegLoad>,
    pub result: Option<Reg>,
    pub clobbers: Seq<Reg>,
}

impl View for TrapFrame {
    type V = FrameModel;

    open spec fn view(&self) -> FrameModel {
        FrameModel {
            trap: self.trap,
            loads: self.loads@,
            result: self.result,
            clobbers: self.clobbers@,
        }
    }
}

/// Loads of the argument words: word `i` goes to the target's argument register `i`.
pub open spec fn arg_loads(t: Target, args: Seq<usize>) -> Seq<RegLoad> {
    Seq::new(args.len(), |i: int| RegLoad { reg: arg_regs(t)[i], value: args[i] })
}

/// The frame of a call of system call `nr` with the given argument words on
/// target `t`. The number is loaded first, then the arguments in order. A call
/// that returns reads the result register and loses the clobbered registers; a
/// call that never returns reads nothing and declares nothing lost.
pub open spec fn frame_spec(t: Target, nr: usize, args: Seq<usize>, returning: bool) -> FrameModel {
    FrameModel {
        trap: trap_of(t),
        loads: seq![RegLoad { reg: number_reg(t), value: nr }] + arg_loads(t, args),
        result: if returning {
            Some(result_reg(t))
        } else {
            None
        },
        clobbers: if returning {
            clobber_regs(t)
        } else {
            seq![]
        },
    }
}

impl TrapFrame {
    fn build(t: Target, nr: usize, args: &SyscallArgs, returning: bool) -> (f: TrapFrame)
        ensures
            f@ == frame_spec(t, nr, args@, returning),
    {
        let words = args.words();
        let n = args.arity();
        let mut loads: Vec<RegLoad> = Vec::new();
        loads.push(RegLoad { reg: t.number_register(), value: nr });
        let ghost first = seq![RegLoad { reg: number_reg(t), value: nr }];
        let mut i: usize = 0;
        while i < n
            invariant
                n == words@.len(),
                words@ == args@,
                n <= 6,
                i <= n,
                loads@ == first + arg_loads(t, words@.take(i as int)),
            decreases n - i,
        {
            let load = RegLoad { reg: t.argument_register(i), value: words[i] };
            loads.push(load);
            i = i + 1;
            assert(arg_loads(t, words@.take(i as int)) =~= arg_loads(
                t,
                words@.take(i - 1 as int),
            ).push(load));
        }
        assert(words@.take(n as int) =~= words@);
        let (result, clobbers) = if returning {
            (Some(t.result_register()), t.clobbered_registers())
        } else {
            (None, Vec::new())
        };
        TrapFrame { trap: t.trap(), loads, result, clobbers }
    }

    /// The frame of a call of system call `nr` that returns a word.
    pub fn for_call(t: Target, nr: usize, args: &SyscallArgs) -> (f: TrapFrame)
        ensures
            f@ == frame_spec(t, nr, args@, true),
    {
        TrapFrame::build(t, nr, args, true)
    }

    /// The frame of a call of system call `nr` that never returns to its caller,
    /// such as a process exit.
    pub fn for_noreturn_call(t: Target, nr: usize, args: &SyscallArgs) -> (f: TrapFrame)
        ensures
            f@ == frame_spec(t, nr, args@, false),
    {
        TrapFrame::build(t, nr, args, false)
    }
}

/// Routing a list of words by its count does nothing of its own. For every list
/// of at most six words, routing picks exactly the fixed-arity arguments that
/// hold the same words, so the call loads the same registers, reads the same
/// result register and loses the same registers as the fixed-arity call.
pub proof fn lemma_dispatch_is_pure_routing(
    t: Target,
    nr: usize,
    a: Seq<usize>,
    fixed: SyscallArgs,
    returning: bool,
)
    requires
        fixed@ == a,
    ensures
        args_of(a) == Some(fixed),
        frame_spec(t, nr, args_of(a).unwrap()@, returning) == frame_spec(t, nr, fixed@, returning),
        frame_spec(t, nr, a, returning).loads.len() == a.len() + 1,
{
    crate::args::lemma_args_determined_by_words(fixed, fixed);
}

} // verus!
