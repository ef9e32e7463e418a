use vstd::prelude::*;

verus! {

/// A (CPU architecture, kernel ABI) pair with its own system call convention.
#[derive(Clone, Copy, Debug, PartialEq, Eq, Structural)]
pub enum Target {
    X86_64Linux,
    Aarch64Linux,
}

/// The general-purpose registers that a system call convention names.
#[derive(Clone, Copy, Debug, PartialEq, Eq, Structural)]
pub enum Reg {
    Rax,
    Rdi,
    Rsi,
    Rdx,
    R10,
    R8,
    R9,
    Rcx,
    R11,
    X0,
    X1,
    X2,
    X3,
    X4,
    X5,
    X8,
}

/// The instruction that transfers control to the kernel.
#[derive(Clone, Copy, Debug, PartialEq, Eq, Structural)]
pub enum Trap {
    /// `syscall`
    Syscall,
    /// `svc #0`
    Svc0,
}

pub open spec fn trap_of(t: Target) -> Trap {
    match t {
        Target::X86_64Linux => Trap::Syscall,
        Target::Aarch64Linux => Trap::Svc0,
    }
}

/// Register that carries the system call number.
pub open spec fn number_reg(t: Target) -> Reg {
    match t {
        Target::X86_64Linux => Reg::Rax,
        Target::Aarch64Linux => Reg::X8,
    }
}

/// Registers that carry the first to the sixth argument, in order.
pub open spec fn arg_regs(t: Target) -> Seq<Reg> {
    match t {
        Target::X86_64Linux => seq![Reg::Rdi, Reg::Rsi, Reg::Rdx, Reg::R10, Reg::R8, Reg::R9],
        Target::Aarch64Linux => seq![Reg::X0, Reg::X1, Reg::X2, Reg::X3, Reg::X4, Reg::X5],
    }
}

/// Register from which the kernel's returned word is read.
pub open spec fn result_reg(t: Target) -> Reg {
    match t {
        Target::X86_64Linux => Reg::Rax,
        Target::Aarch64Linux => Reg::X0,
    }
}

/// Registers that the trap overwrites besides the result register.
pub open spec fn clobber_regs(t: Target) -> Seq<Reg> {
    match t {
        Target::X86_64Linux => seq![Reg::Rcx, Reg::R11],
        Target::Aarch64Linux => seq![],
    }
}

impl Target {
    /// The instruction that enters the kernel.
    pub fn trap(self) -> (r: Trap)
        ensures
            r == trap_of(self),
    {
        match self {
            Target::X86_64Linux => Trap::Syscall,
            Target::Aarch64Linux => Trap::Svc0,
        }
    }

    /// The register loaded with the system call number.
    pub fn number_register(self) -> (r: Reg)
        ensures
            r == number_reg(self),
    {
        match self {
            Target::X86_64Linux => Reg::Rax,
            Target::Aarch64Linux => Reg::X8,
        }
    }

    /// The register loaded with argument `i`, counted from zero.
    pub fn argument_register(self, i: usize) -> (r: Reg)
        requires
            i < 6,
        ensures
            r == arg_regs(self)[i as int],
    {
        match self {
            Target::X86_64Linux => {
                if i == 0 {
                    Reg::Rdi
                } else if i == 1 {
                    Reg::Rsi
                } else if i == 2 {
                    Reg::Rdx
                } else if i == 3 {
                    Reg::R10
                } else if i == 4 {
                    Reg::R8
                } else {
                    Reg::R9
                }
            },
            Target::Aarch64Linux => {
                if i == 0 {
                    Reg::X0
                } else if i == 1 {
                    Reg::X1
                } else if i == 2 {
                    Reg::X2
                } else if i == 3 {
                    Reg::X3
                } else if i == 4 {
                    Reg::X4
                } else {
                    Reg::X5
                }
            },
        }
    }

    /// The register that holds the kernel's returned word after the trap.
    pub fn result_register(self) -> (r: Reg)
        ensures
            r == result_reg(self),
    {
        match self {
            Target::X86_64Linux => Reg::Rax,
            Target::Aarch64Linux => Reg::X0,
        }
    }

    /// The registers that the trap overwrites besides the result register.
    pub fn clobbered_registers(self) -> (v: Vec<Reg>)
        ensures
            v@ == clobber_regs(self),
    {
        match self {
            Target::X86_64Linux => vec![Reg::Rcx, Reg::R11],
            Target::Aarch64Linux => vec![],
        }
    }
}

/// Every target's convention is consistent: six distinct argument registers,
/// none of which carries the number; a result register that is either the number
/// register or the first argument register; and clobbered registers that carry
/// no input and are not the result register.
pub proof fn lemma_convention_consistent(t: Target)
    ensures
        arg_regs(t).len() == 6,
        forall|i: int, j: int| 0 <= i < j < 6 ==> arg_regs(t)[i] != arg_regs(t)[j],
        forall|i: int| 0 <= i < 6 ==> arg_regs(t)[i] != number_reg(t),
        result_reg(t) == number_reg(t) || result_reg(t) == arg_regs(t)[0],
        forall|k: int|
            0 <= k < clobber_regs(t).len() ==> {
                &&& clobber_regs(t)[k] != number_reg(t)
                &&& clobber_regs(t)[k] != result_reg(t)
                &&& !arg_regs(t).contains(clobber_regs(t)[k])
            },
{
    match t {
        Target::X86_64Linux => {
            let a = arg_regs(t);
            let c = clobber_regs(t);
            assert(a[0] == Reg::Rdi && a[1] == Reg::Rsi && a[2] == Reg::Rdx && a[3] == Reg::R10
                && a[4] == Reg::R8 && a[5] == Reg::R9);
            assert(c[0] == Reg::Rcx && c[1] == Reg::R11);
            assert(!a.contains(Reg::Rcx));
            assert(!a.contains(Reg::R11));
        },
        Target::Aarch64Linux => {
            let a = arg_regs(t);
            assert(a[0] == Reg::X0 && a[1] == Reg::X1 && a[2] == Reg::X2 && a[3] == Reg::X3
                && a[4] == Reg::X4 && a[5] == Reg::X5);
        },
    }
}

} // verus!
