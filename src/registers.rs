use vstd::prelude::*;

verus! {

/// The number of registers that carry system call arguments.
pub const MAX_ARGS: usize = 6;

/// A register of the x86-64 system call convention.
#[derive(Clone, Copy, Debug, PartialEq, Eq, Structural)]
pub enum Register {
    Rax,
    Rdi,
    Rsi,
    Rdx,
    R10,
    R8,
    R9,
}

/// The register that carries the argument at position `i`, in the
/// convention's fixed order.
pub open spec fn register_map(i: int) -> Register
    recommends
        0 <= i < MAX_ARGS,
{
    if i == 0 {
        Register::Rdi
    } else if i == 1 {
        Register::Rsi
    } else if i == 2 {
        Register::Rdx
    } else if i == 3 {
        Register::R10
    } else if i == 4 {
        Register::R8
    } else {
        Register::R9
    }
}

/// The register's name as the assembler spells it.
pub open spec fn register_name(r: Register) -> Seq<char> {
    match r {
        Register::Rax => "rax"@,
        Register::Rdi => "rdi"@,
        Register::Rsi => "rsi"@,
        Register::Rdx => "rdx"@,
        Register::R10 => "r10"@,
        Register::R8 => "r8"@,
        Register::R9 => "r9"@,
    }
}

/// Looks up the register for the argument at position `i`.
pub fn arg_register(i: usize) -> (r: Register)
    requires
        i < MAX_ARGS,
    ensures
        r == register_map(i as int),
        r != Register::Rax,
{
    match i {
        0 => Register::Rdi,
        1 => Register::Rsi,
        2 => Register::Rdx,
        3 => Register::R10,
        4 => Register::R8,
        _ => Register::R9,
    }
}

impl Register {
    /// The register's name as the assembler spells it.
    pub fn name(&self) -> (r: &'static str)
        ensures
            r@ == register_name(*self),
    {
        match self {
            Register::Rax => "rax",
            Register::Rdi => "rdi",
            Register::Rsi => "rsi",
            Register::Rdx => "rdx",
            Register::R10 => "r10",
            Register::R8 => "r8",
            Register::R9 => "r9",
        }
    }
}

/// The six argument registers are pairwise distinct, and none is the
/// accumulator.
pub proof fn lemma_register_map_distinct(i: int, j: int)
    requires
        0 <= i < MAX_ARGS,
        0 <= j < MAX_ARGS,
        i != j,
    ensures
        register_map(i) != register_map(j),
        register_map(i) != Register::Rax,
{
}

} // verus!
