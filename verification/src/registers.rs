use vstd::prelude::*;

verus! {

/// A snapshot of the tracee's CPU registers at a single trace stop.
///
/// The two variants are the two register layouts this tracer understands:
/// the x86-64 convention, where the syscall number sits in `orig_rax` and the
/// leading arguments in `rdi`, `rsi` and `rdx`, and the AArch64 convention,
/// where the general-purpose register bank carries the number in `regs[8]`
/// and the arguments in `regs[0..3]`. The layouts are structurally different
/// and must never be conflated: decoding selects by variant.
#[derive(Clone, Copy, Debug)]
pub enum RegisterSnapshot {
    X86_64 { orig_rax: u64, rdi: u64, rsi: u64, rdx: u64 },
    Aarch64 { regs: [u64; 31] },
}

/// The syscall number held in a snapshot, by the layout of its architecture.
pub open spec fn spec_syscall_number(s: RegisterSnapshot) -> u64 {
    match s {
        RegisterSnapshot::X86_64 { orig_rax, .. } => orig_rax,
        RegisterSnapshot::Aarch64 { regs } => regs[8],
    }
}

/// The three leading syscall argument words held in a snapshot.
pub open spec fn spec_syscall_args(s: RegisterSnapshot) -> (u64, u64, u64) {
    match s {
        RegisterSnapshot::X86_64 { rdi, rsi, rdx, .. } => (rdi, rsi, rdx),
        RegisterSnapshot::Aarch64 { regs } => (regs[0], regs[1], regs[2]),
    }
}

/// The full decoded tuple: syscall number and first three argument words.
pub open spec fn spec_decode(s: RegisterSnapshot) -> (u64, u64, u64, u64) {
    (
        spec_syscall_number(s),
        spec_syscall_args(s).0,
        spec_syscall_args(s).1,
        spec_syscall_args(s).2,
    )
}

/// Extract the syscall number from a register snapshot.
pub fn get_syscall_number(regs: &RegisterSnapshot) -> (r: u64)
    ensures
        r == spec_syscall_number(*regs),
{
    match regs {
        RegisterSnapshot::X86_64 { orig_rax, .. } => *orig_rax,
        RegisterSnapshot::Aarch64 { regs } => regs[8],
    }
}

/// Extract the first three syscall argument words from a register snapshot.
pub fn getsyscall_args(regs: &RegisterSnapshot) -> (r: (u64, u64, u64))
    ensures
        r == spec_syscall_args(*regs),
{
    match regs {
        RegisterSnapshot::X86_64 { rdi, rsi, rdx, .. } => (*rdi, *rsi, *rdx),
        RegisterSnapshot::Aarch64 { regs } => (regs[0], regs[1], regs[2]),
    }
}

/// Decode a snapshot into `(number, arg0, arg1, arg2)`. Pure: no side
/// effects and no failure path.
pub fn decode(regs: &RegisterSnapshot) -> (r: (u64, u64, u64, u64))
    ensures
        r == spec_decode(*regs),
{
    let number = get_syscall_number(regs);
    let (arg0, arg1, arg2) = getsyscall_args(regs);
    (number, arg0, arg1, arg2)
}

/// Decoding is deterministic: equal snapshots always decode to the same
/// `(number, arg0, arg1, arg2)` tuple.
pub proof fn lemma_decode_deterministic(a: RegisterSnapshot, b: RegisterSnapshot)
    requires
        a == b,
    ensures
        spec_decode(a) == spec_decode(b),
{
}

} // verus!
