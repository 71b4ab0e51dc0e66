use vstd::prelude::*;

verus! {

pub const SYS_READ: u64 = 0;
pub const SYS_WRITE: u64 = 1;
pub const SYS_OPEN: u64 = 2;
pub const SYS_CLOSE: u64 = 3;

/// The name this tracer resolves for syscall number `num`: one of the four
/// calls it knows by name, and the sentinel "unknown" for every other number.
pub open spec fn spec_syscall_name(num: u64) -> Seq<char> {
    if num == SYS_READ {
        "read"@
    } else if num == SYS_WRITE {
        "write"@
    } else if num == SYS_OPEN {
        "open"@
    } else if num == SYS_CLOSE {
        "close"@
    } else {
        "unknown"@
    }
}

/// Resolve a human-readable name for a syscall number.
pub fn syscall_name(num: u64) -> (r: &'static str)
    ensures
        r@ == spec_syscall_name(num),
{
    match num {
        0 => "read",
        1 => "write",
        2 => "open",
        3 => "close",
        _ => "unknown",
    }
}

/// Name resolution is total: every 64-bit number resolves to a name, and
/// every number outside the known table resolves to the sentinel "unknown".
pub proof fn lemma_syscall_name_total(num: u64)
    ensures
        num != SYS_READ && num != SYS_WRITE && num != SYS_OPEN && num != SYS_CLOSE
            ==> spec_syscall_name(num) == "unknown"@,
{
}

} // verus!
