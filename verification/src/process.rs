use vstd::prelude::*;

verus! {

/// Why launching a tracee failed.
#[derive(Clone, Copy, Debug, PartialEq, Eq, Structural)]
pub enum SpawnError {
    /// The operating system could not create the new process.
    CreationFailed,
    /// The new process was created, but replacing its image with the target
    /// program failed; the child has terminated and must still be reaped
    /// through a wait on the handle.
    ExecFailed,
}

/// A handle to a spawned tracee: the identifier of a live traced process.
/// Valid only while the underlying process exists; once a terminal wait
/// status has been observed for it, the handle must not be reused.
#[derive(Clone, Copy, Debug, PartialEq, Eq, Structural)]
pub struct ProcessHandle {
    pub pid: i32,
}

impl ProcessHandle {
    /// A handle is well-formed when it carries a positive process identifier.
    pub open spec fn wf(self) -> bool {
        self.pid > 0
    }

    /// The raw process identifier this handle carries.
    pub fn as_raw(&self) -> (r: i32)
        ensures
            r == self.pid,
    {
        self.pid
    }
}

/// Relies on `fork::fork`, `nix::sys::ptrace::traceme`, `exec::Command::exec`
/// and `nix::sys::signal::raise`. The parent arm of `fork` yields the child's
/// process identifier, which `fork` returns only when it is positive (`-1` is
/// an error and `0` marks the child). The child arm never returns to the
/// caller: it asks to be traced, replaces its image with `cmd` (searched on
/// `PATH`, with `cmd` as `argv[0]` followed by `args`), and if that fails
/// kills itself so that the failure surfaces through the first wait on the
/// returned identifier. The trace request is issued before the image
/// replacement, so the target cannot run an instruction unobserved.
#[verifier::external_body]
fn fork_exec_traced(cmd: &str, args: &[String]) -> (r: Result<i32, SpawnError>)
    ensures
        r matches Ok(pid) ==> pid > 0,
{
    match fork::fork() {
        Ok(fork::Fork::Parent(pid)) => Ok(pid),
        Ok(fork::Fork::Child) => {
            let _ = nix::sys::ptrace::traceme();
            let _ = exec::Command::new(cmd).args(args).exec();
            let _ = nix::sys::signal::raise(nix::sys::signal::Signal::SIGKILL);
            Err(SpawnError::ExecFailed)
        },
        Err(_) => Err(SpawnError::CreationFailed),
    }
}

/// Spawn `cmd args[0] args[1] ...` as a traced child process.
///
/// On success the returned handle carries a positive process identifier, and
/// the child is in a traced, stopped-or-about-to-stop state: its very first
/// observable stop is the acknowledgment of its trace request, issued before
/// any instruction of the target program runs. The caller becomes
/// responsible for eventually reaping the process through a wait on the
/// handle, on every path, including when image replacement failed inside the
/// child.
pub fn spawn_tracee(cmd: &str, args: &[String]) -> (r: Result<ProcessHandle, SpawnError>)
    ensures
        r matches Ok(h) ==> h.wf(),
{
    match fork_exec_traced(cmd, args) {
        Ok(pid) => Ok(ProcessHandle { pid }),
        Err(e) => Err(e),
    }
}

} // verus!
