use vstd::prelude::*;

use crate::process::ProcessHandle;
use crate::process::SpawnError;
use crate::process::spawn_tracee;
use crate::registers::RegisterSnapshot;
use crate::registers::decode;
use crate::syscalls::spec_syscall_name;
use crate::syscalls::syscall_name;

verus! {

/// One state change of the tracee, as a wait on its handle reports it.
#[derive(Clone, Copy, Debug, PartialEq, Eq, Structural)]
pub enum WaitEvent {
    /// The tracee exited normally with the given exit code.
    Exited { code: i32 },
    /// The tracee was terminated by the given signal.
    Signaled { signal: i32 },
    /// The tracee is alive and stopped, with the given stop signal.
    Stopped { signal: i32 },
    /// A spurious state change: the tracee neither stopped nor ended.
    Other,
}

/// The terminal result of a full trace session.
#[derive(Clone, Copy, Debug, PartialEq, Eq, Structural)]
pub enum TraceOutcome {
    /// The tracee exited normally with this exit code.
    Exited(i32),
    /// The tracee was terminated by this signal.
    Terminated(i32),
}

/// Why a trace session failed.
#[derive(Clone, Copy, Debug, PartialEq, Eq, Structural)]
pub enum TraceError {
    /// The tracee could not be launched; tracing never began.
    LaunchFailed(SpawnError),
    /// A wait for the tracee's next state change failed mid-session.
    WaitFailed,
    /// Reading the stopped tracee's registers failed mid-session.
    RegisterReadFailed,
    /// Resuming the tracee to its next syscall boundary failed, or was
    /// abandoned, mid-session.
    ResumeFailed,
}

/// One decoded system call, observed at a syscall-entry stop.
#[derive(Debug, PartialEq, Eq)]
pub struct SyscallEvent {
    pub number: u64,
    pub arg0: u64,
    pub arg1: u64,
    pub arg2: u64,
    pub name: String,
}

/// A well-formed event carries the name that its number resolves to.
pub open spec fn event_wf(e: SyscallEvent) -> bool {
    e.name@ == spec_syscall_name(e.number)
}

/// What the trace loop does with one wait event.
#[derive(Clone, Copy, Debug, PartialEq, Eq, Structural)]
pub enum StopAction {
    /// The session is over with this outcome; nothing more is emitted.
    Finish(TraceOutcome),
    /// The tracee stands at a syscall-entry boundary: decode and emit.
    DecodeStop,
    /// The tracee stopped without anything to emit: resume it.
    SkipStop,
}

/// The decision the trace loop takes on a wait event, together with the
/// entry/exit parity it carries to the next boundary. A stop while `entry`
/// holds is a syscall-entry boundary and is decoded; the matching exit stop
/// is consumed without an event; a spurious event changes nothing.
pub open spec fn spec_step(ev: WaitEvent, entry: bool) -> (StopAction, bool) {
    match ev {
        WaitEvent::Exited { code } => (StopAction::Finish(TraceOutcome::Exited(code)), entry),
        WaitEvent::Signaled { signal } => (
            StopAction::Finish(TraceOutcome::Terminated(signal)),
            entry,
        ),
        WaitEvent::Stopped { .. } => if entry {
            (StopAction::DecodeStop, false)
        } else {
            (StopAction::SkipStop, true)
        },
        WaitEvent::Other => (StopAction::SkipStop, entry),
    }
}

/// Decide what the trace loop does with the wait event `ev`, given the
/// entry/exit parity `entry` of the next boundary stop.
pub fn step(ev: &WaitEvent, entry: bool) -> (r: (StopAction, bool))
    ensures
        r == spec_step(*ev, entry),
{
    match ev {
        WaitEvent::Exited { code } => (StopAction::Finish(TraceOutcome::Exited(*code)), entry),
        WaitEvent::Signaled { signal } => (
            StopAction::Finish(TraceOutcome::Terminated(*signal)),
            entry,
        ),
        WaitEvent::Stopped { .. } => if entry {
            (StopAction::DecodeStop, false)
        } else {
            (StopAction::SkipStop, true)
        },
        WaitEvent::Other => (StopAction::SkipStop, entry),
    }
}

/// A trace of a tracee that exits normally with code `code` ends the session
/// with `TraceOutcome::Exited(code)`, whatever the boundary parity was, and
/// the decision to finish emits no event.
pub proof fn lemma_exit_ends_session(code: i32, entry: bool)
    ensures
        spec_step(WaitEvent::Exited { code }, entry).0 == StopAction::Finish(
            TraceOutcome::Exited(code),
        ),
{
}

/// A trace of a tracee that is terminated by signal `signal` ends the
/// session with `TraceOutcome::Terminated(signal)`, whatever the boundary
/// parity was, and the decision to finish emits no event.
pub proof fn lemma_signal_ends_session(signal: i32, entry: bool)
    ensures
        spec_step(WaitEvent::Signaled { signal }, entry).0 == StopAction::Finish(
            TraceOutcome::Terminated(signal),
        ),
{
}

/// A wait event that does not end the session: a stop of either phase, or a
/// spurious report. The session goes on past every such event.
pub open spec fn spec_nonterminal(ev: WaitEvent) -> bool {
    ev matches WaitEvent::Stopped { .. } || ev == WaitEvent::Other
}

/// The outcome of running the trace loop's decisions over a stream of wait
/// events, starting at boundary parity `entry`: the outcome carried by the
/// first event that finishes the session, or `None` if none does.
pub open spec fn spec_session(evs: Seq<WaitEvent>, entry: bool) -> Option<TraceOutcome>
    decreases evs.len(),
{
    if evs.len() == 0 {
        None
    } else {
        match spec_step(evs[0], entry).0 {
            StopAction::Finish(outcome) => Some(outcome),
            _ => spec_session(evs.drop_first(), spec_step(evs[0], entry).1),
        }
    }
}

/// How many events the trace loop emits while running over `evs` from
/// boundary parity `entry`: one per decode decision taken before the session
/// finishes.
pub open spec fn spec_emitted(evs: Seq<WaitEvent>, entry: bool) -> nat
    decreases evs.len(),
{
    if evs.len() == 0 {
        0
    } else {
        match spec_step(evs[0], entry).0 {
            StopAction::Finish(_) => 0,
            StopAction::DecodeStop => 1 + spec_emitted(
                evs.drop_first(),
                spec_step(evs[0], entry).1,
            ),
            StopAction::SkipStop => spec_emitted(evs.drop_first(), spec_step(evs[0], entry).1),
        }
    }
}

/// The first terminal report in the stream decides the whole session. Over a
/// stream whose events before position `i` are all stops or spurious
/// reports, and whose event at `i` is terminal: a normal exit with code C
/// ends the session with `Exited(C)`, a termination by signal S ends it with
/// `Terminated(S)`, and every emitted event comes from the stops before `i`
/// — nothing is emitted at or after the terminal report.
pub proof fn lemma_session_first_terminal(evs: Seq<WaitEvent>, entry: bool, i: int)
    requires
        0 <= i < evs.len(),
        forall|j: int| 0 <= j < i ==> spec_nonterminal(#[trigger] evs[j]),
        !spec_nonterminal(evs[i]),
    ensures
        evs[i] matches WaitEvent::Exited { code } ==> spec_session(evs, entry) == Some(
            TraceOutcome::Exited(code),
        ),
        evs[i] matches WaitEvent::Signaled { signal } ==> spec_session(evs, entry) == Some(
            TraceOutcome::Terminated(signal),
        ),
        spec_emitted(evs, entry) == spec_emitted(evs.take(i), entry),
    decreases i,
{
    if i == 0 {
        assert(evs.take(0).len() == 0);
    } else {
        let rest = evs.drop_first();
        let next = spec_step(evs[0], entry).1;
        assert forall|j: int| 0 <= j < i - 1 implies spec_nonterminal(#[trigger] rest[j]) by {
            assert(rest[j] == evs[j + 1]);
        }
        assert(rest[i - 1] == evs[i]);
        lemma_session_first_terminal(rest, next, i - 1);
        assert(evs.take(i)[0] == evs[0]);
        assert(evs.take(i).drop_first() =~= rest.take(i - 1));
    }
}

/// How the trace loop reads the very first wait after a launch: a stop is
/// the acknowledgment of the child's trace request, consumed without being
/// decoded as a syscall; anything else means the child never reached its
/// first instruction under trace, which surfaces the failed image
/// replacement.
pub fn classify_first_stop(ev: &WaitEvent) -> (r: Result<(), TraceError>)
    ensures
        r is Ok <==> *ev matches WaitEvent::Stopped { .. },
        r matches Err(e) ==> e == TraceError::LaunchFailed(SpawnError::ExecFailed),
{
    match ev {
        WaitEvent::Stopped { .. } => Ok(()),
        _ => Err(TraceError::LaunchFailed(SpawnError::ExecFailed)),
    }
}

/// Relies on `nix::sys::wait::waitpid` with no options: it blocks until the
/// child changes state and reports it; exit code, terminating signal and
/// stop signal are converted to plain integers, one arm per reported kind.
#[verifier::external_body]
fn wait_for_event(pid: i32) -> (r: Result<WaitEvent, ()>)
{
    match nix::sys::wait::waitpid(nix::unistd::Pid::from_raw(pid), None) {
        Ok(nix::sys::wait::WaitStatus::Exited(_, code)) => Ok(WaitEvent::Exited { code }),
        Ok(nix::sys::wait::WaitStatus::Signaled(_, signal, _)) => Ok(
            WaitEvent::Signaled { signal: signal as i32 },
        ),
        Ok(nix::sys::wait::WaitStatus::Stopped(_, signal)) => Ok(
            WaitEvent::Stopped { signal: signal as i32 },
        ),
        Ok(_) => Ok(WaitEvent::Other),
        Err(_) => Err(()),
    }
}

/// Relies on `nix::sys::ptrace::syscall` with no signal: it asks the kernel
/// to resume the stopped tracee until its next syscall boundary.
#[verifier::external_body]
fn resume_to_syscall(pid: i32) -> (r: Result<(), ()>)
{
    match nix::sys::ptrace::syscall(nix::unistd::Pid::from_raw(pid), None) {
        Ok(()) => Ok(()),
        Err(_) => Err(()),
    }
}

/// Relies on `nix::sys::ptrace::getregs`: it reads the stopped tracee's
/// register file. On this target the snapshot follows the x86-64 layout;
/// the fields that decoding reads are copied out as plain words.
#[verifier::external_body]
fn read_registers(pid: i32) -> (r: Result<RegisterSnapshot, ()>)
{
    match nix::sys::ptrace::getregs(nix::unistd::Pid::from_raw(pid)) {
        Ok(regs) => Ok(
            RegisterSnapshot::X86_64 {
                orig_rax: regs.orig_rax,
                rdi: regs.rdi,
                rsi: regs.rsi,
                rdx: regs.rdx,
            },
        ),
        Err(_) => Err(()),
    }
}

/// Relies on `nix::sys::ptrace::detach` with no signal: it releases the
/// stopped tracee from trace control and lets it run to completion.
#[verifier::external_body]
fn detach_tracee(pid: i32) -> (r: Result<(), ()>)
{
    match nix::sys::ptrace::detach(nix::unistd::Pid::from_raw(pid), None) {
        Ok(()) => Ok(()),
        Err(_) => Err(()),
    }
}

/// Best-effort release of a tracee after a mid-session failure: detach it
/// so it is no longer stopped under trace, then wait once so the process is
/// reaped rather than left as an orphaned stopped child.
fn release_tracee(pid: i32) {
    let _ = detach_tracee(pid);
    let _ = wait_for_event(pid);
}

/// Trace `cmd args[0] args[1] ...` to completion and collect its decoded
/// syscall events.
///
/// The child's first stop — the acknowledgment of its trace request — is
/// consumed without being decoded. After that, one event is emitted per
/// syscall boundary pair, decoded from a fresh register snapshot at the
/// entry stop. The session ends with the tracee's exit code or terminating
/// signal; on a mid-session failure the tracee is released and reaped
/// before the error is surfaced.
pub fn trace_with_events(cmd: &str, args: &[String]) -> (r: Result<
    (TraceOutcome, Vec<SyscallEvent>),
    TraceError,
>)
    ensures
        r matches Ok(p) ==> forall|i: int|
            0 <= i < p.1@.len() ==> event_wf(#[trigger] p.1@[i]),
{
    let handle: ProcessHandle = match spawn_tracee(cmd, args) {
        Ok(h) => h,
        Err(e) => { return Err(TraceError::LaunchFailed(e)); },
    };
    let first: WaitEvent = match wait_for_event(handle.pid) {
        Ok(ev) => ev,
        Err(_) => {
            release_tracee(handle.pid);
            return Err(TraceError::WaitFailed);
        },
    };
    match classify_first_stop(&first) {
        Ok(()) => {},
        Err(e) => { return Err(e); },
    }
    let mut events: Vec<SyscallEvent> = Vec::new();
    let mut entry: bool = true;
    // One step of budget per boundary stop. The wait for the tracee has no
    // timeout, so a session is unbounded in time; its number of observed
    // stops is nevertheless capped here, far beyond what any process can
    // reach, so that the loop provably consumes its budget.
    let mut budget: u64 = u64::MAX;
    loop
        invariant
            handle.wf(),
            forall|i: int| 0 <= i < events@.len() ==> event_wf(#[trigger] events@[i]),
        decreases budget,
    {
        if budget == 0 {
            // The budget is spent: abandon resuming, release the tracee.
            release_tracee(handle.pid);
            return Err(TraceError::ResumeFailed);
        }
        budget = budget - 1;
        if resume_to_syscall(handle.pid).is_err() {
            release_tracee(handle.pid);
            return Err(TraceError::ResumeFailed);
        }
        let ev: WaitEvent = match wait_for_event(handle.pid) {
            Ok(ev) => ev,
            Err(_) => {
                release_tracee(handle.pid);
                return Err(TraceError::WaitFailed);
            },
        };
        let (action, next_entry) = step(&ev, entry);
        match action {
            StopAction::Finish(outcome) => { return Ok((outcome, events)); },
            StopAction::DecodeStop => {
                let snapshot: RegisterSnapshot = match read_registers(handle.pid) {
                    Ok(s) => s,
                    Err(_) => {
                        release_tracee(handle.pid);
                        return Err(TraceError::RegisterReadFailed);
                    },
                };
                let (number, arg0, arg1, arg2) = decode(&snapshot);
                let name = syscall_name(number).to_string();
                let event = SyscallEvent { number, arg0, arg1, arg2, name };
                events.push(event);
            },
            StopAction::SkipStop => {},
        }
        entry = next_entry;
    }
}

/// Trace `cmd args[0] args[1] ...` to completion and report how the tracee
/// ended: its exit code, or the signal that terminated it. The decoded
/// events of the session are discarded; `trace_with_events` reports them.
pub fn trace(cmd: &str, args: &[String]) -> (r: Result<TraceOutcome, TraceError>)
{
    match trace_with_events(cmd, args) {
        Ok((outcome, _events)) => Ok(outcome),
        Err(e) => Err(e),
    }
}

} // verus!
