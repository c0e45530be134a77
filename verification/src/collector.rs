use vstd::prelude::*;
use crate::errors::Error;
use crate::outcome::{ExitStatus, ResourceUsage, TimeUsage};

verus! {

/// The plain values one wait operation hands back: the process id the
/// kernel reported, the raw status word, and the kernel's accounting for
/// the reaped child. The caller-side boundary that performs the actual wait
/// fills this in; everything after that point is computed here.
#[derive(Debug, Clone, Copy, PartialEq, Eq, Structural)]
pub struct WaitReply {
    /// The process id the wait call returned (the reaped child, or a
    /// negative value when the call failed).
    pub pid: i32,
    /// The raw termination status word.
    pub status: u32,
    /// Peak resident memory of the child, in the kernel's kilobyte units.
    pub max_rss_kib: u64,
    /// CPU time the child spent in user mode.
    pub user_time: TimeUsage,
    /// CPU time the child spent in kernel mode.
    pub system_time: TimeUsage,
}

/// The classic unix encoding of a termination status word, as this library
/// models it: the low seven bits hold the terminating signal, and are all
/// zero for a normal exit, in which case the second byte holds the exit
/// code. A low field of 127 marks a stopped process, which is not a
/// termination.
pub open spec fn status_low(status: int) -> int {
    status % 128
}

/// The status word describes a normal exit.
pub open spec fn is_exited(status: int) -> bool {
    status_low(status) == 0
}

/// The exit code carried by a normal-exit status word: its second byte.
pub open spec fn exit_code_of(status: int) -> int {
    (status / 256) % 256
}

/// The status word describes termination by a signal.
pub open spec fn is_signaled(status: int) -> bool {
    1 <= status_low(status) <= 126
}

/// The terminating signal carried by a signal-termination status word.
pub open spec fn term_signal_of(status: int) -> int {
    status_low(status)
}

/// Classifies a raw status word: a normal exit yields its exit code, a
/// signal termination yields the signal number, and any other shape
/// (stopped, continued, or unrecognized) is refused rather than guessed.
pub fn classify_status(status: u32) -> (r: Result<ExitStatus, Error>)
    ensures
        is_exited(status as int) ==> r == Ok::<ExitStatus, Error>(
            ExitStatus::ExitCode(exit_code_of(status as int) as i32),
        ),
        !is_exited(status as int) && is_signaled(status as int) ==> r == Ok::<ExitStatus, Error>(
            ExitStatus::Signal(term_signal_of(status as int) as i32),
        ),
        !is_exited(status as int) && !is_signaled(status as int) ==> r == Err::<ExitStatus, Error>(
            Error::UnknownStatus,
        ),
{
    let low: u32 = status % 128;
    if low == 0 {
        let code: u32 = (status / 256) % 256;
        Ok(ExitStatus::ExitCode(code as i32))
    } else if low <= 126 {
        Ok(ExitStatus::Signal(low as i32))
    } else {
        Err(Error::UnknownStatus)
    }
}

/// The resource snapshot a wait reply stands for: peak resident memory
/// normalized from kilobytes to bytes, the two CPU times carried over, and
/// the wall time deliberately left at zero.
pub open spec fn usage_of(reply: WaitReply) -> ResourceUsage {
    ResourceUsage {
        memory_usage: (reply.max_rss_kib * 1024) as u64,
        user_cpu_time: reply.user_time,
        system_cpu_time: reply.system_time,
        wall_time_usage: TimeUsage::zero(),
    }
}

/// Turns one wait reply into the child's exit classification and resource
/// snapshot. Fails when the wait did not return the requested process id,
/// or when the status word is neither a normal exit nor a signal
/// termination.
pub fn collect_completion(pid: i32, reply: &WaitReply) -> (r: Result<(ExitStatus, ResourceUsage), Error>)
    requires
        reply.max_rss_kib <= u64::MAX / 1024,
    ensures
        reply.pid != pid ==> r == Err::<(ExitStatus, ResourceUsage), Error>(Error::WaitFailed),
        reply.pid == pid && is_exited(reply.status as int) ==> r == Ok::<(ExitStatus, ResourceUsage), Error>(
            (ExitStatus::ExitCode(exit_code_of(reply.status as int) as i32), usage_of(*reply)),
        ),
        reply.pid == pid && !is_exited(reply.status as int) && is_signaled(reply.status as int)
            ==> r == Ok::<(ExitStatus, ResourceUsage), Error>(
            (ExitStatus::Signal(term_signal_of(reply.status as int) as i32), usage_of(*reply)),
        ),
        reply.pid == pid && !is_exited(reply.status as int) && !is_signaled(reply.status as int)
            ==> r == Err::<(ExitStatus, ResourceUsage), Error>(Error::UnknownStatus),
        r matches Ok(t) ==> t.1.wall_time_usage == TimeUsage::zero(),
{
    if reply.pid != pid {
        return Err(Error::WaitFailed);
    }
    let status = match classify_status(reply.status) {
        Ok(s) => s,
        Err(e) => {
            return Err(e);
        },
    };
    let memory: u64 = reply.max_rss_kib * 1024;
    Ok((
        status,
        ResourceUsage {
            memory_usage: memory,
            user_cpu_time: reply.user_time,
            system_cpu_time: reply.system_time,
            wall_time_usage: TimeUsage { seconds: 0, microseconds: 0 },
        },
    ))
}

/// A normal exit with any code in 0 through 255 is encoded with the code in
/// the second byte and a zero low field, and the classification recovers
/// exactly that code.
pub proof fn lemma_exit_code_round_trip(code: int)
    requires
        0 <= code <= 255,
    ensures
        is_exited(code * 256),
        !is_signaled(code * 256),
        exit_code_of(code * 256) == code,
{
    assert((code * 256) % 128 == 0) by (nonlinear_arith)
        requires 0 <= code <= 255;
    assert((code * 256) / 256 == code) by (nonlinear_arith)
        requires 0 <= code <= 255;
}

/// A termination by any signal in the representable range 1 through 126 is
/// encoded as the signal number itself in the low field, is never taken for
/// a normal exit, and the classification recovers exactly that signal.
pub proof fn lemma_signal_round_trip(sig: int)
    requires
        1 <= sig <= 126,
    ensures
        !is_exited(sig),
        is_signaled(sig),
        term_signal_of(sig) == sig,
{
}

/// No status word is both a normal exit and a signal termination: the two
/// classifications are mutually exclusive.
pub proof fn lemma_classification_exclusive(status: int)
    ensures
        !(is_exited(status) && is_signaled(status)),
{
}

} // verus!
