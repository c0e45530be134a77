use vstd::prelude::*;

verus! {

/// How a completed wait classifies the child's termination. Exactly one
/// variant is produced per completed wait; no other termination shape is
/// representable.
#[derive(Debug, Clone, Copy, PartialEq, Eq, Structural)]
pub enum ExitStatus {
    /// The process terminated normally with this exit code.
    ExitCode(i32),
    /// The process was terminated by this signal number.
    Signal(i32),
}

/// A span of CPU time as the kernel accounts it: whole seconds plus a
/// microseconds part. The value it stands for is
/// `seconds + microseconds / 1_000_000` seconds; turning that into a single
/// floating-point number is left to the caller.
#[derive(Debug, Clone, Copy, PartialEq, Eq, Structural)]
pub struct TimeUsage {
    pub seconds: u64,
    pub microseconds: u64,
}

/// What a terminated child consumed, normalized from the kernel's
/// accounting. Meaningful only when paired with a terminal `ExitStatus`;
/// both are created atomically as the single result of one successful wait.
#[derive(Debug, Clone, Copy, PartialEq, Eq, Structural)]
pub struct ResourceUsage {
    /// Peak resident memory, in bytes.
    pub memory_usage: u64,
    /// CPU time spent in user mode.
    pub user_cpu_time: TimeUsage,
    /// CPU time spent in kernel mode.
    pub system_cpu_time: TimeUsage,
    /// Deliberately not computed here: always zero. Wall-clock measurement
    /// needs a timestamp taken at spawn time, which belongs to the caller.
    pub wall_time_usage: TimeUsage,
}

impl TimeUsage {
    /// The zero span.
    pub open spec fn zero() -> TimeUsage {
        TimeUsage { seconds: 0, microseconds: 0 }
    }
}

} // verus!
