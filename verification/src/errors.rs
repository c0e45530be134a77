use vstd::prelude::*;
use crate::limits::LimitKind;

verus! {

/// The failures this library reports. Each condition is surfaced terminally:
/// nothing is retried and nothing is silently swallowed.
#[derive(Debug, Clone, Copy, PartialEq, Eq, Structural)]
pub enum Error {
    /// The kernel rejected the resource limit for the named dimension.
    LimitSetting(LimitKind),
    /// The wait call failed or did not return the requested process id.
    WaitFailed,
    /// The child terminated with a status shape this library does not model.
    UnknownStatus,
}

/// The descriptive message that belongs to each failure condition.
pub open spec fn message_of(e: Error) -> Seq<char> {
    match e {
        Error::LimitSetting(_) => "Error calling setrlimit()"@,
        Error::WaitFailed => "Error waiting for child completion"@,
        Error::UnknownStatus => "Child terminated with unknown status"@,
    }
}

impl Error {
    /// A human-readable description of the failure.
    pub fn message(&self) -> (m: &'static str)
        ensures
            m@ == message_of(*self),
    {
        match self {
            Error::LimitSetting(_) => "Error calling setrlimit()",
            Error::WaitFailed => "Error waiting for child completion",
            Error::UnknownStatus => "Child terminated with unknown status",
        }
    }
}

} // verus!
