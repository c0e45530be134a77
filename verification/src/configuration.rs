use vstd::prelude::*;

verus! {

/// The sandbox limits handed to the limit enforcer. A field left as `None`
/// means "do not constrain this dimension": that ceiling is left at whatever
/// the process inherited. Construction and validation of these values belong
/// to the caller; enforcement only reads them.
#[derive(Debug, Clone, Copy, PartialEq, Eq)]
pub struct SandboxConfiguration {
    /// Bound on the process's address space, in bytes.
    pub memory_limit: Option<u64>,
    /// Bound on the process's CPU time, in seconds.
    pub time_limit: Option<u64>,
}

} // verus!
