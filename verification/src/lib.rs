//! Resource-control and process-supervision primitives for a process
//! sandbox: enforcing memory, CPU-time and core-dump limits on the calling
//! process before it execs, collecting a terminated child's exit
//! classification and resource usage, and naming signals for diagnostics.

pub mod configuration;
pub mod errors;
pub mod limits;
pub mod outcome;
pub mod collector;
pub mod signals;
