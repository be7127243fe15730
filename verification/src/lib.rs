//! Lifecycle and heartbeat supervisor for a session-server sidecar.
//!
//! The library holds the verified core of the sidecar: the lifecycle state
//! machine that drives a managed instance from `Starting` to `Terminated`
//! while keeping an external fleet controller informed, the model of the
//! cancellable periodic heartbeat task, the supervisor rule that turns the
//! two activities' outcomes into a process exit code, and the small pieces of
//! plain computation around them (port parsing, label formatting). The
//! asynchronous plumbing that performs controller calls, timers and HTTP
//! serving lives outside the library and feeds events back into these
//! machines.

pub mod config;
pub mod heartbeat;
pub mod labels;
pub mod lifecycle;
pub mod supervisor;
