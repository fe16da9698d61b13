//! Runs synchronous-looking I/O code cooperatively under an event loop.
//!
//! The library holds the suspend/resume protocol: which readiness a blocked
//! computation waits on, how a would-block result turns into a suspension,
//! how an outcome crosses the execution-context boundary exactly once, and
//! the state machine of a resumable computation.
pub mod interest;
pub mod outcome;
pub mod capability;
pub mod resumable;
