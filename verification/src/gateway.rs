//! The gateway session protocol: the wire envelope, the session state
//! machine with its heartbeat and resumption rules, and the laws that hold of
//! every run of it.

pub mod codec;
pub mod laws;
pub mod session;
