//! Cooperative synchronization and I/O primitives for a lightweight task
//! runtime: blocking-style lock and datagram operations built from
//! non-blocking attempts and cooperative scheduling, so that a waiting task
//! never occupies its operating-system thread.

pub mod sched;
pub mod sync;
pub mod udp;
