//! The interface this library requires from the task scheduler.
//!
//! The scheduler itself is an external collaborator; the adapters need only
//! two primitives from it: an unconditional cooperative yield, and a directed
//! suspension until the underlying resource is ready for a given direction.

use vstd::prelude::*;

verus! {

/// A readiness direction for directed suspension on an I/O resource.
#[derive(Clone, Copy, PartialEq, Eq, Structural, Debug)]
pub enum Direction {
    /// The resource has data to take in (a receive can make progress).
    Readable,
    /// The resource can take data out (a send can make progress).
    Writable,
}

/// What the adapters require from the task scheduler.
///
/// `yield_now` gives up the current turn unconditionally; the task becomes
/// immediately re-eligible and resumes at the scheduler's discretion.
/// `block_on` suspends the current task until the scheduler's reactor reports
/// the task's registered resource ready for `direction`, then resumes it.
///
/// Nothing is promised of either call: the adapters' contracts hold whatever
/// the scheduler does between attempts.
pub trait Scheduler {
    /// Cooperatively give up the current turn; resumed later, with no
    /// ordering guarantee relative to other ready tasks.
    fn yield_now(&mut self);

    /// Suspend the current task until the registered resource is ready for
    /// `direction`, then resume it.
    fn block_on(&mut self, direction: Direction);
}

} // verus!
