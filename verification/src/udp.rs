//! The cooperative socket adapter's decision core.
//!
//! A datagram socket is an operating-system resource: the non-blocking
//! receive and send calls themselves, and the reference-counted handle that
//! clones share, live in the unverified shell around this library. What is
//! verified here is the part the blocking loop decides on its own: how one
//! attempt's three-way outcome (a transferred datagram, "not ready", or an
//! operating-system error) is turned into the loop's next move. Unlike the
//! lock adapter, waiting is a directed suspension: on "not ready" the task
//! suspends until the scheduler's reactor reports the socket ready for the
//! requested direction, rather than yielding unconditionally.
//!
//! The shell's loop is: attempt a non-blocking transfer, hand the outcome
//! to [`io_step`], then return, suspend on the named direction and retry,
//! or fail, exactly as the returned action says. Every genuine error is
//! surfaced at once and never retried; "not ready" is absorbed by the
//! suspension and never escapes a blocking call.

use vstd::prelude::*;

use crate::sched::{Direction, Scheduler};

verus! {

/// Outcome of one non-blocking transfer attempt: the same three-way shape
/// (success, not ready, error) that the lock adapter's attempts follow. For
/// a receive, `Done` carries the byte count and the sender's address; for a
/// send, the byte count.
pub enum TryIo<V, E> {
    /// The transfer happened and produced `V`.
    Done(V),
    /// The socket is not ready for this direction; nothing happened.
    NotReady,
    /// An operating-system error other than "would block".
    Fault(E),
}

/// What a blocking transfer loop does after one attempt.
pub enum IoAction<V, E> {
    /// Return the transferred result to the caller.
    Return(V),
    /// Suspend the task until the socket is ready for this direction, then
    /// attempt again.
    Suspend(Direction),
    /// Surface the error to the caller at once, without retrying.
    Fail(E),
}

/// The decision of the blocking loops, as a function of the attempt
/// outcome and the requested direction.
pub open spec fn spec_io_decision<V, E>(outcome: TryIo<V, E>, direction: Direction) -> IoAction<
    V,
    E,
> {
    match outcome {
        TryIo::Done(v) => IoAction::Return(v),
        TryIo::NotReady => IoAction::Suspend(direction),
        TryIo::Fault(e) => IoAction::Fail(e),
    }
}

/// The single decision step of the blocking read and write loops: a
/// completed transfer is returned, unreadiness suspends the task on exactly
/// the requested direction, and any other error is surfaced immediately.
/// "Not ready" is the one and only outcome that makes the loop wait, so it
/// never escapes a blocking call; and no result or error is ever invented
/// or dropped.
pub fn io_step<V, E>(outcome: TryIo<V, E>, direction: Direction) -> (a: IoAction<V, E>)
    ensures
        a == spec_io_decision(outcome, direction),
        (a is Suspend <==> outcome is NotReady),
        (outcome matches TryIo::Done(v) ==> a == IoAction::<V, E>::Return(v)),
        (outcome matches TryIo::Fault(e) ==> a == IoAction::<V, E>::Fail(e)),
{
    match outcome {
        TryIo::Done(v) => IoAction::Return(v),
        TryIo::NotReady => IoAction::Suspend(direction),
        TryIo::Fault(e) => IoAction::Fail(e),
    }
}

/// What a blocking transfer returns when its successive non-blocking
/// attempts observe the outcomes `s`, in order: the result or error of the
/// first decisive attempt, each "not ready" before it having only
/// suspended the task; `None` while every attempt so far was "not ready".
pub open spec fn spec_first_decisive<V, E>(s: Seq<TryIo<V, E>>) -> Option<Result<V, E>>
    decreases s.len(),
{
    if s.len() == 0 {
        None
    } else {
        match s[0] {
            TryIo::Done(v) => Some(Ok(v)),
            TryIo::Fault(e) => Some(Err(e)),
            TryIo::NotReady => spec_first_decisive(s.drop_first()),
        }
    }
}

/// The blocking transfer protocol, verified once over an explicit record
/// of attempt outcomes, consumed as it goes: `attempts[0]` is what the
/// next non-blocking attempt observes, as datagrams arrive and buffers
/// drain between attempts. The protocol suspends the task on the requested
/// direction for every "not ready" attempt and stops at the first decisive
/// one, returning its result or surfacing its error; "not ready" itself is
/// never returned. `None` means every recorded attempt found the socket
/// unready: the task is still suspended, waiting for readiness.
#[verifier::loop_isolation(false)]
pub fn io_protocol<V, E, S: Scheduler>(
    attempts: &mut Vec<TryIo<V, E>>,
    direction: Direction,
    sched: &mut S,
) -> (r: Option<Result<V, E>>)
    ensures
        r == spec_first_decisive(old(attempts)@),
        r is None ==> final(attempts)@.len() == 0,
{
    while attempts.len() > 0
        invariant
            spec_first_decisive(attempts@) == spec_first_decisive(old(attempts)@),
        decreases attempts.len(),
    {
        let ghost before = attempts@;
        let a = attempts.remove(0);
        proof {
            assert(attempts@ =~= before.drop_first());
        }
        match io_step(a, direction) {
            IoAction::Return(v) => {
                return Some(Ok(v));
            }
            IoAction::Suspend(d) => {
                sched.block_on(d);
            }
            IoAction::Fail(e) => {
                return Some(Err(e));
            }
        }
    }
    None
}

/// On a socket with nothing pending, a non-blocking receive attempt reports
/// "not ready", and the blocking loop's decision on it is to suspend for
/// readability — not to return and not to fail; once an attempt observes an
/// arrived datagram, the decision is to return exactly that datagram's
/// result, byte count and sender address included.
pub proof fn lemma_read_waits_until_datagram<V, E>(v: V)
    ensures
        spec_io_decision(TryIo::<V, E>::NotReady, Direction::Readable) == IoAction::<V,
            E,
        >::Suspend(Direction::Readable),
        spec_io_decision(TryIo::<V, E>::Done(v), Direction::Readable) == IoAction::<V, E>::Return(
            v,
        ),
{
}

} // verus!
