//! Backpressure-respecting delivery of batches to the downstream
//! consumer.
//!
//! The sender wraps a bounded channel. Handing a value over suspends
//! the caller while the channel is full — the value is never dropped
//! and the caller never busy-spins — and fails exactly when the
//! receiving side is gone, which is fatal for the pipeline. The
//! two-phase check-then-commit protocol that a poll-driven runtime
//! uses for the same discipline is captured by [`sender_poll_step`],
//! a pure decision function the surrounding event loop can follow.

use vstd::prelude::*;
use crate::types::RedeyeError;

verus! {

#[verifier::external_type_specification]
#[verifier::external_body]
#[verifier::reject_recursive_types(T)]
pub struct ExSyncSender<T>(std::sync::mpsc::SyncSender<T>);

#[verifier::external_type_specification]
pub struct ExSendError<T>(std::sync::mpsc::SendError<T>);

/// Relies on std::sync::mpsc::SyncSender::clone: another handle to
/// the same channel, so the sender can be shared across producers.
pub assume_specification<T>[ <std::sync::mpsc::SyncSender<T> as Clone>::clone ](
    s: &std::sync::mpsc::SyncSender<T>,
) -> std::sync::mpsc::SyncSender<T>;

/// Relies on std::sync::mpsc::SyncSender::send: it blocks while the
/// channel is full and returns an error exactly when the receiver has
/// disconnected; the error hands the unsent value back, so the value
/// is never dropped.
pub assume_specification<T>[ std::sync::mpsc::SyncSender::<T>::send ](
    s: &std::sync::mpsc::SyncSender<T>,
    t: T,
) -> (r: Result<(), std::sync::mpsc::SendError<T>>)
    ensures
        r matches Err(e) ==> e.0 == t,
;

/// One logical outbound edge to the batch consumer, shared by any
/// number of producers.
#[derive(Debug, Clone)]
#[verifier::reject_recursive_types(T)]
pub struct BackPressureSender<T> {
    tx: std::sync::mpsc::SyncSender<T>,
}

impl<T> BackPressureSender<T> {
    pub fn new(tx: std::sync::mpsc::SyncSender<T>) -> BackPressureSender<T> {
        BackPressureSender { tx }
    }

    /// Hand `val` to the channel. The call suspends while the channel
    /// is at capacity and completes once the value has definitively
    /// been accepted; it fails — with the disconnection error and
    /// nothing else — exactly when the receiver is gone.
    pub fn send(&self, val: T) -> (r: Result<(), RedeyeError>)
        ensures
            r matches Err(e) ==> e@ is Disconnected,
    {
        match self.tx.send(val) {
            Ok(()) => Ok(()),
            Err(_) => Err(RedeyeError::Disconnected),
        }
    }
}

/// What the channel reports when asked whether it has room for one
/// more value.
#[derive(Debug, Clone, Copy, PartialEq, Eq, Structural)]
pub enum ReadyPoll {
    /// There is room: the sender may commit a value.
    Ready,
    /// The channel is full: the operation must suspend and re-ask.
    Pending,
    /// The receiver is gone.
    Closed,
}

/// What the channel reports for an attempted hand-off of a value.
#[derive(Debug, Clone, Copy, PartialEq, Eq, Structural)]
pub enum CommitPoll {
    /// The value was accepted.
    Accepted,
    /// The channel refused the value for now; it stays with the
    /// sender.
    Rejected,
    /// The receiver is gone.
    Closed,
}

/// What the suspendable send operation does next.
#[derive(Debug, Clone, Copy, PartialEq, Eq, Structural)]
pub enum SendStep {
    /// The value has been delivered; the operation resolves.
    Complete,
    /// The value is retained and the operation suspends until the
    /// channel reports capacity.
    Suspend,
    /// The receiver is gone; the operation fails permanently.
    Fail,
}

/// The first phase of the two-phase send: a commit may only be
/// attempted once the channel has reported room, so that no value is
/// pushed against a full channel.
pub fn commit_allowed(ready: ReadyPoll) -> (r: bool)
    ensures
        r == (ready == ReadyPoll::Ready),
{
    matches!(ready, ReadyPoll::Ready)
}

/// Resolve one poll of the two-phase send from what the channel
/// reported: `commit` carries the second phase's outcome exactly when
/// the first phase allowed it. The operation fails only on a closed
/// channel, completes only on an accepted value, and otherwise
/// suspends with the value retained — it never errs on a full channel
/// and never drops the value.
pub fn sender_poll_step(ready: ReadyPoll, commit: Option<CommitPoll>) -> (r: SendStep)
    requires
        commit is Some <==> ready == ReadyPoll::Ready,
    ensures
        (r == SendStep::Fail) <==> (ready == ReadyPoll::Closed || commit == Some(
            CommitPoll::Closed,
        )),
        (r == SendStep::Complete) <==> commit == Some(CommitPoll::Accepted),
        (r == SendStep::Suspend) <==> (ready == ReadyPoll::Pending || commit == Some(
            CommitPoll::Rejected,
        )),
{
    match ready {
        ReadyPoll::Closed => SendStep::Fail,
        ReadyPoll::Pending => SendStep::Suspend,
        ReadyPoll::Ready => match commit {
            Some(CommitPoll::Accepted) => SendStep::Complete,
            Some(CommitPoll::Rejected) => SendStep::Suspend,
            Some(CommitPoll::Closed) => SendStep::Fail,
            None => {
                proof {
                    assert(false);
                }
                SendStep::Fail
            },
        },
    }
}

} // verus!
