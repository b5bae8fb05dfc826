//! The aggregation channel: a bounded first-in-first-out queue that
//! carries snapshots from the pollers to the renderer.
//!
//! The queue itself comes from tokio's bounded multi-producer,
//! single-consumer channel; this module declares it and puts the calls
//! the verified code makes behind contracts.  The queue's contents are
//! shared with concurrent senders, so nothing is promised about which
//! snapshot arrives when — only that a failed send hands the snapshot
//! back instead of dropping it.

use vstd::prelude::*;

verus! {

use crate::Snapshot;

#[verifier::external_type_specification]
#[verifier::external_body]
#[verifier::reject_recursive_types(T)]
pub struct ExSender<T>(tokio::sync::mpsc::Sender<T>);

#[verifier::external_type_specification]
#[verifier::external_body]
#[verifier::reject_recursive_types(T)]
pub struct ExReceiver<T>(tokio::sync::mpsc::Receiver<T>);

/// A send that did not go through, carrying the snapshot back.
pub enum SendFailure {
    /// The channel was at capacity.
    Full(Snapshot),
    /// The receiver was gone.
    Closed(Snapshot),
}

impl SendFailure {
    /// The snapshot the failed send handed back.
    pub open spec fn spec_snapshot(&self) -> Snapshot {
        match *self {
            SendFailure::Full(s) => s,
            SendFailure::Closed(s) => s,
        }
    }

    /// Recovers the snapshot so the caller can retry or surface it.
    pub fn into_snapshot(self) -> (s: Snapshot)
        ensures
            s == self.spec_snapshot(),
    {
        match self {
            SendFailure::Full(s) => s,
            SendFailure::Closed(s) => s,
        }
    }
}

/// Relies on tokio::sync::mpsc::channel: builds a bounded queue with
/// room for `capacity` outstanding snapshots.  The call panics on a
/// zero capacity and on one above tokio's semaphore permit limit,
/// `usize::MAX >> 3`; the precondition rules both out.
#[verifier::external_body]
pub fn snapshot_channel(capacity: usize) -> (r: (
    tokio::sync::mpsc::Sender<Snapshot>,
    tokio::sync::mpsc::Receiver<Snapshot>,
))
    requires
        1 <= capacity <= usize::MAX >> 3,
{
    tokio::sync::mpsc::channel(capacity)
}

/// Relies on tokio's Sender::try_send: the snapshot is either queued,
/// or returned inside the error when the queue is at capacity or the
/// receiver is gone — never dropped.
#[verifier::external_body]
pub fn try_send_snapshot(tx: &tokio::sync::mpsc::Sender<Snapshot>, s: Snapshot) -> (r: Result<
    (),
    SendFailure,
>)
    ensures
        r matches Err(f) ==> f.spec_snapshot() == s,
{
    match tx.try_send(s) {
        Ok(()) => Ok(()),
        Err(tokio::sync::mpsc::error::TrySendError::Full(v)) => Err(SendFailure::Full(v)),
        Err(tokio::sync::mpsc::error::TrySendError::Closed(v)) => Err(SendFailure::Closed(v)),
    }
}

/// Relies on tokio's Receiver::try_recv: takes one waiting snapshot if
/// any, without awaiting — though it parks briefly when a concurrent
/// send holding a slot is still writing its value.  Which snapshot
/// arrives depends on the concurrent senders, so nothing is promised
/// about the value.
#[verifier::external_body]
pub fn try_recv_snapshot(rx: &mut tokio::sync::mpsc::Receiver<Snapshot>) -> (r: Option<Snapshot>) {
    rx.try_recv().ok()
}

} // verus!
