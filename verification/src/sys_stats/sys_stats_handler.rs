//! The pollers' publishing policy.
//!
//! Each poller loops: read one snapshot from its source, publish it on
//! the aggregation channel, repeat.  A read failure is fatal to that
//! poller — it stops instead of retrying a broken source silently.
//! This module holds that decision; the loop around it, with its
//! channel send applying backpressure, is driven by the embedding
//! program.

use vstd::prelude::*;

verus! {

use crate::ReadError;
use crate::Snapshot;

/// What a poller does with one read outcome.
pub enum PollerDirective {
    /// Publish the fresh snapshot on the aggregation channel, blocking
    /// while the channel is at capacity.
    Publish(Snapshot),
    /// Stop this poller's loop and surface the failure.
    Stop(ReadError),
}

/// The poller policy: every successful read is published unchanged,
/// and every failure ends the poller.
pub fn poller_step(read: Result<Snapshot, ReadError>) -> (d: PollerDirective)
    ensures
        match read {
            Ok(s) => d == PollerDirective::Publish(s),
            Err(e) => d == PollerDirective::Stop(e),
        },
{
    match read {
        Ok(s) => PollerDirective::Publish(s),
        Err(e) => PollerDirective::Stop(e),
    }
}

} // verus!
