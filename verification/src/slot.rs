//! The result slot: a single-capacity, single-use handoff channel between a
//! worker thread and the bridge that awaits it. Exactly one producer writes at
//! most one value; exactly one consumer reads it without blocking.

use vstd::prelude::*;
use crate::headers::Headers;

verus! {

#[verifier::external_type_specification]
#[verifier::external_body]
#[verifier::reject_recursive_types(T)]
pub struct ExSender<T>(crossbeam_channel::Sender<T>);

#[verifier::external_type_specification]
#[verifier::external_body]
#[verifier::reject_recursive_types(T)]
pub struct ExReceiver<T>(crossbeam_channel::Receiver<T>);

/// What one non-blocking read of the slot reports.
pub enum SlotRead {
    /// The worker's value is here; reading it consumed it.
    Value(Result<Headers, String>),
    /// Nothing has been written yet.
    Empty,
    /// The producing half is gone and nothing was written, so nothing will
    /// ever arrive.
    Broken,
}

/// Relies on crossbeam_channel::bounded, called with capacity 1: a
/// single-capacity channel whose halves are the producer and consumer of one
/// handoff. The channel's single-producer/single-consumer discipline makes the
/// producer's write visible to the consumer before the value is handed out.
#[verifier::external_body]
pub(crate) fn slot_new() -> (r: (
    crossbeam_channel::Sender<Result<Headers, String>>,
    crossbeam_channel::Receiver<Result<Headers, String>>,
))
{
    crossbeam_channel::bounded(1)
}

/// Relies on crossbeam_channel::Sender::try_send: delivers the message unless
/// the slot already holds one or the receiving half is gone; never blocks and
/// never panics. Whether delivery succeeds depends on the concurrent state of
/// the other half, so nothing more is promised of the outcome.
#[verifier::external_body]
pub(crate) fn slot_send(
    tx: &crossbeam_channel::Sender<Result<Headers, String>>,
    v: Result<Headers, String>,
) -> (delivered: bool)
{
    tx.try_send(v).is_ok()
}

/// Relies on crossbeam_channel::Receiver::try_recv: returns the message if one
/// has been sent, reports an empty slot, or reports that the sending half was
/// dropped without sending; never blocks and never panics. Which case occurs
/// depends on the concurrent producer, so nothing more is promised of the
/// outcome.
#[verifier::external_body]
pub(crate) fn slot_try_recv(
    rx: &crossbeam_channel::Receiver<Result<Headers, String>>,
) -> (r: SlotRead)
{
    match rx.try_recv() {
        Ok(v) => SlotRead::Value(v),
        Err(crossbeam_channel::TryRecvError::Empty) => SlotRead::Empty,
        Err(crossbeam_channel::TryRecvError::Disconnected) => SlotRead::Broken,
    }
}

} // verus!
