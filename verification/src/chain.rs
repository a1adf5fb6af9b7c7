//! Settling a promise and handing a settled value on along a chain.

use tokio::sync::oneshot::Receiver;
use vstd::prelude::*;

use crate::channel::{open, receive_spec, send, slot, ReceiveError, Slot};
use crate::lines::{progress, progress_line, record};
use crate::settled::{Outcome, Settled};

verus! {

/// Publishes `value` on a fresh single-slot channel and returns the receiving
/// end, which holds the value until it is received.
pub fn settle(value: Settled) -> (rx: Receiver<Settled>)
    ensures
        slot(rx) == Slot::Filled(value@),
{
    let (tx, mut rx) = open();
    match send(tx, &mut rx, value) {
        Ok(()) => rx,
        Err(_) => unreached(),
    }
}

/// Hands an already settled value on: logs its progress line, then republishes
/// the value, unchanged, on a fresh channel and returns the receiving end.
pub fn chain_promise(settled: Settled, log: &mut Vec<String>) -> (rx: Receiver<Settled>)
    ensures
        final(log).deep_view() == old(log).deep_view().push(progress_line(settled@)),
        slot(rx) == Slot::Filled(settled@),
{
    record(log, progress(&settled));
    settle(settled)
}

/// Chaining preserves the value: the handle that [`chain_promise`] returns
/// for a settled value, success or failure, yields exactly that value to the
/// receive that follows, and is drained by it.
pub proof fn lemma_chaining_preserves_value(
    settled: Outcome,
    handle: Slot,
    got: Result<Outcome, ReceiveError>,
    after: Slot,
)
    requires
        handle == Slot::Filled(settled),
        receive_spec(handle, got, after),
    ensures
        got == Ok::<Outcome, ReceiveError>(settled),
        after == Slot::Drained,
{
}

} // verus!
