//! The single-slot channel that carries a settled value from its producer to
//! its one consumer.
//!
//! The channel itself is tokio's one-shot channel. Verus cannot look inside it,
//! so this module names what its receiving end holds ([`slot`]) and states, for
//! each operation the library performs on it, how that content changes. The
//! statements on [`open`], [`send`] and [`try_receive`] are trusted: they say of
//! tokio what its source shows and are not proved here. Everything built on
//! them is verified.

use tokio::sync::oneshot::{Receiver, Sender};
use vstd::prelude::*;

use crate::settled::{Outcome, Settled};

verus! {

/// tokio's sending end of a one-shot channel, carried as an opaque value.
#[verifier::external_type_specification]
#[verifier::external_body]
#[verifier::reject_recursive_types(T)]
pub struct ExSender<T>(Sender<T>);

/// tokio's receiving end of a one-shot channel, carried as an opaque value.
#[verifier::external_type_specification]
#[verifier::external_body]
#[verifier::reject_recursive_types(T)]
pub struct ExReceiver<T>(Receiver<T>);

/// The error that awaiting tokio's receiving end can give. Verus meets it as
/// the output of the receiver's `Future` impl; the library never reads one.
#[verifier::external_type_specification]
#[verifier::external_body]
pub struct ExRecvError(tokio::sync::oneshot::error::RecvError);

/// What the receiving end of a channel holds.
pub enum Slot {
    /// No value is waiting, and the end has not given its last answer yet.
    Vacant,
    /// A value was sent and is waiting to be received.
    Filled(Outcome),
    /// The end has given its last answer: it handed the value out, or it
    /// reported that none will come. Nothing changes this any more.
    Drained,
}

/// Why a receive attempt gave no value.
#[derive(Debug, Clone, Copy, PartialEq, Eq)]
pub enum ReceiveError {
    /// Nothing has been sent yet.
    Empty,
    /// Nothing will ever arrive: the value was already received, or the
    /// sender was dropped without sending.
    Closed,
}

/// What the receiving end `rx` holds.
pub uninterp spec fn slot(rx: Receiver<Settled>) -> Slot;

/// Whether `tx` and `rx` are the two ends of one channel, as
/// `tokio::sync::oneshot::channel` returned them: nothing sent yet, and the
/// receiving end neither closed nor used.
pub uninterp spec fn paired(tx: Sender<Settled>, rx: Receiver<Settled>) -> bool;

/// What a receive attempt may answer, and what it leaves behind, given what the
/// receiving end held before.
///
/// A value is handed out exactly when one was waiting, and that drains the
/// end. `Closed` comes from an end that is drained already, or from a vacant
/// one that no value can reach any more, and leaves the end drained. `Empty`
/// comes only from a vacant end; the value may still arrive later.
pub open spec fn receive_spec(
    before: Slot,
    got: Result<Outcome, ReceiveError>,
    after: Slot,
) -> bool {
    match got {
        Ok(value) => before == Slot::Filled(value) && after == Slot::Drained,
        Err(ReceiveError::Closed) => !(before is Filled) && after == Slot::Drained,
        Err(ReceiveError::Empty) => before is Vacant,
    }
}

/// The view of a receive attempt's answer.
pub open spec fn answer_view(got: Result<Settled, ReceiveError>) -> Result<Outcome, ReceiveError> {
    match got {
        Ok(value) => Ok(value@),
        Err(e) => Err(e),
    }
}

/// Calls `tokio::sync::oneshot::channel`, which cannot fail. Trusted: the two
/// ends it returns are the ends of one new channel.
#[verifier::external_body]
pub(crate) fn open() -> (ends: (Sender<Settled>, Receiver<Settled>))
    ensures
        paired(ends.0, ends.1),
{
    tokio::sync::oneshot::channel()
}

/// Calls `Sender::send` on `tx`, which stores `value` in the channel that `tx`
/// shares with `rx`. The call itself does not touch `rx`: the parameter is
/// there because the send changes what `rx` holds, and a contract can speak
/// of that change only through a `&mut` to it.
///
/// Trusted: tokio's `send` hands the value back only if the receiving end was
/// closed or dropped before. Here it is neither, by `paired` and because the
/// caller still holds it, so the send succeeds and the value waits at `rx`.
#[allow(unused_variables)]
#[verifier::external_body]
pub(crate) fn send(tx: Sender<Settled>, rx: &mut Receiver<Settled>, value: Settled) -> (sent:
    Result<(), Settled>)
    requires
        paired(tx, *old(rx)),
    ensures
        sent is Ok,
        slot(*final(rx)) == Slot::Filled(value@),
{
    tx.send(value)
}

/// Calls `Receiver::try_recv` on `rx`, which never waits, and gives its two
/// errors the library's names.
///
/// Trusted, as [`receive_spec`] puts it: tokio hands out a value exactly when
/// one was sent and not yet taken, and forgets the channel when it does so or
/// when it answers `Closed`; from then on it answers `Closed`. It answers
/// `Empty`, and keeps the channel, only while nothing was sent and the sender
/// is still there.
#[verifier::external_body]
pub(crate) fn try_receive(rx: &mut Receiver<Settled>) -> (got: Result<Settled, ReceiveError>)
    ensures
        receive_spec(slot(*old(rx)), answer_view(got), slot(*final(rx))),
{
    match rx.try_recv() {
        Ok(value) => Ok(value),
        Err(tokio::sync::oneshot::error::TryRecvError::Empty) => Err(ReceiveError::Empty),
        Err(tokio::sync::oneshot::error::TryRecvError::Closed) => Err(ReceiveError::Closed),
    }
}

/// Tries to take the value out of the receiving end `rx`, without waiting.
///
/// A waiting value is returned and the end is left drained. A drained end
/// answers `Closed`, however often it is asked. `Empty` is answered only while
/// nothing has been sent.
pub fn receive(rx: &mut Receiver<Settled>) -> (got: Result<Settled, ReceiveError>)
    ensures
        receive_spec(slot(*old(rx)), answer_view(got), slot(*final(rx))),
{
    try_receive(rx)
}

/// A channel yields its value at most once: the receive that follows a
/// successful one answers `Closed`, whatever the channel held, and leaves the
/// end drained.
pub proof fn lemma_second_receive_fails(
    before: Slot,
    first: Result<Outcome, ReceiveError>,
    between: Slot,
    second: Result<Outcome, ReceiveError>,
    after: Slot,
)
    requires
        receive_spec(before, first, between),
        first is Ok,
        receive_spec(between, second, after),
    ensures
        second == Err::<Outcome, ReceiveError>(ReceiveError::Closed),
        after == Slot::Drained,
{
}

/// Once a receiving end is drained it stays drained, and every further
/// receive answers `Closed`.
pub proof fn lemma_drained_slot_stays_drained(
    got: Result<Outcome, ReceiveError>,
    after: Slot,
)
    requires
        receive_spec(Slot::Drained, got, after),
    ensures
        got == Err::<Outcome, ReceiveError>(ReceiveError::Closed),
        after == Slot::Drained,
{
}

} // verus!
