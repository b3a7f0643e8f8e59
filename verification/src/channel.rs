//! The single-use result channel of `tokio`, as far as the library calls it.

use crate::envelope::Envelope;
use tokio::sync::oneshot::{channel, Receiver, Sender};
use vstd::prelude::*;

verus! {

/// The sending half of a `tokio` oneshot channel. It can be used once.
#[verifier::external_type_specification]
#[verifier::external_body]
#[verifier::reject_recursive_types(T)]
pub struct ExSender<T>(Sender<T>);

/// The receiving half of a `tokio` oneshot channel. The caller that waits for
/// an execution's outcome awaits it.
#[verifier::external_type_specification]
#[verifier::external_body]
#[verifier::reject_recursive_types(T)]
pub struct ExReceiver<T>(Receiver<T>);

/// What awaiting a [`Receiver`] gives where the channel closed without a
/// value. Nothing in the library names the type; Verus asks for its
/// declaration because `Receiver` is a future whose output holds it.
#[verifier::external_type_specification]
#[verifier::external_body]
pub struct ExRecvError(tokio::sync::oneshot::error::RecvError);

/// Calls `tokio::sync::oneshot::channel`, which makes a fresh channel and
/// returns its two halves. Nothing is claimed of them.
#[verifier::external_body]
pub(crate) fn open_channel() -> (halves: (Sender<Envelope>, Receiver<Envelope>)) {
    channel()
}

/// Calls `Sender::send`, which puts `envelope` into the channel and consumes
/// the sender. Whether the send succeeds depends on the receiving half: where
/// that one is closed or gone, `send` fails and hands the value back. The
/// contract claims only that a value handed back is the one given.
#[verifier::external_body]
pub(crate) fn deliver(sender: Sender<Envelope>, envelope: Envelope) -> (r: Result<(), Envelope>)
    ensures
        r matches Err(back) ==> back == envelope,
{
    sender.send(envelope)
}

} // verus!
