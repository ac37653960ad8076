//! The channels that a reactor talks over: unbounded queues and one-shot
//! channels of the tokio runtime.
//!
//! Verus does not look inside these types or functions. What the verified
//! code knows of them is what the contracts below say, and those are taken
//! on trust from tokio's documentation and source.

use vstd::prelude::*;

verus! {

/// The sending half of tokio's unbounded queue, `mpsc::UnboundedSender`.
/// Nothing inside a value of it is visible to the verified code.
#[verifier::external_type_specification]
#[verifier::external_body]
#[verifier::reject_recursive_types(T)]
pub struct ExUnboundedSender<T>(tokio::sync::mpsc::UnboundedSender<T>);

/// The receiving half of tokio's unbounded queue, `mpsc::UnboundedReceiver`.
/// Nothing inside a value of it is visible to the verified code.
#[verifier::external_type_specification]
#[verifier::external_body]
#[verifier::reject_recursive_types(T)]
pub struct ExUnboundedReceiver<T>(tokio::sync::mpsc::UnboundedReceiver<T>);

/// The sending half of tokio's one-shot channel, `oneshot::Sender`.
/// Nothing inside a value of it is visible to the verified code.
#[verifier::external_type_specification]
#[verifier::external_body]
#[verifier::reject_recursive_types(T)]
pub struct ExOneshotSender<T>(tokio::sync::oneshot::Sender<T>);

/// The receiving half of tokio's one-shot channel, `oneshot::Receiver`.
/// Nothing inside a value of it is visible to the verified code.
#[verifier::external_type_specification]
#[verifier::external_body]
#[verifier::reject_recursive_types(T)]
pub struct ExOneshotReceiver<T>(tokio::sync::oneshot::Receiver<T>);

/// The error that awaiting a `oneshot::Receiver` gives once the sender is
/// gone, `oneshot::error::RecvError`. It is declared because the receiver's
/// type mentions it; the verified code never holds one.
#[verifier::external_type_specification]
#[verifier::external_body]
pub struct ExRecvError(tokio::sync::oneshot::error::RecvError);

/// Calls `tokio::sync::mpsc::unbounded_channel`, which makes a new queue and
/// gives its two halves. Nothing is claimed of them.
#[verifier::external_body]
pub(crate) fn unbounded_channel<T>() -> (halves: (
    tokio::sync::mpsc::UnboundedSender<T>,
    tokio::sync::mpsc::UnboundedReceiver<T>,
)) {
    tokio::sync::mpsc::unbounded_channel()
}

/// Calls `UnboundedSender::send`, which queues the message without waiting
/// and fails only when the receiving half is closed or dropped. Claimed: a
/// refused message comes back as it was handed in. Whether the message is
/// accepted depends on the other side, so nothing is claimed of that. (tokio
/// ends the process should the count of queued messages ever overflow.)
#[verifier::external_body]
pub(crate) fn send_unbounded<T>(
    sender: &tokio::sync::mpsc::UnboundedSender<T>,
    message: T,
) -> (outcome: Result<(), T>)
    ensures
        outcome matches Err(refused) ==> refused == message,
{
    sender.send(message).map_err(|error| error.0)
}

/// Calls `oneshot::Sender::send`, which hands the value to the receiving
/// half and uses the sender up. Claimed: a value that could not be handed
/// over, because the receiver is gone, comes back as it was handed in.
/// Whether it is handed over depends on the other side, so nothing is
/// claimed of that.
#[verifier::external_body]
pub(crate) fn send_oneshot<T>(sender: tokio::sync::oneshot::Sender<T>, value: T) -> (outcome: Result<
    (),
    T,
>)
    ensures
        outcome matches Err(refused) ==> refused == value,
{
    sender.send(value)
}

} // verus!
