//! Single-use response slots, backed by tokio's one-shot channel.
use vstd::prelude::*;

verus! {

#[verifier::external_type_specification]
#[verifier::external_body]
#[verifier::reject_recursive_types(T)]
pub struct ExSlotSender<T>(tokio::sync::oneshot::Sender<T>);

#[verifier::external_type_specification]
#[verifier::external_body]
#[verifier::reject_recursive_types(T)]
pub struct ExSlotReceiver<T>(tokio::sync::oneshot::Receiver<T>);

/// The error type named by the read end's `Future` impl; declaring it is what
/// lets the read end appear in signatures.
#[verifier::external_type_specification]
#[verifier::external_body]
pub struct ExSlotRecvError(tokio::sync::oneshot::error::RecvError);

/// Relies on tokio::sync::oneshot::channel: a fresh connected pair of
/// write end and read end.
#[verifier::external_body]
pub(crate) fn open_slot<T>() -> (r: (tokio::sync::oneshot::Sender<T>, tokio::sync::oneshot::Receiver<T>)) {
    tokio::sync::oneshot::channel()
}

/// Relies on tokio::sync::oneshot::Sender::send: hands the value to the read
/// end; it is dropped when the read end is already gone, which is not an error
/// here.
#[verifier::external_body]
pub(crate) fn deliver<T>(slot: tokio::sync::oneshot::Sender<T>, value: T) {
    let _ = slot.send(value);
}

} // verus!
