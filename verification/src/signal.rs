//! One-shot signals between the two threads, as tokio provides them.
//!
//! What a signal's other half has done by now is not known here, so the
//! functions below promise nothing about what they return.

use tokio::sync::oneshot::error::RecvError;
use tokio::sync::oneshot::{Receiver, Sender};
use vstd::prelude::*;

verus! {

#[verifier::external_type_specification]
#[verifier::external_body]
#[verifier::reject_recursive_types(T)]
pub struct ExSender<T>(Sender<T>);

#[verifier::external_type_specification]
#[verifier::external_body]
#[verifier::reject_recursive_types(T)]
pub struct ExReceiver<T>(Receiver<T>);

#[verifier::external_type_specification]
#[verifier::external_body]
pub struct ExRecvError(RecvError);

/// `tokio::sync::oneshot::channel`: a fresh pair of halves.
#[verifier::external_body]
pub(crate) fn channel<T>() -> (r: (Sender<T>, Receiver<T>)) {
    tokio::sync::oneshot::channel()
}

/// `tokio::sync::oneshot::Sender::is_closed`: whether the receiving half
/// was closed or dropped.
#[verifier::external_body]
pub(crate) fn is_closed<T>(tx: &Sender<T>) -> (r: bool) {
    tx.is_closed()
}

/// `tokio::sync::oneshot::Sender::send`: uses the sender up; `true` where
/// the receiving half was still open to take the value.
#[verifier::external_body]
pub(crate) fn send<T>(tx: Sender<T>, value: T) -> (r: bool) {
    tx.send(value).is_ok()
}

/// `tokio::sync::oneshot::Receiver::close`: from now on nothing can be
/// sent; a value that was sent before stays to be taken.
#[verifier::external_body]
pub(crate) fn close<T>(rx: &mut Receiver<T>) {
    rx.close()
}

/// `tokio::sync::oneshot::Receiver::try_recv`: the value, where one had
/// been sent and was not taken yet.
#[verifier::external_body]
pub(crate) fn try_recv<T>(rx: &mut Receiver<T>) -> (r: Option<T>) {
    rx.try_recv().ok()
}

} // verus!
