//! The single-use answer channel on which a suspended request waits.

use tokio::sync::oneshot::{Receiver, Sender};
use vstd::prelude::*;

verus! {

#[verifier::external_type_specification]
#[verifier::external_body]
#[verifier::reject_recursive_types(T)]
pub struct ExAnswerSender<T>(Sender<T>);

#[verifier::external_type_specification]
#[verifier::external_body]
#[verifier::reject_recursive_types(T)]
pub struct ExAnswerReceiver<T>(Receiver<T>);

/// What awaiting a receiving half yields when its sending half was dropped
/// without a value.
#[verifier::external_type_specification]
#[verifier::external_body]
pub struct ExAnswerDropped(tokio::sync::oneshot::error::RecvError);

/// Relies on tokio::sync::oneshot::channel: a fresh channel that carries at
/// most one value from its sending half to its receiving half.
pub assume_specification<T>[ tokio::sync::oneshot::channel::<T> ]() -> (Sender<T>, Receiver<T>);

/// Relies on tokio::sync::oneshot::Sender::send: consumes the sending half;
/// when the receiving half is already gone the value comes back unchanged.
pub assume_specification<T>[ Sender::<T>::send ](sender: Sender<T>, t: T) -> (r: Result<(), T>)
    ensures
        r matches Err(v) ==> v == t,
;

} // verus!
