//! The boundary to `tokio::sync::broadcast`: the channel behind each live
//! connection.
//!
//! Nothing in this file is proved. A channel is shared state that other
//! handles change at any time, so nothing here gives its contents a value:
//! the contracts say only what holds of every call.

use tokio::sync::broadcast::error::SendError;
use tokio::sync::broadcast::{Receiver, Sender};
use vstd::prelude::*;

verus! {

#[verifier::external_type_specification]
#[verifier::external_body]
#[verifier::reject_recursive_types(T)]
pub struct ExSender<T>(Sender<T>);

#[verifier::external_type_specification]
#[verifier::external_body]
#[verifier::reject_recursive_types(T)]
pub struct ExReceiver<T>(Receiver<T>);

#[verifier::external_type_specification]
#[verifier::external_body]
#[verifier::reject_recursive_types(T)]
pub struct ExSendError<T>(SendError<T>);

/// `broadcast::channel` makes a channel that retains up to `capacity` values
/// and hands out its sender with a first receiver. It panics on a capacity of
/// zero or above `usize::MAX / 2`, which the precondition leaves out.
pub assume_specification<T: Clone>[ tokio::sync::broadcast::channel::<T> ](capacity: usize) -> (ends: (Sender<T>, Receiver<T>))
    requires
        0 < capacity <= usize::MAX / 2,
;

/// `Sender::send` queues `value` for every receiver that is subscribed at
/// that moment and returns how many there are; with none, it gives the value
/// back in the error. So a count that comes back is at least one.
pub assume_specification<T>[ Sender::<T>::send ](sender: &Sender<T>, value: T) -> (sent: Result<usize, SendError<T>>)
    ensures
        sent matches Ok(receivers) ==> receivers >= 1,
;

/// `Sender::subscribe` adds a receiver that sees the values sent from now on.
/// It panics when the channel already has `usize::MAX / 4` receivers, which
/// is more than memory holds.
pub assume_specification<T>[ Sender::<T>::subscribe ](sender: &Sender<T>) -> (receiver: Receiver<T>)
;

} // verus!
