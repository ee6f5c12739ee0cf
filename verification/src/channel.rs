//! What is relied on of the channels of `crossbeam_channel`.
//!
//! When a message goes through, and when a channel is disconnected, is up to the
//! threads at its two ends: nothing is claimed of it.
use crossbeam_channel::{Receiver, RecvError, SendError, Sender};
use vstd::prelude::*;

verus! {

/// The sending side of a channel, as an opaque type.
#[verifier::external_type_specification]
#[verifier::external_body]
#[verifier::reject_recursive_types(T)]
pub struct ExSender<T>(crossbeam_channel::Sender<T>);

/// The receiving side of a channel, as an opaque type.
#[verifier::external_type_specification]
#[verifier::external_body]
#[verifier::reject_recursive_types(T)]
pub struct ExReceiver<T>(crossbeam_channel::Receiver<T>);

/// The error of a failed `send`. Its one field is the message that could not be sent.
#[verifier::external_type_specification]
#[verifier::reject_recursive_types(T)]
pub struct ExSendError<T>(crossbeam_channel::SendError<T>);

/// The error of a failed `recv`, as an opaque type. It carries nothing.
#[verifier::external_type_specification]
#[verifier::external_body]
pub struct ExRecvError(crossbeam_channel::RecvError);

/// `crossbeam_channel::bounded` makes a channel and returns its two sides.
/// Nothing is claimed of them.
pub assume_specification<T>[ crossbeam_channel::bounded::<T> ](cap: usize) -> (channel: (
    Sender<T>,
    Receiver<T>,
));

/// `crossbeam_channel::Sender::send` blocks until the message is sent or the
/// channel is disconnected. What is claimed: where it fails, the error holds the
/// very message that was to be sent.
pub assume_specification<T>[ crossbeam_channel::Sender::<T>::send ](
    sender: &Sender<T>,
    msg: T,
) -> (sent: Result<(), SendError<T>>)
    ensures
        sent matches Err(refused) ==> refused.0 == msg,
;

/// `crossbeam_channel::Receiver::recv` blocks until a message is received, or the
/// channel is empty and disconnected. Nothing is claimed of the result: it is for
/// the other side to decide.
pub assume_specification<T>[ crossbeam_channel::Receiver::<T>::recv ](
    receiver: &Receiver<T>,
) -> (received: Result<T, RecvError>);

} // verus!
