//! A channel for one value, of which is known what it may be.
use crossbeam_channel::{bounded, Receiver, RecvError, SendError, Sender};
use vstd::prelude::*;

verus! {

/// The end at which the value goes in.
#[verifier::reject_recursive_types(T)]
pub struct Teller<T> {
    sender: Sender<T>,
    allowed: Ghost<spec_fn(T) -> bool>,
}

/// The end at which the value comes out.
#[verifier::reject_recursive_types(T)]
pub struct Hearer<T> {
    receiver: Receiver<T>,
    allowed: Ghost<spec_fn(T) -> bool>,
}

impl<T> Teller<T> {
    /// The sending side of the channel.
    pub closed spec fn sender(&self) -> Sender<T> {
        self.sender
    }

    /// The values that may be told here.
    pub closed spec fn allowed(&self) -> spec_fn(T) -> bool {
        self.allowed@
    }

    /// Hands the value over to the other end. Blocks until it is taken there, or can
    /// be no more.
    pub fn tell(self, value: T)
        requires
            (self.allowed())(value),
        ensures
            exists|sent: Result<(), SendError<T>>| #[trigger]
                call_ensures(Sender::<T>::send, (&self.sender(), value), sent),
    {
        let _ = self.sender.send(value);
    }
}

impl<T> Hearer<T> {
    /// The receiving side of the channel.
    pub closed spec fn receiver(&self) -> Receiver<T> {
        self.receiver
    }

    /// The values that may be heard here.
    pub closed spec fn allowed(&self) -> spec_fn(T) -> bool {
        self.allowed@
    }

    /// This is an end of a channel that [`rendezvous`] made, together with the other.
    pub open spec fn paired(&self) -> bool {
        exists|teller: Teller<T>| #[trigger]
            call_ensures(rendezvous::<T>, (Ghost(self.allowed()),), (teller, *self))
    }

    /// `crossbeam_channel::Receiver::recv` blocks until a message is received, or the
    /// channel is empty and disconnected. What is claimed: it is called on this side of
    /// the channel, its result is returned, and a value that is received is one that may
    /// be told at the other end. For a value that is received was
    /// sent into the channel, and into a channel that [`rendezvous`] made the only
    /// way is [`Teller::tell`]. Whether one is received is for the other end to
    /// decide.
    #[verifier::external_body]
    pub fn hear(self) -> (heard: Result<T, RecvError>)
        requires
            self.paired(),
        ensures
            call_ensures(Receiver::<T>::recv, (&self.receiver(),), heard),
            heard matches Ok(value) ==> (self.allowed())(value),
    {
        self.receiver.recv()
    }
}

/// Makes a channel without room for a value, so that the two ends have to meet for
/// one to pass, and only for values that are `allowed`.
pub fn rendezvous<T>(allowed: Ghost<spec_fn(T) -> bool>) -> (ends: (Teller<T>, Hearer<T>))
    ensures
        call_ensures(bounded::<T>, (0usize,), (ends.0.sender(), ends.1.receiver())),
        ends.0.allowed() == allowed@,
        ends.1.allowed() == allowed@,
{
    let (sender, receiver) = bounded(0);
    (Teller { sender, allowed }, Hearer { receiver, allowed })
}

} // verus!
