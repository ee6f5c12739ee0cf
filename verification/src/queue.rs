//! The worker's end of its queue.
use crate::worker::{attend, Errand};
use crossbeam_channel::{Receiver, RecvError};
use vstd::prelude::*;

verus! {

/// What a worker can do with an errand.
#[verifier::reject_recursive_types(E)]
pub enum Step<E: ?Sized> {
    /// Taking it out of the queue.
    Taken(Box<E>),
    /// Performing it.
    Performed(Box<E>),
}

/// The queue of a worker, as seen by the worker: the errands come out of it one by
/// one. It keeps a record, for proofs only, of those that did, and of what was done
/// with them and when.
#[verifier::reject_recursive_types(E)]
pub struct Queue<E: ?Sized> {
    receiver: Receiver<Box<E>>,
    taken: Ghost<Seq<Box<E>>>,
    steps: Ghost<Seq<Step<E>>>,
}

impl<E: ?Sized> Queue<E> {
    /// The receiving side of the channel that the queue is.
    pub closed spec fn receiver(&self) -> Receiver<Box<E>> {
        self.receiver
    }

    /// The errands that came out of the queue so far, in this order.
    pub closed spec fn taken(&self) -> Seq<Box<E>> {
        self.taken@
    }

    /// What was done so far, in this order: errands were taken out of the queue, and
    /// errands were performed.
    pub closed spec fn steps(&self) -> Seq<Step<E>> {
        self.steps@
    }

    /// The queue can come to its end: its receiver's `recv` can return an error.
    pub open spec fn ends(&self) -> bool {
        exists|end: RecvError| #[trigger]
            call_ensures(Receiver::<Box<E>>::recv, (&self.receiver(),), Err(end))
    }

    /// The queue that `receiver` is the receiving side of.
    pub fn new(receiver: Receiver<Box<E>>) -> (queue: Self)
        ensures
            queue.receiver() == receiver,
            queue.taken() == Seq::<Box<E>>::empty(),
            queue.steps() == Seq::<Step<E>>::empty(),
    {
        Queue { receiver, taken: Ghost(Seq::empty()), steps: Ghost(Seq::empty()) }
    }

    /// Takes the next errand out of the queue. Waits for one if there is none, until
    /// nobody is left who could send one.
    pub fn take(&mut self) -> (received: Result<Box<E>, RecvError>)
        ensures
            call_ensures(Receiver::<Box<E>>::recv, (&old(self).receiver(),), received),
            final(self).receiver() == old(self).receiver(),
            final(self).taken() == (match received {
                Ok(errand) => old(self).taken().push(errand),
                Err(_) => old(self).taken(),
            }),
            final(self).steps() == (match received {
                Ok(errand) => old(self).steps().push(Step::Taken(errand)),
                Err(_) => old(self).steps(),
            }),
    {
        let received = self.receiver.recv();
        proof {
            if received is Ok {
                self.taken@ = self.taken@.push(received->Ok_0);
                self.steps@ = self.steps@.push(Step::Taken(received->Ok_0));
            }
        }
        received
    }
}

impl<E: ?Sized + Errand> Queue<E> {
    /// Performs the errand that came out of the queue, if one did, as [`attend`] does.
    /// Returns whether to go on.
    pub fn attend(&mut self, received: Result<Box<E>, RecvError>) -> (on: bool)
        ensures
            on == received is Ok,
            call_ensures(attend::<E>, (received,), on),
            final(self).receiver() == old(self).receiver(),
            final(self).taken() == old(self).taken(),
            final(self).steps() == (match received {
                Ok(errand) => old(self).steps().push(Step::Performed(errand)),
                Err(_) => old(self).steps(),
            }),
    {
        let ghost came = received;
        let on = attend(received);
        proof {
            if came is Ok {
                self.steps@ = self.steps@.push(Step::Performed(came->Ok_0));
            }
        }
        on
    }
}

} // verus!
