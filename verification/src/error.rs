//! What can come between a closure and its result.
use crossbeam_channel::{RecvError, SendError};
use vstd::prelude::*;

verus! {

/// The worker's thread is not running, most likely because a closure panicked
/// on it.
#[derive(Debug, Clone, Copy, PartialEq, Eq, Structural)]
pub enum Error {
    /// The errand could not be put into the worker's queue: the worker had
    /// stopped before.
    Send,
    /// The errand was queued but handed nothing back: it panicked, or
    /// one before it in the queue did.
    Recv,
}

impl Error {
    /// The text of the error, for people.
    pub fn message(&self) -> (text: String)
        ensures
            text@ == "diplomatic bag worker thread not running"@,
    {
        "diplomatic bag worker thread not running".to_string()
    }
}

/// What became of putting an errand into the worker's queue. An errand that was
/// refused is let go of here.
pub fn posted<M>(sent: Result<(), SendError<M>>) -> (queued: Result<(), Error>)
    ensures
        queued == (match sent {
            Ok(_) => Ok::<(), Error>(()),
            Err(_) => Err::<(), Error>(Error::Send),
        }),
{
    match sent {
        Ok(()) => Ok(()),
        Err(_refused) => Err(Error::Send),
    }
}

/// What became of an errand that was queued: the value that it handed back, or the
/// news that none will come.
pub fn collected<R>(heard: Result<R, RecvError>) -> (outcome: Result<R, Error>)
    ensures
        outcome == (match heard {
            Ok(value) => Ok::<R, Error>(value),
            Err(_) => Err::<R, Error>(Error::Recv),
        }),
{
    match heard {
        Ok(value) => Ok(value),
        Err(_) => Err(Error::Recv),
    }
}

} // verus!
