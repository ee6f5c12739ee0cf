//! # Diplomatic bag
//!
//! Values that have to stay on one thread, carried about in a [`DiplomaticBag`]
//! that can be handed from thread to thread.
//!
//! A [`Worker`] stands for the one thread on which the values live. A bag gives
//! nobody its value, but runs closures on it over there: a closure is made into
//! an [`Errand`], put into the worker's queue, and [`serve`] performs it. On the
//! worker's own thread the closure is called on the spot, so that an errand can
//! send errands of its own without waiting for itself.
//!
//! Nothing here starts a thread, and nothing here knows which thread it is on:
//! both are told from outside, the worker's thread and the current one as values
//! of a type `I` that can be compared (such as the standard library's thread
//! identifiers). What a function promises of a result that comes back from the
//! worker holds whatever the other thread does. That it comes back at all, only
//! the worker's own thread can promise.
//!
//! The laws that hold between the functions are proved in [`laws`].
pub mod bag;
mod channel;
pub mod compare;
pub mod debug;
pub mod error;
pub mod handler;
pub mod laws;
pub mod queue;
mod rendezvous;
mod untouchable;
pub mod worker;

pub use bag::DiplomaticBag;
pub use debug::frame;
pub use error::{collected, posted, Error};
pub use handler::BaggageHandler;
pub use queue::Queue;
pub use worker::{attend, run, serve, try_run, Call, Errand, Job, Task, Worker};
