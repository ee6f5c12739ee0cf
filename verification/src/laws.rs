//! Laws that relate the functions of the library.
//!
//! A law takes the arguments and the results of the calls that it is about as
//! its parameters; `call_ensures` says of a call that it can have that result.
use crate::bag::{Applying, DiplomaticBag, Dropping, Making, Mapping};
use crate::compare::{Cloning, Defaulting, Equating, Rank, Ranking, Relating};
use crate::debug::{alternate_text, frame, plain_text, Showing};
use crate::error::Error;
use crate::handler::BaggageHandler;
use crate::queue::{Queue, Step};
use crate::worker::{attend, erase, run, serve, try_run, Call, Errand, Job, Task, Worker};
use crossbeam_channel::{bounded, Receiver, RecvError, SendError, Sender};
use std::cmp::Ordering;
use std::fmt;
use std::marker::PhantomData;
use vstd::prelude::*;
use vstd::std_specs::cmp::PartialEqSpec;

verus! {

/// On the worker's own thread nothing comes between a task and its value: no error
/// can come of having something done there.
pub proof fn own_thread_never_fails<E: ?Sized, I: PartialEq, R, K, S>(
    worker: Worker<E, I>,
    current: I,
    seal: S,
    task: K,
    outcome: Result<R, Error>,
) where K: Task<R>, S: FnOnce(Box<Job<R, K>>) -> Box<E>
    requires
        worker.is_on(&current),
        crate::worker::settles(&worker, &current, seal, task, outcome),
    ensures
        outcome is Ok,
{
}

/// On another thread than its own, a worker whose queue takes no errand of a task any
/// more gives nothing but the error that says so.
pub proof fn stopped_worker_refuses<E: ?Sized, I: PartialEq, R, K, S>(
    worker: Worker<E, I>,
    current: I,
    seal: S,
    task: K,
    outcome: Result<R, Error>,
) where K: Task<R>, S: FnOnce(Box<Job<R, K>>) -> Box<E>
    requires
        crate::worker::turns_away(&worker, seal, task),
        !worker.compares(&current, true),
        crate::worker::settles(&worker, &current, seal, task, outcome),
    ensures
        outcome == Err::<R, Error>(Error::Send),
{
}

/// No bag is made, on another thread than its own, by a worker whose queue takes no
/// errand of making it any more.
pub proof fn stopped_worker_makes_no_bag<'a, I: PartialEq, T: 'a, F>(
    worker: Worker<dyn Errand + 'a, I>,
    current: I,
    f: F,
    made: Result<DiplomaticBag<T>, Error>,
) where F: FnOnce(BaggageHandler) -> T + 'a
    requires
        crate::worker::turns_away(
            &worker,
            erase::<Job<DiplomaticBag<T>, Making<F>>>,
            (Making { f }),
        ),
        !worker.compares(&current, true),
        call_ensures(DiplomaticBag::<T>::new::<I, F>, (&worker, &current, f), made),
    ensures
        made == Err::<DiplomaticBag<T>, Error>(Error::Send),
{
    stopped_worker_refuses(
        worker,
        current,
        erase::<Job<DiplomaticBag<T>, Making<F>>>,
        Making { f },
        made,
    );
}

/// A job that has been performed has had its task done, and has sent the value that
/// came of it back, whatever the type of the value is.
pub proof fn performed_job_sends_its_value<R, K: Task<R>>(job: Box<Job<R, K>>)
    requires
        call_ensures(<Job<R, K> as Errand>::perform, (job,), ()),
    ensures
        exists|handler: BaggageHandler, value: R, sent: Result<(), SendError<R>>|
            {
                &&& #[trigger] call_ensures(K::call, (job.task(), handler), value)
                &&& #[trigger] call_ensures(Sender::<R>::send, (&job.sender(), value), sent)
            },
{
    assert(job.performed());
}

/// Attending to what is made of a job is performing the job, if performing the one
/// comes to the same as performing the other: the task has been done, and the value
/// that came of it has been sent back.
pub proof fn attended_job_sends_its_value<E: ?Sized + Errand, R, K, S>(
    seal: S,
    job: Box<Job<R, K>>,
    errand: Box<E>,
) where K: Task<R>, S: FnOnce(Box<Job<R, K>>) -> Box<E>
    requires
        seal.ensures((job,), errand) ==> errand.performed() == job.performed(),
        seal.ensures((job,), errand),
        call_ensures(attend::<E>, (Ok(errand),), true),
    ensures
        exists|handler: BaggageHandler, value: R, sent: Result<(), SendError<R>>|
            {
                &&& #[trigger] call_ensures(K::call, (job.task(), handler), value)
                &&& #[trigger] call_ensures(Sender::<R>::send, (&job.sender(), value), sent)
            },
{
    assert(errand.performed());
}

/// What comes of having a task done from another thread than the worker's comes over
/// a channel made for it: an errand made of a job that is to do the task is sent into
/// the worker's queue, and what is received at the other end of the job's way back is
/// the outcome. An error says which of the two failed.
pub proof fn outcome_comes_over_a_channel<E: ?Sized, I: PartialEq, R, K, S>(
    tasks: Sender<Box<E>>,
    thread: I,
    worker: Worker<E, I>,
    current: I,
    seal: S,
    task: K,
    outcome: Result<R, Error>,
) where K: Task<R>, S: FnOnce(Box<Job<R, K>>) -> Box<E>
    requires
        call_ensures(Worker::<E, I>::new, (tasks, thread), worker),
        crate::worker::settles(&worker, &current, seal, task, outcome),
        !call_ensures(I::eq, (&current, &thread), true),
    ensures
        match outcome {
            Err(Error::Send) => exists|
                job: Box<Job<R, K>>,
                errand: Box<E>,
                refused: SendError<Box<E>>,
            |
                {
                    &&& job.task() == task
                    &&& #[trigger] seal.ensures((job,), errand)
                    &&& #[trigger] call_ensures(
                        Sender::<Box<E>>::send,
                        (&tasks, errand),
                        Err(refused),
                    )
                },
            _ => exists|
                job: Box<Job<R, K>>,
                errand: Box<E>,
                receiver: Receiver<R>,
                heard: Result<R, RecvError>,
            |
                {
                    &&& job.task() == task
                    &&& #[trigger] seal.ensures((job,), errand)
                    &&& call_ensures(Sender::<Box<E>>::send, (&tasks, errand), Ok(()))
                    &&& call_ensures(bounded::<R>, (0usize,), (job.sender(), receiver))
                    &&& #[trigger] call_ensures(Receiver::<R>::recv, (&receiver,), heard)
                    &&& outcome == (match heard {
                        Ok(value) => Ok::<R, Error>(value),
                        Err(_) => Err::<R, Error>(Error::Recv),
                    })
                },
        },
{
}

/// A value that comes of having a task done is one that the task returned. An error
/// comes only where the current thread can be told from the worker's.
pub proof fn outcome_is_what_the_task_returned<E: ?Sized, I: PartialEq, R, K, S>(
    tasks: Sender<Box<E>>,
    thread: I,
    worker: Worker<E, I>,
    current: I,
    seal: S,
    task: K,
    outcome: Result<R, Error>,
) where K: Task<R>, S: FnOnce(Box<Job<R, K>>) -> Box<E>
    requires
        call_ensures(Worker::<E, I>::new, (tasks, thread), worker),
        crate::worker::settles(&worker, &current, seal, task, outcome),
    ensures
        match outcome {
            Ok(value) => exists|handler: BaggageHandler| #[trigger]
                call_ensures(K::call, (task, handler), value),
            Err(_) => call_ensures(I::eq, (&current, &thread), false),
        },
        I::obeys_eq_spec() && current.eq_spec(&thread) ==> outcome is Ok,
{
}

/// Where nothing that can be made of a task can be sent into the worker's queue, having
/// it done from another thread gives the error that says so, and nothing else.
pub proof fn closed_queue_refuses<E: ?Sized, I: PartialEq, R, K, S>(
    tasks: Sender<Box<E>>,
    thread: I,
    worker: Worker<E, I>,
    current: I,
    seal: S,
    task: K,
    outcome: Result<R, Error>,
) where K: Task<R>, S: FnOnce(Box<Job<R, K>>) -> Box<E>
    requires
        call_ensures(Worker::<E, I>::new, (tasks, thread), worker),
        crate::worker::settles(&worker, &current, seal, task, outcome),
        !call_ensures(I::eq, (&current, &thread), true),
        forall|job: Box<Job<R, K>>, errand: Box<E>| #[trigger]
            seal.ensures((job,), errand) ==> !call_ensures(
                Sender::<Box<E>>::send,
                (&tasks, errand),
                Ok(()),
            ),
    ensures
        outcome == Err::<R, Error>(Error::Send),
{
}

/// What [`try_run`] gives from another thread than the worker's is what was received
/// over a channel, after an errand made of the closure was sent into the worker's
/// queue. Once the job that the errand was made of has been performed, what the
/// closure returned has been sent into this channel.
pub proof fn try_run_sends_and_waits<E: ?Sized, I: PartialEq, R, F, S>(
    tasks: Sender<Box<E>>,
    thread: I,
    worker: Worker<E, I>,
    current: I,
    seal: S,
    f: F,
    outcome: Result<R, Error>,
) where F: FnOnce(BaggageHandler) -> R, S: FnOnce(Box<Job<R, Call<F>>>) -> Box<E>
    requires
        call_ensures(Worker::<E, I>::new, (tasks, thread), worker),
        call_ensures(try_run::<E, I, R, F, S>, (&worker, &current, seal, f), outcome),
        !call_ensures(I::eq, (&current, &thread), true),
        outcome != Err::<R, Error>(Error::Send),
    ensures
        exists|
            job: Box<Job<R, Call<F>>>,
            errand: Box<E>,
            sender: Sender<R>,
            receiver: Receiver<R>,
            heard: Result<R, RecvError>,
        |
            {
                &&& #[trigger] seal.ensures((job,), errand)
                &&& call_ensures(Sender::<Box<E>>::send, (&tasks, errand), Ok(()))
                &&& #[trigger] call_ensures(bounded::<R>, (0usize,), (sender, receiver))
                &&& #[trigger] call_ensures(Receiver::<R>::recv, (&receiver,), heard)
                &&& outcome is Ok == heard is Ok
                &&& outcome is Ok ==> outcome->Ok_0 == heard->Ok_0
                &&& call_ensures(Job::<R, Call<F>>::perform, (job,), ()) ==> exists|
                    handler: BaggageHandler,
                    value: R,
                    sent: Result<(), SendError<R>>,
                |
                    {
                        &&& #[trigger] f.ensures((handler,), value)
                        &&& #[trigger] call_ensures(Sender::<R>::send, (&sender, value), sent)
                    }
            },
{
    outcome_comes_over_a_channel(tasks, thread, worker, current, seal, Call { f }, outcome);
    let (job, errand, receiver, heard) = choose|
        job: Box<Job<R, Call<F>>>,
        errand: Box<E>,
        receiver: Receiver<R>,
        heard: Result<R, RecvError>,
    |
        {
            &&& job.task() == Call { f }
            &&& #[trigger] seal.ensures((job,), errand)
            &&& call_ensures(Sender::<Box<E>>::send, (&tasks, errand), Ok(()))
            &&& call_ensures(bounded::<R>, (0usize,), (job.sender(), receiver))
            &&& #[trigger] call_ensures(Receiver::<R>::recv, (&receiver,), heard)
            &&& outcome == (match heard {
                Ok(value) => Ok::<R, Error>(value),
                Err(_) => Err::<R, Error>(Error::Recv),
            })
        };
    if call_ensures(Job::<R, Call<F>>::perform, (job,), ()) {
        performed_job_sends_its_value::<R, Call<F>>(job);
        let (handler, value, sent) = choose|
            handler: BaggageHandler,
            value: R,
            sent: Result<(), SendError<R>>,
        |
            {
                &&& #[trigger] call_ensures(Call::<F>::call, (job.task(), handler), value)
                &&& #[trigger] call_ensures(Sender::<R>::send, (&job.sender(), value), sent)
            };
        call_task_calls_the_closure(f, handler, value);
        assert(f.ensures((handler,), value));
        assert(call_ensures(Sender::<R>::send, (&job.sender(), value), sent));
    }
    assert(seal.ensures((job,), errand));
    assert(call_ensures(bounded::<R>, (0usize,), (job.sender(), receiver)));
    assert(call_ensures(Receiver::<R>::recv, (&receiver,), heard));
}

/// What a closure that is run gives is what it returned, on whichever thread it is run
/// from. An error comes only where the current thread can be told from the worker's.
pub proof fn run_returns_what_the_closure_does<'a, I: PartialEq, R: 'a, F>(
    tasks: Sender<Box<dyn Errand + 'a>>,
    thread: I,
    worker: Worker<dyn Errand + 'a, I>,
    current: I,
    f: F,
    outcome: Result<R, Error>,
) where F: FnOnce(BaggageHandler) -> R + 'a
    requires
        call_ensures(Worker::<dyn Errand + 'a, I>::new, (tasks, thread), worker),
        call_ensures(run::<I, R, F>, (&worker, &current, f), outcome),
    ensures
        match outcome {
            Ok(value) => exists|handler: BaggageHandler| #[trigger] f.ensures((handler,), value),
            Err(_) => call_ensures(I::eq, (&current, &thread), false),
        },
        I::obeys_eq_spec() && current.eq_spec(&thread) ==> outcome is Ok,
{
}

/// What a closure that is run from another thread gives was received over a channel:
/// both a value and, where the worker's queue took the errand, an error.
pub proof fn run_waits_for_the_value<'a, I: PartialEq, R: 'a, F>(
    tasks: Sender<Box<dyn Errand + 'a>>,
    thread: I,
    worker: Worker<dyn Errand + 'a, I>,
    current: I,
    f: F,
    outcome: Result<R, Error>,
) where F: FnOnce(BaggageHandler) -> R + 'a
    requires
        call_ensures(Worker::<dyn Errand + 'a, I>::new, (tasks, thread), worker),
        call_ensures(run::<I, R, F>, (&worker, &current, f), outcome),
        !call_ensures(I::eq, (&current, &thread), true),
        outcome != Err::<R, Error>(Error::Send),
    ensures
        exists|sender: Sender<R>, receiver: Receiver<R>, heard: Result<R, RecvError>|
            {
                &&& #[trigger] call_ensures(bounded::<R>, (0usize,), (sender, receiver))
                &&& #[trigger] call_ensures(Receiver::<R>::recv, (&receiver,), heard)
                &&& outcome is Ok == heard is Ok
                &&& outcome is Ok ==> outcome->Ok_0 == heard->Ok_0
            },
{
    outcome_comes_over_a_channel(
        tasks,
        thread,
        worker,
        current,
        erase::<Job<R, Call<F>>>,
        Call { f },
        outcome,
    );
}

/// The task of calling a closure returns what the closure does.
pub proof fn call_task_calls_the_closure<R, F: FnOnce(BaggageHandler) -> R>(
    f: F,
    handler: BaggageHandler,
    value: R,
)
    requires
        call_ensures(Call::<F>::call, (Call { f }, handler), value),
    ensures
        f.ensures((handler,), value),
{
    let given = choose|given: BaggageHandler| #[trigger] f.ensures((given,), value);
    handler.all_alike(given);
}

/// The task of making a bag puts into it what the closure returns.
pub proof fn making_task_calls_the_closure<T, F: FnOnce(BaggageHandler) -> T>(
    f: F,
    handler: BaggageHandler,
    bag: DiplomaticBag<T>,
    value: T,
)
    requires
        call_ensures(Making::<F>::call, (Making { f }, handler), bag),
        call_ensures(BaggageHandler::unwrap::<T>, (&handler, bag), value),
    ensures
        f.ensures((handler,), value),
{
    let given = choose|given: BaggageHandler| #[trigger] f.ensures((given,), value);
    handler.all_alike(given);
}

/// The task of mapping a bag calls the closure on what was wrapped in it, and wraps
/// what the closure returns.
pub proof fn mapping_task_calls_the_closure<T, U, F: FnOnce(BaggageHandler, T) -> U>(
    value: T,
    bag: DiplomaticBag<T>,
    f: F,
    handler: BaggageHandler,
    mapped: DiplomaticBag<U>,
    result: U,
)
    requires
        call_ensures(BaggageHandler::wrap::<T>, (&handler, value), bag),
        call_ensures(Mapping::<T, F>::call, (Mapping { bag, f }, handler), mapped),
        call_ensures(BaggageHandler::unwrap::<U>, (&handler, mapped), result),
    ensures
        f.ensures((handler, value), result),
{
    let given = choose|given: BaggageHandler| #[trigger] f.ensures((given, value), result);
    handler.all_alike(given);
}

/// The task of applying a closure calls it on what was wrapped in the bag, and returns
/// what the closure does.
pub proof fn applying_task_calls_the_closure<T, U, F: FnOnce(BaggageHandler, T) -> U>(
    value: T,
    bag: DiplomaticBag<T>,
    f: F,
    handler: BaggageHandler,
    result: U,
)
    requires
        call_ensures(BaggageHandler::wrap::<T>, (&handler, value), bag),
        call_ensures(Applying::<T, F>::call, (Applying { bag, f }, handler), result),
    ensures
        f.ensures((handler, value), result),
{
    let given = choose|given: BaggageHandler| #[trigger] f.ensures((given, value), result);
    handler.all_alike(given);
}

/// The task of dropping a value drops what was wrapped in the bag, whatever its type.
pub proof fn dropping_task_drops_the_value<T>(
    value: T,
    bag: DiplomaticBag<T>,
    handler: BaggageHandler,
    done: bool,
)
    requires
        call_ensures(BaggageHandler::wrap::<T>, (&handler, value), bag),
        call_ensures(Dropping::<T>::call, (Dropping { bag }, handler), done),
    ensures
        done,
        call_ensures(std::mem::drop::<T>, (value,), ()),
{
}

/// The task of making a default value puts into the bag the value that came of the one
/// call of what makes it.
pub proof fn defaulting_task_makes_one_value<T, F: FnOnce() -> T>(
    by: F,
    handler: BaggageHandler,
    bag: DiplomaticBag<T>,
    value: T,
)
    requires
        call_ensures(
            Defaulting::<T, F>::call,
            (Defaulting { of: PhantomData, by }, handler),
            bag,
        ),
        call_ensures(BaggageHandler::unwrap::<T>, (&handler, bag), value),
    ensures
        by.ensures((), value),
{
}

/// The task of cloning a value puts into the bag the clone that came of the one call of
/// what makes it, and this call was made on the value.
pub proof fn cloning_task_makes_one_clone<'a, T, F: FnOnce(&'a T) -> T>(
    value: T,
    bag: &'a DiplomaticBag<T>,
    by: F,
    handler: BaggageHandler,
    copy: DiplomaticBag<T>,
    copied: T,
)
    requires
        call_ensures(BaggageHandler::wrap::<T>, (&handler, value), *bag),
        call_ensures(Cloning::<'a, T, F>::call, (Cloning { bag, by }, handler), copy),
        call_ensures(BaggageHandler::unwrap::<T>, (&handler, copy), copied),
    ensures
        by.ensures((&value,), copied),
{
}

/// The task of equating compares what was wrapped in the one bag with what was wrapped
/// in the other.
pub proof fn equating_task_compares_the_values<'a, T: PartialEq>(
    left: T,
    right: T,
    this: &'a DiplomaticBag<T>,
    other: &'a DiplomaticBag<T>,
    handler: BaggageHandler,
    equal: bool,
)
    requires
        call_ensures(BaggageHandler::wrap::<T>, (&handler, left), *this),
        call_ensures(BaggageHandler::wrap::<T>, (&handler, right), *other),
        call_ensures(Equating::<'a, T>::call, (Equating { this, other }, handler), equal),
    ensures
        call_ensures(T::eq, (&left, &right), equal),
{
}

/// The task of relating compares what was wrapped in the one bag with what was wrapped
/// in the other, and tells what came of it.
pub proof fn relating_task_compares_the_values<'a, T: PartialOrd>(
    left: T,
    right: T,
    this: &'a DiplomaticBag<T>,
    other: &'a DiplomaticBag<T>,
    handler: BaggageHandler,
    rank: Option<Rank>,
)
    requires
        call_ensures(BaggageHandler::wrap::<T>, (&handler, left), *this),
        call_ensures(BaggageHandler::wrap::<T>, (&handler, right), *other),
        call_ensures(Relating::<'a, T>::call, (Relating { this, other }, handler), rank),
    ensures
        call_ensures(
            T::partial_cmp,
            (&left, &right),
            match rank {
                Some(Rank::Less) => Some(Ordering::Less),
                Some(Rank::Equal) => Some(Ordering::Equal),
                Some(Rank::Greater) => Some(Ordering::Greater),
                None => None,
            },
        ),
{
}

/// The task of ranking compares what was wrapped in the one bag with what was wrapped
/// in the other, and tells what came of it.
pub proof fn ranking_task_compares_the_values<'a, T: Ord>(
    left: T,
    right: T,
    this: &'a DiplomaticBag<T>,
    other: &'a DiplomaticBag<T>,
    handler: BaggageHandler,
    rank: Rank,
)
    requires
        call_ensures(BaggageHandler::wrap::<T>, (&handler, left), *this),
        call_ensures(BaggageHandler::wrap::<T>, (&handler, right), *other),
        call_ensures(Ranking::<'a, T>::call, (Ranking { this, other }, handler), rank),
    ensures
        call_ensures(
            T::cmp,
            (&left, &right),
            match rank {
                Rank::Less => Ordering::Less,
                Rank::Equal => Ordering::Equal,
                Rank::Greater => Ordering::Greater,
            },
        ),
{
}

/// A value that was put into a bag and is said to have been dropped has been dropped,
/// whatever its type, and it is said so where dropping it does anything.
pub proof fn dropped_bag_drops_its_value<'a, I: PartialEq, T: 'a>(
    handler: BaggageHandler,
    value: T,
    bag: DiplomaticBag<T>,
    worker: Worker<dyn Errand + 'a, I>,
    current: I,
    dropped: Result<bool, Error>,
)
    requires
        call_ensures(BaggageHandler::wrap::<T>, (&handler, value), bag),
        call_ensures(DiplomaticBag::<T>::drop::<I>, (bag, &worker, &current), dropped),
    ensures
        match dropped {
            Ok(true) => {
                &&& call_ensures(std::mem::needs_drop::<T>, (), true)
                &&& call_ensures(std::mem::drop::<T>, (value,), ())
            },
            Ok(false) => call_ensures(std::mem::needs_drop::<T>, (), false),
            Err(_) => call_ensures(std::mem::needs_drop::<T>, (), true),
        },
{
}

/// A value is dropped if and only if it is said to be needed, as far as the worker
/// answers.
pub proof fn needed_drop_drops_the_value<'a, I: PartialEq, T: 'a>(
    handler: BaggageHandler,
    value: T,
    bag: DiplomaticBag<T>,
    needed: bool,
    worker: Worker<dyn Errand + 'a, I>,
    current: I,
    dropped: Result<bool, Error>,
)
    requires
        call_ensures(BaggageHandler::wrap::<T>, (&handler, value), bag),
        call_ensures(
            DiplomaticBag::<T>::drop_if::<I>,
            (bag, needed, &worker, &current),
            dropped,
        ),
    ensures
        match dropped {
            Ok(done) => {
                &&& done == needed
                &&& done ==> call_ensures(std::mem::drop::<T>, (value,), ())
            },
            Err(_) => needed,
        },
{
}

/// What was wrapped is what is taken out for use on another thread.
pub proof fn wrap_then_into_inner<T: Send>(
    handler: BaggageHandler,
    value: T,
    bag: DiplomaticBag<T>,
    out: T,
)
    requires
        call_ensures(BaggageHandler::wrap::<T>, (&handler, value), bag),
        call_ensures(DiplomaticBag::<T>::into_inner, (bag,), out),
    ensures
        out == value,
{
}

/// Making a bag of a closure and taking its value out gives what the closure returned.
pub proof fn new_then_unwrap<'a, I: PartialEq, T: 'a, F>(
    worker: Worker<dyn Errand + 'a, I>,
    current: I,
    f: F,
    bag: DiplomaticBag<T>,
    handler: BaggageHandler,
    value: T,
) where F: FnOnce(BaggageHandler) -> T + 'a
    requires
        call_ensures(DiplomaticBag::<T>::new::<I, F>, (&worker, &current, f), Ok(bag)),
        call_ensures(BaggageHandler::unwrap::<T>, (&handler, bag), value),
    ensures
        f.ensures((handler,), value),
{
    let given = choose|given: BaggageHandler| #[trigger] f.ensures((given,), value);
    handler.all_alike(given);
}

/// Wrapping a value, mapping the bag and taking the value out gives what the closure
/// makes of the value.
pub proof fn wrap_then_map_then_unwrap<'a, I: PartialEq, T: 'a, U: 'a, F>(
    worker: Worker<dyn Errand + 'a, I>,
    current: I,
    handler: BaggageHandler,
    value: T,
    bag: DiplomaticBag<T>,
    f: F,
    mapped: DiplomaticBag<U>,
    result: U,
) where F: FnOnce(BaggageHandler, T) -> U + 'a
    requires
        call_ensures(BaggageHandler::wrap::<T>, (&handler, value), bag),
        call_ensures(
            DiplomaticBag::<T>::map::<I, U, F>,
            (bag, &worker, &current, f),
            Ok(mapped),
        ),
        call_ensures(BaggageHandler::unwrap::<U>, (&handler, mapped), result),
    ensures
        f.ensures((handler, value), result),
{
    let given = choose|given: BaggageHandler| #[trigger] f.ensures((given, value), result);
    handler.all_alike(given);
}

/// Wrapping a value and applying a closure to the bag gives what the closure makes of
/// the value.
pub proof fn wrap_then_and_then<'a, I: PartialEq, T: 'a, U: Send + 'a, F>(
    worker: Worker<dyn Errand + 'a, I>,
    current: I,
    handler: BaggageHandler,
    value: T,
    bag: DiplomaticBag<T>,
    f: F,
    result: U,
) where F: FnOnce(BaggageHandler, T) -> U + 'a
    requires
        call_ensures(BaggageHandler::wrap::<T>, (&handler, value), bag),
        call_ensures(
            DiplomaticBag::<T>::and_then::<I, U, F>,
            (bag, &worker, &current, f),
            Ok(result),
        ),
    ensures
        f.ensures((handler, value), result),
{
    let given = choose|given: BaggageHandler| #[trigger] f.ensures((given, value), result);
    handler.all_alike(given);
}

/// A bag that holds a clone of what was wrapped holds what cloning the value gives.
pub proof fn wrap_then_clone_then_unwrap<'a, I: PartialEq, T: Clone>(
    worker: Worker<dyn Errand + 'a, I>,
    current: I,
    handler: BaggageHandler,
    value: T,
    bag: &'a DiplomaticBag<T>,
    copy: DiplomaticBag<T>,
    copied: T,
)
    requires
        call_ensures(BaggageHandler::wrap::<T>, (&handler, value), *bag),
        call_ensures(DiplomaticBag::<T>::clone::<I>, (bag, &worker, &current), Ok(copy)),
        call_ensures(BaggageHandler::unwrap::<T>, (&handler, copy), copied),
    ensures
        call_ensures(T::clone, (&value,), copied),
{
}

/// Serving a queue performs the errands that come out of it in the order in which they
/// come, and each before the next one is taken: with every errand two things are done,
/// one right after the other, first taking it and then performing it. (`queue` is the
/// one argument of the call.)
pub proof fn errands_are_performed_in_order<E: ?Sized + Errand>(
    queue: (&mut Queue<E>,),
    served: u64,
    errands: Seq<Box<E>>,
    done: Seq<Step<E>>,
)
    requires
        call_ensures(serve::<E>, queue, served),
        errands == final(queue.0).taken().skip(old(queue.0).taken().len() as int),
        done == final(queue.0).steps().skip(old(queue.0).steps().len() as int),
    ensures
        final(queue.0).taken() == old(queue.0).taken() + errands,
        final(queue.0).steps() == old(queue.0).steps() + done,
        errands.len() == served,
        done.len() == 2 * served,
        forall|i: int|
            0 <= i < served ==> {
                &&& done[2 * i] == Step::Taken(#[trigger] errands[i])
                &&& done[2 * i + 1] == Step::Performed(errands[i])
                &&& call_ensures(E::perform, (errands[i],), ())
            },
{
    let before = old(queue.0).taken().len() as int;
    assert forall|i: int| 0 <= i < served implies call_ensures(
        E::perform,
        (#[trigger] errands[i],),
        (),
    ) by {
        assert(errands[i] == final(queue.0).taken()[before + i]);
    }
    assert(done =~= crate::worker::one_by_one(errands));
}

/// Taking an errand and attending to it are two steps, of which each is recorded when
/// it is made, and the errand that is said to be performed is. (`take` and `attend` are
/// the arguments of the two calls.)
pub proof fn taking_and_attending_are_recorded<E: ?Sized + Errand>(
    take: (&mut Queue<E>,),
    received: Result<Box<E>, RecvError>,
    attend: (&mut Queue<E>, Result<Box<E>, RecvError>),
    on: bool,
)
    requires
        call_ensures(Queue::<E>::take, take, received),
        call_ensures(Queue::<E>::attend, attend, on),
        *old(attend.0) == *final(take.0),
        attend.1 == received,
    ensures
        call_ensures(Receiver::<Box<E>>::recv, (&old(take.0).receiver(),), received),
        on == received is Ok,
        match received {
            Ok(errand) => {
                &&& final(take.0).taken() == old(take.0).taken().push(errand)
                &&& final(take.0).steps() == old(take.0).steps().push(Step::Taken(errand))
                &&& final(attend.0).taken() == final(take.0).taken()
                &&& final(attend.0).steps() == final(take.0).steps().push(Step::Performed(errand))
                &&& call_ensures(E::perform, (errand,), ())
            },
            Err(_) => {
                &&& final(attend.0).taken() == old(take.0).taken()
                &&& final(attend.0).steps() == old(take.0).steps()
            },
        },
{
}

/// What was wrapped is what is unwrapped.
pub proof fn wrap_then_unwrap<T>(handler: BaggageHandler, value: T, bag: DiplomaticBag<T>, out: T)
    requires
        call_ensures(BaggageHandler::wrap::<T>, (&handler, value), bag),
        call_ensures(BaggageHandler::unwrap::<T>, (&handler, bag), out),
    ensures
        out == value,
{
}

/// A bag whose value is taken out and wrapped again is as it was.
pub proof fn unwrap_then_wrap<T>(
    handler: BaggageHandler,
    bag: DiplomaticBag<T>,
    value: T,
    again: DiplomaticBag<T>,
)
    requires
        call_ensures(BaggageHandler::unwrap::<T>, (&handler, bag), value),
        call_ensures(BaggageHandler::wrap::<T>, (&handler, value), again),
    ensures
        again@ == bag@,
{
}

/// A bag made of a closure gives out what the closure returned.
pub proof fn new_then_into_inner<'a, I: PartialEq, T: Send + 'a, F>(
    worker: Worker<dyn Errand + 'a, I>,
    current: I,
    f: F,
    bag: DiplomaticBag<T>,
    value: T,
) where F: FnOnce(BaggageHandler) -> T + 'a
    requires
        call_ensures(DiplomaticBag::<T>::new::<I, F>, (&worker, &current, f), Ok(bag)),
        call_ensures(DiplomaticBag::<T>::into_inner, (bag,), value),
    ensures
        crate::handler::yields(f, value),
{
}

/// Two closures mapped one after the other do what one closure does that calls
/// them one after the other.
pub proof fn map_then_map<'a, I: PartialEq, T: 'a, U: 'a, V: 'a, F, G>(
    worker: Worker<dyn Errand + 'a, I>,
    current: I,
    bag: DiplomaticBag<T>,
    f: F,
    between: DiplomaticBag<U>,
    g: G,
    last: DiplomaticBag<V>,
) where F: FnOnce(BaggageHandler, T) -> U + 'a, G: FnOnce(BaggageHandler, U) -> V + 'a
    requires
        call_ensures(
            DiplomaticBag::<T>::map::<I, U, F>,
            (bag, &worker, &current, f),
            Ok(between),
        ),
        call_ensures(
            DiplomaticBag::<U>::map::<I, V, G>,
            (between, &worker, &current, g),
            Ok(last),
        ),
    ensures
        exists|handler: BaggageHandler|
            #![trigger f.ensures((handler, bag@), between@)]
            f.ensures((handler, bag@), between@) && g.ensures((handler, between@), last@),
{
    let first = choose|handler: BaggageHandler| #[trigger] f.ensures((handler, bag@), between@);
    let second = choose|handler: BaggageHandler| #[trigger] g.ensures((handler, between@), last@);
    first.all_alike(second);
}

/// Mapping a closure that gives back what it is given leaves the value as it was.
pub proof fn map_of_identity<'a, I: PartialEq, T: 'a, F>(
    worker: Worker<dyn Errand + 'a, I>,
    current: I,
    bag: DiplomaticBag<T>,
    f: F,
    mapped: DiplomaticBag<T>,
) where F: FnOnce(BaggageHandler, T) -> T + 'a
    requires
        forall|handler: BaggageHandler, given: T, back: T| #[trigger]
            f.ensures((handler, given), back) ==> back == given,
        call_ensures(
            DiplomaticBag::<T>::map::<I, T, F>,
            (bag, &worker, &current, f),
            Ok(mapped),
        ),
    ensures
        mapped@ == bag@,
{
}

/// A closure that wraps what it makes is to `and_then` what the closure that makes
/// it is to `map`.
pub proof fn and_then_wrapping<'a, I: PartialEq, T: 'a, U: 'a, F, G>(
    worker: Worker<dyn Errand + 'a, I>,
    current: I,
    bag: DiplomaticBag<T>,
    f: F,
    wrapping: G,
    wrapped: DiplomaticBag<U>,
) where
    F: FnOnce(BaggageHandler, T) -> U + 'a,
    G: FnOnce(BaggageHandler, T) -> DiplomaticBag<U> + 'a,
    DiplomaticBag<U>: Send,

    requires
        forall|handler: BaggageHandler, given: T, made: DiplomaticBag<U>| #[trigger]
            wrapping.ensures((handler, given), made) ==> f.ensures((handler, given), made@),
        call_ensures(
            DiplomaticBag::<T>::and_then::<I, DiplomaticBag<U>, G>,
            (bag, &worker, &current, wrapping),
            Ok(wrapped),
        ),
    ensures
        crate::handler::makes(f, bag@, wrapped@),
{
}

/// Of two bags zipped into one neither value is lost or mistaken for the other.
pub proof fn zip_then_unwrap<T, U>(
    handler: BaggageHandler,
    left: DiplomaticBag<T>,
    right: DiplomaticBag<U>,
    both: DiplomaticBag<(T, U)>,
    values: (T, U),
)
    requires
        call_ensures(DiplomaticBag::<T>::zip::<U>, (left, right), both),
        call_ensures(BaggageHandler::unwrap::<(T, U)>, (&handler, both), values),
    ensures
        values.0 == left@,
        values.1 == right@,
{
}

/// Looking at a bag through `as_ref` shows the value that taking it out would give.
pub proof fn as_ref_then_unwrap<T>(
    handler: BaggageHandler,
    bag: DiplomaticBag<T>,
    view: DiplomaticBag<&T>,
    seen: &T,
    taken: T,
)
    requires
        call_ensures(DiplomaticBag::<T>::as_ref, (&bag,), view),
        call_ensures(BaggageHandler::unwrap::<&T>, (&handler, view), seen),
        call_ensures(BaggageHandler::unwrap::<T>, (&handler, bag), taken),
    ensures
        *seen == taken,
{
}

/// `as_mut` alone changes nothing: if the bag that it gives is let go of unused, the
/// value is as it was. (`bag` is the one argument of the call.)
pub proof fn unused_as_mut_leaves_the_value<T>(
    bag: (&mut DiplomaticBag<T>,),
    view: DiplomaticBag<&mut T>,
)
    requires
        call_ensures(DiplomaticBag::<T>::as_mut, bag, view),
        has_resolved(view),
    ensures
        final(bag.0)@ == old(bag.0)@,
{
    view.resolved();
}

/// What is written through the reference in the bag that `as_mut` gives is the value
/// afterwards. (`bag` is the one argument of the call.)
pub proof fn as_mut_writes_through<T>(
    handler: BaggageHandler,
    bag: (&mut DiplomaticBag<T>,),
    view: DiplomaticBag<&mut T>,
    reference: (&mut T,),
)
    requires
        call_ensures(DiplomaticBag::<T>::as_mut, bag, view),
        call_ensures(BaggageHandler::unwrap::<&mut T>, (&handler, view), reference.0),
    ensures
        *old(reference.0) == old(bag.0)@,
        final(bag.0)@ == *final(reference.0),
{
}

/// The value that a closure leaves behind the reference which it is given by mapping
/// the bag from `as_mut` is the value afterwards: one that it writes there, or the
/// one that it found. (`bag` is the one argument of the call of `as_mut`.)
pub proof fn map_through_as_mut<'a, I: PartialEq, T: 'a, U: 'a, F>(
    worker: Worker<dyn Errand + 'a, I>,
    current: I,
    bag: (&'a mut DiplomaticBag<T>,),
    view: DiplomaticBag<&'a mut T>,
    f: F,
    mapped: DiplomaticBag<U>,
    value: T,
) where F: FnOnce(BaggageHandler, &'a mut T) -> U + 'a
    requires
        call_ensures(DiplomaticBag::<T>::as_mut, bag, view),
        call_ensures(
            DiplomaticBag::<&'a mut T>::map::<I, U, F>,
            (view, &worker, &current, f),
            Ok(mapped),
        ),
        forall|handler: BaggageHandler, result: U| #[trigger]
            f.ensures((handler, view@), result) ==> *final(view@) == value,
    ensures
        final(bag.0)@ == value,
{
}

/// Transposing a bag with a result in it and taking the value out afterwards gives
/// what taking the result out gives.
pub proof fn transpose_result_then_unwrap<T, E>(
    handler: BaggageHandler,
    bag: DiplomaticBag<Result<T, E>>,
    turned: Result<DiplomaticBag<T>, DiplomaticBag<E>>,
    value: T,
    error: E,
    taken: Result<T, E>,
)
    requires
        call_ensures(DiplomaticBag::<Result<T, E>>::transpose, (bag,), turned),
        turned matches Ok(inner) ==> call_ensures(
            BaggageHandler::unwrap::<T>,
            (&handler, inner),
            value,
        ),
        turned matches Err(inner) ==> call_ensures(
            BaggageHandler::unwrap::<E>,
            (&handler, inner),
            error,
        ),
        call_ensures(BaggageHandler::unwrap::<Result<T, E>>, (&handler, bag), taken),
    ensures
        taken == (match turned {
            Ok(_) => Ok::<T, E>(value),
            Err(_) => Err::<T, E>(error),
        }),
{
}

/// Transposing a bag with an option in it and taking the value out afterwards gives
/// what taking the option out gives.
pub proof fn transpose_option_then_unwrap<T>(
    handler: BaggageHandler,
    bag: DiplomaticBag<Option<T>>,
    turned: Option<DiplomaticBag<T>>,
    value: T,
    taken: Option<T>,
)
    requires
        call_ensures(DiplomaticBag::<Option<T>>::transpose, (bag,), turned),
        turned matches Some(inner) ==> call_ensures(
            BaggageHandler::unwrap::<T>,
            (&handler, inner),
            value,
        ),
        call_ensures(BaggageHandler::unwrap::<Option<T>>, (&handler, bag), taken),
    ensures
        taken == (match turned {
            Some(_) => Some(value),
            None => None::<T>,
        }),
{
}

/// A bag is equal to its clone if a value of its type is.
pub proof fn clone_is_equal<'a, I: PartialEq, T: Clone + PartialEq>(
    worker: Worker<dyn Errand + 'a, I>,
    current: I,
    bag: &'a DiplomaticBag<T>,
    copy: &'a DiplomaticBag<T>,
    equal: bool,
)
    requires
        T::obeys_eq_spec(),
        forall|value: T, other: T| #[trigger]
            call_ensures(T::clone, (&value,), other) ==> value.eq_spec(&other),
        call_ensures(DiplomaticBag::<T>::clone::<I>, (bag, &worker, &current), Ok(*copy)),
        call_ensures(
            DiplomaticBag::<T>::eq::<I>,
            (bag, copy, &worker, &current),
            Ok(equal),
        ),
    ensures
        equal,
{
}

/// Equality of bags is symmetric and transitive if equality of their values is.
pub proof fn eq_is_an_equivalence<'a, I: PartialEq, T: PartialEq>(
    worker: Worker<dyn Errand + 'a, I>,
    current: I,
    a: &'a DiplomaticBag<T>,
    b: &'a DiplomaticBag<T>,
    c: &'a DiplomaticBag<T>,
    a_b: bool,
    b_a: bool,
    b_c: bool,
    a_c: bool,
)
    requires
        vstd::laws_eq::obeys_eq::<T>(),
        call_ensures(DiplomaticBag::<T>::eq::<I>, (a, b, &worker, &current), Ok(a_b)),
        call_ensures(DiplomaticBag::<T>::eq::<I>, (b, a, &worker, &current), Ok(b_a)),
        call_ensures(DiplomaticBag::<T>::eq::<I>, (b, c, &worker, &current), Ok(b_c)),
        call_ensures(DiplomaticBag::<T>::eq::<I>, (a, c, &worker, &current), Ok(a_c)),
    ensures
        a_b == b_a,
        a_b && b_c ==> a_c,
{
    reveal(vstd::laws_eq::obeys_eq_spec_properties);
}

/// The three ways to compare bags agree with each other if those of their values
/// do.
pub proof fn comparisons_agree<'a, I: PartialEq, T: Ord>(
    worker: Worker<dyn Errand + 'a, I>,
    current: I,
    a: &'a DiplomaticBag<T>,
    b: &'a DiplomaticBag<T>,
    equal: bool,
    partial: Option<Ordering>,
    order: Ordering,
)
    requires
        vstd::laws_cmp::obeys_cmp::<T>(),
        call_ensures(DiplomaticBag::<T>::eq::<I>, (a, b, &worker, &current), Ok(equal)),
        call_ensures(
            DiplomaticBag::<T>::partial_cmp::<I>,
            (a, b, &worker, &current),
            Ok(partial),
        ),
        call_ensures(DiplomaticBag::<T>::cmp::<I>, (a, b, &worker, &current), Ok(order)),
    ensures
        partial == Some(order),
        equal <==> order == Ordering::Equal,
{
    reveal(vstd::laws_cmp::obeys_cmp_partial_ord);
    reveal(vstd::laws_cmp::obeys_cmp_ord);
}

/// The order of bags is a total order if that of their values is: the other way
/// round it is reversed, and it carries over from two steps to one.
pub proof fn cmp_is_an_order<'a, I: PartialEq, T: Ord>(
    worker: Worker<dyn Errand + 'a, I>,
    current: I,
    a: &'a DiplomaticBag<T>,
    b: &'a DiplomaticBag<T>,
    c: &'a DiplomaticBag<T>,
    a_b: Ordering,
    b_a: Ordering,
    b_c: Ordering,
    a_c: Ordering,
)
    requires
        vstd::laws_cmp::obeys_cmp::<T>(),
        call_ensures(DiplomaticBag::<T>::cmp::<I>, (a, b, &worker, &current), Ok(a_b)),
        call_ensures(DiplomaticBag::<T>::cmp::<I>, (b, a, &worker, &current), Ok(b_a)),
        call_ensures(DiplomaticBag::<T>::cmp::<I>, (b, c, &worker, &current), Ok(b_c)),
        call_ensures(DiplomaticBag::<T>::cmp::<I>, (a, c, &worker, &current), Ok(a_c)),
    ensures
        a_b == Ordering::Less <==> b_a == Ordering::Greater,
        a_b == Ordering::Equal <==> b_a == Ordering::Equal,
        a_b == b_c ==> a_c == a_b,
{
    reveal(vstd::laws_cmp::obeys_cmp_partial_ord);
    reveal(vstd::laws_cmp::obeys_cmp_ord);
    reveal(vstd::laws_cmp::obeys_partial_cmp_spec_properties);
    reveal(vstd::laws_eq::obeys_eq_spec_properties);
}

/// On one line the debugging output of a bag is that of its value, taken as it is,
/// between a beginning and an end that are always the same.
pub proof fn plain_frame_is_on_one_line(inner: &str, text: String)
    requires
        call_ensures(frame, (inner, false), text),
    ensures
        text@ == "DiplomaticBag { inner: "@ + inner@ + " }"@,
{
}

/// In the alternate form the debugging output of a bag has its one field on a line of
/// its own. An output of one line is put there as it is.
pub proof fn alternate_frame_is_on_three_lines(inner: &str, text: String)
    requires
        call_ensures(frame, (inner, true), text),
        !inner@.contains('\n'),
    ensures
        text@ == "DiplomaticBag {\n    inner: "@ + inner@ + ",\n}"@,
{
    one_line_is_not_indented(inner@);
}

/// In the alternate form what comes after a line break is moved to the right by four
/// spaces, and is otherwise put there as it would be alone, as is what comes before.
/// (Together with the law on an output of one line this tells the alternate form of
/// every output.)
pub proof fn alternate_frame_goes_line_by_line(
    first: &str,
    rest: &str,
    whole: &str,
    first_text: String,
    rest_text: String,
    text: String,
    above: Seq<char>,
    below: Seq<char>,
)
    requires
        whole@ == first@ + seq!['\n'] + rest@,
        call_ensures(frame, (first, true), first_text),
        call_ensures(frame, (rest, true), rest_text),
        call_ensures(frame, (whole, true), text),
        first_text@ == "DiplomaticBag {\n    inner: "@ + above + ",\n}"@,
        rest_text@ == "DiplomaticBag {\n    inner: "@ + below + ",\n}"@,
    ensures
        text@ == "DiplomaticBag {\n    inner: "@ + above + "\n    "@ + below + ",\n}"@,
{
    let start = "DiplomaticBag {\n    inner: "@;
    let end = ",\n}"@;
    assert(above =~= first_text@.subrange(start.len() as int, first_text@.len() - end.len()));
    assert(above =~= crate::debug::indented(first@));
    assert(below =~= rest_text@.subrange(start.len() as int, rest_text@.len() - end.len()));
    assert(below =~= crate::debug::indented(rest@));
    indented_goes_part_by_part(first@ + seq!['\n'], rest@);
    assert((first@ + seq!['\n']).drop_last() =~= first@);
    assert(text@ =~= start + above + "\n    "@ + below + end);
}

/// The debugging output of a bag is what the task of showing its value told, framed in
/// the same form.
pub proof fn fmt_frames_the_output_of_the_value<'a, I: PartialEq, T: fmt::Debug>(
    bag: &'a DiplomaticBag<T>,
    alternate: bool,
    worker: Worker<dyn Errand + 'a, I>,
    current: I,
    text: String,
)
    requires
        call_ensures(
            DiplomaticBag::<T>::fmt::<I>,
            (bag, alternate, &worker, &current),
            Ok(text),
        ),
    ensures
        exists|handler: BaggageHandler, output: String|
            {
                &&& #[trigger] call_ensures(
                    Showing::<'a, T>::call,
                    (Showing { bag, alternate }, handler),
                    output,
                )
                &&& forall|inner: &str, framed: String|
                    inner@ == output@ && #[trigger] call_ensures(
                        frame,
                        (inner, alternate),
                        framed,
                    ) ==> text@ == framed@
            },
{
}

/// The task of showing a value tells the debugging output of what was wrapped in the
/// bag, in the form that is asked for.
pub(crate) proof fn showing_task_shows_the_value<'a, T: fmt::Debug>(
    value: T,
    bag: &'a DiplomaticBag<T>,
    alternate: bool,
    handler: BaggageHandler,
    output: String,
)
    requires
        call_ensures(BaggageHandler::wrap::<T>, (&handler, value), *bag),
        call_ensures(Showing::<'a, T>::call, (Showing { bag, alternate }, handler), output),
    ensures
        alternate ==> call_ensures(alternate_text::<T>, (&value,), output),
        !alternate ==> call_ensures(plain_text::<T>, (&value,), output),
{
    crate::debug::outputs_are_the_texts(value, alternate, output);
}

/// The debugging output of a bag tells that of its value: different values' outputs
/// are framed differently.
pub proof fn frame_is_faithful(inner: Seq<char>, other: Seq<char>, alternate: bool)
    requires
        crate::debug::framed(inner, alternate) == crate::debug::framed(other, alternate),
    ensures
        inner == other,
{
    let text = crate::debug::framed(inner, alternate);
    if alternate {
        let start = "DiplomaticBag {\n    inner: "@;
        let end = ",\n}"@;
        let middle = text.subrange(start.len() as int, text.len() - end.len());
        assert(middle =~= crate::debug::indented(inner));
        assert(middle =~= crate::debug::indented(other));
        indented_is_faithful(inner, other);
    } else {
        let start = "DiplomaticBag { inner: "@;
        let end = " }"@;
        let middle = text.subrange(start.len() as int, text.len() - end.len());
        assert(middle =~= inner);
        assert(middle =~= other);
    }
}

/// A text on one line is not changed by being indented.
pub proof fn one_line_is_not_indented(text: Seq<char>)
    requires
        !text.contains('\n'),
    ensures
        crate::debug::indented(text) == text,
    decreases text.len(),
{
    if text.len() > 0 {
        let rest = text.drop_last();
        assert(text.last() != '\n') by {
            assert(text.contains(text[text.len() - 1]));
        }
        assert forall|i: int| 0 <= i < rest.len() implies rest[i] != '\n' by {
            assert(text.contains(text[i]));
        }
        one_line_is_not_indented(rest);
        assert(rest.push(text.last()) =~= text);
    }
}

/// Indenting a text is indenting its parts.
proof fn indented_goes_part_by_part(a: Seq<char>, b: Seq<char>)
    ensures
        crate::debug::indented(a + b) == crate::debug::indented(a) + crate::debug::indented(b),
    decreases b.len(),
{
    if b.len() == 0 {
        assert(a + b =~= a);
    } else {
        indented_goes_part_by_part(a, b.drop_last());
        assert((a + b).drop_last() =~= a + b.drop_last());
    }
    assert(crate::debug::indented(a + b) =~= crate::debug::indented(a) + crate::debug::indented(
        b,
    ));
}

/// What indenting makes of one character.
spec fn indented_char(c: char) -> Seq<char> {
    if c == '\n' {
        "\n    "@
    } else {
        seq![c]
    }
}

/// Indenting goes character by character, from the front as well as from the back.
proof fn indented_from_the_front(text: Seq<char>)
    requires
        text.len() > 0,
    ensures
        crate::debug::indented(text) == indented_char(text.first()) + crate::debug::indented(
            text.drop_first(),
        ),
    decreases text.len(),
{
    let rest = text.drop_first();
    if text.len() == 1 {
        assert(text.drop_last() =~= Seq::<char>::empty());
        assert(rest =~= Seq::<char>::empty());
    } else {
        indented_from_the_front(text.drop_last());
        assert(text.drop_last().drop_first() =~= rest.drop_last());
    }
    assert(crate::debug::indented(text) =~= indented_char(text.first()) + crate::debug::indented(
        rest,
    ));
}

/// Different texts are indented differently.
proof fn indented_is_faithful(a: Seq<char>, b: Seq<char>)
    requires
        crate::debug::indented(a) == crate::debug::indented(b),
    ensures
        a == b,
    decreases a.len(),
{
    reveal_strlit("\n    ");
    if a.len() > 0 {
        indented_from_the_front(a);
    }
    if b.len() > 0 {
        indented_from_the_front(b);
    }
    if a.len() > 0 && b.len() > 0 {
        let text = crate::debug::indented(a);
        assert(text[0] == a.first());
        assert(text[0] == b.first());
        let start = indented_char(a.first());
        let rest = text.skip(start.len() as int);
        assert(rest =~= crate::debug::indented(a.drop_first()));
        assert(rest =~= crate::debug::indented(b.drop_first()));
        indented_is_faithful(a.drop_first(), b.drop_first());
        assert(a =~= seq![a.first()] + a.drop_first());
        assert(b =~= seq![b.first()] + b.drop_first());
    } else {
        assert(a =~= b);
    }
}

} // verus!
