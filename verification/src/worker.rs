//! Running closures on the worker's thread.
use crate::error::{collected, posted, Error};
use crate::handler::BaggageHandler;
use crate::queue::{Queue, Step};
use crate::rendezvous::{rendezvous, Teller};
use crossbeam_channel::{bounded, Receiver, RecvError, SendError, Sender};
use vstd::prelude::*;
use vstd::std_specs::cmp::PartialEqSpec;

verus! {

/// Something for the worker to do. The worker's queue holds boxes of these.
pub trait Errand {
    /// What holds once the errand has been performed: nothing in particular, unless
    /// the errand says otherwise.
    open spec fn performed(&self) -> bool {
        true
    }

    /// Does it. Called once, on the worker's thread.
    fn perform(self: Box<Self>)
        ensures
            self.performed(),
    ;
}

/// Something to be done on the worker's thread that returns an `R`.
pub trait Task<R>: Sized {
    /// The task may be done.
    spec fn callable(self) -> bool;

    /// `value` is something that the task can return.
    spec fn gives(self, value: R) -> bool;

    /// Does the task. The handler shows that this is the worker's thread.
    fn call(self, handler: BaggageHandler) -> (value: R)
        requires
            self.callable(),
        ensures
            self.gives(value),
    ;
}

/// The task of calling a closure.
pub struct Call<F> {
    /// The closure.
    pub f: F,
}

impl<R, F: FnOnce(BaggageHandler) -> R> Task<R> for Call<F> {
    open spec fn callable(self) -> bool {
        crate::handler::runnable(self.f)
    }

    open spec fn gives(self, value: R) -> bool {
        crate::handler::yields(self.f, value)
    }

    fn call(self, handler: BaggageHandler) -> (value: R) {
        (self.f)(handler)
    }
}

/// The errand of doing a task and handing its value back.
#[verifier::reject_recursive_types(R)]
pub struct Job<R, K: Task<R>> {
    /// The task.
    task: K,
    /// Hands the value back. Dropped without a word if the task is never done to its
    /// end.
    teller: Teller<R>,
}

impl<R, K: Task<R>> Job<R, K> {
    /// The task may be done, and whatever it returns may be handed back.
    #[verifier::type_invariant]
    spec fn wf(self) -> bool {
        &&& self.task.callable()
        &&& forall|handler: BaggageHandler, value: R| #[trigger]
            call_ensures(K::call, (self.task, handler), value) ==> (self.teller.allowed())(value)
    }

    /// The task that the job is to do.
    pub closed spec fn task(&self) -> K {
        self.task
    }

    /// The way back for the value of the task.
    pub closed spec fn sender(&self) -> Sender<R> {
        self.teller.sender()
    }

    /// The job can have handed `value` back: it can have been sent on its way.
    pub open spec fn hands_back(&self, value: R) -> bool {
        exists|sent: Result<(), SendError<R>>| #[trigger]
            call_ensures(Sender::<R>::send, (&self.sender(), value), sent)
    }
}

impl<R, K: Task<R>> Errand for Job<R, K> {
    /// The task has been done, and the value that it returned has been handed back.
    open spec fn performed(&self) -> bool {
        exists|handler: BaggageHandler, value: R| #[trigger]
            call_ensures(K::call, (self.task(), handler), value) && self.hands_back(value)
    }

    /// Does the task with a handler and hands its value back.
    ///
    /// Once the value is handed back everything that may hold on to what the task
    /// borrowed is gone from this side: the task has been used up, and the value is
    /// with the other side.
    fn perform(self: Box<Self>) {
        let job = *self;
        proof {
            use_type_invariant(&job);
        }
        let Job { task, teller } = job;
        let handler = BaggageHandler::new();
        let value = task.call(handler);
        let ghost returned = value;
        teller.tell(value);
        assert(job.hands_back(returned));
        assert(call_ensures(K::call, (job.task(), handler), returned));
    }
}

/// The thread on which the values in the bags live, as seen by those who send
/// errands to it: the way into its queue, and which thread it is.
#[verifier::reject_recursive_types(E)]
pub struct Worker<E: ?Sized, I> {
    tasks: Sender<Box<E>>,
    thread: I,
}

impl<E: ?Sized, I> Worker<E, I> {
    /// The thread on which the worker's queue is served.
    pub closed spec fn thread(&self) -> I {
        self.thread
    }

    /// The way into the worker's queue.
    pub closed spec fn tasks(&self) -> Sender<Box<E>> {
        self.tasks
    }

    /// The worker's queue can take `errand`: its sender's `send` can return `Ok`
    /// for it.
    pub open spec fn accepts(&self, errand: Box<E>) -> bool {
        call_ensures(Sender::<Box<E>>::send, (&self.tasks(), errand), Ok(()))
    }

    /// The worker's queue can refuse `errand`: its sender's `send` can return an
    /// error for it.
    pub open spec fn refuses(&self, errand: Box<E>) -> bool {
        exists|refused: SendError<Box<E>>| #[trigger]
            call_ensures(Sender::<Box<E>>::send, (&self.tasks(), errand), Err(refused))
    }

    /// The worker whose queue `tasks` leads to, served on the thread `thread`.
    pub fn new(tasks: Sender<Box<E>>, thread: I) -> (worker: Self)
        ensures
            worker.tasks() == tasks,
            worker.thread() == thread,
    {
        Worker { tasks, thread }
    }
}

impl<E: ?Sized, I: PartialEq> Worker<E, I> {
    /// `current` is the worker's own thread.
    pub open spec fn is_on(&self, current: &I) -> bool {
        I::obeys_eq_spec() && current.eq_spec(&self.thread())
    }

    /// `own` can be the answer to whether `current` is the worker's own thread.
    pub open spec fn compares(&self, current: &I, own: bool) -> bool {
        call_ensures(I::eq, (current, &self.thread()), own)
    }
}

/// Performs the errand that came out of a worker's queue, if one did. Returns whether
/// to go on.
pub fn attend<E: ?Sized + Errand>(received: Result<Box<E>, RecvError>) -> (on: bool)
    ensures
        on == received is Ok,
        received matches Ok(errand) ==> call_ensures(E::perform, (errand,), ()),
{
    match received {
        Ok(errand) => {
            errand.perform();
            true
        },
        Err(_) => false,
    }
}

/// The steps of performing `errands` one after the other, each as soon as it is taken
/// and before the next one is.
pub open spec fn one_by_one<E: ?Sized>(errands: Seq<Box<E>>) -> Seq<Step<E>> {
    Seq::new(
        2 * errands.len(),
        |k: int|
            if k % 2 == 0 {
                Step::Taken(errands[k / 2])
            } else {
                Step::Performed(errands[k / 2])
            },
    )
}

/// Performs every errand that comes out of a worker's queue, in the order in which
/// they come and each before the next one is taken, until nobody is left who could
/// send one, and returns how many there were. To be called on the worker's thread.
///
/// (It would also return after `u64::MAX` errands, more than any thread lives
/// to see.)
pub fn serve<E: ?Sized + Errand>(queue: &mut Queue<E>) -> (served: u64)
    ensures
        final(queue).receiver() == old(queue).receiver(),
        old(queue).taken().is_prefix_of(final(queue).taken()),
        final(queue).taken().len() == old(queue).taken().len() + served,
        forall|i: int|
            #![trigger final(queue).taken()[i]]
            old(queue).taken().len() <= i < final(queue).taken().len() ==> call_ensures(
                attend::<E>,
                (Ok(final(queue).taken()[i]),),
                true,
            ),
        final(queue).steps() == old(queue).steps() + one_by_one(
            final(queue).taken().skip(old(queue).taken().len() as int),
        ),
        served < u64::MAX ==> old(queue).ends(),
{
    let mut served: u64 = 0;
    assert(queue.steps() =~= queue.steps() + one_by_one(
        queue.taken().skip(queue.taken().len() as int),
    ));
    while served < u64::MAX
        invariant
            queue.receiver() == old(queue).receiver(),
            old(queue).taken().is_prefix_of(queue.taken()),
            queue.taken().len() == old(queue).taken().len() + served,
            forall|i: int|
                #![trigger queue.taken()[i]]
                old(queue).taken().len() <= i < queue.taken().len() ==> call_ensures(
                    attend::<E>,
                    (Ok(queue.taken()[i]),),
                    true,
                ),
            queue.steps() == old(queue).steps() + one_by_one(
                queue.taken().skip(old(queue).taken().len() as int),
            ),
        decreases u64::MAX - served,
    {
        let ghost done = queue.taken().skip(old(queue).taken().len() as int);
        let received = queue.take();
        let ghost came = received;
        if !queue.attend(received) {
            assert(came == Err::<Box<E>, RecvError>(came->Err_0));
            return served;
        }
        assert(came == Ok::<Box<E>, RecvError>(came->Ok_0));
        proof {
            let more = queue.taken().skip(old(queue).taken().len() as int);
            assert(more =~= done.push(came->Ok_0));
            assert(one_by_one(more) =~= one_by_one(done).push(Step::Taken(came->Ok_0)).push(
                Step::Performed(came->Ok_0),
            ));
        }
        served += 1;
    }
    served
}

/// `errand` is something that `seal` can make of a job that is to do `task`.
pub open spec fn carries<E: ?Sized, R, K, S>(errand: Box<E>, seal: S, task: K) -> bool where
    K: Task<R>,
    S: FnOnce(Box<Job<R, K>>) -> Box<E>,
 {
    exists|job: Box<Job<R, K>>| job.task() == task && #[trigger] seal.ensures((job,), errand)
}

/// None of the errands that `seal` can make of a job that is to do `task` is one that
/// the worker's queue can take.
pub open spec fn turns_away<E: ?Sized, I, R, K, S>(
    worker: &Worker<E, I>,
    seal: S,
    task: K,
) -> bool where K: Task<R>, S: FnOnce(Box<Job<R, K>>) -> Box<E> {
    forall|errand: Box<E>| carries(errand, seal, task) ==> !#[trigger] worker.accepts(errand)
}

/// `outcome` can come of waiting for `task`: `seal` made an errand of a job that is to
/// do it, the queue took the errand, and the other end of the channel into which the
/// job hands its value was listened at. What was heard there is the outcome.
pub open spec fn awaits<E: ?Sized, I, R, K, S>(
    worker: &Worker<E, I>,
    seal: S,
    task: K,
    outcome: Result<R, Error>,
) -> bool where K: Task<R>, S: FnOnce(Box<Job<R, K>>) -> Box<E> {
    exists|
        job: Box<Job<R, K>>,
        errand: Box<E>,
        receiver: Receiver<R>,
        heard: Result<R, RecvError>,
    |
        {
            &&& job.task() == task
            &&& #[trigger] seal.ensures((job,), errand)
            &&& worker.accepts(errand)
            &&& call_ensures(bounded::<R>, (0usize,), (job.sender(), receiver))
            &&& #[trigger] call_ensures(Receiver::<R>::recv, (&receiver,), heard)
            &&& outcome == (match heard {
                Ok(value) => Ok::<R, Error>(value),
                Err(_) => Err::<R, Error>(Error::Recv),
            })
        }
}

/// `outcome` can come of having `task` done on the worker from the thread `current`.
///
/// A value is one that the task can return, and was returned on the worker's own
/// thread, or by an errand made of the task that the queue took and that was waited
/// for. An error comes on another thread than the worker's only: of an errand made
/// of the task that the queue refused, or of one that it took and that was waited
/// for in vain, as the error says.
pub open spec fn settles<E: ?Sized, I: PartialEq, R, K, S>(
    worker: &Worker<E, I>,
    current: &I,
    seal: S,
    task: K,
    outcome: Result<R, Error>,
) -> bool where K: Task<R>, S: FnOnce(Box<Job<R, K>>) -> Box<E> {
    match outcome {
        Ok(value) => {
            &&& task.gives(value)
            &&& exists|handler: BaggageHandler| #[trigger]
                call_ensures(K::call, (task, handler), value)
            &&& worker.compares(current, true) || {
                &&& awaits(worker, seal, task, outcome)
                &&& exists|errand: Box<E>|
                    carries(errand, seal, task) && #[trigger] worker.accepts(errand)
            }
        },
        Err(Error::Send) => {
            &&& worker.compares(current, false)
            &&& exists|errand: Box<E>|
                carries(errand, seal, task) && #[trigger] worker.refuses(errand)
        },
        Err(Error::Recv) => {
            &&& worker.compares(current, false)
            &&& awaits(worker, seal, task, outcome)
            &&& exists|errand: Box<E>|
                carries(errand, seal, task) && #[trigger] worker.accepts(errand)
        },
    }
}

/// Has a task done on the worker's thread and waits for its value.
fn dispatch<E: ?Sized, I: PartialEq, R, K, S>(
    worker: &Worker<E, I>,
    current: &I,
    seal: S,
    task: K,
) -> (outcome: Result<R, Error>) where K: Task<R>, S: FnOnce(Box<Job<R, K>>) -> Box<E>
    requires
        task.callable(),
        forall|job: Box<Job<R, K>>| job.task() == task ==> #[trigger] seal.requires((job,)),
    ensures
        worker.is_on(current) ==> outcome is Ok,
        settles(worker, current, seal, task, outcome),
{
    if *current == worker.thread {
        let handler = BaggageHandler::new();
        let value = task.call(handler);
        assert(call_ensures(K::call, (task, handler), value));
        assert(worker.compares(current, true));
        return Ok(value);
    }
    assert(worker.compares(current, false));
    let ghost returned = |value: R|
        exists|handler: BaggageHandler| #[trigger] call_ensures(K::call, (task, handler), value);
    let (teller, hearer) = rendezvous(Ghost(returned));
    let job = Box::new(Job { task, teller });
    let errand = seal(job);
    assert(carries(errand, seal, task));
    let sent = worker.tasks.send(errand);
    assert(sent is Ok ==> sent->Ok_0 == () && worker.accepts(errand));
    assert(sent is Err ==> worker.refuses(errand));
    match posted(sent) {
        Ok(()) => {
            let heard = hearer.hear();
            let ghost came = heard;
            let outcome = collected(heard);
            assert(outcome matches Ok(value) ==> returned(value));
            assert(awaits(worker, seal, task, outcome)) by {
                assert(seal.ensures((job,), errand));
                assert(call_ensures(bounded::<R>, (0usize,), (job.sender(), hearer.receiver())));
                assert(call_ensures(Receiver::<R>::recv, (&hearer.receiver(),), came));
            }
            assert(settles(worker, current, seal, task, outcome));
            outcome
        },
        Err(error) => Err(error),
    }
}

/// Runs a closure on the worker's thread and waits for its value.
///
/// If `current`, the thread that this is called on, is the worker's, the closure
/// is called right here: waiting in the queue for oneself would be waiting
/// forever. Otherwise it becomes a [`Job`], `seal` makes of that what the worker's
/// queue takes, and this goes into the queue. The function returns only when the
/// closure has been used up: called to its end, abandoned in a panic, or dropped.
///
/// # Errors
/// [`Error::Send`] if the worker had stopped before, [`Error::Recv`] if it stopped
/// before the closure returned. Neither happens on the worker's own thread.
pub fn try_run<E: ?Sized, I: PartialEq, R, F, S>(
    worker: &Worker<E, I>,
    current: &I,
    seal: S,
    f: F,
) -> (outcome: Result<R, Error>) where
    F: FnOnce(BaggageHandler) -> R,
    S: FnOnce(Box<Job<R, Call<F>>>) -> Box<E>,

    requires
        crate::handler::runnable(f),
        forall|job: Box<Job<R, Call<F>>>|
            job.task().f == f ==> #[trigger] seal.requires((job,)),
    ensures
        outcome matches Ok(value) ==> crate::handler::yields(f, value),
        worker.is_on(current) ==> outcome is Ok,
        settles(worker, current, seal, (Call { f }), outcome),
{
    dispatch(worker, current, seal, Call { f })
}

/// A box with an errand in it, as an errand of its own.
struct Parcel<J>(Box<J>);

impl<J: Errand> Errand for Parcel<J> {
    closed spec fn performed(&self) -> bool {
        self.0.performed()
    }

    /// Performs the errand in the box.
    fn perform(self: Box<Self>) {
        let Parcel(job) = *self;
        job.perform();
    }
}

/// A job as an errand like any other: what holds once the one has been performed is
/// what holds once the other has.
pub fn erase<'a, J: Errand + 'a>(job: Box<J>) -> (errand: Box<dyn Errand + 'a>)
    ensures
        errand.performed() == job.performed(),
{
    return Box::new(Parcel(job));
}

/// Has a task done on the worker's thread and waits for its value, for a worker
/// whose queue takes errands of every kind.
pub(crate) fn entrust<'a, I: PartialEq, R: 'a, K>(
    worker: &Worker<dyn Errand + 'a, I>,
    current: &I,
    task: K,
) -> (outcome: Result<R, Error>) where K: Task<R> + 'a
    requires
        task.callable(),
    ensures
        worker.is_on(current) ==> outcome is Ok,
        settles(worker, current, erase::<Job<R, K>>, task, outcome),
{
    dispatch(worker, current, erase::<Job<R, K>>, task)
}

/// Runs a closure on the worker's thread and waits for its value, as [`try_run`]
/// does, for a worker whose queue takes errands of every kind.
///
/// # Errors
/// Those of [`try_run`].
pub fn run<'a, I: PartialEq, R: 'a, F>(
    worker: &Worker<dyn Errand + 'a, I>,
    current: &I,
    f: F,
) -> (outcome: Result<R, Error>) where F: FnOnce(BaggageHandler) -> R + 'a
    requires
        crate::handler::runnable(f),
    ensures
        outcome matches Ok(value) ==> crate::handler::yields(f, value),
        worker.is_on(current) ==> outcome is Ok,
        settles(worker, current, erase::<Job<R, Call<F>>>, (Call { f }), outcome),
{
    entrust(worker, current, Call { f })
}

} // verus!
