use crossbeam_channel::{bounded, unbounded, RecvError, SendError};
use crossbeam_utils::thread::scope;
use diplomatic_bag::{
    attend, collected, posted, run, serve, try_run, BaggageHandler, DiplomaticBag, Errand, Error, Queue,
    Worker,
};
use diplomatic_bag::worker::erase;
use std::cell::{Cell, RefCell};
use std::rc::Rc;

const WORKER: u64 = 0;
const HERE: u64 = 1;

/// Errands that may go to another thread.
type Parcel = dyn Errand + Send;

/// Serves a queue on a thread of its own while `f` is given the way into it.
/// Returns what `f` does, and how many errands were performed, if the thread came
/// to a regular end.
fn with_worker<R>(f: impl FnOnce(&Worker<Parcel, u64>) -> R) -> (R, Option<u64>) {
    let (tasks, queue) = unbounded::<Box<Parcel>>();
    scope(|threads| {
        let thread = threads.spawn(move |_| serve(&mut Queue::new(queue)));
        let worker = Worker::new(tasks, WORKER);
        let result = f(&worker);
        drop(worker);
        (result, thread.join().ok())
    })
    .unwrap()
}

/// An errand that does nothing.
struct Nothing;

impl Errand for Nothing {
    fn perform(self: Box<Self>) {}
}

/// An errand that writes its number down.
struct Note(u32, Rc<RefCell<Vec<u32>>>);

impl Errand for Note {
    fn perform(self: Box<Self>) {
        self.1.borrow_mut().push(self.0);
    }
}

#[test]
fn value_comes_back_from_the_worker() {
    let answer = with_worker(|worker| try_run(worker, &HERE, |job| job, |_: BaggageHandler| 1 + 2));
    assert_eq!(answer, (Ok(3), Some(1)));
}

#[test]
fn many_errands_of_many_kinds() {
    let (_, served) = with_worker(|worker| {
        for n in 0..100u32 {
            let twice = try_run(worker, &HERE, |job| job, move |_: BaggageHandler| 2 * n);
            assert_eq!(twice, Ok(2 * n));
            let text = try_run(worker, &HERE, |job| job, move |_: BaggageHandler| {
                n.to_string()
            });
            assert_eq!(text, Ok(n.to_string()));
        }
    });
    assert_eq!(served, Some(200));
}

#[test]
fn on_the_own_thread_nothing_is_queued() {
    let answer = with_worker(|worker| {
        try_run(worker, &WORKER, |_job| Box::new(Nothing), |_: BaggageHandler| {
            "here"
        })
    });
    assert_eq!(answer, (Ok("here"), Some(0)));
}

#[test]
fn bags_are_used_on_the_worker() {
    let (sum, _) = with_worker(|worker| {
        let bag = try_run(worker, &HERE, |job| job, |handler: BaggageHandler| {
            handler.wrap(40)
        })
        .unwrap();
        let sum = try_run(worker, &HERE, |job| job, move |handler: BaggageHandler| {
            handler.wrap(handler.unwrap(bag) + 2)
        });
        sum.unwrap().into_inner()
    });
    assert_eq!(sum, 42);
}

#[test]
fn values_bound_to_the_worker_stay_there() {
    let (sum, served) = with_worker(|worker| {
        try_run(worker, &HERE, |job| job, |_: BaggageHandler| {
            let (tasks, _queue) = unbounded();
            let worker: Worker<dyn Errand, u64> = Worker::new(tasks, WORKER);
            let one =
                DiplomaticBag::new(&worker, &WORKER, |_| Rc::new(RefCell::new(1))).unwrap();
            let two =
                DiplomaticBag::new(&worker, &WORKER, |_| Rc::new(RefCell::new(2))).unwrap();
            one.zip(two)
                .map(&worker, &WORKER, |_, (one, two)| {
                    *one.borrow() + *two.borrow()
                })
                .unwrap()
                .into_inner()
        })
    });
    assert_eq!((sum, served), (Ok(3), Some(1)));
}

#[test]
fn worker_that_is_gone_refuses() {
    let (tasks, queue) = unbounded::<Box<Parcel>>();
    drop(queue);
    let worker = Worker::new(tasks, WORKER);
    let refused = try_run(&worker, &HERE, |job| job, |_: BaggageHandler| 1);
    assert_eq!(refused, Err(Error::Send));
    assert_eq!(
        try_run(&worker, &WORKER, |job| job, |_: BaggageHandler| 1),
        Ok(1)
    );
}

#[test]
fn errand_that_is_lost_is_an_error() {
    let (tasks, queue) = unbounded::<Box<dyn Errand>>();
    let worker = Worker::new(tasks, WORKER);
    let ran = Rc::new(Cell::new(false));
    let mark = ran.clone();
    let lost = try_run(
        &worker,
        &HERE,
        |_job| Box::new(Nothing),
        move |_: BaggageHandler| mark.set(true),
    );
    assert_eq!(lost, Err(Error::Recv));
    assert!(!ran.get());
    assert_eq!(queue.len(), 1);
}

#[test]
fn panic_stops_the_worker() {
    let (outcomes, served) = with_worker(|worker| {
        let first = try_run(worker, &HERE, |job| job, |_: BaggageHandler| -> u8 {
            panic!("on purpose")
        });
        let second = try_run(worker, &HERE, |job| job, |_: BaggageHandler| 2u8);
        (first, second)
    });
    assert_eq!(outcomes.0, Err(Error::Recv));
    assert!(outcomes.1.is_err());
    assert_eq!(served, None);
}

#[test]
fn run_on_the_own_thread() {
    let (tasks, _queue) = unbounded();
    let worker: Worker<dyn Errand, u64> = Worker::new(tasks, WORKER);
    let nested = run(&worker, &WORKER, |_| 5);
    assert_eq!(nested, Ok(5));
}

#[test]
fn run_within_run() {
    let inner_tasks = unbounded();
    let inner: Worker<dyn Errand, u64> = Worker::new(inner_tasks.0, WORKER);
    let (tasks, _queue) = unbounded();
    let worker: Worker<dyn Errand, u64> = Worker::new(tasks, WORKER);
    let nested = run(&worker, &WORKER, move |_| {
        run(&inner, &WORKER, |_| 6).map(|six| six + 1)
    });
    assert_eq!(nested, Ok(Ok(7)));
}

#[test]
fn run_where_the_worker_is_gone() {
    let (tasks, queue) = unbounded();
    drop(queue);
    let worker: Worker<dyn Errand, u64> = Worker::new(tasks, WORKER);
    assert_eq!(run(&worker, &HERE, |_| 5), Err(Error::Send));
}

#[test]
fn errands_are_served_in_order() {
    let notes = Rc::new(RefCell::new(Vec::new()));
    let (tasks, queue) = unbounded::<Box<Note>>();
    for n in [3, 1, 2] {
        assert!(tasks.send(Box::new(Note(n, notes.clone()))).is_ok());
    }
    drop(tasks);
    let mut queue = Queue::new(queue);
    assert_eq!(serve(&mut queue), 3);
    assert_eq!(*notes.borrow(), [3, 1, 2]);
    assert_eq!(serve(&mut queue), 0);
}

#[test]
fn errands_are_taken_one_by_one() {
    let notes = Rc::new(RefCell::new(Vec::new()));
    let (tasks, queue) = unbounded::<Box<Note>>();
    assert!(tasks.send(Box::new(Note(6, notes.clone()))).is_ok());
    assert!(tasks.send(Box::new(Note(7, notes.clone()))).is_ok());
    drop(tasks);
    let mut queue = Queue::new(queue);
    assert_eq!(queue.take().ok().map(|note| note.0), Some(6));
    assert_eq!(serve(&mut queue), 1);
    assert!(queue.take().is_err());
    assert_eq!(*notes.borrow(), [7]);
}

#[test]
fn what_came_is_attended_to() {
    let notes = Rc::new(RefCell::new(Vec::new()));
    assert!(attend(Ok(Box::new(Note(4, notes.clone())))));
    assert_eq!(*notes.borrow(), [4]);
    assert!(!attend::<Note>(Err(RecvError)));
    assert_eq!(*notes.borrow(), [4]);
}

#[test]
fn erased_errand_is_performed() {
    let notes = Rc::new(RefCell::new(Vec::new()));
    let errand: Box<dyn Errand> = erase(Box::new(Note(8, notes.clone())));
    assert!(notes.borrow().is_empty());
    errand.perform();
    assert_eq!(*notes.borrow(), [8]);
}

#[test]
fn outcome_of_posting() {
    assert_eq!(posted::<u8>(Ok(())), Ok(()));
    assert_eq!(posted(Err(SendError(5u8))), Err(Error::Send));
}

#[test]
fn outcome_of_collecting() {
    assert_eq!(collected(Ok(5)), Ok(5));
    assert_eq!(collected::<u8>(Err(RecvError)), Err(Error::Recv));
}

#[test]
fn refused_message_comes_back() {
    let (sender, receiver) = bounded(0);
    drop(receiver);
    assert_eq!(sender.send("message"), Err(SendError("message")));
}

#[test]
fn error_message() {
    let text = "diplomatic bag worker thread not running";
    assert_eq!(Error::Send.message(), text);
    assert_eq!(Error::Recv.message(), text);
}

/// Implemented twice, and so not to be told apart, for types that are `Send`.
trait UnclearIfSend<A> {
    fn clear() -> bool {
        true
    }
}

struct Twice;

impl<T: ?Sized> UnclearIfSend<()> for T {}
impl<T: ?Sized + Send> UnclearIfSend<Twice> for T {}

/// Implemented twice, and so not to be told apart, for types that are `Sync`.
trait UnclearIfSync<A> {
    fn clear() -> bool {
        true
    }
}

impl<T: ?Sized> UnclearIfSync<()> for T {}
impl<T: ?Sized + Sync> UnclearIfSync<Twice> for T {}

#[test]
fn handler_stays_on_its_thread() {
    assert!(<BaggageHandler as UnclearIfSend<_>>::clear());
    assert!(<BaggageHandler as UnclearIfSync<_>>::clear());
}

fn crosses_threads<T: Send + Sync>() -> bool {
    true
}

#[test]
fn error_crosses_threads() {
    assert!(crosses_threads::<Error>());
}
