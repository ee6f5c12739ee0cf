use crossbeam_channel::unbounded;
use diplomatic_bag::{BaggageHandler, DiplomaticBag, Errand, Error, Worker};
use slotmap::{DefaultKey, SlotMap};
use std::cell::{Cell, RefCell};
use std::cmp::Ordering;
use std::rc::Rc;
use std::sync::atomic::{self, AtomicBool};
use std::sync::Arc;

/// The worker's own thread.
const HOME: u64 = 0;
/// Some other thread.
const ABROAD: u64 = 1;

/// A worker for calls from its own thread, with nobody at its queue.
fn home<'a>() -> Worker<dyn Errand + 'a, u64> {
    let (tasks, _queue) = unbounded();
    Worker::new(tasks, HOME)
}

fn bag<'a, T: 'a>(value: T) -> DiplomaticBag<T> {
    DiplomaticBag::new(&home(), &HOME, move |_: BaggageHandler| value).unwrap()
}

type Register = Rc<RefCell<SlotMap<DefaultKey, u32>>>;

/// A value that is bound to its thread and keeps a record of itself there.
struct NotSend {
    register: Register,
    key: DefaultKey,
    value: Cell<u32>,
}

impl NotSend {
    fn new(register: &Register) -> Self {
        let value = rand::random();
        let key = register.borrow_mut().insert(value);
        Self {
            register: register.clone(),
            key,
            value: Cell::new(value),
        }
    }

    fn change(&self) {
        self.value.set(rand::random());
        self.register.borrow_mut()[self.key] = self.value.get();
    }

    fn verify(&self) {
        assert_eq!(
            Some(self.value.get()),
            self.register.borrow().get(self.key).copied()
        );
    }
}

impl Drop for NotSend {
    fn drop(&mut self) {
        self.verify()
    }
}

#[test]
fn create_and_drop() {
    let register = Register::default();
    let worker = home();
    let value = DiplomaticBag::new(&worker, &HOME, |_| NotSend::new(&register)).unwrap();
    assert_eq!(value.drop(&worker, &HOME), Ok(true));
}

#[test]
fn execute() {
    let register = Register::default();
    let worker = home();
    let value = DiplomaticBag::new(&worker, &HOME, |_| NotSend::new(&register)).unwrap();
    assert!(value.map(&worker, &HOME, |_, value| value.verify()).is_ok());
}

#[test]
fn execute_ref() {
    let register = Register::default();
    let value = DiplomaticBag::new(&home(), &HOME, |_| NotSend::new(&register)).unwrap();
    let done = value.as_ref().map(&home(), &HOME, |_, value| {
        value.verify();
        value.change();
    });
    assert!(done.is_ok());
    assert_eq!(value.drop(&home(), &HOME), Ok(true));
}

#[test]
fn execute_mut() {
    let register = Register::default();
    let mut value = DiplomaticBag::new(&home(), &HOME, |_| NotSend::new(&register)).unwrap();
    let done = value.as_mut().map(&home(), &HOME, |_, value| {
        value.verify();
        value.change();
    });
    assert!(done.is_ok());
    assert_eq!(value.drop(&home(), &HOME), Ok(true));
}

struct SetOnDrop(Arc<AtomicBool>);

impl Drop for SetOnDrop {
    fn drop(&mut self) {
        self.0.store(true, atomic::Ordering::SeqCst);
    }
}

#[test]
fn drop_inner() {
    let atomic = Arc::new(AtomicBool::new(false));
    let bag = DiplomaticBag::new(&home(), &HOME, |_| SetOnDrop(atomic.clone())).unwrap();
    assert!(!atomic.load(atomic::Ordering::SeqCst));
    assert_eq!(bag.drop(&home(), &HOME), Ok(true));
    assert!(atomic.load(atomic::Ordering::SeqCst));
}

#[test]
fn value_of_a_bag_let_go_of_is_not_dropped() {
    let atomic = Arc::new(AtomicBool::new(false));
    drop(bag(SetOnDrop(atomic.clone())));
    assert!(!atomic.load(atomic::Ordering::SeqCst));
}

#[test]
fn value_of_a_bag_is_not_dropped_where_the_worker_is_gone() {
    let atomic = Arc::new(AtomicBool::new(false));
    let value = bag(SetOnDrop(atomic.clone()));
    assert_eq!(value.drop(&home(), &ABROAD), Err(Error::Send));
    assert!(!atomic.load(atomic::Ordering::SeqCst));
    let value = bag(SetOnDrop(atomic.clone()));
    let mapped = value.map(&home(), &ABROAD, |_, _value| ());
    assert_eq!(mapped.err(), Some(Error::Send));
    assert!(!atomic.load(atomic::Ordering::SeqCst));
}

#[test]
fn nothing_to_drop() {
    assert_eq!(bag(5u8).drop(&home(), &ABROAD), Ok(false));
    assert_eq!(bag(5u8).drop(&home(), &HOME), Ok(false));
    assert_eq!(bag(5u8).drop_if(true, &home(), &HOME), Ok(true));
    assert_eq!(bag(5u8).drop_if(true, &home(), &ABROAD), Err(Error::Send));
    assert_eq!(bag(String::new()).drop_if(false, &home(), &ABROAD), Ok(false));
}

#[test]
fn shared_cell_is_written_through_a_reference() {
    let foo = bag(Rc::new(RefCell::new(0)));
    let copy = foo.clone(&home(), &HOME).unwrap();
    let done = copy.as_ref().map(&home(), &HOME, |_, rc| {
        *rc.borrow_mut() = 1;
    });
    assert!(done.is_ok());
    let seen = foo.as_ref().map(&home(), &HOME, |_, rc| *rc.borrow());
    assert_eq!(seen.unwrap().into_inner(), 1);
    assert_eq!(copy.drop(&home(), &HOME), Ok(true));
    assert_eq!(foo.drop(&home(), &HOME), Ok(true));
}

#[test]
fn map_takes_the_value() {
    let foo = bag(Rc::new(RefCell::new(5)));
    let five = foo
        .map(&home(), &HOME, |_, foo| {
            Rc::try_unwrap(foo).unwrap().into_inner()
        })
        .unwrap();
    assert_eq!(5, five.into_inner());
}

#[test]
fn map_after_map() {
    let once = bag(3u32).map(&home(), &HOME, |_, n| n + 1).unwrap();
    let twice = once.map(&home(), &HOME, |_, n| n * 10).unwrap();
    let direct = bag(3u32).map(&home(), &HOME, |_, n| (n + 1) * 10).unwrap();
    assert_eq!(twice.eq(&direct, &home(), &HOME), Ok(true));
    assert_eq!(twice.into_inner(), 40);
    let same = bag(3u32).map(&home(), &HOME, |_, n| n).unwrap();
    assert_eq!(same.into_inner(), 3);
}

#[test]
fn and_then_hands_out_bags() {
    let foo = bag(vec!["ho"; 3]);
    let foo: Vec<_> = foo
        .and_then(&home(), &HOME, |handler, foo| {
            foo.into_iter().map(|item| handler.wrap(item)).collect()
        })
        .unwrap();
    assert_eq!(foo.len(), 3);
    assert_eq!(&"ho", foo[0].as_ref().into_inner());
}

#[test]
fn and_then_wrapping_is_map() {
    let wrapped = bag(2u8)
        .and_then(&home(), &HOME, |handler, n| handler.wrap(n + 1))
        .unwrap();
    let mapped = bag(2u8).map(&home(), &HOME, |_, n| n + 1).unwrap();
    assert_eq!(wrapped.into_inner(), mapped.into_inner());
}

#[test]
fn zip_joins_two_bags() {
    let three = bag(1)
        .zip(bag(2))
        .map(&home(), &HOME, |_, (one, two)| one + two)
        .unwrap();
    assert_eq!(3, three.into_inner());
    assert_eq!((1, "b"), bag(1).zip(bag("b")).into_inner());
}

#[test]
fn as_ref_leaves_the_value() {
    let a = bag(0);
    let b = a.as_ref().map(&home(), &HOME, |_, a| a.clone()).unwrap();
    assert_eq!(a.eq(&b, &home(), &HOME), Ok(true));
    let seen = *a.as_ref().into_inner();
    assert_eq!(seen, a.into_inner());
}

#[test]
fn as_mut_swaps() {
    let mut a = bag(1);
    let mut b = bag(2);
    let done = a
        .as_mut()
        .zip(b.as_mut())
        .map(&home(), &HOME, |_, (a, b)| std::mem::swap(a, b));
    assert!(done.is_ok());
    assert_eq!(2, a.into_inner());
    assert_eq!(1, b.into_inner());
}

#[test]
fn as_mut_alone_changes_nothing() {
    let mut a = bag(1);
    a.as_mut();
    let read = a.as_mut().map(&home(), &HOME, |_, a| *a).unwrap();
    assert_eq!(1, read.into_inner());
    let written = a.as_mut().map(&home(), &HOME, |_, a| *a = 9);
    assert!(written.is_ok());
    assert_eq!(9, a.into_inner());
}

#[test]
fn into_inner_of_a_comparison() {
    let eq = bag(1)
        .zip(bag(2))
        .map(&home(), &HOME, |_, (one, two)| one == two)
        .unwrap();
    assert!(!eq.into_inner());
}

#[test]
fn transpose_result() {
    let good: DiplomaticBag<Result<u8, String>> = bag(Ok(4));
    assert_eq!(good.transpose().ok().unwrap().into_inner(), 4);
    let bad: DiplomaticBag<Result<u8, String>> = bag(Err("no".to_string()));
    assert_eq!(bad.transpose().err().unwrap().into_inner(), "no");
}

#[test]
fn transpose_option() {
    assert_eq!(bag(Some(7)).transpose().unwrap().into_inner(), 7);
    assert!(bag(None::<u8>).transpose().is_none());
}

#[test]
fn default_value() {
    let zero: DiplomaticBag<u8> = DiplomaticBag::default(&home(), &HOME).unwrap();
    assert_eq!(zero.into_inner(), 0);
    let empty: DiplomaticBag<String> = DiplomaticBag::default(&home(), &HOME).unwrap();
    assert_eq!(empty.into_inner(), "");
}

#[test]
fn clone_is_equal_and_apart() {
    let mut a = bag(vec![1, 2]);
    let b = a.clone(&home(), &HOME).unwrap();
    assert_eq!(a.eq(&b, &home(), &HOME), Ok(true));
    let done = a.as_mut().map(&home(), &HOME, |_, a| a.push(3));
    assert!(done.is_ok());
    assert_eq!(a.eq(&b, &home(), &HOME), Ok(false));
    assert_eq!(b.into_inner(), [1, 2]);
    assert_eq!(a.into_inner(), [1, 2, 3]);
}

#[test]
fn equality_is_that_of_the_values() {
    let (a, b, c) = (bag(1), bag(1), bag(2));
    assert_eq!(a.eq(&b, &home(), &HOME), Ok(true));
    assert_eq!(b.eq(&a, &home(), &HOME), Ok(true));
    assert_eq!(a.eq(&c, &home(), &HOME), Ok(false));
    let (x, y) = (bag(f64::NAN), bag(1.0));
    assert_eq!(x.eq(&x, &home(), &HOME), Ok(false));
    assert_eq!(y.eq(&y, &home(), &HOME), Ok(true));
}

#[test]
fn order_is_that_of_the_values() {
    let (a, b) = (bag(1), bag(2));
    assert_eq!(a.cmp(&b, &home(), &HOME), Ok(Ordering::Less));
    assert_eq!(b.cmp(&a, &home(), &HOME), Ok(Ordering::Greater));
    assert_eq!(a.cmp(&a, &home(), &HOME), Ok(Ordering::Equal));
    assert_eq!(
        a.partial_cmp(&b, &home(), &HOME),
        Ok(Some(Ordering::Less))
    );
    assert_eq!(
        b.partial_cmp(&a, &home(), &HOME),
        Ok(Some(Ordering::Greater))
    );
    let (x, y) = (bag(f64::NAN), bag(1.0));
    assert_eq!(x.partial_cmp(&y, &home(), &HOME), Ok(None));
}

#[test]
fn comparisons_agree_and_carry_over() {
    let bags: Vec<_> = [2, 1, 3, 1].into_iter().map(bag).collect();
    for a in &bags {
        for b in &bags {
            let order = a.cmp(b, &home(), &HOME).unwrap();
            assert_eq!(a.partial_cmp(b, &home(), &HOME), Ok(Some(order)));
            assert_eq!(a.eq(b, &home(), &HOME), Ok(order == Ordering::Equal));
            assert_eq!(b.cmp(a, &home(), &HOME), Ok(order.reverse()));
            for c in &bags {
                if b.cmp(c, &home(), &HOME) == Ok(order) {
                    assert_eq!(a.cmp(c, &home(), &HOME), Ok(order));
                }
            }
        }
    }
}

#[test]
fn handler_wraps_and_unwraps() {
    let one = bag(1);
    let two = bag(2);
    let three = one
        .and_then(&home(), &HOME, |handler, one| {
            let three = one + handler.unwrap(two.as_ref());
            handler.wrap(three)
        })
        .unwrap();
    assert_eq!(3, three.into_inner());

    let one = bag(1);
    let three = one.and_then(&home(), &HOME, |handler, one| one + handler.unwrap(two));
    assert_eq!(Ok(3), three);

    let foo: DiplomaticBag<u8> = bag(2);
    let bar: DiplomaticBag<u8> = foo
        .and_then(&home(), &HOME, |handler, value| handler.wrap(value.clone()))
        .unwrap();
    assert_eq!(bar.into_inner(), 2);
}

#[test]
fn nothing_runs_where_the_worker_is_gone() {
    let ran = Cell::new(false);
    let made = DiplomaticBag::new(&home(), &ABROAD, |_| ran.set(true));
    assert_eq!(made.err(), Some(Error::Send));
    let told = bag(1).and_then(&home(), &ABROAD, |_, _| ran.set(true));
    assert_eq!(told, Err(Error::Send));
    let made: Result<DiplomaticBag<u8>, Error> = DiplomaticBag::default(&home(), &ABROAD);
    assert_eq!(made.err(), Some(Error::Send));
    let a = bag(1);
    assert_eq!(a.clone(&home(), &ABROAD).err(), Some(Error::Send));
    assert_eq!(a.eq(&a, &home(), &ABROAD), Err(Error::Send));
    assert_eq!(a.partial_cmp(&a, &home(), &ABROAD), Err(Error::Send));
    assert_eq!(a.cmp(&a, &home(), &ABROAD), Err(Error::Send));
    assert_eq!(a.fmt(false, &home(), &ABROAD), Err(Error::Send));
    assert!(!ran.get());
}
