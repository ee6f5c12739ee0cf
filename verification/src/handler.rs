//! The token that a closure gets on the worker's thread.
use crate::bag::DiplomaticBag;
use std::marker::PhantomData;
use std::rc::Rc;
use vstd::prelude::*;

verus! {

/// Wraps and unwraps [`DiplomaticBag`]s inside a closure that runs on the
/// worker's thread.
///
/// Every closure that is run on the worker is handed one. It can neither be sent
/// to another thread nor shared with one, so whoever holds it is on the worker's
/// thread.
#[derive(Debug, Clone, Copy)]
pub struct BaggageHandler(PhantomData<Rc<()>>);

/// The closure `f` may be called on the worker's thread.
pub open spec fn runnable<R, F: FnOnce(BaggageHandler) -> R>(f: F) -> bool {
    forall|handler: BaggageHandler| #[trigger] f.requires((handler,))
}

/// `value` is something that the closure `f` can return on the worker's thread.
pub open spec fn yields<R, F: FnOnce(BaggageHandler) -> R>(f: F, value: R) -> bool {
    exists|handler: BaggageHandler| #[trigger] f.ensures((handler,), value)
}

/// The closure `f` may be called on `value` on the worker's thread.
pub open spec fn applicable<T, U, F: FnOnce(BaggageHandler, T) -> U>(f: F, value: T) -> bool {
    forall|handler: BaggageHandler| #[trigger] f.requires((handler, value))
}

/// `result` is something that the closure `f` can make of `value` on the worker's
/// thread.
pub open spec fn makes<T, U, F: FnOnce(BaggageHandler, T) -> U>(f: F, value: T, result: U) -> bool {
    exists|handler: BaggageHandler| #[trigger] f.ensures((handler, value), result)
}

impl BaggageHandler {
    /// A handler, for code that is on the worker's thread.
    pub(crate) fn new() -> (handler: Self) {
        Self(PhantomData)
    }

    /// Wraps a value in a bag.
    pub fn wrap<T>(&self, value: T) -> (bag: DiplomaticBag<T>)
        ensures
            bag@ == value,
    {
        DiplomaticBag::sealed(value)
    }

    /// Takes the value out of a bag, for use in the closure that holds this
    /// handler.
    pub fn unwrap<T>(&self, proxy: DiplomaticBag<T>) -> (value: T)
        ensures
            value == proxy@,
    {
        proxy.into_inner_unchecked()
    }

    /// All handlers are alike: what a closure does for one of them, it does for
    /// each.
    pub proof fn all_alike(self, other: Self)
        ensures
            self == other,
    {
    }
}

} // verus!
