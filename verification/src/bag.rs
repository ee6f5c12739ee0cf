//! The bag and what can be done with it.
use crate::error::Error;
use crate::handler::BaggageHandler;
use crate::untouchable::Untouchable;
use crate::worker::{entrust, erase, Errand, Job, Task, Worker};
use vstd::prelude::*;

verus! {

/// `std::mem::needs_drop` hints at whether dropping a value of the type does
/// anything. Nothing is claimed of the answer: it may be yes where nothing is to
/// be done.
pub assume_specification<T: ?Sized>[ std::mem::needs_drop::<T> ]() -> (needed: bool);

/// `std::mem::drop` drops the value that it is given. What that does, the type of the
/// value decides: nothing is claimed of it.
pub assume_specification<T>[ std::mem::drop::<T> ](value: T);

/// A value that lives on the worker's thread.
///
/// The value is not to be had from the bag directly. Closures are run on it on
/// the worker's thread ([`map`](Self::map), [`and_then`](Self::and_then)), a
/// [`BaggageHandler`] takes it out on that thread, and a value that may go to
/// another thread anyway can be taken out anywhere
/// ([`into_inner`](DiplomaticBag::into_inner)).
///
/// A bag that is merely let go of leaves its value undropped, since this might be
/// the wrong thread to drop it on. [`drop`](Self::drop) drops it on the right one.
///
/// # Blocking
/// All values live on one thread, so no two of them are used at a time. Every
/// method that runs a closure waits until the closure has returned.
pub struct DiplomaticBag<T> {
    value: Untouchable<T>,
}

/// A bag stands for the value in it.
impl<T> View for DiplomaticBag<T> {
    type V = T;

    closed spec fn view(&self) -> T {
        self.value@
    }
}

impl<T> DiplomaticBag<T> {
    /// The value can have been dropped.
    pub open spec fn drops(&self) -> bool {
        call_ensures(std::mem::drop::<T>, (self@,), ())
    }

    /// A bag that is done with is one whose value is done with.
    pub proof fn resolved(self)
        requires
            has_resolved(self),
        ensures
            has_resolved(self@),
    {
        self.value.resolved();
    }

    /// A bag with the given value in it.
    pub(crate) fn sealed(value: T) -> (bag: Self)
        ensures
            bag@ == value,
    {
        DiplomaticBag { value: Untouchable::new(value) }
    }

    /// The value, for code that is on the worker's thread or needs not be.
    pub(crate) fn into_inner_unchecked(self) -> (value: T)
        ensures
            value == self@,
    {
        self.value.into_inner()
    }

    /// Makes a bag of the value that the closure `f` returns on the worker's
    /// thread.
    ///
    /// # Errors
    /// Those of [`run`](crate::run).
    pub fn new<'a, I: PartialEq, F>(
        worker: &Worker<dyn Errand + 'a, I>,
        current: &I,
        f: F,
    ) -> (made: Result<Self, Error>) where F: FnOnce(BaggageHandler) -> T + 'a, T: 'a
        requires
            crate::handler::runnable(f),
        ensures
            made matches Ok(bag) ==> crate::handler::yields(f, bag@),
            worker.is_on(current) ==> made is Ok,
            crate::worker::settles(
                worker,
                current,
                erase::<Job<DiplomaticBag<T>, Making<F>>>,
                (Making { f }),
                made,
            ),
    {
        entrust(worker, current, Making { f })
    }

    /// Makes a bag of what the closure `f` makes of the value on the worker's
    /// thread.
    ///
    /// To use the values of several bags at once, use the handler that the closure
    /// is given, or [`zip`](Self::zip).
    ///
    /// # Errors
    /// Those of [`run`](crate::run). The value is then lost.
    pub fn map<'a, I: PartialEq, U, F>(
        self,
        worker: &Worker<dyn Errand + 'a, I>,
        current: &I,
        f: F,
    ) -> (mapped: Result<DiplomaticBag<U>, Error>) where
        F: FnOnce(BaggageHandler, T) -> U + 'a,
        T: 'a,
        U: 'a,

        requires
            crate::handler::applicable(f, self@),
        ensures
            mapped matches Ok(bag) ==> crate::handler::makes(f, self@, bag@),
            worker.is_on(current) ==> mapped is Ok,
            crate::worker::settles(
                worker,
                current,
                erase::<Job<DiplomaticBag<U>, Mapping<T, F>>>,
                (Mapping { bag: self, f }),
                mapped,
            ),
    {
        entrust(worker, current, Mapping { bag: self, f })
    }

    /// Returns what the closure `f` makes of the value on the worker's thread.
    ///
    /// With the handler that it is given the closure can put parts of the value
    /// into bags of their own, and return those.
    ///
    /// # Errors
    /// Those of [`run`](crate::run). The value is then lost.
    pub fn and_then<'a, I: PartialEq, U, F>(
        self,
        worker: &Worker<dyn Errand + 'a, I>,
        current: &I,
        f: F,
    ) -> (outcome: Result<U, Error>) where
        F: FnOnce(BaggageHandler, T) -> U + 'a,
        T: 'a,
        U: Send + 'a,

        requires
            crate::handler::applicable(f, self@),
        ensures
            outcome matches Ok(result) ==> crate::handler::makes(f, self@, result),
            worker.is_on(current) ==> outcome is Ok,
            crate::worker::settles(
                worker,
                current,
                erase::<Job<U, Applying<T, F>>>,
                (Applying { bag: self, f }),
                outcome,
            ),
    {
        entrust(worker, current, Applying { bag: self, f })
    }

    /// One bag in place of two, with both values in it.
    pub fn zip<U>(self, other: DiplomaticBag<U>) -> (both: DiplomaticBag<(T, U)>)
        ensures
            both@ == (self@, other@),
    {
        DiplomaticBag::sealed((self.into_inner_unchecked(), other.into_inner_unchecked()))
    }

    /// A bag with a reference to the value, which stays in this bag.
    pub fn as_ref(&self) -> (bag: DiplomaticBag<&T>)
        ensures
            *bag@ == self@,
    {
        DiplomaticBag::sealed(self.value.as_ref())
    }

    /// A bag with a mutable reference to the value: what is written through it is
    /// the value in this bag afterwards.
    pub fn as_mut(&mut self) -> (bag: DiplomaticBag<&mut T>)
        ensures
            *bag@ == old(self)@,
            final(self)@ == *final(bag@),
    {
        DiplomaticBag::sealed(self.value.as_mut())
    }

    /// Drops the value on the worker's thread, if dropping a value of its type
    /// does anything. `Ok` says whether there was anything to do.
    ///
    /// # Errors
    /// Those of [`run`](crate::run). The value is then not dropped, unless it was its own
    /// destructor that panicked.
    pub fn drop<'a, I: PartialEq>(
        self,
        worker: &Worker<dyn Errand + 'a, I>,
        current: &I,
    ) -> (dropped: Result<bool, Error>) where T: 'a
        ensures
            call_ensures(std::mem::needs_drop::<T>, (), dropped != Ok::<bool, Error>(false)),
            dropped == Ok::<bool, Error>(true) ==> call_ensures(
                std::mem::drop::<T>,
                (self@,),
                (),
            ),
            worker.is_on(current) ==> dropped is Ok,
            dropped != Ok::<bool, Error>(false) ==> crate::worker::settles(
                worker,
                current,
                erase::<Job<bool, Dropping<T>>>,
                (Dropping { bag: self }),
                dropped,
            ),
    {
        self.drop_if(std::mem::needs_drop::<T>(), worker, current)
    }

    /// Drops the value on the worker's thread if this is `needed`, and leaves it
    /// undropped otherwise.
    ///
    /// # Errors
    /// Those of [`run`](crate::run). The value is then not dropped, unless it was its own
    /// destructor that panicked.
    pub fn drop_if<'a, I: PartialEq>(
        self,
        needed: bool,
        worker: &Worker<dyn Errand + 'a, I>,
        current: &I,
    ) -> (dropped: Result<bool, Error>) where T: 'a
        ensures
            dropped matches Ok(done) ==> done == needed,
            dropped == Ok::<bool, Error>(true) ==> call_ensures(
                std::mem::drop::<T>,
                (self@,),
                (),
            ),
            !needed || worker.is_on(current) ==> dropped is Ok,
            needed ==> crate::worker::settles(
                worker,
                current,
                erase::<Job<bool, Dropping<T>>>,
                (Dropping { bag: self }),
                dropped,
            ),
    {
        if !needed {
            return Ok(false);
        }
        entrust(worker, current, Dropping { bag: self })
    }
}

/// The task of making a bag of what a closure returns.
pub struct Making<F> {
    /// The closure.
    pub f: F,
}

impl<T, F: FnOnce(BaggageHandler) -> T> Task<DiplomaticBag<T>> for Making<F> {
    open spec fn callable(self) -> bool {
        crate::handler::runnable(self.f)
    }

    open spec fn gives(self, bag: DiplomaticBag<T>) -> bool {
        crate::handler::yields(self.f, bag@)
    }

    fn call(self, handler: BaggageHandler) -> (bag: DiplomaticBag<T>) {
        handler.wrap((self.f)(handler))
    }
}

/// The task of making a bag of what a closure makes of the value in a bag.
pub struct Mapping<T, F> {
    /// The bag.
    pub bag: DiplomaticBag<T>,
    /// The closure.
    pub f: F,
}

impl<T, U, F: FnOnce(BaggageHandler, T) -> U> Task<DiplomaticBag<U>> for Mapping<T, F> {
    open spec fn callable(self) -> bool {
        crate::handler::applicable(self.f, self.bag@)
    }

    open spec fn gives(self, mapped: DiplomaticBag<U>) -> bool {
        crate::handler::makes(self.f, self.bag@, mapped@)
    }

    fn call(self, handler: BaggageHandler) -> (mapped: DiplomaticBag<U>) {
        handler.wrap((self.f)(handler, handler.unwrap(self.bag)))
    }
}

/// The task of returning what a closure makes of the value in a bag.
pub struct Applying<T, F> {
    /// The bag.
    pub bag: DiplomaticBag<T>,
    /// The closure.
    pub f: F,
}

impl<T, U, F: FnOnce(BaggageHandler, T) -> U> Task<U> for Applying<T, F> {
    open spec fn callable(self) -> bool {
        crate::handler::applicable(self.f, self.bag@)
    }

    open spec fn gives(self, result: U) -> bool {
        crate::handler::makes(self.f, self.bag@, result)
    }

    fn call(self, handler: BaggageHandler) -> (result: U) {
        (self.f)(handler, handler.unwrap(self.bag))
    }
}

/// The task of dropping the value in a bag. Returns `true`.
pub struct Dropping<T> {
    /// The bag.
    pub bag: DiplomaticBag<T>,
}

impl<T> Task<bool> for Dropping<T> {
    open spec fn callable(self) -> bool {
        true
    }

    open spec fn gives(self, done: bool) -> bool {
        done && self.bag.drops()
    }

    fn call(self, _handler: BaggageHandler) -> (done: bool) {
        self.bag.value.drop();
        true
    }
}

impl<T: Send> DiplomaticBag<T> {
    /// Takes the value out of the bag, for use on this thread.
    ///
    /// Only for values that may be sent to another thread. Of one that may be
    /// shared between threads, `bag.as_ref().into_inner()` is a reference.
    pub fn into_inner(self) -> (value: T)
        ensures
            value == self@,
    {
        self.into_inner_unchecked()
    }
}

impl<T, E> DiplomaticBag<Result<T, E>> {
    /// Turns a bag with a result in it into a result with a bag in it.
    pub fn transpose(self) -> (turned: Result<DiplomaticBag<T>, DiplomaticBag<E>>)
        ensures
            match self@ {
                Ok(value) => turned matches Ok(bag) && bag@ == value,
                Err(error) => turned matches Err(bag) && bag@ == error,
            },
    {
        match self.into_inner_unchecked() {
            Ok(value) => Ok(DiplomaticBag::sealed(value)),
            Err(error) => Err(DiplomaticBag::sealed(error)),
        }
    }
}

impl<T> DiplomaticBag<Option<T>> {
    /// Turns a bag with an option in it into an option with a bag in it.
    pub fn transpose(self) -> (turned: Option<DiplomaticBag<T>>)
        ensures
            match self@ {
                Some(value) => turned matches Some(bag) && bag@ == value,
                None => turned is None,
            },
    {
        match self.into_inner_unchecked() {
            Some(value) => Some(DiplomaticBag::sealed(value)),
            None => None,
        }
    }
}

} // verus!
