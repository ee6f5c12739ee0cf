//! Making, cloning and comparing bags by their values.
use crate::bag::DiplomaticBag;
use crate::error::Error;
use crate::handler::BaggageHandler;
use crate::worker::{entrust, erase, Errand, Job, Task, Worker};
use std::cmp::Ordering;
use std::marker::PhantomData;
use vstd::prelude::*;

verus! {

/// The task of making a bag with the default value of a type.
pub struct Defaulting<T, F> {
    /// The type.
    pub of: PhantomData<T>,
    /// What makes the default value. It can be called once, and so makes one value.
    pub by: F,
}

impl<T, F: FnOnce() -> T> Task<DiplomaticBag<T>> for Defaulting<T, F> {
    open spec fn callable(self) -> bool {
        self.by.requires(())
    }

    open spec fn gives(self, bag: DiplomaticBag<T>) -> bool {
        self.by.ensures((), bag@)
    }

    fn call(self, handler: BaggageHandler) -> (bag: DiplomaticBag<T>) {
        handler.wrap((self.by)())
    }
}

/// The task of making a bag with a clone of the value in a bag.
pub struct Cloning<'a, T, F> {
    /// The bag.
    pub bag: &'a DiplomaticBag<T>,
    /// What makes the clone. It can be called once, and so makes one clone.
    pub by: F,
}

impl<'a, T, F: FnOnce(&'a T) -> T> Task<DiplomaticBag<T>> for Cloning<'a, T, F> {
    open spec fn callable(self) -> bool {
        self.by.requires((&self.bag@,))
    }

    open spec fn gives(self, copy: DiplomaticBag<T>) -> bool {
        self.by.ensures((&self.bag@,), copy@)
    }

    fn call(self, handler: BaggageHandler) -> (copy: DiplomaticBag<T>) {
        handler.wrap((self.by)(handler.unwrap(self.bag.as_ref())))
    }
}

/// The task of telling whether the values in two bags are equal.
pub struct Equating<'a, T> {
    /// The one bag.
    pub this: &'a DiplomaticBag<T>,
    /// The other bag.
    pub other: &'a DiplomaticBag<T>,
}

impl<'a, T: PartialEq> Task<bool> for Equating<'a, T> {
    open spec fn callable(self) -> bool {
        true
    }

    open spec fn gives(self, equal: bool) -> bool {
        call_ensures(T::eq, (&self.this@, &self.other@), equal)
    }

    fn call(self, handler: BaggageHandler) -> (equal: bool) {
        let (this, other) = handler.unwrap(self.this.as_ref().zip(self.other.as_ref()));
        T::eq(this, other)
    }
}

/// How two values compare, as a task tells it.
#[derive(Debug, Clone, Copy, PartialEq, Eq, Structural)]
pub enum Rank {
    /// The first is less than the second.
    Less,
    /// They are equal.
    Equal,
    /// The first is greater than the second.
    Greater,
}

impl Rank {
    /// The same, as the standard library puts it.
    pub open spec fn order(self) -> Ordering {
        match self {
            Rank::Less => Ordering::Less,
            Rank::Equal => Ordering::Equal,
            Rank::Greater => Ordering::Greater,
        }
    }

    /// The rank that stands for an ordering.
    fn from_order(order: Ordering) -> (rank: Self)
        ensures
            rank.order() == order,
    {
        match order {
            Ordering::Less => Rank::Less,
            Ordering::Equal => Rank::Equal,
            Ordering::Greater => Rank::Greater,
        }
    }

    /// The ordering that the rank stands for.
    fn into_order(self) -> (order: Ordering)
        ensures
            order == self.order(),
    {
        match self {
            Rank::Less => Ordering::Less,
            Rank::Equal => Ordering::Equal,
            Rank::Greater => Ordering::Greater,
        }
    }
}

/// The task of telling how the values in two bags compare, if they do.
pub struct Relating<'a, T> {
    /// The one bag.
    pub this: &'a DiplomaticBag<T>,
    /// The other bag.
    pub other: &'a DiplomaticBag<T>,
}

impl<'a, T: PartialOrd> Task<Option<Rank>> for Relating<'a, T> {
    open spec fn callable(self) -> bool {
        true
    }

    open spec fn gives(self, rank: Option<Rank>) -> bool {
        call_ensures(
            T::partial_cmp,
            (&self.this@, &self.other@),
            match rank {
                Some(rank) => Some(rank.order()),
                None => None,
            },
        )
    }

    fn call(self, handler: BaggageHandler) -> (rank: Option<Rank>) {
        let (this, other) = handler.unwrap(self.this.as_ref().zip(self.other.as_ref()));
        match T::partial_cmp(this, other) {
            Some(order) => Some(Rank::from_order(order)),
            None => None,
        }
    }
}

/// The task of telling how the values in two bags compare.
pub struct Ranking<'a, T> {
    /// The one bag.
    pub this: &'a DiplomaticBag<T>,
    /// The other bag.
    pub other: &'a DiplomaticBag<T>,
}

impl<'a, T: Ord> Task<Rank> for Ranking<'a, T> {
    open spec fn callable(self) -> bool {
        true
    }

    open spec fn gives(self, rank: Rank) -> bool {
        call_ensures(T::cmp, (&self.this@, &self.other@), rank.order())
    }

    fn call(self, handler: BaggageHandler) -> (rank: Rank) {
        let (this, other) = handler.unwrap(self.this.as_ref().zip(self.other.as_ref()));
        Rank::from_order(T::cmp(this, other))
    }
}

impl<T> DiplomaticBag<T> {
    /// A bag with the one value that `by` makes on the worker's thread.
    pub(crate) fn default_by<'a, I: PartialEq, F>(
        worker: &Worker<dyn Errand + 'a, I>,
        current: &I,
        by: F,
    ) -> (made: Result<Self, Error>) where F: FnOnce() -> T + 'a, T: 'a
        requires
            by.requires(()),
        ensures
            made matches Ok(bag) ==> by.ensures((), bag@),
            worker.is_on(current) ==> made is Ok,
            crate::worker::settles(
                worker,
                current,
                erase::<Job<DiplomaticBag<T>, Defaulting<T, F>>>,
                (Defaulting::<T, F> { of: PhantomData, by }),
                made,
            ),
    {
        entrust(worker, current, Defaulting::<T, F> { of: PhantomData, by })
    }

    /// A bag with the one clone of the value that `by` makes on the worker's thread.
    pub(crate) fn clone_by<'a, I: PartialEq, F>(
        &'a self,
        worker: &Worker<dyn Errand + 'a, I>,
        current: &I,
        by: F,
    ) -> (made: Result<Self, Error>) where F: FnOnce(&'a T) -> T + 'a
        requires
            by.requires((&self@,)),
        ensures
            made matches Ok(bag) ==> by.ensures((&self@,), bag@),
            worker.is_on(current) ==> made is Ok,
            crate::worker::settles(
                worker,
                current,
                erase::<Job<DiplomaticBag<T>, Cloning<'a, T, F>>>,
                (Cloning { bag: self, by }),
                made,
            ),
    {
        entrust(worker, current, Cloning { bag: self, by })
    }
}

impl<T: Default> DiplomaticBag<T> {
    /// A bag with the default value of its type, made on the worker's thread.
    pub fn default<'a, I: PartialEq>(
        worker: &Worker<dyn Errand + 'a, I>,
        current: &I,
    ) -> (made: Result<Self, Error>) where T: 'a
        ensures
            made matches Ok(bag) ==> call_ensures(T::default, (), bag@),
            worker.is_on(current) ==> made is Ok,
            crate::worker::settles(
                worker,
                current,
                erase::<Job<DiplomaticBag<T>, Defaulting<T, _>>>,
                (Defaulting::<T, _> { of: PhantomData, by: T::default }),
                made,
            ),
    {
        Self::default_by(worker, current, T::default)
    }
}

impl<T: Clone> DiplomaticBag<T> {
    /// A bag with a clone of the value, made on the worker's thread.
    pub fn clone<'a, I: PartialEq>(
        &'a self,
        worker: &Worker<dyn Errand + 'a, I>,
        current: &I,
    ) -> (made: Result<Self, Error>)
        ensures
            made matches Ok(bag) ==> call_ensures(T::clone, (&self@,), bag@),
            worker.is_on(current) ==> made is Ok,
            crate::worker::settles(
                worker,
                current,
                erase::<Job<DiplomaticBag<T>, Cloning<'a, T, _>>>,
                (Cloning { bag: self, by: T::clone }),
                made,
            ),
    {
        self.clone_by(worker, current, T::clone)
    }
}

impl<T: PartialEq> DiplomaticBag<T> {
    /// Whether the values are equal, as told on the worker's thread.
    pub fn eq<'a, I: PartialEq>(
        &'a self,
        other: &'a Self,
        worker: &Worker<dyn Errand + 'a, I>,
        current: &I,
    ) -> (told: Result<bool, Error>)
        ensures
            told matches Ok(equal) ==> call_ensures(T::eq, (&self@, &other@), equal),
            worker.is_on(current) ==> told is Ok,
            crate::worker::settles(
                worker,
                current,
                erase::<Job<bool, Equating<'a, T>>>,
                (Equating { this: self, other }),
                told,
            ),
    {
        entrust(worker, current, Equating { this: self, other })
    }
}

impl<T: PartialOrd> DiplomaticBag<T> {
    /// How the values compare, if they do, as told on the worker's thread.
    pub fn partial_cmp<'a, I: PartialEq>(
        &'a self,
        other: &'a Self,
        worker: &Worker<dyn Errand + 'a, I>,
        current: &I,
    ) -> (told: Result<Option<Ordering>, Error>)
        ensures
            told matches Ok(order) ==> call_ensures(T::partial_cmp, (&self@, &other@), order),
            worker.is_on(current) ==> told is Ok,
            exists|rank: Result<Option<Rank>, Error>|
                {
                    &&& #[trigger] crate::worker::settles(
                        worker,
                        current,
                        erase::<Job<Option<Rank>, Relating<'a, T>>>,
                        (Relating { this: self, other }),
                        rank,
                    )
                    &&& told == (match rank {
                        Ok(Some(rank)) => Ok::<Option<Ordering>, Error>(Some(rank.order())),
                        Ok(None) => Ok::<Option<Ordering>, Error>(None),
                        Err(error) => Err::<Option<Ordering>, Error>(error),
                    })
                },
    {
        let rank = entrust(worker, current, Relating { this: self, other });
        let ghost came = rank;
        assert(crate::worker::settles(
            worker,
            current,
            erase::<Job<Option<Rank>, Relating<'a, T>>>,
            (Relating { this: self, other }),
            came,
        ));
        match rank {
            Ok(Some(rank)) => Ok(Some(rank.into_order())),
            Ok(None) => Ok(None),
            Err(error) => Err(error),
        }
    }
}

impl<T: Ord> DiplomaticBag<T> {
    /// How the values compare, as told on the worker's thread.
    pub fn cmp<'a, I: PartialEq>(
        &'a self,
        other: &'a Self,
        worker: &Worker<dyn Errand + 'a, I>,
        current: &I,
    ) -> (told: Result<Ordering, Error>)
        ensures
            told matches Ok(order) ==> call_ensures(T::cmp, (&self@, &other@), order),
            worker.is_on(current) ==> told is Ok,
            exists|rank: Result<Rank, Error>|
                {
                    &&& #[trigger] crate::worker::settles(
                        worker,
                        current,
                        erase::<Job<Rank, Ranking<'a, T>>>,
                        (Ranking { this: self, other }),
                        rank,
                    )
                    &&& told == (match rank {
                        Ok(rank) => Ok::<Ordering, Error>(rank.order()),
                        Err(error) => Err::<Ordering, Error>(error),
                    })
                },
    {
        let rank = entrust(worker, current, Ranking { this: self, other });
        let ghost came = rank;
        assert(crate::worker::settles(
            worker,
            current,
            erase::<Job<Rank, Ranking<'a, T>>>,
            (Ranking { this: self, other }),
            came,
        ));
        match rank {
            Ok(rank) => Ok(rank.into_order()),
            Err(error) => Err(error),
        }
    }
}

} // verus!
