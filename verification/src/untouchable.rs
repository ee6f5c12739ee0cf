//! A wrapper that keeps a value from being used or dropped by accident.
use std::mem::ManuallyDrop;
use vstd::prelude::*;

verus! {

/// Holds a value that nothing happens to unless it is asked for: in particular
/// the value is not dropped together with the wrapper, since that might be on the
/// wrong thread.
pub(crate) struct Untouchable<T>(ManuallyDrop<T>);

/// `<ManuallyDrop<T> as DerefMut>::deref_mut`, the mutable dereference. What is
/// claimed: it borrows the value inside, so that whatever is written through the
/// reference is the value inside afterwards.
#[verifier::external_body]
fn deref_mut<T>(held: &mut ManuallyDrop<T>) -> (value: &mut T)
    ensures
        *value == old(held)@,
        final(held)@ == *final(value),
{
    &mut *held
}

impl<T> View for Untouchable<T> {
    type V = T;

    closed spec fn view(&self) -> T {
        self.0@
    }
}

impl<T> Untouchable<T> {
    /// A wrapper that is done with is one whose value is done with.
    pub(crate) proof fn resolved(self)
        requires
            has_resolved(self),
        ensures
            has_resolved(self@),
    {
        broadcast use vstd::std_specs::manually_drop::group_manually_drop_axioms;

        assert(has_resolved(self.0));
    }

    /// Puts a value away.
    pub(crate) fn new(value: T) -> (held: Self)
        ensures
            held@ == value,
    {
        Self(ManuallyDrop::new(value))
    }

    /// Takes the value out again.
    pub(crate) fn into_inner(self) -> (value: T)
        ensures
            value == self@,
    {
        ManuallyDrop::into_inner(self.0)
    }

    /// A shared reference to the value.
    pub(crate) fn as_ref(&self) -> (value: &T)
        ensures
            *value == self@,
    {
        &*self.0
    }

    /// A mutable reference to the value.
    pub(crate) fn as_mut(&mut self) -> (value: &mut T)
        ensures
            *value == old(self)@,
            final(self)@ == *final(value),
    {
        deref_mut(&mut self.0)
    }

    /// Drops the value.
    pub(crate) fn drop(self)
        ensures
            call_ensures(std::mem::drop::<T>, (self@,), ()),
    {
        std::mem::drop(ManuallyDrop::into_inner(self.0));
    }
}

} // verus!
