//! A value that remembers whether it was changed on purpose.
//!
//! A scene instance is compared with the prototype it was made from, and only
//! the fields marked as modified are kept as overrides. Playback changes a
//! value every frame without anybody having edited it, so the slot offers two
//! ways to write: one that sets the mark and one that leaves it alone.

use vstd::prelude::*;

verus! {

/// A value together with the mark that says it was edited.
#[derive(Clone, Debug)]
pub struct InheritableVariable<T> {
    value: T,
    modified: bool,
}

impl<T> InheritableVariable<T> {
    /// The value held.
    pub closed spec fn value(&self) -> T {
        self.value
    }

    /// Whether the value counts as edited.
    pub closed spec fn modified(&self) -> bool {
        self.modified
    }

    /// Wraps a value that was supplied on purpose: the mark is set.
    pub fn new_modified(value: T) -> (r: Self)
        ensures
            r.value() == value,
            r.modified(),
    {
        InheritableVariable { value, modified: true }
    }

    /// Wraps a value that was taken over from elsewhere: the mark is clear.
    pub fn new_non_modified(value: T) -> (r: Self)
        ensures
            r.value() == value,
            !r.modified(),
    {
        InheritableVariable { value, modified: false }
    }

    /// Reads the value. Reading never touches the mark.
    pub fn get_value_ref(&self) -> (r: &T)
        ensures
            *r == self.value(),
    {
        &self.value
    }

    /// Says whether the value counts as edited.
    pub fn is_modified(&self) -> (r: bool)
        ensures
            r == self.modified(),
    {
        self.modified
    }

    /// Hands out the value for writing and leaves the mark as it is.
    ///
    /// This is the path for changes that the running program computes.
    pub fn get_value_mut_silent(&mut self) -> (r: &mut T)
        ensures
            *r == old(self).value(),
            final(self).value() == *final(r),
            final(self).modified() == old(self).modified(),
    {
        &mut self.value
    }

    /// Hands out the value for writing and sets the mark, whether or not the
    /// caller then writes anything.
    pub fn get_value_mut_and_mark_modified(&mut self) -> (r: &mut T)
        ensures
            *r == old(self).value(),
            final(self).value() == *final(r),
            final(self).modified(),
    {
        self.modified = true;
        &mut self.value
    }

    /// Replaces the value, sets the mark and returns the value that was held.
    pub fn set_value_and_mark_modified(&mut self, value: T) -> (previous: T)
        ensures
            previous == old(self).value(),
            final(self).value() == value,
            final(self).modified(),
    {
        self.modified = true;
        let mut held = value;
        std::mem::swap(&mut self.value, &mut held);
        held
    }

    /// Replaces the value, leaves the mark as it is and returns the value
    /// that was held.
    pub fn set_value_silent(&mut self, value: T) -> (previous: T)
        ensures
            previous == old(self).value(),
            final(self).value() == value,
            final(self).modified() == old(self).modified(),
    {
        let mut held = value;
        std::mem::swap(&mut self.value, &mut held);
        held
    }

    /// Clears the mark, as the inheritance pass does once it has taken over
    /// the prototype's value. The value stays.
    pub fn reset_modified(&mut self)
        ensures
            final(self).value() == old(self).value(),
            !final(self).modified(),
    {
        self.modified = false;
    }

    /// Gives up the slot and returns the value.
    pub fn take(self) -> (r: T)
        ensures
            r == self.value(),
    {
        self.value
    }
}

} // verus!
