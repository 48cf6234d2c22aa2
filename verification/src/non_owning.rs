//! Non-owning views: a value is shown to a foreign call that reads it
//! but does not take it, so the view borrows the owner and frees
//! nothing. The borrow ties the view's lifetime to the owner's, which
//! is what keeps the foreign side from ever seeing a dangling value.

use vstd::prelude::*;

verus! {

/// A read-only shadow of a value's foreign representation, tied to a
/// borrow of the owner. It allocates nothing and frees nothing.
pub struct NonOwning<'a, T> {
    pub inner: &'a T,
}

impl<'a, T: View> View for NonOwning<'a, T> {
    type V = T::V;

    open spec fn view(&self) -> T::V {
        self.inner@
    }
}

impl<'a, T> NonOwning<'a, T> {
    /// Borrows `value` as its own foreign representation.
    pub fn new(value: &'a T) -> (r: NonOwning<'a, T>)
        ensures
            r.inner == value,
    {
        NonOwning { inner: value }
    }

    /// The borrowed value, unchanged.
    pub fn as_borrowed(&self) -> (r: &'a T)
        ensures
            r == self.inner,
    {
        self.inner
    }
}

} // verus!
