//! A growable, contiguous container laid out the way the foreign ABI
//! expects (a pointer plus a length), together with an owning iterator
//! that hands each element out exactly once. Ownership of the slots
//! not yet yielded stays with the iterator, so abandoning the
//! iteration still releases every remaining element exactly once.

use vstd::prelude::*;

verus! {

/// Length-tracked contiguous storage of `T` values.
#[derive(Clone, Debug)]
pub struct Collection<T> {
    pub items: Vec<T>,
}

impl<T> View for Collection<T> {
    type V = Seq<T>;

    open spec fn view(&self) -> Seq<T> {
        self.items@
    }
}

impl<T> Collection<T> {
    /// An empty collection.
    pub fn new() -> (r: Collection<T>)
        ensures
            r@ == Seq::<T>::empty(),
    {
        Collection { items: Vec::new() }
    }

    /// Takes ownership of already-collected elements.
    pub fn from_vec(items: Vec<T>) -> (r: Collection<T>)
        ensures
            r@ == items@,
    {
        Collection { items }
    }

    pub fn len(&self) -> (r: usize)
        ensures
            r == self@.len(),
    {
        self.items.len()
    }

    pub fn is_empty(&self) -> (r: bool)
        ensures
            r == (self@.len() == 0),
    {
        self.items.len() == 0
    }

    pub fn get(&self, i: usize) -> (r: &T)
        requires
            i < self@.len(),
        ensures
            *r == self@[i as int],
    {
        &self.items[i]
    }

    /// Appends one element, growing the storage if needed.
    pub fn push(&mut self, value: T)
        ensures
            final(self)@ == old(self)@.push(value),
    {
        self.items.push(value);
    }

    /// Starts a consuming iteration: the collection's storage, and the
    /// ownership of every element in it, moves into the iterator.
    pub fn into_iter(self) -> (r: CollectionIterator<T>)
        ensures
            r.remaining() == self@,
            r.consumed() == Seq::<T>::empty(),
    {
        CollectionIterator { items: self.items, taken: Ghost(Seq::empty()) }
    }
}

/// Owning iterator over a [`Collection`]. Yielding an element moves it
/// out; whatever has not been yielded is still owned here, so dropping
/// the iterator midway releases exactly the not-yet-yielded elements.
pub struct CollectionIterator<T> {
    pub items: Vec<T>,
    pub taken: Ghost<Seq<T>>,
}

impl<T> CollectionIterator<T> {
    /// Elements not yet handed out, in the order they will come.
    pub open spec fn remaining(&self) -> Seq<T> {
        self.items@
    }

    /// Elements already handed out, in the order they came.
    pub open spec fn consumed(&self) -> Seq<T> {
        self.taken@
    }

    /// Hands out the next element, transferring its ownership to the
    /// caller and shrinking the owned remainder by exactly that one
    /// element.
    pub fn next(&mut self) -> (r: Option<T>)
        ensures
            old(self).remaining().len() == 0 ==> r is None
                && final(self).remaining() == old(self).remaining()
                && final(self).consumed() == old(self).consumed(),
            old(self).remaining().len() > 0 ==> r == Some(old(self).remaining()[0])
                && final(self).remaining() == old(self).remaining().skip(1)
                && final(self).consumed() == old(self).consumed().push(old(self).remaining()[0]),
    {
        if self.items.len() == 0 {
            None
        } else {
            let value = self.items.remove(0);
            proof {
                assert(self.items@ =~= old(self).remaining().skip(1));
            }
            self.taken = Ghost(self.taken@.push(value));
            Some(value)
        }
    }

    /// Exact count of the elements still owned by the iterator.
    pub fn len(&self) -> (r: usize)
        ensures
            r == self.remaining().len(),
    {
        self.items.len()
    }

    /// Lower and upper bounds on what is left; both are exact.
    pub fn size_hint(&self) -> (r: (usize, Option<usize>))
        ensures
            r.0 == self.remaining().len(),
            r.1 == Some(self.remaining().len() as usize),
    {
        let exact = self.items.len();
        (exact, Some(exact))
    }

    /// Consumes the iterator, reporting how many elements were left.
    /// The elements themselves are released with the iterator.
    pub fn count(self) -> (r: usize)
        ensures
            r == self.remaining().len(),
    {
        self.items.len()
    }
}

/// Ownership on partial consumption: however many elements an owning
/// iterator has yielded, the yielded ones and the still-owned remainder
/// partition the original contents — each source element is owned in
/// exactly one of the two places, so releasing the remainder releases
/// each not-yet-yielded element exactly once.
pub proof fn lemma_partial_consumption<T>(source: Seq<T>, k: int)
    requires
        0 <= k <= source.len(),
    ensures
        source.take(k) + source.skip(k) == source,
        source.take(k).len() + source.skip(k).len() == source.len(),
{
    assert(source.take(k) + source.skip(k) =~= source);
}

/// One step of consumption moves the first still-owned element to the
/// yielded side and touches nothing else: the two sides together hold
/// the same elements, in the same order, before and after the step.
/// This is the shape of [`CollectionIterator::next`]'s contract, so
/// the partition of ownership is preserved across every yield.
pub proof fn lemma_exactly_once_transfer<T>(consumed: Seq<T>, remaining: Seq<T>)
    requires
        remaining.len() > 0,
    ensures
        consumed.push(remaining[0]) + remaining.skip(1) == consumed + remaining,
{
    assert(consumed.push(remaining[0]) + remaining.skip(1) =~= consumed + remaining);
}

} // verus!
