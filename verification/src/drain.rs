use vstd::prelude::*;

use crate::const_array::ConstArray;

verus! {

/// One end of a range of indices, as in a Rust range expression.
pub enum Bound {
    /// The end is the given index, which belongs to the range.
    Included(usize),
    /// The end is the given index, which does not belong to the range.
    Excluded(usize),
    /// The range runs to that end of the array.
    Unbounded,
}

/// The first index that a start bound lets in; one past `usize::MAX`
/// saturates.
pub open spec fn start_index(b: Bound) -> int {
    match b {
        Bound::Unbounded => 0,
        Bound::Included(i) => i as int,
        Bound::Excluded(i) => if i == usize::MAX {
            usize::MAX as int
        } else {
            i + 1
        },
    }
}

/// One past the last index that an end bound lets in, for an array of
/// length `len`; one past `usize::MAX` saturates.
pub open spec fn end_index(b: Bound, len: int) -> int {
    match b {
        Bound::Unbounded => len,
        Bound::Excluded(j) => j as int,
        Bound::Included(j) => if j == usize::MAX {
            usize::MAX as int
        } else {
            j + 1
        },
    }
}

/// The index at which a start bound begins.
pub fn start_of(b: Bound) -> (r: usize)
    ensures
        r == start_index(b),
{
    match b {
        Bound::Unbounded => 0,
        Bound::Included(i) => i,
        Bound::Excluded(i) => i.saturating_add(1),
    }
}

/// One past the index at which an end bound stops, for an array of
/// length `len`.
pub fn end_of(b: Bound, len: usize) -> (r: usize)
    ensures
        r == end_index(b, len as int),
{
    match b {
        Bound::Excluded(j) => j,
        Bound::Included(j) => j.saturating_add(1),
        Bound::Unbounded => len,
    }
}

/// The elements taken out of an array by `drain`, handed out from either
/// end, together with the tail of the array that followed them and the
/// array itself, borrowed for as long as the drain lives. The array holds
/// only what came before the drained range until `finish` puts the tail
/// back. A drain that is forgotten leaves the array that way; a drain that
/// is dropped without `finish` also drops the tail's elements.
pub struct SimpleDrain<'a, T, const N: usize> {
    /// The drained elements, in order; a slot is emptied when its element
    /// is handed out.
    pub slots: Vec<Option<T>>,
    /// The slot of the next element `next` hands out.
    pub front: usize,
    /// One past the slot of the next element `next_back` hands out.
    pub back: usize,
    /// The elements that followed the drained range in the array.
    pub tail: Vec<T>,
    /// The index in the array at which the tail started.
    pub tail_start: usize,
    /// The number of elements in the tail.
    pub tail_len: usize,
    /// The array the elements were drained from.
    pub vec: &'a mut ConstArray<T, N>,
}

impl<'a, T, const N: usize> View for SimpleDrain<'a, T, N> {
    type V = Seq<T>;

    /// The elements not handed out yet, in their order in the array.
    closed spec fn view(&self) -> Seq<T> {
        Seq::new((self.back - self.front) as nat, |k: int| self.slots@[self.front + k]->Some_0)
    }
}

impl<'a, T, const N: usize> SimpleDrain<'a, T, N> {
    /// The slots between the two ends are filled, and the tail's recorded
    /// length is its length.
    pub closed spec fn wf(&self) -> bool {
        &&& self.tail_len == self.tail@.len()
        &&& self.front <= self.back <= self.slots@.len()
        &&& forall|i: int| self.front <= i < self.back ==> #[trigger] self.slots@[i] is Some
    }

    /// A drain that will hand out the given elements and holds the given
    /// tail, which started at index `tail_start` of the array.
    pub(crate) fn from_parts(
        items: Vec<T>,
        tail: Vec<T>,
        tail_start: usize,
        vec: &'a mut ConstArray<T, N>,
    ) -> (r: Self)
        ensures
            r.wf(),
            r@ == items@,
            r.tail@ == tail@,
            r.tail_start == tail_start,
            *r.vec == *old(vec),
            *final(r.vec) == *final(vec),
    {
        let ghost orig = items@;
        let n = items.len();
        let mut items = items;
        // Moving the elements over twice with `pop` puts them back in order.
        let mut reversed: Vec<T> = Vec::new();
        while items.len() > 0
            invariant
                n == orig.len(),
                items@ == orig.take(items@.len() as int),
                items@.len() <= n,
                reversed@.len() == n - items@.len(),
                forall|t: int| 0 <= t < reversed@.len() ==> #[trigger] reversed@[t] == orig[n - 1 - t],
            decreases items@.len(),
        {
            let x = items.pop().unwrap();
            reversed.push(x);
            proof {
                assert(items@ =~= orig.take(items@.len() as int));
            }
        }
        let mut slots: Vec<Option<T>> = Vec::new();
        while reversed.len() > 0
            invariant
                n == orig.len(),
                slots@.len() + reversed@.len() == n,
                forall|t: int| 0 <= t < reversed@.len() ==> #[trigger] reversed@[t] == orig[n - 1 - t],
                forall|t: int| 0 <= t < slots@.len() ==> #[trigger] slots@[t] == Some(orig[t]),
            decreases reversed@.len(),
        {
            let x = reversed.pop().unwrap();
            slots.push(Some(x));
        }
        let tail_len = tail.len();
        let r = SimpleDrain { slots, front: 0, back: n, tail, tail_start, tail_len, vec };
        proof {
            assert(r@ =~= orig);
        }
        r
    }

    /// Hands out the first remaining element, or `None` when all are out.
    pub fn next(&mut self) -> (r: Option<T>)
        requires
            old(self).wf(),
        ensures
            final(self).wf(),
            old(self)@.len() == 0 ==> r is None && final(self)@ == old(self)@,
            old(self)@.len() > 0 ==> r == Some(old(self)@[0]) && final(self)@
                == old(self)@.drop_first(),
            final(self).tail@ == old(self).tail@,
            final(self).tail_start == old(self).tail_start,
            final(self).vec == old(self).vec,
    {
        if self.front == self.back {
            return None;
        }
        let r = self.slots[self.front].take();
        self.front = self.front + 1;
        proof {
            assert(final(self)@ =~= old(self)@.drop_first());
        }
        r
    }

    /// Hands out the last remaining element, or `None` when all are out.
    pub fn next_back(&mut self) -> (r: Option<T>)
        requires
            old(self).wf(),
        ensures
            final(self).wf(),
            old(self)@.len() == 0 ==> r is None && final(self)@ == old(self)@,
            old(self)@.len() > 0 ==> r == Some(old(self)@.last()) && final(self)@
                == old(self)@.drop_last(),
            final(self).tail@ == old(self).tail@,
            final(self).tail_start == old(self).tail_start,
            final(self).vec == old(self).vec,
    {
        if self.front == self.back {
            return None;
        }
        self.back = self.back - 1;
        let r = self.slots[self.back].take();
        proof {
            assert(final(self)@ =~= old(self)@.drop_last());
        }
        r
    }

    /// Ends the drain: the elements not handed out are dropped, and the
    /// tail is put back after the elements the array now holds.
    pub fn finish(self)
        requires
            self.wf(),
            self.vec.wf(),
            self.vec@.len() + self.tail@.len() <= N,
        ensures
            final(self.vec).wf(),
            final(self.vec)@ == old(self.vec)@ + self.tail@,
    {
        let SimpleDrain { tail, tail_len, vec, .. } = self;
        if tail_len > 0 {
            vec.extend(tail);
        }
        proof {
            assert(self.tail@.take(self.tail@.len() as int) =~= self.tail@);
            assert(old(self.vec)@ + Seq::<T>::empty() =~= old(self.vec)@);
        }
    }

    /// How many elements remain.
    pub fn len(&self) -> (r: usize)
        requires
            self.wf(),
        ensures
            r == self@.len(),
    {
        self.back - self.front
    }

    /// The exact number of remaining elements, as lower and upper bound.
    pub fn size_hint(&self) -> (r: (usize, Option<usize>))
        requires
            self.wf(),
        ensures
            r.0 == self@.len(),
            r.1 == Some(self@.len() as usize),
    {
        let n = self.len();
        (n, Some(n))
    }
}

} // verus!
