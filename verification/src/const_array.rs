use vstd::prelude::*;

use crate::drain::{end_index, end_of, start_index, start_of, Bound, SimpleDrain};
use crate::error::CapacityError;
use crate::fixed_array::FixedArray;
use crate::convert::{array_into_vec, leak_vec, vec_as_mut_slice, vec_into_array};

verus! {

/// A vector with a fixed capacity `N`: it holds at most `N` elements, in
/// order, and never grows beyond them.
pub struct ConstArray<T, const N: usize> {
    xs: Vec<T>,
}

impl<T, const N: usize> View for ConstArray<T, N> {
    type V = Seq<T>;

    /// The elements, in order.
    closed spec fn view(&self) -> Seq<T> {
        self.xs@
    }
}

impl<T, const N: usize> ConstArray<T, N> {
    /// The array never holds more than its capacity.
    pub closed spec fn wf(&self) -> bool {
        self.xs@.len() <= N
    }

    /// An empty array.
    pub fn new() -> (r: Self)
        ensures
            r.wf(),
            r@ == Seq::<T>::empty(),
    {
        ConstArray { xs: Vec::new() }
    }

    /// The number of elements.
    pub fn len(&self) -> (r: usize)
        ensures
            r == self@.len(),
    {
        self.xs.len()
    }

    /// Whether the array holds no element.
    pub fn is_empty(&self) -> (r: bool)
        ensures
            r <==> self@.len() == 0,
    {
        self.len() == 0
    }

    /// The fixed capacity `N`.
    pub fn capacity(&self) -> (r: usize)
        ensures
            r == N,
    {
        N
    }

    /// Whether the array holds as many elements as its capacity.
    pub fn is_full(&self) -> (r: bool)
        ensures
            r <==> self@.len() == N,
    {
        self.len() == self.capacity()
    }

    /// How many more elements fit.
    pub fn remaining_capacity(&self) -> (r: usize)
        requires
            self.wf(),
        ensures
            r == N - self@.len(),
    {
        self.capacity() - self.len()
    }

    /// Appends an element; the array must not be full.
    pub fn push(&mut self, element: T)
        requires
            old(self).wf(),
            old(self)@.len() < N,
        ensures
            final(self).wf(),
            final(self)@ == old(self)@.push(element),
    {
        self.push_unchecked(element);
    }

    /// Appends an element if there is room; otherwise hands it back in the
    /// error and leaves the array as it was.
    pub fn try_push(&mut self, element: T) -> (r: Result<(), CapacityError<T>>)
        requires
            old(self).wf(),
        ensures
            final(self).wf(),
            r is Ok <==> old(self)@.len() < N,
            r is Ok ==> final(self)@ == old(self)@.push(element),
            r matches Err(e) ==> e.spec_element() == element && final(self)@ == old(self)@,
    {
        if self.len() < N {
            self.push_unchecked(element);
            Ok(())
        } else {
            Err(CapacityError::new(element))
        }
    }

    /// Appends an element, the caller having made sure there is room.
    pub fn push_unchecked(&mut self, element: T)
        requires
            old(self).wf(),
            old(self)@.len() < N,
        ensures
            final(self).wf(),
            final(self)@ == old(self)@.push(element),
    {
        self.xs.push(element);
    }

    /// Inserts an element at `index`, shifting the later ones up; the index
    /// must be at most the length and the array must not be full.
    pub fn insert(&mut self, index: usize, element: T)
        requires
            old(self).wf(),
            index <= old(self)@.len(),
            old(self)@.len() < N,
        ensures
            final(self).wf(),
            final(self)@ == old(self)@.insert(index as int, element),
    {
        self.xs.insert(index, element);
    }

    /// Inserts an element at `index` if there is room; otherwise hands it
    /// back in the error and leaves the array as it was. The index must be
    /// at most the length.
    pub fn try_insert(&mut self, index: usize, element: T) -> (r: Result<(), CapacityError<T>>)
        requires
            old(self).wf(),
            index <= old(self)@.len(),
        ensures
            final(self).wf(),
            r is Ok <==> old(self)@.len() < N,
            r is Ok ==> final(self)@ == old(self)@.insert(index as int, element),
            r matches Err(e) ==> e.spec_element() == element && final(self)@ == old(self)@,
    {
        if self.len() == self.capacity() {
            return Err(CapacityError::new(element));
        }
        self.xs.insert(index, element);
        Ok(())
    }

    /// Removes and returns the last element, or `None` if the array is empty.
    pub fn pop(&mut self) -> (r: Option<T>)
        requires
            old(self).wf(),
        ensures
            final(self).wf(),
            old(self)@.len() == 0 ==> r is None && final(self)@ == old(self)@,
            old(self)@.len() > 0 ==> r == Some(old(self)@.last()) && final(self)@
                == old(self)@.drop_last(),
    {
        self.xs.pop()
    }
    /// Removes the element at `index` and puts the last element in its
    /// place; the index must be in bounds.
    pub fn swap_remove(&mut self, index: usize) -> (r: T)
        requires
            old(self).wf(),
            index < old(self)@.len(),
        ensures
            final(self).wf(),
            r == old(self)@[index as int],
            final(self)@ == old(self)@.update(index as int, old(self)@.last()).drop_last(),
    {
        self.swap_pop(index).unwrap()
    }

    /// Like `swap_remove`, but gives `None` and leaves the array as it was
    /// when the index is out of bounds.
    pub fn swap_pop(&mut self, index: usize) -> (r: Option<T>)
        requires
            old(self).wf(),
        ensures
            final(self).wf(),
            index >= old(self)@.len() ==> r is None && final(self)@ == old(self)@,
            index < old(self)@.len() ==> r == Some(old(self)@[index as int]) && final(self)@
                == old(self)@.update(index as int, old(self)@.last()).drop_last(),
    {
        let len = self.len();
        if index >= len {
            return None;
        }
        Some(self.xs.swap_remove(index))
    }

    /// Removes the element at `index`, shifting the later ones down; the
    /// index must be in bounds.
    pub fn remove(&mut self, index: usize) -> (r: T)
        requires
            old(self).wf(),
            index < old(self)@.len(),
        ensures
            final(self).wf(),
            r == old(self)@[index as int],
            final(self)@ == old(self)@.remove(index as int),
    {
        self.pop_at(index).unwrap()
    }

    /// Like `remove`, but gives `None` and leaves the array as it was when
    /// the index is out of bounds.
    pub fn pop_at(&mut self, index: usize) -> (r: Option<T>)
        requires
            old(self).wf(),
        ensures
            final(self).wf(),
            index >= old(self)@.len() ==> r is None && final(self)@ == old(self)@,
            index < old(self)@.len() ==> r == Some(old(self)@[index as int]) && final(self)@
                == old(self)@.remove(index as int),
    {
        if index >= self.len() {
            None
        } else {
            let mut d = self.drain_range(index, index + 1);
            let r = d.next();
            d.finish();
            proof {
                assert(final(self)@ =~= old(self)@.remove(index as int));
            }
            r
        }
    }

    /// Takes the elements at indices `start..end` out of the array and
    /// returns them as a drain, which also takes the elements after them:
    /// the array keeps only the first `start` elements until the drain's
    /// `finish` puts the tail back. The range must lie within the array.
    pub fn drain_range<'a>(&'a mut self, start: usize, end: usize) -> (r: SimpleDrain<'a, T, N>)
        requires
            old(self).wf(),
            start <= end <= old(self)@.len(),
        ensures
            r.wf(),
            r.vec.wf(),
            r.vec@ == old(self)@.subrange(0, start as int),
            r@ == old(self)@.subrange(start as int, end as int),
            r.tail@ == old(self)@.subrange(end as int, old(self)@.len() as int),
            r.tail_start == end,
            r.vec@.len() + r.tail@.len() <= N,
            *final(self) == *final(r.vec),
    {
        let tail = self.xs.split_off(end);
        let taken = self.xs.split_off(start);
        SimpleDrain::from_parts(taken, tail, end, self)
    }

    /// Takes the elements in the range given by its two bounds out of the
    /// array, as `drain_range` does. The range must lie within the array.
    pub fn drain<'a>(&'a mut self, start_bound: Bound, end_bound: Bound) -> (r: SimpleDrain<'a, T, N>)
        requires
            old(self).wf(),
            start_index(start_bound) <= end_index(end_bound, old(self)@.len() as int)
                <= old(self)@.len(),
        ensures
            r.wf(),
            r.vec.wf(),
            ({
                let s = start_index(start_bound);
                let e = end_index(end_bound, old(self)@.len() as int);
                &&& r.vec@ == old(self)@.subrange(0, s)
                &&& r@ == old(self)@.subrange(s, e)
                &&& r.tail@ == old(self)@.subrange(e, old(self)@.len() as int)
                &&& r.tail_start == e
            }),
            r.vec@.len() + r.tail@.len() <= N,
            *final(self) == *final(r.vec),
    {
        let len = self.len();
        let start = start_of(start_bound);
        let end = end_of(end_bound, len);
        self.drain_range(start, end)
    }

    /// Shortens the array to `new_len` elements, dropping the rest; a
    /// length at least the current one changes nothing.
    pub fn truncate(&mut self, new_len: usize)
        requires
            old(self).wf(),
        ensures
            final(self).wf(),
            new_len < old(self)@.len() ==> final(self)@ == old(self)@.take(new_len as int),
            new_len >= old(self)@.len() ==> final(self)@ == old(self)@,
    {
        if new_len < self.len() {
            self.xs.truncate(new_len);
        }
    }

    /// Removes every element.
    pub fn clear(&mut self)
        requires
            old(self).wf(),
        ensures
            final(self).wf(),
            final(self)@ == Seq::<T>::empty(),
    {
        self.truncate(0)
    }

    /// Sets the length to `length`, which may not exceed the current length.
    /// The elements past it leave the array without being dropped: they
    /// are leaked, as a bare change of the length leaves them.
    pub fn set_len(&mut self, length: usize)
        requires
            old(self).wf(),
            length <= old(self)@.len(),
        ensures
            final(self).wf(),
            final(self)@ == old(self)@.take(length as int),
    {
        let tail = self.xs.split_off(length);
        leak_vec(tail);
    }
    /// Calls `f` once on each element, in order, and keeps, in their order,
    /// the elements for which it returned `true`; the others are dropped.
    pub fn retain<F>(&mut self, f: F)
        where
            F: Fn(&T) -> bool,
        requires
            old(self).wf(),
            forall|j: int| 0 <= j < old(self)@.len() ==> call_requires(f, (&old(self)@[j],)),
        ensures
            final(self).wf(),
            exists|keep: Seq<bool>|
                {
                    &&& keep.len() == old(self)@.len()
                    &&& forall|j: int|
                        0 <= j < old(self)@.len() ==> call_ensures(
                            f,
                            (&old(self)@[j],),
                            #[trigger] keep[j],
                        )
                    &&& final(self)@ == kept(old(self)@, keep)
                },
    {
        let ghost orig = self@;
        let ghost mut keep: Seq<bool> = Seq::empty();
        let len = self.len();
        let mut del: usize = 0;
        let mut k: usize = 0;
        // Kept elements are moved down over the rejected ones, which gather
        // between the kept prefix and the unvisited rest.
        while k < len
            invariant
                len == orig.len(),
                len <= N,
                del <= k <= len,
                self.xs@.len() == len,
                keep.len() == k,
                forall|j: int| 0 <= j < orig.len() ==> call_requires(f, (&orig[j],)),
                forall|j: int|
                    0 <= j < k ==> call_ensures(f, (&orig[j],), #[trigger] keep[j]),
                kept(orig.take(k as int), keep).len() == k - del,
                self.xs@.take(k - del) == kept(orig.take(k as int), keep),
                self.xs@.skip(k as int) == orig.skip(k as int),
            decreases len - k,
        {
            proof {
                assert(self.xs@[k as int] == self.xs@.skip(k as int)[0]);
                assert(orig[k as int] == orig.skip(k as int)[0]);
            }
            let b = f(&self.xs[k]);
            let ghost before = self.xs@;
            proof {
                let prefix = orig.take(k as int + 1);
                assert(prefix.drop_last() =~= orig.take(k as int));
                assert(keep.push(b).drop_last() =~= keep);
                keep = keep.push(b);
            }
            if !b {
                del = del + 1;
            } else if del > 0 {
                swap_elems(&mut self.xs, k - del, k);
            }
            proof {
                if b {
                    assert(self.xs@.take(k + 1 - del) =~= before.take(k - del).push(
                        orig[k as int],
                    ));
                } else {
                    assert(self.xs@.take(k + 1 - del) =~= before.take(k + 1 - del));
                }
                assert forall|t: int| 0 <= t < len - k - 1 implies #[trigger] self.xs@.skip(
                    k + 1,
                )[t] == orig.skip(k + 1)[t] by {
                    assert(self.xs@[k + 1 + t] == before[k + 1 + t]);
                    assert(before[k + 1 + t] == before.skip(k as int)[t + 1]);
                    assert(orig[k + 1 + t] == orig.skip(k as int)[t + 1]);
                }
                assert(self.xs@.skip(k + 1) =~= orig.skip(k + 1));
            }
            k = k + 1;
        }
        proof {
            assert(orig.take(len as int) =~= orig);
        }
        if del > 0 {
            let d = self.drain_range(len - del, len);
            d.finish();
        }
        proof {
            assert(self.xs@ =~= kept(orig, keep));
        }
    }

    /// Converts a full array into the plain array of its elements; an array
    /// that is not full comes back unchanged in the error.
    pub fn into_inner(self) -> (r: Result<[T; N], Self>)
        requires
            self.wf(),
        ensures
            r is Ok <==> self@.len() == N,
            r matches Ok(a) ==> a@ == self@,
            r matches Err(s) ==> s@ == self@ && s.wf(),
    {
        if self.len() < self.capacity() {
            Err(self)
        } else {
            match vec_into_array::<T, N>(self.xs) {
                Ok(a) => Ok(a),
                Err(v) => Err(ConstArray { xs: v }),
            }
        }
    }

    /// A full array holding the given elements.
    pub fn from_array(array: [T; N]) -> (r: Self)
        ensures
            r.wf(),
            r@ == array@,
    {
        ConstArray { xs: array_into_vec(array) }
    }

    /// The elements as a slice.
    pub fn as_slice(&self) -> (r: &[T])
        ensures
            r@ == self@,
    {
        self.xs.as_slice()
    }

    /// The elements as a mutable slice; what is written through it is what
    /// the array holds afterwards, and the number of elements stays the same.
    pub fn as_mut_slice(&mut self) -> (r: &mut [T])
        requires
            old(self).wf(),
        ensures
            r@ == old(self)@,
            final(self)@ == final(r)@,
            final(self)@.len() == old(self)@.len(),
            final(self).wf(),
    {
        vec_as_mut_slice(&mut self.xs)
    }

    /// Appends the given elements in order for as long as there is room;
    /// those that do not fit are dropped.
    pub fn extend(&mut self, items: Vec<T>)
        requires
            old(self).wf(),
        ensures
            final(self).wf(),
            final(self)@ == old(self)@ + items@.take(
                if items@.len() <= N - old(self)@.len() {
                    items@.len() as int
                } else {
                    N - old(self)@.len()
                },
            ),
    {
        let take = self.remaining_capacity();
        let mut items = items;
        items.truncate(take);
        self.xs.append(&mut items);
    }

    /// An array holding the first `N` of the given elements (all of them
    /// when there are no more than `N`).
    pub fn from_iter(items: Vec<T>) -> (r: Self)
        ensures
            r.wf(),
            r@ == items@.take(
                if items@.len() <= N {
                    items@.len() as int
                } else {
                    N as int
                },
            ),
    {
        let mut array = Self::new();
        array.extend(items);
        proof {
            assert(Seq::<T>::empty() + items@.take(
                if items@.len() <= N {
                    items@.len() as int
                } else {
                    N as int
                },
            ) =~= array@);
        }
        array
    }
}

impl<T: Copy, const N: usize> ConstArray<T, N> {
    /// Appends copies of all the elements of `other` if they all fit;
    /// otherwise gives an error and leaves the array as it was.
    pub fn try_extend_from_slice(&mut self, other: &[T]) -> (r: Result<(), CapacityError<()>>)
        requires
            old(self).wf(),
        ensures
            final(self).wf(),
            r is Ok <==> other@.len() <= N - old(self)@.len(),
            r is Ok ==> final(self)@ == old(self)@ + other@,
            r is Err ==> final(self)@ == old(self)@,
    {
        if self.remaining_capacity() < other.len() {
            return Err(CapacityError::new(()));
        }
        let ghost start = self@;
        let other_len = other.len();
        let mut i: usize = 0;
        while i < other_len
            invariant
                other_len == other@.len(),
                start.len() + other_len <= N,
                i <= other_len,
                self.xs@ == start + other@.take(i as int),
            decreases other_len - i,
        {
            let x = other[i];
            self.xs.push(x);
            i = i + 1;
            proof {
                assert(start + other@.take(i as int) =~= self.xs@);
            }
        }
        proof {
            assert(other@.take(other_len as int) =~= other@);
        }
        Ok(())
    }
}

impl<T, const N: usize> Default for ConstArray<T, N> {
    /// An empty array.
    fn default() -> (r: Self)
        ensures
            r.wf(),
            r@ == Seq::<T>::empty(),
    {
        Self::new()
    }
}

impl<T, const N: usize> core::ops::Deref for ConstArray<T, N> {
    type Target = [T];

    /// The elements as a slice.
    fn deref(&self) -> (r: &[T])
        ensures
            r@ == self@,
    {
        self.xs.as_slice()
    }
}

impl<T, const N: usize> AsRef<[T]> for ConstArray<T, N> {
    /// The elements as a slice.
    fn as_ref(&self) -> (r: &[T])
        ensures
            r@ == self@,
    {
        self.xs.as_slice()
    }
}

impl<T, const N: usize> core::borrow::Borrow<[T]> for ConstArray<T, N> {
    /// The elements as a slice.
    fn borrow(&self) -> (r: &[T])
        ensures
            ({
                let s: &[T] = r;
                s@ == self@
            }),
    {
        self.xs.as_slice()
    }
}

impl<T, const N: usize> AsMut<[T]> for ConstArray<T, N> {
    /// The elements as a mutable slice, as `as_mut_slice` gives them.
    fn as_mut(&mut self) -> (r: &mut [T])
        ensures
            ({
                let s: &[T] = &*r;
                s@ == old(self)@
            }),
            ({
                let s: &[T] = &*final(r);
                final(self)@ == s@
            }),
            final(self)@.len() == old(self)@.len(),
            old(self).wf() ==> final(self).wf(),
    {
        vec_as_mut_slice(&mut self.xs)
    }
}

impl<T, const N: usize> core::borrow::BorrowMut<[T]> for ConstArray<T, N> {
    /// The elements as a mutable slice, as `as_mut_slice` gives them.
    fn borrow_mut(&mut self) -> (r: &mut [T])
        ensures
            ({
                let s: &[T] = &*r;
                s@ == old(self)@
            }),
            ({
                let s: &[T] = &*final(r);
                final(self)@ == s@
            }),
            final(self)@.len() == old(self)@.len(),
            old(self).wf() ==> final(self).wf(),
    {
        vec_as_mut_slice(&mut self.xs)
    }
}

impl<T, const N: usize> From<[T; N]> for ConstArray<T, N> {
    /// A full array holding the given elements, as `from_array` makes it.
    fn from(array: [T; N]) -> (r: Self)
        ensures
            r.wf(),
            r@ == array@,
    {
        Self::from_array(array)
    }
}

impl<T, const N: usize> vstd::std_specs::convert::FromSpecImpl<[T; N]> for ConstArray<T, N> {
    /// The array holds no ghost state beyond its elements, but `==` on its
    /// storage is not known from equal elements, so `from` is described by
    /// its own `ensures` rather than by this function.
    open spec fn obeys_from_spec() -> bool {
        false
    }

    open spec fn from_spec(v: [T; N]) -> Self {
        choose|r: Self| r@ == v@ && r.wf()
    }
}

impl<T, const N: usize> FixedArray<T> for ConstArray<T, N> {
    open spec fn elements(&self) -> Seq<T> {
        self@
    }

    open spec fn well_formed(&self) -> bool {
        self.wf()
    }

    fn get_length(&self) -> (r: usize) {
        self.len()
    }

    fn set_length(&mut self, new_len: usize) {
        let tail = self.xs.split_off(new_len);
        leak_vec(tail);
    }
}

impl<'a, T, const N: usize> FixedArray<T> for &'a mut ConstArray<T, N> {
    open spec fn elements(&self) -> Seq<T> {
        (**self)@
    }

    open spec fn well_formed(&self) -> bool {
        (**self).wf()
    }

    fn get_length(&self) -> (r: usize) {
        (**self).len()
    }

    fn set_length(&mut self, new_len: usize) {
        let tail = (**self).xs.split_off(new_len);
        leak_vec(tail);
    }
}

/// Exchanges the elements at positions `p` and `q` of `v`.
fn swap_elems<T>(v: &mut Vec<T>, p: usize, q: usize)
    requires
        p < q < old(v)@.len(),
    ensures
        final(v)@ == old(v)@.update(p as int, old(v)@[q as int]).update(q as int, old(v)@[p as int]),
{
    let s = vec_as_mut_slice(v);
    let (lo, hi) = s.split_at_mut(q);
    let (_before, at_p) = lo.split_at_mut(p);
    let x = at_p.first_mut().unwrap();
    let y = hi.first_mut().unwrap();
    core::mem::swap(x, y);
}

/// The elements of `s` at the positions where `keep` holds `true`, in order.
pub open spec fn kept<T>(s: Seq<T>, keep: Seq<bool>) -> Seq<T>
    decreases s.len(),
{
    if s.len() == 0 {
        Seq::empty()
    } else {
        let rest = kept(s.drop_last(), keep.drop_last());
        if keep.last() {
            rest.push(s.last())
        } else {
            rest
        }
    }
}

} // verus!
