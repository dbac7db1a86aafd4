use vstd::prelude::*;

verus! {

/// A container of elements of type `T` with a length that can be read and
/// shortened.
pub trait FixedArray<T>: Sized {
    /// The elements, in order.
    spec fn elements(&self) -> Seq<T>;

    /// Whether the container is in a valid state.
    spec fn well_formed(&self) -> bool;

    /// The number of elements.
    fn get_length(&self) -> (r: usize)
        ensures
            r == self.elements().len(),
    ;

    /// Sets the length to `new_len`, which may not exceed the current
    /// length: the elements past it leave the container without being
    /// dropped.
    fn set_length(&mut self, new_len: usize)
        requires
            new_len <= old(self).elements().len(),
        ensures
            final(self).elements() == old(self).elements().take(new_len as int),
            old(self).well_formed() ==> final(self).well_formed(),
    ;
}

} // verus!
