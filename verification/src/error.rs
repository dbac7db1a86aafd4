use vstd::prelude::*;

verus! {

/// The error returned when an operation would exceed the array's capacity.
/// It hands back the element that could not be stored.
pub struct CapacityError<T> {
    element: T,
}

impl<T> CapacityError<T> {
    /// The element that was refused.
    pub closed spec fn spec_element(&self) -> T {
        self.element
    }

    /// Wraps the element that did not fit.
    pub fn new(element: T) -> (r: Self)
        ensures
            r.spec_element() == element,
    {
        CapacityError { element }
    }

    /// Gives back the element that did not fit.
    pub fn element(self) -> (r: T)
        ensures
            r == self.spec_element(),
    {
        self.element
    }
}

} // verus!
