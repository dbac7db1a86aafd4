use vstd::prelude::*;

verus! {

/// Calls std's `TryFrom<Vec<T>> for [T; N]`, which by its documentation
/// moves the vector's elements into an array when the vector holds exactly
/// `N` of them, and otherwise hands the vector back unchanged.
#[verifier::external_body]
pub(crate) fn vec_into_array<T, const N: usize>(v: Vec<T>) -> (r: Result<[T; N], Vec<T>>)
    ensures
        r is Ok <==> v@.len() == N,
        r matches Ok(a) ==> a@ == v@,
        r matches Err(w) ==> w@ == v@,
{
    v.try_into()
}

/// Calls std's `From<[T; N]> for Vec<T>`, which by its documentation moves
/// the array's elements, in order, into a new vector.
#[verifier::external_body]
pub(crate) fn array_into_vec<T, const N: usize>(a: [T; N]) -> (r: Vec<T>)
    ensures
        r@ == a@,
{
    Vec::from(a)
}

/// Calls std's `core::mem::forget`, which takes ownership of the vector
/// and never runs its destructor, so the elements it holds are leaked,
/// not dropped. Nothing is returned, so nothing is stated.
#[verifier::external_body]
pub(crate) fn leak_vec<T>(v: Vec<T>) {
    core::mem::forget(v)
}

/// Calls std's `Vec::as_mut_slice`, which by its documentation gives a
/// mutable slice of the whole vector, so that what is written through it
/// is what the vector holds afterwards. A `&mut [T]` lets its elements be
/// written but has no operation that changes its length (the length is
/// part of the reference), so the vector keeps its length.
#[verifier::external_body]
pub(crate) fn vec_as_mut_slice<T>(v: &mut Vec<T>) -> (r: &mut [T])
    ensures
        r@ == old(v)@,
        final(v)@ == final(r)@,
        final(v)@.len() == old(v)@.len(),
{
    v.as_mut_slice()
}

} // verus!
