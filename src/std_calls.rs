use vstd::prelude::*;

verus! {

/// Relies on `Vec::capacity`: the number of elements the vector has room
/// for. Nothing is said of it, as it depends on the allocator.
#[verifier::external_body]
pub(crate) fn vec_capacity<T>(v: &Vec<T>) -> usize {
    v.capacity()
}

/// Relies on the `Hash` impl of slices: it feeds the length and then each
/// element into the hasher. Nothing is said of the hasher's state, which
/// the hasher alone defines.
#[verifier::external_body]
pub(crate) fn hash_slice<T: core::hash::Hash, H: core::hash::Hasher>(s: &[T], state: &mut H) {
    core::hash::Hash::hash(s, state)
}

/// Relies on `core::slice::from_ref`: a slice of length one over the value.
#[verifier::external_body]
pub(crate) fn slice_of_one<T>(s: &T) -> (r: &[T])
    ensures
        r@ == seq![*s],
{
    core::slice::from_ref(s)
}

/// Relies on `core::slice::from_mut`: a mutable slice of length one over the
/// value, through which the value itself is written.
#[verifier::external_body]
pub(crate) fn slice_of_one_mut<T>(s: &mut T) -> (r: &mut [T])
    ensures
        r@ == seq![*old(s)],
        final(r)@.len() == 1,
        *final(s) == final(r)@[0],
{
    core::slice::from_mut(s)
}

#[verifier::external_type_specification]
#[verifier::external_body]
#[verifier::reject_recursive_types(T)]
pub struct ExIterMut<'a, T: 'a>(core::slice::IterMut<'a, T>);

/// Relies on `<[T]>::iter_mut`: the iterator lends out the slice's elements
/// one at a time, so the slice keeps its length.
#[verifier::external_body]
pub(crate) fn slice_iter_mut<T>(s: &mut [T]) -> (r: core::slice::IterMut<'_, T>)
    ensures
        final(s)@.len() == old(s)@.len(),
{
    s.iter_mut()
}

/// Relies on `Vec::shrink_to_fit`: it drops spare capacity and keeps the
/// elements.
#[verifier::external_body]
pub(crate) fn shrink_vec<T>(v: &mut Vec<T>)
    ensures
        final(v)@ == old(v)@,
{
    v.shrink_to_fit()
}

} // verus!
