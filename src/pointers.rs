//! The bounded buffer of overlay pointers, held in an `arrayvec::ArrayVec`.
use vstd::prelude::*;
use arrayvec::ArrayVec;

verus! {

#[verifier::external_type_specification]
#[verifier::external_body]
#[verifier::reject_recursive_types(T)]
pub struct ExArrayVec<T, const CAP: usize>(ArrayVec<T, CAP>);

/// The pointers that a buffer holds, in order of insertion.
pub uninterp spec fn pointers_of(v: ArrayVec<u32, 8>) -> Seq<u32>;

/// Relies on `ArrayVec::new`: the new buffer is empty.
#[verifier::external_body]
pub(crate) fn new_pointers() -> (r: ArrayVec<u32, 8>)
    ensures
        pointers_of(r) == Seq::<u32>::empty(),
{
    ArrayVec::new()
}

/// Relies on `ArrayVec::push`: appends one pointer; it panics only on a full
/// buffer, which `requires` leaves out.
#[verifier::external_body]
pub(crate) fn push_pointer(v: &mut ArrayVec<u32, 8>, p: u32)
    requires
        pointers_of(*old(v)).len() < 8,
    ensures
        pointers_of(*final(v)) == pointers_of(*old(v)).push(p),
{
    v.push(p)
}

/// Relies on `ArrayVec::len`: the number of pointers held.
#[verifier::external_body]
pub(crate) fn pointer_count(v: &ArrayVec<u32, 8>) -> (r: usize)
    ensures
        r == pointers_of(*v).len(),
{
    v.len()
}

/// Relies on `ArrayVec::as_slice`: the held pointers in order; the one at `i`.
#[verifier::external_body]
pub(crate) fn pointer_at(v: &ArrayVec<u32, 8>, i: usize) -> (r: u32)
    requires
        i < pointers_of(*v).len(),
    ensures
        r == pointers_of(*v)[i as int],
{
    v.as_slice()[i]
}

} // verus!
