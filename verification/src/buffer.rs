use vstd::prelude::*;

verus! {

#[verifier::external_type_specification]
#[verifier::external_body]
#[verifier::reject_recursive_types(T)]
pub struct ExHeaplessVec<T, const N: usize>(heapless::Vec<T, N>);

/// The bytes held by a fixed-capacity transmit buffer.
pub uninterp spec fn buffer_bytes(v: heapless::Vec<u8, 256>) -> Seq<u8>;

/// Relies on heapless::Vec::new: the new vector is empty.
#[verifier::external_body]
pub(crate) fn buffer_new() -> (r: heapless::Vec<u8, 256>)
    ensures
        buffer_bytes(r) == Seq::<u8>::empty(),
{
    heapless::Vec::new()
}

/// Relies on heapless::Vec::clear: removes every element.
#[verifier::external_body]
pub(crate) fn buffer_clear(v: &mut heapless::Vec<u8, 256>)
    ensures
        buffer_bytes(*final(v)) == Seq::<u8>::empty(),
{
    v.clear()
}

/// Relies on heapless::Vec::extend_from_slice: appends the slice when it fits
/// the remaining capacity and otherwise fails leaving the contents unchanged.
#[verifier::external_body]
pub(crate) fn buffer_extend(v: &mut heapless::Vec<u8, 256>, data: &[u8]) -> (ok: bool)
    ensures
        ok <==> buffer_bytes(*old(v)).len() + data@.len() <= 256,
        ok ==> buffer_bytes(*final(v)) == buffer_bytes(*old(v)) + data@,
        !ok ==> buffer_bytes(*final(v)) == buffer_bytes(*old(v)),
{
    v.extend_from_slice(data).is_ok()
}

/// Relies on heapless::Vec::as_slice: a view of the contents.
#[verifier::external_body]
pub(crate) fn buffer_as_slice(v: &heapless::Vec<u8, 256>) -> (r: &[u8])
    ensures
        r@ == buffer_bytes(*v),
{
    v.as_slice()
}

} // verus!
