//! The bounded vector that a finished datagram is handed out in.

use crate::command::PACKET_SIZE;
use vstd::prelude::*;

verus! {

/// `heapless::Vec`: a vector of at most `N` items, stored in place.
#[verifier::external_type_specification]
#[verifier::external_body]
#[verifier::reject_recursive_types(T)]
pub struct ExHeaplessVec<T, const N: usize>(heapless::Vec<T, N>);

/// A datagram: at most `PACKET_SIZE` bytes, stored in place.
pub type OutputVec = heapless::Vec<u8, PACKET_SIZE>;

/// The bytes that `v` holds, first to last.
pub uninterp spec fn output_bytes(v: OutputVec) -> Seq<u8>;

/// `heapless::Vec::new`: the vector that holds nothing.
#[verifier::external_body]
pub(crate) fn output_new() -> (v: OutputVec)
    ensures
        output_bytes(v) == Seq::<u8>::empty(),
{
    heapless::Vec::new()
}

/// `heapless::Vec::extend_from_slice`: appends the bytes of `other` in order
/// if all of them fit the capacity of `PACKET_SIZE`; otherwise it changes
/// nothing and returns the error.
#[verifier::external_body]
pub(crate) fn output_extend(v: &mut OutputVec, other: &[u8]) -> (r: Result<(), ()>)
    ensures
        r is Ok <==> output_bytes(*old(v)).len() + other@.len() <= PACKET_SIZE,
        r is Ok ==> output_bytes(*final(v)) == output_bytes(*old(v)) + other@,
        r is Err ==> output_bytes(*final(v)) == output_bytes(*old(v)),
{
    v.extend_from_slice(other)
}

/// The vector that holds `bytes`, if they fit.
pub fn output_from(bytes: &[u8]) -> (r: Result<OutputVec, ()>)
    ensures
        r is Ok <==> bytes@.len() <= PACKET_SIZE,
        r is Ok ==> output_bytes(r->Ok_0) == bytes@,
{
    let mut v = output_new();
    match output_extend(&mut v, bytes) {
        Ok(()) => {
            assert(Seq::<u8>::empty() + bytes@ =~= bytes@);
            Ok(v)
        },
        Err(()) => Err(()),
    }
}

} // verus!
