//! The byte buffer that holds the payload of the outstanding Ping, and what
//! the engine relies on of it.
use bytes::BytesMut;
use vstd::prelude::*;

verus! {

#[verifier::external_type_specification]
#[verifier::external_body]
pub struct ExBytesMut(BytesMut);

/// The bytes that a buffer holds, in order.
pub uninterp spec fn bytes_of(b: BytesMut) -> Seq<u8>;

/// Relies on BytesMut::with_capacity: the new buffer holds no bytes, whatever
/// its capacity.
pub assume_specification[ BytesMut::with_capacity ](capacity: usize) -> (r: BytesMut)
    ensures
        bytes_of(r) == Seq::<u8>::empty(),
;

/// Relies on BytesMut::clear: afterwards the buffer holds no bytes.
pub assume_specification[ BytesMut::clear ](b: &mut BytesMut)
    ensures
        bytes_of(*final(b)) == Seq::<u8>::empty(),
;

/// Relies on BytesMut::extend_from_slice: the slice is appended after the
/// bytes already held. Its `reserve` panics where the new length overflows.
pub assume_specification[ BytesMut::extend_from_slice ](b: &mut BytesMut, extend: &[u8])
    requires
        bytes_of(*old(b)).len() + extend@.len() <= usize::MAX,
    ensures
        bytes_of(*final(b)) == bytes_of(*old(b)) + extend@,
;

/// Relies on BytesMut::is_empty: true exactly when the buffer holds no bytes.
pub assume_specification[ BytesMut::is_empty ](b: &BytesMut) -> (r: bool)
    ensures
        r == (bytes_of(*b).len() == 0),
;

/// Relies on `impl PartialEq<[u8]> for BytesMut`: the held bytes are compared
/// with the slice, byte for byte.
#[verifier::external_body]
pub(crate) fn holds_exactly(b: &BytesMut, s: &[u8]) -> (r: bool)
    ensures
        r == (bytes_of(*b) == s@),
{
    *b == *s
}

} // verus!
