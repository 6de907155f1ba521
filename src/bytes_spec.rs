//! Trusted declarations for `bytes::Bytes`, the shared byte buffer used for
//! connection prefixes and body chunks.
use vstd::prelude::*;

verus! {

#[verifier::external_type_specification]
#[verifier::external_body]
pub struct ExBytes(bytes::Bytes);

/// The bytes that a `bytes::Bytes` value holds, front to back.
pub uninterp spec fn bytes_content(b: bytes::Bytes) -> Seq<u8>;

/// Relies on `bytes::Bytes::len`: the number of bytes held.
pub assume_specification[ bytes::Bytes::len ](b: &bytes::Bytes) -> (r: usize)
    ensures
        r == bytes_content(*b).len(),
;

/// Relies on `bytes::Bytes::split_to`: the result holds `[0, at)`, the
/// buffer keeps `[at, len)`; it panics when `at > len`.
pub assume_specification[ bytes::Bytes::split_to ](b: &mut bytes::Bytes, at: usize) -> (r:
    bytes::Bytes)
    requires
        at <= bytes_content(*old(b)).len(),
    ensures
        bytes_content(r) == bytes_content(*old(b)).subrange(0, at as int),
        bytes_content(*final(b)) == bytes_content(*old(b)).subrange(
            at as int,
            bytes_content(*old(b)).len() as int,
        ),
;

/// Relies on `Deref<Target = [u8]>` of `bytes::Bytes` and `<[u8]>::to_vec`:
/// a copy of the bytes held.
#[verifier::external_body]
pub(crate) fn bytes_to_vec(b: &bytes::Bytes) -> (r: Vec<u8>)
    ensures
        r@ == bytes_content(*b),
{
    b.to_vec()
}

} // verus!
