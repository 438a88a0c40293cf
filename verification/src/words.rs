//! Big-endian 16-bit words as the sensor sends them.

use bytes::Buf;
use vstd::prelude::*;

verus! {

/// The big-endian word formed by bytes `i` and `i + 1` of `b`.
pub open spec fn word_at(b: Seq<u8>, i: int) -> u16 {
    (b[i] as int * 256 + b[i + 1] as int) as u16
}

/// Reads the first two bytes of `b` as a big-endian `u16`, through `bytes::Buf::get_u16`
/// on a byte slice.
///
/// Trusted: `Buf::get_u16` reads `u16::from_be_bytes` of the first two bytes of the slice
/// and panics when fewer than two remain, which `requires` rules out.
#[verifier::external_body]
pub(crate) fn get_u16(b: &[u8]) -> (r: u16)
    requires
        b@.len() >= 2,
    ensures
        r == word_at(b@, 0),
{
    let mut cursor = b;
    cursor.get_u16()
}

} // verus!
