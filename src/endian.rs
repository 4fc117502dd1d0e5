//! Big-endian integers in byte strings.
use vstd::prelude::*;
use byteorder::ByteOrder;

verus! {

/// The unsigned integer that `b` spells in big-endian order.
pub open spec fn be_value(b: Seq<u8>) -> nat
    decreases b.len(),
{
    if b.len() == 0 {
        0
    } else {
        be_value(b.drop_last()) * 256 + b.last() as nat
    }
}

/// Relies on byteorder's BigEndian::read_u64: the first eight bytes of `buf`
/// read as a big-endian integer (it panics on fewer than eight).
#[verifier::external_body]
pub(crate) fn read_u64_be(buf: &[u8]) -> (r: u64)
    requires
        buf@.len() >= 8,
    ensures
        r as nat == be_value(buf@.subrange(0, 8)),
{
    byteorder::BigEndian::read_u64(buf)
}

/// Relies on byteorder's BigEndian::write_u64: overwrites the first eight
/// bytes of `buf` with `n` in big-endian order, the rest untouched (it
/// panics on fewer than eight).
#[verifier::external_body]
pub(crate) fn write_u64_be(buf: &mut Vec<u8>, n: u64)
    requires
        old(buf)@.len() >= 8,
    ensures
        final(buf)@.len() == old(buf)@.len(),
        be_value(final(buf)@.subrange(0, 8)) == n as nat,
        final(buf)@.subrange(8, final(buf)@.len() as int) == old(buf)@.subrange(
            8,
            old(buf)@.len() as int,
        ),
{
    byteorder::BigEndian::write_u64(buf.as_mut_slice(), n)
}

} // verus!
