//! The protobuf wire grammar that blocks, headers and transactions are
//! written in: varints, field keys and length-delimited fields.
use vstd::prelude::*;

verus! {

/// Wire type of a varint field.
pub const WIRE_VARINT: u64 = 0;

/// Wire type of a length-delimited field.
pub const WIRE_LEN: u64 = 2;

/// One past the largest field number protobuf allows.
pub const TAG_LIMIT: u64 = 0x2000_0000;

/// Base-128 varint of `v`: seven bits per byte, least significant group
/// first, the high bit set on every byte but the last.
pub open spec fn varint(v: u64) -> Seq<u8>
    decreases v,
{
    if v < 128 {
        seq![v as u8]
    } else {
        seq![((v % 128) + 128) as u8] + varint(v / 128)
    }
}

/// The key that opens a field: its number and wire type in one varint.
pub open spec fn key(tag: u64, wire_type: u64) -> Seq<u8> {
    varint((tag * 8 + wire_type) as u64)
}

/// A length-delimited field that is always written (an embedded message, or
/// one element of a repeated field).
pub open spec fn len_field(tag: u64, payload: Seq<u8>) -> Seq<u8> {
    key(tag, WIRE_LEN) + varint(payload.len() as u64) + payload
}

/// A singular `bytes` field: left out when empty.
pub open spec fn bytes_field(tag: u64, payload: Seq<u8>) -> Seq<u8> {
    if payload.len() == 0 {
        Seq::empty()
    } else {
        len_field(tag, payload)
    }
}

/// A singular integer field, given as its 64-bit pattern: left out when zero.
pub open spec fn int_field(tag: u64, v: u64) -> Seq<u8> {
    if v == 0 {
        Seq::empty()
    } else {
        key(tag, WIRE_VARINT) + varint(v)
    }
}

/// A repeated length-delimited field: one field per item, in order.
pub open spec fn repeated_field(tag: u64, items: Seq<Seq<u8>>) -> Seq<u8>
    decreases items.len(),
{
    if items.len() == 0 {
        Seq::empty()
    } else {
        repeated_field(tag, items.drop_last()) + len_field(tag, items.last())
    }
}

/// The contents of each byte vector.
pub open spec fn bytes_views(items: Seq<Vec<u8>>) -> Seq<Seq<u8>> {
    items.map_values(|b: Vec<u8>| b@)
}

/// Relies on prost::encoding::encode_varint: appends the varint of `value`.
#[verifier::external_body]
fn put_varint(value: u64, buf: &mut Vec<u8>)
    ensures
        final(buf)@ == old(buf)@ + varint(value),
{
    prost::encoding::encode_varint(value, buf)
}

/// Appends `bytes` as they are.
pub(crate) fn put_raw(bytes: &[u8], buf: &mut Vec<u8>)
    ensures
        final(buf)@ == old(buf)@ + bytes@,
{
    let ghost start = buf@;
    let mut i: usize = 0;
    while i < bytes.len()
        invariant
            i <= bytes@.len(),
            buf@ == start + bytes@.subrange(0, i as int),
        decreases bytes@.len() - i,
    {
        buf.push(bytes[i]);
        i = i + 1;
        assert(buf@ =~= start + bytes@.subrange(0, i as int));
    }
    assert(bytes@.subrange(0, i as int) =~= bytes@);
}

/// Appends the key of field `tag` with the given wire type.
pub(crate) fn put_key(tag: u64, wire_type: u64, buf: &mut Vec<u8>)
    requires
        1 <= tag < TAG_LIMIT,
        wire_type < 8,
    ensures
        final(buf)@ == old(buf)@ + key(tag, wire_type),
{
    put_varint(tag * 8 + wire_type, buf);
}

/// Appends a length-delimited field that is always written.
pub(crate) fn put_len_field(tag: u64, payload: &[u8], buf: &mut Vec<u8>)
    requires
        1 <= tag < TAG_LIMIT,
    ensures
        final(buf)@ == old(buf)@ + len_field(tag, payload@),
{
    let ghost start = buf@;
    put_key(tag, WIRE_LEN, buf);
    put_varint(payload.len() as u64, buf);
    put_raw(payload, buf);
    assert(buf@ =~= start + len_field(tag, payload@));
}

/// Appends a singular `bytes` field.
pub(crate) fn put_bytes_field(tag: u64, payload: &[u8], buf: &mut Vec<u8>)
    requires
        1 <= tag < TAG_LIMIT,
    ensures
        final(buf)@ == old(buf)@ + bytes_field(tag, payload@),
{
    if payload.len() == 0 {
        assert(buf@ =~= buf@ + Seq::<u8>::empty());
    } else {
        put_len_field(tag, payload, buf);
    }
}

/// Appends a singular integer field.
pub(crate) fn put_int_field(tag: u64, v: u64, buf: &mut Vec<u8>)
    requires
        1 <= tag < TAG_LIMIT,
    ensures
        final(buf)@ == old(buf)@ + int_field(tag, v),
{
    if v == 0 {
        assert(buf@ =~= buf@ + Seq::<u8>::empty());
    } else {
        let ghost start = buf@;
        put_key(tag, WIRE_VARINT, buf);
        put_varint(v, buf);
        assert(buf@ =~= start + int_field(tag, v));
    }
}

/// Appends a repeated length-delimited field, one item after the other.
pub(crate) fn put_repeated_field(tag: u64, items: &Vec<Vec<u8>>, buf: &mut Vec<u8>)
    requires
        1 <= tag < TAG_LIMIT,
    ensures
        final(buf)@ == old(buf)@ + repeated_field(tag, bytes_views(items@)),
{
    let ghost start = buf@;
    let mut i: usize = 0;
    while i < items.len()
        invariant
            1 <= tag < TAG_LIMIT,
            i <= items@.len(),
            buf@ == start + repeated_field(tag, bytes_views(items@.subrange(0, i as int))),
        decreases items@.len() - i,
    {
        let ghost before = buf@;
        put_len_field(tag, items[i].as_slice(), buf);
        proof {
            let done = bytes_views(items@.subrange(0, i + 1));
            assert(done.drop_last() =~= bytes_views(items@.subrange(0, i as int)));
            assert(done.last() == items@[i as int]@);
        }
        i = i + 1;
        assert(buf@ =~= start + repeated_field(tag, bytes_views(items@.subrange(0, i as int))));
    }
    assert(items@.subrange(0, i as int) =~= items@);
}

} // verus!
