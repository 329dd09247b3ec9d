//! Protocol-buffer wire primitives: base-128 varints, field keys and the
//! scalar and length-delimited field forms that the LLB messages are made of.
//!
//! Every encoder appends to a byte buffer, and its contract names the bytes it
//! appends through a spec function of the same field form.

use vstd::prelude::*;
use vstd::utf8::encode_utf8;

verus! {

/// Wire type of a varint-encoded scalar.
pub const WIRE_VARINT: u8 = 0;

/// Wire type of a length-delimited payload.
pub const WIRE_LEN: u8 = 2;

/// The base-128 little-endian encoding of `value`: seven payload bits per
/// byte, the high bit set on every byte but the last.
pub open spec fn varint(value: u64) -> Seq<u8>
    decreases value,
{
    if value < 0x80 {
        seq![value as u8]
    } else {
        seq![(value % 0x80 + 0x80) as u8] + varint(value / 0x80)
    }
}

/// The unsigned 64-bit pattern of a signed value (two's complement).
pub open spec fn unsigned_bits(value: i64) -> u64 {
    if value >= 0 {
        value as u64
    } else {
        (value + 0x1_0000_0000_0000_0000) as u64
    }
}

/// The key that precedes a field: its number and wire type in one varint.
pub open spec fn field_key(tag: u32, wire_type: u8) -> Seq<u8> {
    varint((tag * 8 + wire_type) as u64)
}

/// A signed integer field. Zero is the default and is left out.
pub open spec fn int64_field(tag: u32, value: i64) -> Seq<u8> {
    if value == 0 {
        Seq::empty()
    } else {
        field_key(tag, WIRE_VARINT) + varint(unsigned_bits(value))
    }
}

/// An unsigned 32-bit field. Zero is the default and is left out.
pub open spec fn uint32_field(tag: u32, value: u32) -> Seq<u8> {
    if value == 0 {
        Seq::empty()
    } else {
        field_key(tag, WIRE_VARINT) + varint(value as u64)
    }
}

/// A boolean field. `false` is the default and is left out.
pub open spec fn bool_field(tag: u32, value: bool) -> Seq<u8> {
    if value {
        field_key(tag, WIRE_VARINT) + seq![1u8]
    } else {
        Seq::empty()
    }
}

/// A length-delimited payload that is written even when it is empty: one
/// element of a repeated field, or an embedded message.
pub open spec fn len_field(tag: u32, payload: Seq<u8>) -> Seq<u8> {
    field_key(tag, WIRE_LEN) + varint(payload.len() as u64) + payload
}

/// A singular bytes field. The empty payload is the default and is left out.
pub open spec fn bytes_field(tag: u32, payload: Seq<u8>) -> Seq<u8> {
    if payload.len() == 0 {
        Seq::empty()
    } else {
        len_field(tag, payload)
    }
}

/// A singular string field: its UTF-8 bytes, left out when empty.
pub open spec fn string_field(tag: u32, text: Seq<char>) -> Seq<u8> {
    bytes_field(tag, encode_utf8(text))
}

/// One element of a repeated string field: written even when empty.
pub open spec fn string_item(tag: u32, text: Seq<char>) -> Seq<u8> {
    len_field(tag, encode_utf8(text))
}

/// The elements of a repeated string field, in order.
pub open spec fn string_items(tag: u32, items: Seq<Seq<char>>) -> Seq<u8>
    decreases items.len(),
{
    if items.len() == 0 {
        Seq::empty()
    } else {
        string_items(tag, items.drop_last()) + string_item(tag, items.last())
    }
}

/// The elements of a repeated length-delimited field, in order.
pub open spec fn len_items(tag: u32, payloads: Seq<Seq<u8>>) -> Seq<u8>
    decreases payloads.len(),
{
    if payloads.len() == 0 {
        Seq::empty()
    } else {
        len_items(tag, payloads.drop_last()) + len_field(tag, payloads.last())
    }
}

/// One entry of a `map<string, string>` field: an embedded message holding the
/// key as field 1 and the value as field 2.
pub open spec fn string_entry(tag: u32, key: Seq<char>, value: Seq<char>) -> Seq<u8> {
    len_field(tag, string_field(1, key) + string_field(2, value))
}

/// The entries of a `map<string, string>` field, in the order given.
pub open spec fn string_entries(tag: u32, entries: Seq<(Seq<char>, Seq<char>)>) -> Seq<u8>
    decreases entries.len(),
{
    if entries.len() == 0 {
        Seq::empty()
    } else {
        string_entries(tag, entries.drop_last()) + string_entry(
            tag,
            entries.last().0,
            entries.last().1,
        )
    }
}

/// One entry of a `map<string, bool>` field.
pub open spec fn flag_entry(tag: u32, key: Seq<char>, value: bool) -> Seq<u8> {
    len_field(tag, string_field(1, key) + bool_field(2, value))
}

/// The entries of a `map<string, bool>` field, in the order given.
pub open spec fn flag_entries(tag: u32, entries: Seq<(Seq<char>, bool)>) -> Seq<u8>
    decreases entries.len(),
{
    if entries.len() == 0 {
        Seq::empty()
    } else {
        flag_entries(tag, entries.drop_last()) + flag_entry(
            tag,
            entries.last().0,
            entries.last().1,
        )
    }
}

/// Appends the varint of `value`.
///
/// Trusted: calls `prost::encoding::encode_varint`, which writes the LEB128
/// form of the value, low seven bits first, at most ten bytes.
#[verifier::external_body]
pub(crate) fn encode_varint(value: u64, buf: &mut Vec<u8>)
    ensures
        final(buf)@ == old(buf)@ + varint(value),
{
    prost::encoding::encode_varint(value, buf)
}

/// Appends the varint of `value` to `buf`.
pub fn put_varint(buf: &mut Vec<u8>, value: u64)
    ensures
        final(buf)@ == old(buf)@ + varint(value),
{
    encode_varint(value, buf);
}

/// Appends the key of field `tag` with the given wire type.
pub fn put_key(buf: &mut Vec<u8>, tag: u32, wire_type: u8)
    ensures
        final(buf)@ == old(buf)@ + field_key(tag, wire_type),
{
    let shifted: u64 = (tag as u64) * 8 + (wire_type as u64);
    encode_varint(shifted, buf);
}

/// Appends a signed integer field, unless the value is zero.
pub fn put_int64(buf: &mut Vec<u8>, tag: u32, value: i64)
    ensures
        final(buf)@ == old(buf)@ + int64_field(tag, value),
{
    if value != 0 {
        let bits: u64 = if value > 0 {
            value as u64
        } else {
            u64::MAX - ((-(value + 1)) as u64)
        };
        put_key(buf, tag, WIRE_VARINT);
        encode_varint(bits, buf);
        assert(final(buf)@ =~= old(buf)@ + int64_field(tag, value));
    } else {
        assert(final(buf)@ =~= old(buf)@ + int64_field(tag, value));
    }
}

/// Appends an unsigned 32-bit field, unless the value is zero.
pub fn put_uint32(buf: &mut Vec<u8>, tag: u32, value: u32)
    ensures
        final(buf)@ == old(buf)@ + uint32_field(tag, value),
{
    if value != 0 {
        put_key(buf, tag, WIRE_VARINT);
        encode_varint(value as u64, buf);
    }
    assert(final(buf)@ =~= old(buf)@ + uint32_field(tag, value));
}

/// Appends a boolean field, unless the value is `false`.
pub fn put_bool(buf: &mut Vec<u8>, tag: u32, value: bool)
    ensures
        final(buf)@ == old(buf)@ + bool_field(tag, value),
{
    if value {
        put_key(buf, tag, WIRE_VARINT);
        buf.push(1u8);
    }
    assert(final(buf)@ =~= old(buf)@ + bool_field(tag, value));
}

/// Appends `bytes` to `buf`.
pub fn put_raw(buf: &mut Vec<u8>, bytes: &[u8])
    ensures
        final(buf)@ == old(buf)@ + bytes@,
{
    let mut i: usize = 0;
    while i < bytes.len()
        invariant
            i <= bytes@.len(),
            buf@ == old(buf)@ + bytes@.subrange(0, i as int),
        decreases bytes@.len() - i,
    {
        buf.push(bytes[i]);
        assert(bytes@.subrange(0, i + 1) =~= bytes@.subrange(0, i as int).push(bytes@[i as int]));
        i = i + 1;
    }
    assert(bytes@.subrange(0, i as int) =~= bytes@);
}

/// Appends a length-delimited payload, empty or not.
pub fn put_len(buf: &mut Vec<u8>, tag: u32, payload: &[u8])
    ensures
        final(buf)@ == old(buf)@ + len_field(tag, payload@),
{
    put_key(buf, tag, WIRE_LEN);
    encode_varint(payload.len() as u64, buf);
    put_raw(buf, payload);
    assert(final(buf)@ =~= old(buf)@ + len_field(tag, payload@));
}

/// Appends a singular bytes field, unless the payload is empty.
pub fn put_bytes(buf: &mut Vec<u8>, tag: u32, payload: &[u8])
    ensures
        final(buf)@ == old(buf)@ + bytes_field(tag, payload@),
{
    if payload.len() != 0 {
        put_len(buf, tag, payload);
    }
    assert(final(buf)@ =~= old(buf)@ + bytes_field(tag, payload@));
}

/// Appends a singular string field, unless the text is empty.
pub fn put_string(buf: &mut Vec<u8>, tag: u32, text: &str)
    ensures
        final(buf)@ == old(buf)@ + string_field(tag, text@),
{
    put_bytes(buf, tag, text.as_bytes());
}

/// Appends one element of a repeated string field.
pub fn put_string_item(buf: &mut Vec<u8>, tag: u32, text: &str)
    ensures
        final(buf)@ == old(buf)@ + string_item(tag, text@),
{
    put_len(buf, tag, text.as_bytes());
}

/// The character views of a list of strings.
pub open spec fn texts(items: Seq<String>) -> Seq<Seq<char>> {
    items.map_values(|s: String| s@)
}

/// The views of a list with one more string are the views of the list with
/// one more view.
pub proof fn lemma_texts_push(items: Seq<String>, last: String)
    ensures
        texts(items.push(last)) == texts(items).push(last@),
{
    assert(texts(items.push(last)) =~= texts(items).push(last@));
}

/// The character views of a list of string pairs.
pub open spec fn text_pairs(items: Seq<(String, String)>) -> Seq<(Seq<char>, Seq<char>)> {
    items.map_values(|e: (String, String)| (e.0@, e.1@))
}

/// The views of a list of named flags.
pub open spec fn text_flags(items: Seq<(String, bool)>) -> Seq<(Seq<char>, bool)> {
    items.map_values(|e: (String, bool)| (e.0@, e.1))
}

/// Appends every element of a repeated string field.
pub fn put_string_items(buf: &mut Vec<u8>, tag: u32, items: &Vec<String>)
    ensures
        final(buf)@ == old(buf)@ + string_items(tag, texts(items@)),
{
    let mut i: usize = 0;
    while i < items.len()
        invariant
            i <= items@.len(),
            buf@ == old(buf)@ + string_items(tag, texts(items@.subrange(0, i as int))),
        decreases items@.len() - i,
    {
        put_string_item(buf, tag, items[i].as_str());
        proof {
            let next = texts(items@.subrange(0, i + 1));
            assert(next.drop_last() =~= texts(items@.subrange(0, i as int)));
            assert(next.last() == items@[i as int]@);
        }
        i = i + 1;
    }
    assert(items@.subrange(0, i as int) =~= items@);
}

/// Appends every entry of a `map<string, string>` field, in the order given.
pub fn put_string_entries(buf: &mut Vec<u8>, tag: u32, entries: &Vec<(String, String)>)
    ensures
        final(buf)@ == old(buf)@ + string_entries(tag, text_pairs(entries@)),
{
    let mut i: usize = 0;
    while i < entries.len()
        invariant
            i <= entries@.len(),
            buf@ == old(buf)@ + string_entries(tag, text_pairs(entries@.subrange(0, i as int))),
        decreases entries@.len() - i,
    {
        let mut body: Vec<u8> = Vec::new();
        put_string(&mut body, 1, entries[i].0.as_str());
        put_string(&mut body, 2, entries[i].1.as_str());
        put_len(buf, tag, body.as_slice());
        proof {
            let next = text_pairs(entries@.subrange(0, i + 1));
            assert(next.drop_last() =~= text_pairs(entries@.subrange(0, i as int)));
            assert(next.last() == (entries@[i as int].0@, entries@[i as int].1@));
            assert(body@ =~= string_field(1, entries@[i as int].0@) + string_field(
                2,
                entries@[i as int].1@,
            ));
        }
        i = i + 1;
    }
    assert(entries@.subrange(0, i as int) =~= entries@);
}

/// Appends every entry of a `map<string, bool>` field, in the order given.
pub fn put_flag_entries(buf: &mut Vec<u8>, tag: u32, entries: &Vec<(String, bool)>)
    ensures
        final(buf)@ == old(buf)@ + flag_entries(tag, text_flags(entries@)),
{
    let mut i: usize = 0;
    while i < entries.len()
        invariant
            i <= entries@.len(),
            buf@ == old(buf)@ + flag_entries(tag, text_flags(entries@.subrange(0, i as int))),
        decreases entries@.len() - i,
    {
        let mut body: Vec<u8> = Vec::new();
        put_string(&mut body, 1, entries[i].0.as_str());
        put_bool(&mut body, 2, entries[i].1);
        put_len(buf, tag, body.as_slice());
        proof {
            let next = text_flags(entries@.subrange(0, i + 1));
            assert(next.drop_last() =~= text_flags(entries@.subrange(0, i as int)));
            assert(next.last() == (entries@[i as int].0@, entries@[i as int].1));
            assert(body@ =~= string_field(1, entries@[i as int].0@) + bool_field(
                2,
                entries@[i as int].1,
            ));
        }
        i = i + 1;
    }
    assert(entries@.subrange(0, i as int) =~= entries@);
}

/// Appending a piece to what was appended before extends the appended part.
pub proof fn lemma_appended(start: Seq<u8>, done: Seq<u8>, piece: Seq<u8>)
    ensures
        (start + done) + piece == start + (done + piece),
{
    assert((start + done) + piece =~= start + (done + piece));
}

/// A record with a protocol-buffer encoding.
pub trait Message {
    /// The bytes of the record's fields, in field-number order.
    spec fn wire(&self) -> Seq<u8>;

    /// Appends the record's fields to `buf`.
    fn encode(&self, buf: &mut Vec<u8>)
        ensures
            final(buf)@ == old(buf)@ + self.wire(),
    ;
}

/// The encodings of a list of records.
pub open spec fn wires<M: Message>(items: Seq<M>) -> Seq<Seq<u8>> {
    items.map_values(|m: M| m.wire())
}

/// Appends `item` as an embedded message under field `tag`.
pub fn put_message<M: Message>(buf: &mut Vec<u8>, tag: u32, item: &M)
    ensures
        final(buf)@ == old(buf)@ + len_field(tag, item.wire()),
{
    let mut body: Vec<u8> = Vec::new();
    item.encode(&mut body);
    assert(body@ =~= item.wire());
    put_len(buf, tag, body.as_slice());
}

/// Appends every record of a repeated message field.
pub fn put_messages<M: Message>(buf: &mut Vec<u8>, tag: u32, items: &Vec<M>)
    ensures
        final(buf)@ == old(buf)@ + len_items(tag, wires(items@)),
{
    let mut i: usize = 0;
    while i < items.len()
        invariant
            i <= items@.len(),
            buf@ == old(buf)@ + len_items(tag, wires(items@.subrange(0, i as int))),
        decreases items@.len() - i,
    {
        put_message(buf, tag, &items[i]);
        proof {
            let next = wires(items@.subrange(0, i + 1));
            assert(next.drop_last() =~= wires(items@.subrange(0, i as int)));
            assert(next.last() == items@[i as int].wire());
        }
        i = i + 1;
    }
    assert(items@.subrange(0, i as int) =~= items@);
}

} // verus!
