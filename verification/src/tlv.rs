//! The TLV8 container of the pairing exchanges: a list of (type, value)
//! items, each value written as fragments of at most 255 bytes, and
//! consecutive fragments of one type read back as one value.

use vstd::prelude::*;

use crate::bytes::push_slice_range;
use crate::error::{protocol_error, AirPlayError};
use crate::text::{push_decimal, push_str};

verus! {

pub const PAIRING_TLV_IDENTIFIER: u8 = 0x01;
pub const PAIRING_TLV_PUBLIC_KEY: u8 = 0x03;
pub const PAIRING_TLV_ENCRYPTED_DATA: u8 = 0x05;
pub const PAIRING_TLV_STATE: u8 = 0x06;
pub const PAIRING_TLV_ERROR: u8 = 0x07;
pub const PAIRING_TLV_SIGNATURE: u8 = 0x0A;

/// One item of a TLV container.
#[derive(Debug, Clone, PartialEq, Eq)]
pub struct PairingTlvEntry {
    pub type_id: u8,
    pub value: Vec<u8>,
}

/// A TLV container, item by item.
#[derive(Debug, Clone, PartialEq, Eq)]
pub struct PairingTlv {
    pub entries: Vec<PairingTlvEntry>,
}

/// The items of a list of entries as (type, value) pairs.
pub open spec fn entries_view(entries: Seq<PairingTlvEntry>) -> Seq<(u8, Seq<u8>)> {
    Seq::new(entries.len(), |i: int| (entries[i].type_id, entries[i].value@))
}

impl View for PairingTlv {
    type V = Seq<(u8, Seq<u8>)>;

    open spec fn view(&self) -> Seq<(u8, Seq<u8>)> {
        entries_view(self.entries@)
    }
}

/// The wire form of one item: fragments of at most 255 bytes, each with
/// the type and its length in front; an empty value is one empty fragment.
pub open spec fn encode_tlv_value(t: u8, v: Seq<u8>) -> Seq<u8>
    decreases v.len(),
{
    if v.len() <= 255 {
        seq![t, v.len() as u8] + v
    } else {
        seq![t, 255u8] + v.take(255) + encode_tlv_value(t, v.skip(255))
    }
}

/// The wire form of a list of items, one after the other.
pub open spec fn encode_tlv(items: Seq<(u8, Seq<u8>)>) -> Seq<u8>
    decreases items.len(),
{
    if items.len() == 0 {
        Seq::empty()
    } else {
        encode_tlv(items.drop_last()) + encode_tlv_value(items.last().0, items.last().1)
    }
}

/// `acc` with the fragment (`t`, `v`) read in: appended to the last item if
/// that has the same type, a new item otherwise.
pub open spec fn merge_tlv(acc: Seq<(u8, Seq<u8>)>, t: u8, v: Seq<u8>) -> Seq<(u8, Seq<u8>)> {
    if acc.len() > 0 && acc.last().0 == t {
        acc.update(acc.len() - 1, (t, acc.last().1 + v))
    } else {
        acc.push((t, v))
    }
}

/// The items read from `bytes` after `acc`, or `None` where a fragment's
/// header or value runs past the end.
pub open spec fn parse_tlv_from(bytes: Seq<u8>, acc: Seq<(u8, Seq<u8>)>) -> Option<Seq<(u8, Seq<u8>)>>
    decreases bytes.len(),
{
    if bytes.len() == 0 {
        Some(acc)
    } else if bytes.len() < 2 {
        None
    } else if 2 + bytes[1] > bytes.len() {
        None
    } else {
        parse_tlv_from(
            bytes.skip(2 + bytes[1]),
            merge_tlv(acc, bytes[0], bytes.subrange(2, 2 + bytes[1])),
        )
    }
}

/// The items of a TLV byte string, or `None` if it is cut short.
pub open spec fn parse_tlv(bytes: Seq<u8>) -> Option<Seq<(u8, Seq<u8>)>> {
    parse_tlv_from(bytes, Seq::empty())
}

/// The value of the first item of type `t` at or after index `i`.
pub open spec fn tlv_find_from(items: Seq<(u8, Seq<u8>)>, t: u8, i: int) -> Option<Seq<u8>>
    decreases items.len() - i,
{
    if i < 0 || i >= items.len() {
        None
    } else if items[i].0 == t {
        Some(items[i].1)
    } else {
        tlv_find_from(items, t, i + 1)
    }
}

/// The value of the first item of type `t`.
pub open spec fn tlv_find(items: Seq<(u8, Seq<u8>)>, t: u8) -> Option<Seq<u8>> {
    tlv_find_from(items, t, 0)
}

/// No two neighbouring items have the same type.
pub open spec fn tlv_runs_distinct(items: Seq<(u8, Seq<u8>)>) -> bool {
    forall|i: int, j: int| #![trigger items[i], items[j]] 0 <= i && j == i + 1 && j < items.len() ==> items[i].0 != items[j].0
}

/// Reads `items` one after the other into `acc`.
pub open spec fn merge_all(acc: Seq<(u8, Seq<u8>)>, items: Seq<(u8, Seq<u8>)>) -> Seq<(u8, Seq<u8>)>
    decreases items.len(),
{
    if items.len() == 0 {
        acc
    } else {
        merge_all(merge_tlv(acc, items[0].0, items[0].1), items.skip(1))
    }
}

/// Reading one fragment of at most 255 bytes.
proof fn lemma_parse_fragment(t: u8, v: Seq<u8>, rest: Seq<u8>, acc: Seq<(u8, Seq<u8>)>)
    requires
        v.len() <= 255,
    ensures
        parse_tlv_from(seq![t, v.len() as u8] + v + rest, acc) == parse_tlv_from(rest, merge_tlv(acc, t, v)),
{
    let b = seq![t, v.len() as u8] + v + rest;
    assert(b[0] == t);
    assert(b[1] == v.len() as u8);
    assert((v.len() as u8) as int == v.len());
    assert(b.skip(2 + v.len() as int) =~= rest);
    assert(b.subrange(2, 2 + v.len() as int) =~= v);
}

/// Two fragments of one type read in a row make one value.
proof fn lemma_merge_twice(acc: Seq<(u8, Seq<u8>)>, t: u8, a: Seq<u8>, b: Seq<u8>)
    ensures
        merge_tlv(merge_tlv(acc, t, a), t, b) == merge_tlv(acc, t, a + b),
{
    if acc.len() > 0 && acc.last().0 == t {
        assert(acc.last().1 + a + b =~= acc.last().1 + (a + b));
        assert(merge_tlv(merge_tlv(acc, t, a), t, b) =~= merge_tlv(acc, t, a + b));
    } else {
        assert(merge_tlv(merge_tlv(acc, t, a), t, b) =~= merge_tlv(acc, t, a + b));
    }
}

/// Reading the fragments of one item gives that item.
proof fn lemma_parse_value(t: u8, v: Seq<u8>, rest: Seq<u8>, acc: Seq<(u8, Seq<u8>)>)
    ensures
        parse_tlv_from(encode_tlv_value(t, v) + rest, acc) == parse_tlv_from(rest, merge_tlv(acc, t, v)),
    decreases v.len(),
{
    if v.len() <= 255 {
        lemma_parse_fragment(t, v, rest, acc);
    } else {
        let head = v.take(255);
        let tail = v.skip(255);
        let rest2 = encode_tlv_value(t, tail) + rest;
        assert(head.len() == 255);
        assert(encode_tlv_value(t, v) + rest =~= seq![t, head.len() as u8] + head + rest2);
        lemma_parse_fragment(t, head, rest2, acc);
        lemma_parse_value(t, tail, rest, merge_tlv(acc, t, head));
        lemma_merge_twice(acc, t, head, tail);
        assert(head + tail =~= v);
    }
}

/// The wire form of a non-empty list starts with its first item.
proof fn lemma_encode_front(items: Seq<(u8, Seq<u8>)>)
    requires
        items.len() > 0,
    ensures
        encode_tlv(items) == encode_tlv_value(items[0].0, items[0].1) + encode_tlv(items.skip(1)),
    decreases items.len(),
{
    if items.len() == 1 {
        assert(items.drop_last().len() == 0);
        assert(items.skip(1).len() == 0);
        assert(encode_tlv(items.drop_last()) == Seq::<u8>::empty());
        assert(encode_tlv(items.skip(1)) == Seq::<u8>::empty());
        assert(items.last() == items[0]);
        assert(encode_tlv(items) =~= encode_tlv_value(items[0].0, items[0].1) + encode_tlv(items.skip(1)));
    } else {
        let init = items.drop_last();
        let tail = items.skip(1);
        lemma_encode_front(init);
        assert(init[0] == items[0]);
        assert(tail.drop_last() =~= init.skip(1));
        assert(tail.last() == items.last());
        assert(encode_tlv(tail) == encode_tlv(tail.drop_last()) + encode_tlv_value(tail.last().0, tail.last().1));
        assert(encode_tlv(items) == encode_tlv(init) + encode_tlv_value(items.last().0, items.last().1));
        assert(encode_tlv(items) =~= encode_tlv_value(items[0].0, items[0].1) + encode_tlv(items.skip(1)));
    }
}

/// Reading the wire form of a list merges its items in order.
proof fn lemma_parse_encoded(items: Seq<(u8, Seq<u8>)>, rest: Seq<u8>, acc: Seq<(u8, Seq<u8>)>)
    ensures
        parse_tlv_from(encode_tlv(items) + rest, acc) == parse_tlv_from(rest, merge_all(acc, items)),
    decreases items.len(),
{
    if items.len() == 0 {
        assert(encode_tlv(items) + rest =~= rest);
    } else {
        lemma_encode_front(items);
        let tail_bytes = encode_tlv(items.skip(1)) + rest;
        assert(encode_tlv(items) + rest =~= encode_tlv_value(items[0].0, items[0].1) + tail_bytes);
        lemma_parse_value(items[0].0, items[0].1, tail_bytes, acc);
        lemma_parse_encoded(items.skip(1), rest, merge_tlv(acc, items[0].0, items[0].1));
    }
}

/// Items with distinct neighbouring types are read back one by one.
proof fn lemma_merge_all_distinct(acc: Seq<(u8, Seq<u8>)>, items: Seq<(u8, Seq<u8>)>)
    requires
        tlv_runs_distinct(items),
        acc.len() == 0 || items.len() == 0 || acc.last().0 != items[0].0,
    ensures
        merge_all(acc, items) == acc + items,
    decreases items.len(),
{
    if items.len() == 0 {
        assert(acc + items =~= acc);
    } else {
        let acc2 = acc.push(items[0]);
        assert(merge_tlv(acc, items[0].0, items[0].1) =~= acc2);
        let tail = items.skip(1);
        assert forall|i: int, j: int| #![trigger tail[i], tail[j]] 0 <= i && j == i + 1 && j < tail.len() implies tail[i].0 != tail[j].0 by {
            assert(tail[i] == items[i + 1]);
            assert(tail[j] == items[j + 1]);
        }
        if tail.len() > 0 {
            assert(items[0] == items[0] && items[1] == tail[0]);
        }
        lemma_merge_all_distinct(acc2, tail);
        assert(acc2 + tail =~= acc + items);
    }
}

/// Reading back what `encode` wrote gives the same items, as long as no two
/// neighbouring items share a type (those would be read as one).
pub proof fn lemma_tlv_parse_encode_roundtrip(items: Seq<(u8, Seq<u8>)>)
    requires
        tlv_runs_distinct(items),
    ensures
        parse_tlv(encode_tlv(items)) == Some(items),
{
    lemma_parse_encoded(items, Seq::empty(), Seq::empty());
    assert(encode_tlv(items) + Seq::<u8>::empty() =~= encode_tlv(items));
    lemma_merge_all_distinct(Seq::empty(), items);
    assert(Seq::<(u8, Seq<u8>)>::empty() + items =~= items);
}

/// A copy of `src[lo..hi]`.
fn copy_range(src: &[u8], lo: usize, hi: usize) -> (r: Vec<u8>)
    requires
        lo <= hi <= src@.len(),
    ensures
        r@ == src@.subrange(lo as int, hi as int),
{
    let mut r: Vec<u8> = Vec::new();
    push_slice_range(&mut r, src, lo, hi);
    assert(r@ =~= src@.subrange(lo as int, hi as int));
    r
}

/// Appends the wire form of one item to `out`.
fn encode_value_into(out: &mut Vec<u8>, t: u8, v: &[u8])
    ensures
        final(out)@ == old(out)@ + encode_tlv_value(t, v@),
{
    let ghost target = out@ + encode_tlv_value(t, v@);
    let len = v.len();
    let mut offset: usize = 0;
    assert(v@.skip(0) =~= v@);
    loop
        invariant_except_break
            offset < len || len == 0,
            out@ + encode_tlv_value(t, v@.skip(offset as int)) == target,
        invariant
            offset <= len,
            len == v@.len(),
        ensures
            out@ == target,
        decreases len - offset,
    {
        let ghost before = out@;
        let ghost remaining = v@.skip(offset as int);
        let chunk_end: usize = if len - offset > 255 { offset + 255 } else { len };
        out.push(t);
        out.push((chunk_end - offset) as u8);
        push_slice_range(out, v, offset, chunk_end);
        if chunk_end == len {
            assert(remaining.len() <= 255);
            assert(v@.subrange(offset as int, chunk_end as int) =~= remaining);
            assert(out@ =~= before + encode_tlv_value(t, remaining));
            assert(v@.skip(chunk_end as int).len() == 0);
            assert(out@ == target);
            offset = chunk_end;
            break;
        }
        assert(remaining.len() > 255);
        assert(v@.subrange(offset as int, chunk_end as int) =~= remaining.take(255));
        assert(remaining.skip(255) =~= v@.skip(chunk_end as int));
        assert(out@ + encode_tlv_value(t, v@.skip(chunk_end as int)) =~= before + encode_tlv_value(t, remaining));
        offset = chunk_end;
    }
}

impl PairingTlv {
    /// An empty container.
    pub fn new() -> (r: Self)
        ensures
            r@ == Seq::<(u8, Seq<u8>)>::empty(),
    {
        let r = PairingTlv { entries: Vec::new() };
        assert(r@ =~= Seq::<(u8, Seq<u8>)>::empty());
        r
    }

    /// Appends an item.
    pub fn push(&mut self, type_id: u8, value: &[u8])
        ensures
            final(self)@ == old(self)@.push((type_id, value@)),
    {
        let copy = copy_range(value, 0, value.len());
        assert(value@.subrange(0, value@.len() as int) =~= value@);
        self.entries.push(PairingTlvEntry { type_id, value: copy });
        assert(final(self)@ =~= old(self)@.push((type_id, value@)));
    }

    /// The wire form of the container.
    pub fn encode(&self) -> (r: Vec<u8>)
        ensures
            r@ == encode_tlv(self@),
    {
        let mut encoded: Vec<u8> = Vec::new();
        let mut i: usize = 0;
        while i < self.entries.len()
            invariant
                i <= self.entries@.len(),
                encoded@ == encode_tlv(self@.take(i as int)),
            decreases self.entries@.len() - i,
        {
            let entry = &self.entries[i];
            encode_value_into(&mut encoded, entry.type_id, entry.value.as_slice());
            assert(self@.take(i + 1).drop_last() =~= self@.take(i as int));
            i = i + 1;
        }
        assert(self@.take(i as int) =~= self@);
        encoded
    }

    /// Reads a TLV byte string; a cut-short fragment is a protocol error.
    pub fn parse(bytes: &[u8]) -> (r: Result<Self, AirPlayError>)
        ensures
            match parse_tlv(bytes@) {
                Some(items) => r matches Ok(t) && t@ == items,
                None => r matches Err(AirPlayError::Protocol { .. }),
            },
    {
        let mut entries: Vec<PairingTlvEntry> = Vec::new();
        let mut cursor: usize = 0;
        assert(bytes@.skip(0) =~= bytes@);
        assert(entries_view(entries@) =~= Seq::<(u8, Seq<u8>)>::empty());
        while cursor < bytes.len()
            invariant
                cursor <= bytes@.len(),
                parse_tlv(bytes@) == parse_tlv_from(bytes@.skip(cursor as int), entries_view(entries@)),
            decreases bytes@.len() - cursor,
        {
            let ghost rest = bytes@.skip(cursor as int);
            if bytes.len() - cursor < 2 {
                return Err(protocol_error("配对 TLV 数据缺少 type/length 字段"));
            }
            let type_id = bytes[cursor];
            let value_len = bytes[cursor + 1] as usize;
            assert(rest[0] == type_id && rest[1] == value_len);
            if value_len > bytes.len() - cursor - 2 {
                return Err(protocol_error("配对 TLV 数据长度超出响应体边界"));
            }
            let lo = cursor + 2;
            let hi = lo + value_len;
            let ghost acc = entries_view(entries@);
            assert(rest.subrange(2, 2 + value_len) =~= bytes@.subrange(lo as int, hi as int));
            assert(rest.skip(2 + value_len) =~= bytes@.skip(hi as int));
            let n = entries.len();
            if n > 0 && entries[n - 1].type_id == type_id {
                let mut last = entries.pop().unwrap();
                let ghost old_value = last.value@;
                push_slice_range(&mut last.value, bytes, lo, hi);
                entries.push(last);
                assert(entries_view(entries@) =~= merge_tlv(acc, type_id, bytes@.subrange(lo as int, hi as int)));
            } else {
                let value = copy_range(bytes, lo, hi);
                entries.push(PairingTlvEntry { type_id, value });
                assert(entries_view(entries@) =~= merge_tlv(acc, type_id, bytes@.subrange(lo as int, hi as int)));
            }
            cursor = hi;
        }
        assert(bytes@.skip(cursor as int).len() == 0);
        Ok(PairingTlv { entries })
    }

    /// The value of the first item of type `type_id`.
    pub fn get(&self, type_id: u8) -> (r: Option<&[u8]>)
        ensures
            match tlv_find(self@, type_id) {
                Some(v) => r matches Some(s) && s@ == v,
                None => r is None,
            },
    {
        let mut i: usize = 0;
        while i < self.entries.len()
            invariant
                i <= self.entries@.len(),
                tlv_find(self@, type_id) == tlv_find_from(self@, type_id, i as int),
            decreases self.entries@.len() - i,
        {
            if self.entries[i].type_id == type_id {
                return Some(self.entries[i].value.as_slice());
            }
            i = i + 1;
        }
        None
    }

    /// The value of the first item of type `type_id`, or a protocol error
    /// naming `field_name`.
    pub fn require(&self, type_id: u8, field_name: &str) -> (r: Result<&[u8], AirPlayError>)
        ensures
            match tlv_find(self@, type_id) {
                Some(v) => r matches Ok(s) && s@ == v,
                None => r matches Err(AirPlayError::Protocol { .. }),
            },
    {
        match self.get(type_id) {
            Some(v) => Ok(v),
            None => {
                let mut message = String::from_str("配对 TLV 缺少 ");
                push_str(&mut message, field_name);
                push_str(&mut message, " 字段");
                Err(AirPlayError::Protocol { message })
            },
        }
    }

    /// The one-byte value of the first item of type `type_id`; a missing
    /// item or a value of another length is a protocol error.
    pub fn require_byte(&self, type_id: u8, field_name: &str) -> (r: Result<u8, AirPlayError>)
        ensures
            match tlv_find(self@, type_id) {
                Some(v) => if v.len() == 1 {
                    r == Ok::<u8, AirPlayError>(v[0])
                } else {
                    r matches Err(AirPlayError::Protocol { .. })
                },
                None => r matches Err(AirPlayError::Protocol { .. }),
            },
    {
        let value = self.require(type_id, field_name)?;
        if value.len() != 1 {
            let mut message = String::from_str("配对 TLV 中的 ");
            push_str(&mut message, field_name);
            push_str(&mut message, " 字段长度应为 1，实际为 ");
            push_decimal(&mut message, value.len() as u64);
            return Err(AirPlayError::Protocol { message });
        }
        Ok(value[0])
    }
}

} // verus!
