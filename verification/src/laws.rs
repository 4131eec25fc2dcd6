//! What holds between the two directions of the format: whatever is written
//! reads back as what it was.

use vstd::prelude::*;
use vstd::utf8::{encode_utf8, encode_utf8_decode_utf8, encode_utf8_valid_utf8};
use crate::bytes::{be_u16, be_u32, be_u64, lemma_be_u16, lemma_be_u32, lemma_be_u64};
use crate::bytes::{u16_of_i16, u32_of_i32, u64_of_i64};
use crate::error::Error;
use crate::nbt_tag::{Tag, TagType};
use crate::wire::{
    check, check_all, check_fields, check_named, element_type, entries, header, ints, ints_of,
    longs, longs_of, named, parse_count, parse_elements, parse_fields, parse_len16, parse_named,
    parse_payload, parse_text, parse_u8, payload, payloads, text, MAX_COUNT, MAX_TEXT_LEN,
};

verus! {

/// A count that was written reads back, whatever follows it.
pub proof fn lemma_count_roundtrip(n: nat, rest: Seq<u8>)
    requires
        n <= MAX_COUNT,
    ensures
        parse_count(be_u32(n as u32) + rest) == Ok::<(nat, Seq<u8>), Error>((n, rest)),
{
    lemma_be_u32(n as u32, rest);
    assert((be_u32(n as u32) + rest).skip(4) =~= rest);
}

/// A name or string that was written reads back, whatever follows it.
pub proof fn lemma_text_roundtrip(chars: Seq<char>, rest: Seq<u8>)
    requires
        encode_utf8(chars).len() <= MAX_TEXT_LEN,
    ensures
        parse_text(text(encode_utf8(chars)) + rest) == Ok::<(Seq<char>, Seq<u8>), Error>(
            (chars, rest),
        ),
{
    let bytes = encode_utf8(chars);
    let n = bytes.len();
    let s = text(bytes) + rest;
    assert(s =~= be_u16(n as u16) + (bytes + rest));
    lemma_be_u16(n as u16, bytes + rest);
    assert(s.skip(2) =~= bytes + rest);
    assert(parse_len16(s) == Ok::<(nat, Seq<u8>), Error>((n, bytes + rest)));
    assert((bytes + rest).take(n as int) =~= bytes);
    assert((bytes + rest).skip(n as int) =~= rest);
    encode_utf8_valid_utf8(chars);
    encode_utf8_decode_utf8(chars);
}

/// The elements of an int array that were written read back.
pub proof fn lemma_ints_roundtrip(values: Seq<i32>)
    ensures
        ints(values).len() == 4 * values.len(),
        ints_of(ints(values), values.len()) == values,
{
    let s = ints(values);
    assert forall|i: int| 0 <= i < values.len() implies #[trigger] ints_of(s, values.len())[i]
        == values[i] by {
        let x = u32_of_i32(values[i]);
        let part = s.skip(4 * i);
        lemma_be_u32(x, part.skip(4));
        assert(part.take(4) =~= be_u32(x)) by {
            assert forall|k: int| 0 <= k < 4 implies part.take(4)[k] == be_u32(x)[k] by {
                assert((4 * i + k) / 4 == i);
                assert((4 * i + k) % 4 == k);
            }
        }
        assert(part =~= be_u32(x) + part.skip(4));
    }
    assert(ints_of(s, values.len()) =~= values);
}

/// The elements of a long array that were written read back.
pub proof fn lemma_longs_roundtrip(values: Seq<i64>)
    ensures
        longs(values).len() == 8 * values.len(),
        longs_of(longs(values), values.len()) == values,
{
    let s = longs(values);
    assert forall|i: int| 0 <= i < values.len() implies #[trigger] longs_of(s, values.len())[i]
        == values[i] by {
        let x = u64_of_i64(values[i]);
        let part = s.skip(8 * i);
        lemma_be_u64(x, part.skip(8));
        assert(part.take(8) =~= be_u64(x)) by {
            assert forall|k: int| 0 <= k < 8 implies part.take(8)[k] == be_u64(x)[k] by {
                assert((8 * i + k) / 8 == i);
                assert((8 * i + k) % 8 == k);
            }
        }
        assert(part =~= be_u64(x) + part.skip(8));
    }
    assert(longs_of(s, values.len()) =~= values);
}

/// The payload of a tag without tags inside reads back as that tag.
pub proof fn lemma_scalar_roundtrip(tag: Tag, rest: Seq<u8>)
    requires
        tag is End || tag is Byte || tag is Short || tag is Int || tag is Long || tag is Float
            || tag is Double,
    ensures
        parse_payload(tag.tag_type(), payload(tag) + rest) == Ok::<(Tag, Seq<u8>), Error>(
            (tag, rest),
        ),
{
    let s = payload(tag) + rest;
    match tag {
        Tag::End => {
            assert(s =~= rest);
        },
        Tag::Byte(v) => {
            assert(s.skip(1) =~= rest);
        },
        Tag::Short(v) => {
            lemma_be_u16(u16_of_i16(v), rest);
            assert(s.skip(2) =~= rest);
        },
        Tag::Int(v) => {
            lemma_be_u32(u32_of_i32(v), rest);
            assert(s.skip(4) =~= rest);
        },
        Tag::Long(v) => {
            lemma_be_u64(u64_of_i64(v), rest);
            assert(s.skip(8) =~= rest);
        },
        Tag::Float(bits) => {
            lemma_be_u32(bits, rest);
            assert(s.skip(4) =~= rest);
        },
        Tag::Double(bits) => {
            lemma_be_u64(bits, rest);
            assert(s.skip(8) =~= rest);
        },
        _ => {},
    }
}

/// The payload of an array or a string that can be written reads back.
pub proof fn lemma_array_roundtrip(tag: Tag, rest: Seq<u8>)
    requires
        tag is ByteArray || tag is String || tag is IntArray || tag is LongArray,
        check(tag) is Ok,
    ensures
        parse_payload(tag.tag_type(), payload(tag) + rest) == Ok::<(Tag, Seq<u8>), Error>(
            (tag, rest),
        ),
{
    let s = payload(tag) + rest;
    match tag {
        Tag::ByteArray(bytes) => {
            let n = bytes.len();
            assert(s =~= be_u32(n as u32) + (bytes + rest));
            lemma_count_roundtrip(n, bytes + rest);
            assert((bytes + rest).take(n as int) =~= bytes);
            assert((bytes + rest).skip(n as int) =~= rest);
        },
        Tag::String(chars) => {
            lemma_text_roundtrip(chars, rest);
        },
        Tag::IntArray(values) => {
            let n = values.len();
            let bytes = ints(values);
            assert(s =~= be_u32(n as u32) + (bytes + rest));
            lemma_count_roundtrip(n, bytes + rest);
            lemma_ints_roundtrip(values);
            assert((bytes + rest).take(4 * (n as int)) =~= bytes);
            assert((bytes + rest).skip(4 * (n as int)) =~= rest);
        },
        Tag::LongArray(values) => {
            let n = values.len();
            let bytes = longs(values);
            assert(s =~= be_u32(n as u32) + (bytes + rest));
            lemma_count_roundtrip(n, bytes + rest);
            lemma_longs_roundtrip(values);
            assert((bytes + rest).take(8 * (n as int)) =~= bytes);
            assert((bytes + rest).skip(8 * (n as int)) =~= rest);
        },
        _ => {},
    }
}

/// The payload of a tag that can be written reads back as that tag, and
/// what follows the payload is left over.
pub proof fn lemma_payload_roundtrip(tag: Tag, rest: Seq<u8>)
    requires
        check(tag) is Ok,
    ensures
        parse_payload(tag.tag_type(), payload(tag) + rest) == Ok::<(Tag, Seq<u8>), Error>(
            (tag, rest),
        ),
    decreases tag,
{
    let s = payload(tag) + rest;
    match tag {
        Tag::List(tags) => {
            let n = tags.len();
            let kind = element_type(tags);
            let tail = be_u32(n as u32) + (payloads(tags) + rest);
            assert(s =~= seq![kind.code()] + tail);
            assert(s.skip(1) =~= tail);
            lemma_count_roundtrip(n, payloads(tags) + rest);
            TagType::lemma_code_bijection(kind, kind.code());
            lemma_elements_roundtrip(tags, kind, rest);
        },
        Tag::Compound(fields) => {
            lemma_fields_roundtrip(fields, rest);
            assert(s =~= entries(fields) + seq![TagType::End.code()] + rest);
        },
        Tag::ByteArray(_) | Tag::String(_) | Tag::IntArray(_) | Tag::LongArray(_) => {
            lemma_array_roundtrip(tag, rest);
        },
        _ => {
            lemma_scalar_roundtrip(tag, rest);
        },
    }
}

/// The elements of a list that can be written read back in their order.
pub proof fn lemma_elements_roundtrip(tags: Seq<Tag>, kind: TagType, rest: Seq<u8>)
    requires
        check_all(tags) is Ok,
        forall|i: int| 0 <= i < tags.len() ==> (#[trigger] tags[i]).tag_type() == kind,
    ensures
        parse_elements(kind, tags.len(), payloads(tags) + rest) == Ok::<
            (Seq<Tag>, Seq<u8>),
            Error,
        >((tags, rest)),
    decreases tags,
{
    if tags.len() == 0 {
        assert(payloads(tags) + rest =~= rest);
        assert(tags =~= Seq::<Tag>::empty());
    } else {
        let first = tags[0];
        let others = tags.drop_first();
        let tail = payloads(others) + rest;
        let s = payloads(tags) + rest;
        assert(s =~= payload(first) + tail);
        lemma_payload_roundtrip(first, tail);
        assert forall|i: int| 0 <= i < others.len() implies (#[trigger] others[i]).tag_type()
            == kind by {
            assert(others[i] == tags[i + 1]);
        }
        lemma_elements_roundtrip(others, kind, rest);
        assert(seq![first] + others =~= tags);
    }
}

/// The fields of a compound that can be written, closed by `End`, read back
/// in their order.
pub proof fn lemma_fields_roundtrip(fields: Seq<(Seq<char>, Tag)>, rest: Seq<u8>)
    requires
        check_fields(fields) is Ok,
    ensures
        parse_fields(entries(fields) + seq![TagType::End.code()] + rest) == Ok::<
            (Seq<(Seq<char>, Tag)>, Seq<u8>),
            Error,
        >((fields, rest)),
    decreases fields,
{
    let s = entries(fields) + seq![TagType::End.code()] + rest;
    if fields.len() == 0 {
        assert(s.skip(1) =~= rest);
        assert(fields =~= Seq::<(Seq<char>, Tag)>::empty());
    } else {
        let (name, tag) = fields[0];
        let others = fields.drop_first();
        let kind = tag.tag_type();
        let after = entries(others) + seq![TagType::End.code()] + rest;
        let body = payload(tag) + after;
        let named_part = text(encode_utf8(name)) + body;
        assert(s =~= seq![kind.code()] + named_part);
        assert(s.skip(1) =~= named_part);
        TagType::lemma_code_bijection(kind, kind.code());
        lemma_text_roundtrip(name, body);
        lemma_payload_roundtrip(tag, after);
        lemma_fields_roundtrip(others, rest);
        assert(seq![(name, tag)] + others =~= fields);
    }
}

/// Round trip: the bytes of a tag under a name read back as that name and
/// that tag, and what follows them is left over.
///
/// This holds of every tag that can be written. An `End` has no name on the
/// wire, so it reads back under the empty name only.
pub proof fn lemma_roundtrip(name: Seq<char>, tag: Tag, rest: Seq<u8>)
    requires
        check_named(name, tag) is Ok,
        tag is End ==> name.len() == 0,
    ensures
        parse_named(named(name, tag) + rest) == Ok::<(Seq<char>, Tag, Seq<u8>), Error>(
            (name, tag, rest),
        ),
{
    let s = named(name, tag) + rest;
    let kind = tag.tag_type();
    TagType::lemma_code_bijection(kind, kind.code());
    if tag is End {
        assert(s.skip(1) =~= rest);
        assert(name =~= Seq::<char>::empty());
    } else {
        let body = payload(tag) + rest;
        let named_part = text(encode_utf8(name)) + body;
        assert(s =~= seq![kind.code()] + named_part);
        assert(s.skip(1) =~= named_part);
        lemma_text_roundtrip(name, body);
        lemma_payload_roundtrip(tag, rest);
    }
}

/// Elements written one after the other are the elements of the list: one
/// more element adds its payload behind the others.
pub proof fn lemma_payloads_push(tags: Seq<Tag>, tag: Tag)
    ensures
        payloads(tags.push(tag)) == payloads(tags) + payload(tag),
    decreases tags.len(),
{
    if tags.len() == 0 {
        assert(tags.push(tag).drop_first() =~= tags);
        assert(payloads(tags.push(tag)) =~= payloads(tags) + payload(tag));
    } else {
        assert(tags.push(tag).drop_first() =~= tags.drop_first().push(tag));
        lemma_payloads_push(tags.drop_first(), tag);
        assert(payloads(tags.push(tag)) =~= payloads(tags) + payload(tag));
    }
}

/// Fields written one after the other are the fields of the compound: one
/// more field adds its named tag behind the others. So a header, the fields
/// in turn and an `End` are the compound of those fields under its name.
pub proof fn lemma_entries_push(fields: Seq<(Seq<char>, Tag)>, name: Seq<char>, tag: Tag)
    ensures
        entries(fields.push((name, tag))) == entries(fields) + named(name, tag),
    decreases fields.len(),
{
    let more = fields.push((name, tag));
    if fields.len() == 0 {
        assert(more.drop_first() =~= fields);
        assert(entries(more) =~= entries(fields) + named(name, tag));
    } else {
        assert(more.drop_first() =~= fields.drop_first().push((name, tag)));
        lemma_entries_push(fields.drop_first(), name, tag);
        assert(entries(more) =~= entries(fields) + named(name, tag));
    }
}

/// `rest` is what is left of `s` after some of its front was read.
pub open spec fn is_rest_of(rest: Seq<u8>, s: Seq<u8>) -> bool {
    rest.len() <= s.len() && rest == s.skip(s.len() - rest.len())
}

/// Reading a payload takes bytes off the front and leaves the others as they
/// were: what is left is never longer than what was there.
pub proof fn lemma_parse_shortens(kind: TagType, s: Seq<u8>)
    ensures
        parse_payload(kind, s) matches Ok((_, rest)) ==> is_rest_of(rest, s),
    decreases s.len(), 1nat,
{
    match kind {
        TagType::End => {
            assert(s.skip(0) =~= s);
        },
        TagType::List => {
            if let Ok((code, r1)) = parse_u8(s) {
                if let Ok((n, r2)) = parse_count(r1) {
                    assert(r2 =~= s.skip(5));
                    if n != 0 {
                        if let Some(element) = TagType::of_code(code) {
                            lemma_elements_shorten(element, n, r2);
                            if let Ok((_, r3)) = parse_elements(element, n, r2) {
                                assert(r3 =~= s.skip(s.len() - r3.len()));
                            }
                        }
                    }
                }
            }
        },
        TagType::Compound => {
            lemma_fields_shorten(s);
        },
        _ => {
            if let Ok((_, rest)) = parse_payload(kind, s) {
                assert(rest =~= s.skip(s.len() - rest.len()));
            }
        },
    }
}

/// As `lemma_parse_shortens`, of the elements of a list.
pub proof fn lemma_elements_shorten(kind: TagType, n: nat, s: Seq<u8>)
    ensures
        parse_elements(kind, n, s) matches Ok((_, rest)) ==> is_rest_of(rest, s),
    decreases s.len(), n + 2,
{
    if n == 0 {
        assert(s.skip(0) =~= s);
    } else {
        lemma_parse_shortens(kind, s);
        if let Ok((_, r1)) = parse_payload(kind, s) {
            lemma_elements_shorten(kind, (n - 1) as nat, r1);
            if let Ok((_, r2)) = parse_elements(kind, (n - 1) as nat, r1) {
                assert(r2 =~= s.skip(s.len() - r2.len()));
            }
        }
    }
}

/// As `lemma_parse_shortens`, of the fields of a compound.
pub proof fn lemma_fields_shorten(s: Seq<u8>)
    ensures
        parse_fields(s) matches Ok((_, rest)) ==> is_rest_of(rest, s),
    decreases s.len(), 0nat,
{
    if let Ok((code, r1)) = parse_u8(s) {
        match TagType::of_code(code) {
            None => {},
            Some(TagType::End) => {},
            Some(kind) => {
                if let Ok((_, r2)) = parse_text(r1) {
                    assert(r2 =~= s.skip(s.len() - r2.len()));
                    lemma_parse_shortens(kind, r2);
                    if let Ok((_, r3)) = parse_payload(kind, r2) {
                        assert(r3 =~= s.skip(s.len() - r3.len()));
                        lemma_fields_shorten(r3);
                        if let Ok((_, r4)) = parse_fields(r3) {
                            assert(r4 =~= s.skip(s.len() - r4.len()));
                        }
                    }
                }
            },
        }
    }
}

} // verus!
