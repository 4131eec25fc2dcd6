//! The encoder: from a tag tree to its bytes.

use vstd::prelude::*;
use crate::bytes::{be_i32, be_i64, i16_bits, i32_bits, i64_bits, put_u16, put_u32, put_u64};
use crate::bytes::{lemma_be_u32, lemma_be_u64, u32_of_i32, u64_of_i64};
use crate::error::Error;
use crate::nbt_tag::{view_entries, view_tags, NbtTag, TagType};
use crate::wire::{
    check, check_all, check_count, check_fields, check_named, check_text, element_type, entries,
    header, ints, longs, named, payload, payloads, same_type, text, MAX_COUNT, MAX_TEXT_LEN,
};

verus! {

/// Appends `bytes`.
pub fn put_bytes(out: &mut Vec<u8>, bytes: &[u8])
    ensures
        final(out)@ == old(out)@ + bytes@,
{
    let mut i: usize = 0;
    while i < bytes.len()
        invariant
            i <= bytes.len(),
            out@ == old(out)@ + bytes@.take(i as int),
        decreases bytes.len() - i,
    {
        out.push(bytes[i]);
        i += 1;
        assert(out@ =~= old(out)@ + bytes@.take(i as int));
    }
    assert(bytes@.take(i as int) =~= bytes@);
}

/// Appends a name or a string: its length in 16 bits, then its bytes.
pub(crate) fn put_text(out: &mut Vec<u8>, bytes: &[u8])
    requires
        bytes@.len() <= MAX_TEXT_LEN,
    ensures
        final(out)@ == old(out)@ + text(bytes@),
{
    put_u16(out, bytes.len() as u16);
    put_bytes(out, bytes);
    assert(out@ =~= old(out)@ + text(bytes@));
}

/// Appends the header of a tag of type `kind` named `name`.
pub(crate) fn put_header(out: &mut Vec<u8>, kind: TagType, name: &[u8])
    requires
        kind == TagType::End || name@.len() <= MAX_TEXT_LEN,
    ensures
        final(out)@ == old(out)@ + header(kind, name@),
{
    out.push(kind.to_byte());
    if kind != TagType::End {
        put_text(out, name);
    }
    assert(out@ =~= old(out)@ + header(kind, name@));
}

/// The header of a tag of type `tag_type` named `name`: the tag type, and
/// unless it is `End`, the name behind its 16-bit length. A name too long for
/// that length is refused.
pub fn make_header(tag_type: TagType, name: &[u8]) -> (r: Result<Vec<u8>, Error>)
    ensures
        tag_type == TagType::End || name@.len() <= MAX_TEXT_LEN ==> (r matches Ok(bytes)
            && bytes@ == header(tag_type, name@)),
        tag_type != TagType::End && name@.len() > MAX_TEXT_LEN ==> r == Err::<Vec<u8>, Error>(
            Error::InvalidLength,
        ),
{
    if tag_type != TagType::End && name.len() > MAX_TEXT_LEN {
        return Err(Error::InvalidLength);
    }
    let mut res = Vec::new();
    put_header(&mut res, tag_type, name);
    assert(res@ =~= header(tag_type, name@));
    Ok(res)
}

/// Adding one value to an int array adds its four bytes.
pub proof fn lemma_ints_push(values: Seq<i32>, v: i32)
    ensures
        ints(values.push(v)) == ints(values) + be_i32(v),
{
    lemma_be_u32(u32_of_i32(v), Seq::empty());
    assert(ints(values.push(v)) =~= ints(values) + be_i32(v));
}

/// Adding one value to a long array adds its eight bytes.
pub proof fn lemma_longs_push(values: Seq<i64>, v: i64)
    ensures
        longs(values.push(v)) == longs(values) + be_i64(v),
{
    lemma_be_u64(u64_of_i64(v), Seq::empty());
    assert(longs(values.push(v)) =~= longs(values) + be_i64(v));
}

/// Appends the elements of an int array.
pub fn put_ints(out: &mut Vec<u8>, values: &[i32])
    ensures
        final(out)@ == old(out)@ + ints(values@),
{
    let mut i: usize = 0;
    assert(ints(values@.take(0)) =~= Seq::<u8>::empty());
    while i < values.len()
        invariant
            i <= values.len(),
            out@ == old(out)@ + ints(values@.take(i as int)),
        decreases values.len() - i,
    {
        put_u32(out, i32_bits(values[i]));
        proof {
            lemma_ints_push(values@.take(i as int), values[i as int]);
            assert(values@.take(i as int).push(values[i as int]) =~= values@.take(i + 1));
        }
        i += 1;
    }
    assert(values@.take(i as int) =~= values@);
}

/// Appends the elements of a long array.
pub fn put_longs(out: &mut Vec<u8>, values: &[i64])
    ensures
        final(out)@ == old(out)@ + longs(values@),
{
    let mut i: usize = 0;
    assert(longs(values@.take(0)) =~= Seq::<u8>::empty());
    while i < values.len()
        invariant
            i <= values.len(),
            out@ == old(out)@ + longs(values@.take(i as int)),
        decreases values.len() - i,
    {
        put_u64(out, i64_bits(values[i]));
        proof {
            lemma_longs_push(values@.take(i as int), values[i as int]);
            assert(values@.take(i as int).push(values[i as int]) =~= values@.take(i + 1));
        }
        i += 1;
    }
    assert(values@.take(i as int) =~= values@);
}

/// Whether a 32-bit signed count holds `n`.
pub fn validate_count(n: usize) -> (r: Result<(), Error>)
    ensures
        r == check_count(n as nat),
{
    if n > MAX_COUNT {
        Err(Error::InvalidLength)
    } else {
        Ok(())
    }
}

/// Whether a 16-bit signed length holds the length of `bytes`.
pub fn validate_text(bytes: &[u8]) -> (r: Result<(), Error>)
    ensures
        r == check_text(bytes@),
{
    if bytes.len() > MAX_TEXT_LEN {
        Err(Error::InvalidLength)
    } else {
        Ok(())
    }
}

/// Whether all tags of a list are of the tag type of the first.
pub fn all_same_type(tags: &Vec<NbtTag>) -> (r: bool)
    ensures
        r == same_type(view_tags(tags@)),
{
    let ghost model = view_tags(tags@);
    if tags.len() == 0 {
        return true;
    }
    let first = tags[0].tag_type();
    let mut i: usize = 1;
    while i < tags.len()
        invariant
            1 <= i <= tags.len(),
            model == view_tags(tags@),
            first == element_type(model),
            forall|j: int| 0 <= j < i ==> (#[trigger] model[j]).tag_type() == first,
        decreases tags.len() - i,
    {
        if tags[i].tag_type() != first {
            assert(model[i as int].tag_type() != first);
            return false;
        }
        i += 1;
    }
    true
}

/// Whether a tag can be written, and if not, why not.
pub fn validate(tag: &NbtTag) -> (r: Result<(), Error>)
    ensures
        r == check(tag@),
    decreases tag,
{
    match tag {
        NbtTag::ByteArray(bytes) => validate_count(bytes.len()),
        NbtTag::String(s) => validate_text(s.as_str().as_bytes()),
        NbtTag::List(tags) => {
            let ghost model = view_tags(tags@);
            if tags.len() == 0 {
                return Err(Error::EmptySequence);
            }
            if !all_same_type(tags) {
                return Err(Error::ElementTypesDiffer);
            }
            if tags.len() > MAX_COUNT {
                return Err(Error::InvalidLength);
            }
            let mut i: usize = 0;
            assert(model.skip(0) =~= model);
            while i < tags.len()
                invariant
                    i <= tags.len(),
                    tag is List,
                    tag->List_0 == *tags,
                    model == view_tags(tags@),
                    check(tag@) == check_all(model),
                    check_all(model) == check_all(model.skip(i as int)),
                decreases tags.len() - i,
            {
                proof {
                    assert(decreases_to!(*tag => tag->List_0));
                    assert(decreases_to!(*tags => tags[i as int]));
                    assert(model.skip(i as int)[0] == tags[i as int]@);
                    assert(model.skip(i as int).drop_first() =~= model.skip(i + 1));
                }
                match validate(&tags[i]) {
                    Err(e) => {
                        return Err(e);
                    },
                    Ok(_) => {},
                }
                i += 1;
            }
            Ok(())
        },
        NbtTag::Compound(fields) => {
            let ghost model = view_entries(fields@);
            let mut i: usize = 0;
            assert(model.skip(0) =~= model);
            while i < fields.len()
                invariant
                    i <= fields.len(),
                    tag is Compound,
                    tag->Compound_0 == *fields,
                    model == view_entries(fields@),
                    check(tag@) == check_fields(model),
                    check_fields(model) == check_fields(model.skip(i as int)),
                decreases fields.len() - i,
            {
                proof {
                    assert(decreases_to!(*tag => tag->Compound_0));
                    assert(decreases_to!(*fields => fields[i as int]));
                    assert(decreases_to!(fields[i as int] => fields[i as int].1));
                    assert(model.skip(i as int)[0] == (fields[i as int].0@, fields[i as int].1@));
                    assert(model.skip(i as int).drop_first() =~= model.skip(i + 1));
                }
                let field = &fields[i];
                match &field.1 {
                    NbtTag::End => {
                        return Err(Error::WrongType);
                    },
                    _ => {},
                }
                if field.0.as_str().as_bytes().len() > MAX_TEXT_LEN {
                    return Err(Error::InvalidLength);
                }
                match validate(&field.1) {
                    Err(e) => {
                        return Err(e);
                    },
                    Ok(_) => {},
                }
                i += 1;
            }
            Ok(())
        },
        NbtTag::IntArray(values) => validate_count(values.len()),
        NbtTag::LongArray(values) => validate_count(values.len()),
        _ => Ok(()),
    }
}

/// Appends the payload of a tag that can be written.
pub(crate) fn put_payload(out: &mut Vec<u8>, tag: &NbtTag)
    requires
        check(tag@) is Ok,
    ensures
        final(out)@ == old(out)@ + payload(tag@),
    decreases tag,
{
    match tag {
        NbtTag::End => {
            assert(out@ =~= old(out)@ + payload(tag@));
        },
        NbtTag::Byte(v) => {
            out.push(*v);
            assert(out@ =~= old(out)@ + payload(tag@));
        },
        NbtTag::Short(v) => {
            put_u16(out, i16_bits(*v));
        },
        NbtTag::Int(v) => {
            put_u32(out, i32_bits(*v));
        },
        NbtTag::Long(v) => {
            put_u64(out, i64_bits(*v));
        },
        NbtTag::Float(bits) => {
            put_u32(out, *bits);
        },
        NbtTag::Double(bits) => {
            put_u64(out, *bits);
        },
        NbtTag::ByteArray(bytes) => {
            put_u32(out, bytes.len() as u32);
            put_bytes(out, bytes.as_slice());
            assert(out@ =~= old(out)@ + payload(tag@));
        },
        NbtTag::String(s) => {
            put_text(out, s.as_str().as_bytes());
        },
        NbtTag::List(tags) => {
            let ghost model = view_tags(tags@);
            out.push(tags[0].tag_type().to_byte());
            put_u32(out, tags.len() as u32);
            let ghost start = out@;
            let mut i: usize = 0;
            assert(model.skip(0) =~= model);
            while i < tags.len()
                invariant
                    i <= tags.len(),
                    tag is List,
                    tag->List_0 == *tags,
                    model == view_tags(tags@),
                    check_all(model.skip(i as int)) is Ok,
                    out@ + payloads(model.skip(i as int)) == start + payloads(model),
                decreases tags.len() - i,
            {
                proof {
                    assert(decreases_to!(*tag => tag->List_0));
                    assert(decreases_to!(*tags => tags[i as int]));
                    assert(model.skip(i as int)[0] == tags[i as int]@);
                    assert(model.skip(i as int).drop_first() =~= model.skip(i + 1));
                }
                let ghost before = out@;
                put_payload(out, &tags[i]);
                assert(out@ + payloads(model.skip(i + 1)) =~= before + payloads(
                    model.skip(i as int),
                ));
                i += 1;
            }
            assert(payloads(model.skip(i as int)) =~= Seq::<u8>::empty());
            assert(out@ =~= old(out)@ + payload(tag@));
        },
        NbtTag::Compound(fields) => {
            let ghost model = view_entries(fields@);
            let mut i: usize = 0;
            assert(model.skip(0) =~= model);
            while i < fields.len()
                invariant
                    i <= fields.len(),
                    tag is Compound,
                    tag->Compound_0 == *fields,
                    model == view_entries(fields@),
                    check_fields(model.skip(i as int)) is Ok,
                    out@ + entries(model.skip(i as int)) == old(out)@ + entries(model),
                decreases fields.len() - i,
            {
                proof {
                    assert(decreases_to!(*tag => tag->Compound_0));
                    assert(decreases_to!(*fields => fields[i as int]));
                    assert(decreases_to!(fields[i as int] => fields[i as int].1));
                    assert(model.skip(i as int)[0] == (fields[i as int].0@, fields[i as int].1@));
                    assert(model.skip(i as int).drop_first() =~= model.skip(i + 1));
                }
                let ghost before = out@;
                let field = &fields[i];
                put_header(out, field.1.tag_type(), field.0.as_str().as_bytes());
                put_payload(out, &field.1);
                assert(out@ + entries(model.skip(i + 1)) =~= before + entries(
                    model.skip(i as int),
                ));
                i += 1;
            }
            assert(entries(model.skip(i as int)) =~= Seq::<u8>::empty());
            out.push(TagType::End.to_byte());
            assert(out@ =~= old(out)@ + payload(tag@));
        },
        NbtTag::IntArray(values) => {
            put_u32(out, values.len() as u32);
            put_ints(out, values.as_slice());
            assert(out@ =~= old(out)@ + payload(tag@));
        },
        NbtTag::LongArray(values) => {
            put_u32(out, values.len() as u32);
            put_longs(out, values.as_slice());
            assert(out@ =~= old(out)@ + payload(tag@));
        },
    }
}

/// The bytes of `tag` under the name `name`: its tag type, its name and its
/// payload, or for `End` the single byte `0x00`.
///
/// A tag that cannot be written is refused whole, with the first obstacle in
/// reading order: a name or string of more than 32767 bytes and an array or
/// list of more than 2147483647 elements (`InvalidLength`), a list without
/// elements (`EmptySequence`) or with elements of more than one tag type
/// (`ElementTypesDiffer`), and an `End` as the value of a field (`WrongType`).
pub fn encode_tag(name: &str, tag: &NbtTag) -> (r: Result<Vec<u8>, Error>)
    ensures
        match check_named(name@, tag@) {
            Ok(_) => r matches Ok(bytes) && bytes@ == named(name@, tag@),
            Err(e) => r == Err::<Vec<u8>, Error>(e),
        },
{
    let kind = tag.tag_type();
    let name_bytes = name.as_bytes();
    if kind != TagType::End && name_bytes.len() > MAX_TEXT_LEN {
        return Err(Error::InvalidLength);
    }
    match validate(tag) {
        Err(e) => {
            return Err(e);
        },
        Ok(_) => {},
    }
    let mut out = Vec::new();
    put_header(&mut out, kind, name_bytes);
    put_payload(&mut out, tag);
    assert(out@ =~= named(name@, tag@));
    Ok(out)
}

} // verus!
