//! The wire format, stated over the model: the bytes of a tag, which tags
//! have bytes at all, and what a run of bytes reads as.
//!
//! All integers are big-endian. A named tag is its tag type, its name behind
//! a 16-bit length, and its payload; `End` is the single byte `0x00`. A string
//! carries a 16-bit length, an array or a list a 32-bit count, both signed.
//! The elements of a list are bare payloads of one tag type; a compound is a
//! run of named tags closed by `End`.

use vstd::prelude::*;
use vstd::utf8::{decode_utf8, encode_utf8, valid_utf8};
use crate::bytes::{be_i16, be_i32, be_i64, be_u16, be_u32, be_u64};
use crate::bytes::{i16_of_u16, i32_of_u32, i64_of_u64, u16_of_be, u32_of_be, u64_of_be};
use crate::error::Error;
use crate::nbt_tag::{Tag, TagType};

verus! {

/// The longest name or string, in bytes, that a 16-bit signed length holds.
pub const MAX_TEXT_LEN: usize = 0x7fff;

/// The largest count that a 32-bit signed count holds.
pub const MAX_COUNT: usize = 0x7fff_ffff;

/// A name or a string on the wire: its length in 16 bits, then its bytes.
pub open spec fn text(bytes: Seq<u8>) -> Seq<u8> {
    be_u16(bytes.len() as u16) + bytes
}

/// What precedes the payload of a named tag: the tag type and the name.
/// `End` has no name.
pub open spec fn header(kind: TagType, name: Seq<u8>) -> Seq<u8> {
    if kind == TagType::End {
        seq![kind.code()]
    } else {
        seq![kind.code()] + text(name)
    }
}

/// The elements of an int array, four bytes each.
pub open spec fn ints(values: Seq<i32>) -> Seq<u8> {
    Seq::new(4 * values.len(), |j: int| be_i32(values[j / 4])[j % 4])
}

/// The elements of a long array, eight bytes each.
pub open spec fn longs(values: Seq<i64>) -> Seq<u8> {
    Seq::new(8 * values.len(), |j: int| be_i64(values[j / 8])[j % 8])
}

/// The tag type that a list declares for its elements: that of the first
/// one. (A list without elements is never written.)
pub open spec fn element_type(tags: Seq<Tag>) -> TagType {
    if tags.len() == 0 {
        TagType::End
    } else {
        tags[0].tag_type()
    }
}

/// The payload of a tag: its bytes without tag type and name.
pub open spec fn payload(tag: Tag) -> Seq<u8>
    decreases tag,
{
    match tag {
        Tag::End => Seq::empty(),
        Tag::Byte(v) => seq![v],
        Tag::Short(v) => be_i16(v),
        Tag::Int(v) => be_i32(v),
        Tag::Long(v) => be_i64(v),
        Tag::Float(bits) => be_u32(bits),
        Tag::Double(bits) => be_u64(bits),
        Tag::ByteArray(bytes) => be_u32(bytes.len() as u32) + bytes,
        Tag::String(chars) => text(encode_utf8(chars)),
        Tag::List(tags) => seq![element_type(tags).code()] + be_u32(tags.len() as u32) + payloads(
            tags,
        ),
        Tag::Compound(fields) => entries(fields) + seq![TagType::End.code()],
        Tag::IntArray(values) => be_u32(values.len() as u32) + ints(values),
        Tag::LongArray(values) => be_u32(values.len() as u32) + longs(values),
    }
}

/// The payloads of the elements of a list, one after the other.
pub open spec fn payloads(tags: Seq<Tag>) -> Seq<u8>
    decreases tags,
{
    if tags.len() == 0 {
        Seq::empty()
    } else {
        payload(tags[0]) + payloads(tags.drop_first())
    }
}

/// The fields of a compound as named tags, one after the other.
pub open spec fn entries(fields: Seq<(Seq<char>, Tag)>) -> Seq<u8>
    decreases fields,
{
    if fields.len() == 0 {
        Seq::empty()
    } else {
        header(fields[0].1.tag_type(), encode_utf8(fields[0].0)) + payload(fields[0].1) + entries(
            fields.drop_first(),
        )
    }
}

/// A tag under a name given as bytes: header, then payload.
pub open spec fn entry(name: Seq<u8>, tag: Tag) -> Seq<u8> {
    header(tag.tag_type(), name) + payload(tag)
}

/// A tag under a name: header, then payload.
pub open spec fn named(name: Seq<char>, tag: Tag) -> Seq<u8> {
    entry(encode_utf8(name), tag)
}

/// All tags of a list are of the tag type of the first.
pub open spec fn same_type(tags: Seq<Tag>) -> bool {
    forall|i: int| 0 <= i < tags.len() ==> (#[trigger] tags[i]).tag_type() == element_type(tags)
}

/// Whether a tag can be written, and if not, why not. The first obstacle met
/// in reading order decides; within a list, its own shape is judged before
/// its elements.
pub open spec fn check(tag: Tag) -> Result<(), Error>
    decreases tag,
{
    match tag {
        Tag::ByteArray(bytes) => check_count(bytes.len()),
        Tag::String(chars) => check_text(encode_utf8(chars)),
        Tag::List(tags) => {
            if tags.len() == 0 {
                Err(Error::EmptySequence)
            } else if !same_type(tags) {
                Err(Error::ElementTypesDiffer)
            } else if tags.len() > MAX_COUNT {
                Err(Error::InvalidLength)
            } else {
                check_all(tags)
            }
        },
        Tag::Compound(fields) => check_fields(fields),
        Tag::IntArray(values) => check_count(values.len()),
        Tag::LongArray(values) => check_count(values.len()),
        _ => Ok(()),
    }
}

/// A 32-bit signed count holds `n`.
pub open spec fn check_count(n: nat) -> Result<(), Error> {
    if n > MAX_COUNT {
        Err(Error::InvalidLength)
    } else {
        Ok(())
    }
}

/// A 16-bit signed length holds the length of `bytes`.
pub open spec fn check_text(bytes: Seq<u8>) -> Result<(), Error> {
    if bytes.len() > MAX_TEXT_LEN {
        Err(Error::InvalidLength)
    } else {
        Ok(())
    }
}

/// The first obstacle among the elements of a list.
pub open spec fn check_all(tags: Seq<Tag>) -> Result<(), Error>
    decreases tags,
{
    if tags.len() == 0 {
        Ok(())
    } else {
        match check(tags[0]) {
            Err(e) => Err(e),
            Ok(_) => check_all(tags.drop_first()),
        }
    }
}

/// The first obstacle among the fields of a compound. `End` closes a
/// compound and cannot be the value of a field.
pub open spec fn check_fields(fields: Seq<(Seq<char>, Tag)>) -> Result<(), Error>
    decreases fields,
{
    if fields.len() == 0 {
        Ok(())
    } else if fields[0].1 is End {
        Err(Error::WrongType)
    } else if encode_utf8(fields[0].0).len() > MAX_TEXT_LEN {
        Err(Error::InvalidLength)
    } else {
        match check(fields[0].1) {
            Err(e) => Err(e),
            Ok(_) => check_fields(fields.drop_first()),
        }
    }
}

/// Whether a tag can be written under a name given as bytes, and if not,
/// why not. The name of an `End` is never written, so it is not judged.
pub open spec fn check_entry(name: Seq<u8>, tag: Tag) -> Result<(), Error> {
    if !(tag is End) && name.len() > MAX_TEXT_LEN {
        Err(Error::InvalidLength)
    } else {
        check(tag)
    }
}

/// Whether a tag can be written under a name, and if not, why not.
pub open spec fn check_named(name: Seq<char>, tag: Tag) -> Result<(), Error> {
    check_entry(encode_utf8(name), tag)
}

/// What reading a value of type `T` off the front of some bytes gives: the
/// value and the bytes behind it, or the reason why there is none.
pub type Parsed<T> = Result<(T, Seq<u8>), Error>;

/// One byte.
pub open spec fn parse_u8(s: Seq<u8>) -> Parsed<u8> {
    if s.len() < 1 {
        Err(Error::Io)
    } else {
        Ok((s[0], s.skip(1)))
    }
}

/// A 16-bit integer.
pub open spec fn parse_u16(s: Seq<u8>) -> Parsed<u16> {
    if s.len() < 2 {
        Err(Error::Io)
    } else {
        Ok((u16_of_be(s), s.skip(2)))
    }
}

/// A 32-bit integer.
pub open spec fn parse_u32(s: Seq<u8>) -> Parsed<u32> {
    if s.len() < 4 {
        Err(Error::Io)
    } else {
        Ok((u32_of_be(s), s.skip(4)))
    }
}

/// A 64-bit integer.
pub open spec fn parse_u64(s: Seq<u8>) -> Parsed<u64> {
    if s.len() < 8 {
        Err(Error::Io)
    } else {
        Ok((u64_of_be(s), s.skip(8)))
    }
}

/// A 16-bit signed length, which must not be negative.
pub open spec fn parse_len16(s: Seq<u8>) -> Parsed<nat> {
    match parse_u16(s) {
        Err(e) => Err(e),
        Ok((n, rest)) => if i16_of_u16(n) < 0 {
            Err(Error::InvalidLength)
        } else {
            Ok((n as nat, rest))
        },
    }
}

/// A 32-bit signed count, which must not be negative.
pub open spec fn parse_count(s: Seq<u8>) -> Parsed<nat> {
    match parse_u32(s) {
        Err(e) => Err(e),
        Ok((n, rest)) => if i32_of_u32(n) < 0 {
            Err(Error::InvalidLength)
        } else {
            Ok((n as nat, rest))
        },
    }
}

/// As many bytes as a count says.
pub open spec fn parse_bytes(s: Seq<u8>, n: nat) -> Parsed<Seq<u8>> {
    if s.len() < n {
        Err(Error::Io)
    } else {
        Ok((s.take(n as int), s.skip(n as int)))
    }
}

/// A name or a string: a 16-bit length, then that many bytes of UTF-8.
pub open spec fn parse_text(s: Seq<u8>) -> Parsed<Seq<char>> {
    match parse_len16(s) {
        Err(e) => Err(e),
        Ok((n, rest)) => match parse_bytes(rest, n) {
            Err(e) => Err(e),
            Ok((bytes, rest)) => if valid_utf8(bytes) {
                Ok((decode_utf8(bytes), rest))
            } else {
                Err(Error::Utf8)
            },
        },
    }
}

/// The 32-bit integers that `4 * n` bytes hold.
pub open spec fn ints_of(bytes: Seq<u8>, n: nat) -> Seq<i32> {
    Seq::new(n, |i: int| i32_of_u32(u32_of_be(bytes.skip(4 * i))))
}

/// The 64-bit integers that `8 * n` bytes hold.
pub open spec fn longs_of(bytes: Seq<u8>, n: nat) -> Seq<i64> {
    Seq::new(n, |i: int| i64_of_u64(u64_of_be(bytes.skip(8 * i))))
}

/// The payload of a tag of the given type.
///
/// A list reads its element type and its count; with a count of zero the
/// list is empty whatever byte stands for the element type.
pub open spec fn parse_payload(kind: TagType, s: Seq<u8>) -> Parsed<Tag>
    decreases s.len(), 1nat,
{
    match kind {
        TagType::End => Ok((Tag::End, s)),
        TagType::Byte => match parse_u8(s) {
            Err(e) => Err(e),
            Ok((v, rest)) => Ok((Tag::Byte(v), rest)),
        },
        TagType::Short => match parse_u16(s) {
            Err(e) => Err(e),
            Ok((v, rest)) => Ok((Tag::Short(i16_of_u16(v)), rest)),
        },
        TagType::Int => match parse_u32(s) {
            Err(e) => Err(e),
            Ok((v, rest)) => Ok((Tag::Int(i32_of_u32(v)), rest)),
        },
        TagType::Long => match parse_u64(s) {
            Err(e) => Err(e),
            Ok((v, rest)) => Ok((Tag::Long(i64_of_u64(v)), rest)),
        },
        TagType::Float => match parse_u32(s) {
            Err(e) => Err(e),
            Ok((v, rest)) => Ok((Tag::Float(v), rest)),
        },
        TagType::Double => match parse_u64(s) {
            Err(e) => Err(e),
            Ok((v, rest)) => Ok((Tag::Double(v), rest)),
        },
        TagType::ByteArray => match parse_count(s) {
            Err(e) => Err(e),
            Ok((n, rest)) => match parse_bytes(rest, n) {
                Err(e) => Err(e),
                Ok((bytes, rest)) => Ok((Tag::ByteArray(bytes), rest)),
            },
        },
        TagType::String => match parse_text(s) {
            Err(e) => Err(e),
            Ok((chars, rest)) => Ok((Tag::String(chars), rest)),
        },
        TagType::List => match parse_u8(s) {
            Err(e) => Err(e),
            Ok((code, rest)) => match parse_count(rest) {
                Err(e) => Err(e),
                Ok((n, rest)) => if n == 0 {
                    Ok((Tag::List(Seq::empty()), rest))
                } else {
                    match TagType::of_code(code) {
                        None => Err(Error::UnknownTagType(code)),
                        Some(element) => match parse_elements(element, n, rest) {
                            Err(e) => Err(e),
                            Ok((tags, rest)) => Ok((Tag::List(tags), rest)),
                        },
                    }
                },
            },
        },
        TagType::Compound => match parse_fields(s) {
            Err(e) => Err(e),
            Ok((fields, rest)) => Ok((Tag::Compound(fields), rest)),
        },
        TagType::IntArray => match parse_count(s) {
            Err(e) => Err(e),
            Ok((n, rest)) => match parse_bytes(rest, 4 * n) {
                Err(e) => Err(e),
                Ok((bytes, rest)) => Ok((Tag::IntArray(ints_of(bytes, n)), rest)),
            },
        },
        TagType::LongArray => match parse_count(s) {
            Err(e) => Err(e),
            Ok((n, rest)) => match parse_bytes(rest, 8 * n) {
                Err(e) => Err(e),
                Ok((bytes, rest)) => Ok((Tag::LongArray(longs_of(bytes, n)), rest)),
            },
        },
    }
}

/// `n` payloads of one tag type, one after the other.
///
/// (What is left after a payload is never longer than what was there before
/// it, see `lemma_parse_shortens`; the definition says so itself only to be
/// well-founded.)
pub open spec fn parse_elements(kind: TagType, n: nat, s: Seq<u8>) -> Parsed<Seq<Tag>>
    decreases s.len(), n + 2,
{
    if n == 0 {
        Ok((Seq::empty(), s))
    } else {
        match parse_payload(kind, s) {
            Err(e) => Err(e),
            Ok((tag, rest)) => if rest.len() > s.len() {
                Err(Error::Io)
            } else {
                match parse_elements(kind, (n - 1) as nat, rest) {
                    Err(e) => Err(e),
                    Ok((tags, rest)) => Ok((seq![tag] + tags, rest)),
                }
            },
        }
    }
}

/// Named tags up to and including the `End` that closes their compound.
///
/// (As for `parse_elements`: the test on lengths never fails.)
pub open spec fn parse_fields(s: Seq<u8>) -> Parsed<Seq<(Seq<char>, Tag)>>
    decreases s.len(), 0nat,
{
    match parse_u8(s) {
        Err(e) => Err(e),
        Ok((code, rest)) => match TagType::of_code(code) {
            None => Err(Error::UnknownTagType(code)),
            Some(TagType::End) => Ok((Seq::empty(), rest)),
            Some(kind) => match parse_text(rest) {
                Err(e) => Err(e),
                Ok((name, rest)) => if rest.len() >= s.len() {
                    Err(Error::Io)
                } else {
                    match parse_payload(kind, rest) {
                        Err(e) => Err(e),
                        Ok((tag, rest2)) => if rest2.len() > rest.len() {
                            Err(Error::Io)
                        } else {
                            match parse_fields(rest2) {
                                Err(e) => Err(e),
                                Ok((fields, rest3)) => Ok((seq![(name, tag)] + fields, rest3)),
                            }
                        },
                    }
                },
            },
        },
    }
}

/// The header of a tag: a tag type, then, unless it is `End`, a name. An
/// `End` reads under the empty name.
pub open spec fn parse_header(s: Seq<u8>) -> Parsed<(TagType, Seq<char>)> {
    match parse_u8(s) {
        Err(e) => Err(e),
        Ok((code, rest)) => match TagType::of_code(code) {
            None => Err(Error::UnknownTagType(code)),
            Some(TagType::End) => Ok(((TagType::End, Seq::empty()), rest)),
            Some(kind) => match parse_text(rest) {
                Err(e) => Err(e),
                Ok((name, rest)) => Ok(((kind, name), rest)),
            },
        },
    }
}

/// What stands in front of the elements of a sequence of type `kind`: for
/// an array its count, for a list the tag type of its elements and its
/// count. Gives the tag type of the elements and the count; for a list
/// without elements the tag type given is `End`. Anything but an array or a
/// list is no sequence.
pub open spec fn parse_seq_start(kind: TagType, s: Seq<u8>) -> Parsed<(TagType, nat)> {
    match kind {
        TagType::ByteArray => match parse_count(s) {
            Err(e) => Err(e),
            Ok((n, rest)) => Ok(((TagType::Byte, n), rest)),
        },
        TagType::IntArray => match parse_count(s) {
            Err(e) => Err(e),
            Ok((n, rest)) => Ok(((TagType::Int, n), rest)),
        },
        TagType::LongArray => match parse_count(s) {
            Err(e) => Err(e),
            Ok((n, rest)) => Ok(((TagType::Long, n), rest)),
        },
        TagType::List => match parse_u8(s) {
            Err(e) => Err(e),
            Ok((code, rest)) => match parse_count(rest) {
                Err(e) => Err(e),
                Ok((n, rest)) => if n == 0 {
                    Ok(((TagType::End, 0nat), rest))
                } else {
                    match TagType::of_code(code) {
                        None => Err(Error::UnknownTagType(code)),
                        Some(element) => Ok(((element, n), rest)),
                    }
                },
            },
        },
        _ => Err(Error::WrongType),
    }
}

/// One named tag: a tag type, then, unless it is `End`, a name and the
/// payload. An `End` reads as the tag `End` under the empty name.
pub open spec fn parse_named(s: Seq<u8>) -> Result<(Seq<char>, Tag, Seq<u8>), Error> {
    match parse_u8(s) {
        Err(e) => Err(e),
        Ok((code, rest)) => match TagType::of_code(code) {
            None => Err(Error::UnknownTagType(code)),
            Some(TagType::End) => Ok((Seq::empty(), Tag::End, rest)),
            Some(kind) => match parse_text(rest) {
                Err(e) => Err(e),
                Ok((name, rest)) => match parse_payload(kind, rest) {
                    Err(e) => Err(e),
                    Ok((tag, rest)) => Ok((name, tag, rest)),
                },
            },
        },
    }
}

} // verus!
