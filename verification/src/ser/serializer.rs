//! The byte sink of the adapter, and the rules for the outermost value.

use vstd::prelude::*;
use vstd::utf8::encode_utf8;
use crate::bytes::{
    be_u16, be_u32, be_u64, i16_bits, i32_bits, i64_bits, put_u16, put_u32, put_u64,
};
use crate::encode::{put_bytes, put_header, put_ints, put_longs, put_payload, put_text, validate};
use crate::error::Error;
use crate::nbt_tag::{NbtTag, Tag, TagType};
use crate::ser::map_serializer::MapSerializer;
use crate::ser::{cut, opened, refused, unsupported, wrote};
use crate::wire::{check, entry, header, payload, text, MAX_COUNT, MAX_TEXT_LEN};

verus! {

/// The bytes written so far.
///
/// A `Serializer` is where every builder of the adapter writes. As the
/// outermost writer it takes a map or a record only: the outermost frame of
/// the format is a named compound.
pub struct Serializer {
    out: Vec<u8>,
}

impl View for Serializer {
    type V = Seq<u8>;

    closed spec fn view(&self) -> Seq<u8> {
        self.out@
    }
}

impl Serializer {
    /// A serializer that writes behind what `writer` holds.
    pub fn new(writer: Vec<u8>) -> (r: Self)
        ensures
            r@ == writer@,
    {
        Serializer { out: writer }
    }

    /// All that was written.
    pub fn into_inner(self) -> (r: Vec<u8>)
        ensures
            r@ == self@,
    {
        self.out
    }

    /// The number of bytes written so far.
    pub fn len(&self) -> (r: usize)
        ensures
            r == self@.len(),
    {
        self.out.len()
    }

    /// Takes back what was written behind the first `len` bytes.
    pub fn truncate(&mut self, len: usize)
        ensures
            final(self)@ == cut(old(self)@, len as nat),
    {
        self.out.truncate(len);
        assert(self@ =~= cut(old(self)@, len as nat));
    }

    /// Appends one byte.
    pub fn put_u8(&mut self, v: u8)
        ensures
            final(self)@ == old(self)@ + seq![v],
    {
        self.out.push(v);
        assert(self@ =~= old(self)@ + seq![v]);
    }

    /// Appends the two bytes of `v`, most significant first.
    pub fn put_u16(&mut self, v: u16)
        ensures
            final(self)@ == old(self)@ + be_u16(v),
    {
        put_u16(&mut self.out, v);
    }

    /// Appends the four bytes of `v`, most significant first.
    pub fn put_u32(&mut self, v: u32)
        ensures
            final(self)@ == old(self)@ + be_u32(v),
    {
        put_u32(&mut self.out, v);
    }

    /// Appends the eight bytes of `v`, most significant first.
    pub fn put_u64(&mut self, v: u64)
        ensures
            final(self)@ == old(self)@ + be_u64(v),
    {
        put_u64(&mut self.out, v);
    }

    /// Appends `bytes`.
    pub fn put_bytes(&mut self, bytes: &[u8])
        ensures
            final(self)@ == old(self)@ + bytes@,
    {
        put_bytes(&mut self.out, bytes);
    }

    /// Appends a name or a string behind its 16-bit length; one of more than
    /// 32767 bytes is refused.
    pub fn put_text(&mut self, bytes: &[u8]) -> (r: Result<(), Error>)
        ensures
            bytes@.len() <= MAX_TEXT_LEN ==> r is Ok && final(self)@ == old(self)@ + text(bytes@),
            bytes@.len() > MAX_TEXT_LEN ==> r == Err::<(), Error>(Error::InvalidLength)
                && final(self)@ == old(self)@,
    {
        if bytes.len() > MAX_TEXT_LEN {
            return Err(Error::InvalidLength);
        }
        put_text(&mut self.out, bytes);
        Ok(())
    }

    /// Appends the header of a tag of type `kind` named `name`; a name of
    /// more than 32767 bytes is refused.
    pub fn put_header(&mut self, kind: TagType, name: &[u8]) -> (r: Result<(), Error>)
        ensures
            kind == TagType::End || name@.len() <= MAX_TEXT_LEN ==> r is Ok
                && final(self)@ == old(self)@ + header(kind, name@),
            kind != TagType::End && name@.len() > MAX_TEXT_LEN ==> r == Err::<(), Error>(
                Error::InvalidLength,
            ) && final(self)@ == old(self)@,
    {
        if kind != TagType::End && name.len() > MAX_TEXT_LEN {
            return Err(Error::InvalidLength);
        }
        put_header(&mut self.out, kind, name);
        Ok(())
    }

    /// Appends the payload of a tag that can be written.
    pub(crate) fn put_payload(&mut self, tag: &NbtTag)
        requires
            check(tag@) is Ok,
        ensures
            final(self)@ == old(self)@ + payload(tag@),
    {
        put_payload(&mut self.out, tag);
    }

    /// Writes `tag` under `name`, or refuses it whole and writes nothing.
    pub fn write_tag(&mut self, name: &[u8], tag: &NbtTag) -> (r: Result<(), Error>)
        ensures
            wrote(old(self)@, final(self)@, r, name@, tag@),
    {
        if tag.tag_type() != TagType::End && name.len() > MAX_TEXT_LEN {
            return Err(Error::InvalidLength);
        }
        match validate(tag) {
            Err(e) => {
                return Err(e);
            },
            Ok(_) => {},
        }
        put_header(&mut self.out, tag.tag_type(), name);
        put_payload(&mut self.out, tag);
        assert(self@ =~= old(self)@ + entry(name@, tag@));
        Ok(())
    }

    /// Writes a byte under `name`.
    pub fn write_byte(&mut self, name: &[u8], v: u8) -> (r: Result<(), Error>)
        ensures
            wrote(old(self)@, final(self)@, r, name@, Tag::Byte(v)),
    {
        if name.len() > MAX_TEXT_LEN {
            return Err(Error::InvalidLength);
        }
        put_header(&mut self.out, TagType::Byte, name);
        self.out.push(v);
        assert(self@ =~= old(self)@ + entry(name@, Tag::Byte(v)));
        Ok(())
    }

    /// Writes a 16-bit integer under `name`.
    pub fn write_short(&mut self, name: &[u8], v: i16) -> (r: Result<(), Error>)
        ensures
            wrote(old(self)@, final(self)@, r, name@, Tag::Short(v)),
    {
        if name.len() > MAX_TEXT_LEN {
            return Err(Error::InvalidLength);
        }
        put_header(&mut self.out, TagType::Short, name);
        put_u16(&mut self.out, i16_bits(v));
        assert(self@ =~= old(self)@ + entry(name@, Tag::Short(v)));
        Ok(())
    }

    /// Writes a 32-bit integer under `name`.
    pub fn write_int(&mut self, name: &[u8], v: i32) -> (r: Result<(), Error>)
        ensures
            wrote(old(self)@, final(self)@, r, name@, Tag::Int(v)),
    {
        if name.len() > MAX_TEXT_LEN {
            return Err(Error::InvalidLength);
        }
        put_header(&mut self.out, TagType::Int, name);
        put_u32(&mut self.out, i32_bits(v));
        assert(self@ =~= old(self)@ + entry(name@, Tag::Int(v)));
        Ok(())
    }

    /// Writes a 64-bit integer under `name`.
    pub fn write_long(&mut self, name: &[u8], v: i64) -> (r: Result<(), Error>)
        ensures
            wrote(old(self)@, final(self)@, r, name@, Tag::Long(v)),
    {
        if name.len() > MAX_TEXT_LEN {
            return Err(Error::InvalidLength);
        }
        put_header(&mut self.out, TagType::Long, name);
        put_u64(&mut self.out, i64_bits(v));
        assert(self@ =~= old(self)@ + entry(name@, Tag::Long(v)));
        Ok(())
    }

    /// Writes a 32-bit float, given by its bits, under `name`.
    pub fn write_float(&mut self, name: &[u8], bits: u32) -> (r: Result<(), Error>)
        ensures
            wrote(old(self)@, final(self)@, r, name@, Tag::Float(bits)),
    {
        if name.len() > MAX_TEXT_LEN {
            return Err(Error::InvalidLength);
        }
        put_header(&mut self.out, TagType::Float, name);
        put_u32(&mut self.out, bits);
        assert(self@ =~= old(self)@ + entry(name@, Tag::Float(bits)));
        Ok(())
    }

    /// Writes a 64-bit float, given by its bits, under `name`.
    pub fn write_double(&mut self, name: &[u8], bits: u64) -> (r: Result<(), Error>)
        ensures
            wrote(old(self)@, final(self)@, r, name@, Tag::Double(bits)),
    {
        if name.len() > MAX_TEXT_LEN {
            return Err(Error::InvalidLength);
        }
        put_header(&mut self.out, TagType::Double, name);
        put_u64(&mut self.out, bits);
        assert(self@ =~= old(self)@ + entry(name@, Tag::Double(bits)));
        Ok(())
    }

    /// Writes a string under `name`.
    pub fn write_string(&mut self, name: &[u8], v: &str) -> (r: Result<(), Error>)
        ensures
            wrote(old(self)@, final(self)@, r, name@, Tag::String(v@)),
    {
        let bytes = v.as_bytes();
        if name.len() > MAX_TEXT_LEN || bytes.len() > MAX_TEXT_LEN {
            return Err(Error::InvalidLength);
        }
        put_header(&mut self.out, TagType::String, name);
        put_text(&mut self.out, bytes);
        assert(self@ =~= old(self)@ + entry(name@, Tag::String(v@)));
        Ok(())
    }

    /// Writes a byte array under `name`.
    pub fn write_byte_array(&mut self, name: &[u8], v: &[u8]) -> (r: Result<(), Error>)
        ensures
            wrote(old(self)@, final(self)@, r, name@, Tag::ByteArray(v@)),
    {
        if name.len() > MAX_TEXT_LEN || v.len() > MAX_COUNT {
            return Err(Error::InvalidLength);
        }
        put_header(&mut self.out, TagType::ByteArray, name);
        put_u32(&mut self.out, v.len() as u32);
        put_bytes(&mut self.out, v);
        assert(self@ =~= old(self)@ + entry(name@, Tag::ByteArray(v@)));
        Ok(())
    }

    /// Writes an int array under `name`.
    pub fn write_int_array(&mut self, name: &[u8], v: &[i32]) -> (r: Result<(), Error>)
        ensures
            wrote(old(self)@, final(self)@, r, name@, Tag::IntArray(v@)),
    {
        if name.len() > MAX_TEXT_LEN || v.len() > MAX_COUNT {
            return Err(Error::InvalidLength);
        }
        put_header(&mut self.out, TagType::IntArray, name);
        put_u32(&mut self.out, v.len() as u32);
        put_ints(&mut self.out, v);
        assert(self@ =~= old(self)@ + entry(name@, Tag::IntArray(v@)));
        Ok(())
    }

    /// Writes a long array under `name`.
    pub fn write_long_array(&mut self, name: &[u8], v: &[i64]) -> (r: Result<(), Error>)
        ensures
            wrote(old(self)@, final(self)@, r, name@, Tag::LongArray(v@)),
    {
        if name.len() > MAX_TEXT_LEN || v.len() > MAX_COUNT {
            return Err(Error::InvalidLength);
        }
        put_header(&mut self.out, TagType::LongArray, name);
        put_u32(&mut self.out, v.len() as u32);
        put_longs(&mut self.out, v);
        assert(self@ =~= old(self)@ + entry(name@, Tag::LongArray(v@)));
        Ok(())
    }

    /// Opens a compound named `name`: writes its header. The fields follow,
    /// and [`Serializer::write_end`] closes it.
    pub fn write_compound_header(&mut self, name: &[u8]) -> (r: Result<(), Error>)
        ensures
            name@.len() <= MAX_TEXT_LEN ==> r is Ok && final(self)@ == old(self)@ + header(
                TagType::Compound,
                name@,
            ),
            name@.len() > MAX_TEXT_LEN ==> r == Err::<(), Error>(Error::InvalidLength)
                && final(self)@ == old(self)@,
    {
        self.put_header(TagType::Compound, name)
    }

    /// Closes a compound: writes the `End` byte.
    pub fn write_end(&mut self)
        ensures
            final(self)@ == old(self)@ + seq![TagType::End.code()],
    {
        self.put_u8(TagType::End.to_byte());
    }

    /// Starts a compound named `name`: writes its header and hands out the
    /// builder that takes its fields and closes it.
    pub fn start_compound(&mut self, name: &str) -> (r: Result<MapSerializer, Error>)
        ensures
            opened(old(self)@, final(self)@, r, encode_utf8(name@)),
    {
        match self.put_header(TagType::Compound, name.as_bytes()) {
            Err(e) => Err(e),
            Ok(_) => Ok(MapSerializer::new()),
        }
    }

    /// Starts the outermost compound, a map, under the empty name.
    pub fn serialize_map(&mut self, len: Option<usize>) -> (r: Result<MapSerializer, Error>)
        ensures
            opened(old(self)@, final(self)@, r, Seq::empty()),
    {
        let name: Vec<u8> = Vec::new();
        assert(name@ =~= Seq::<u8>::empty());
        match self.put_header(TagType::Compound, name.as_slice()) {
            Err(e) => Err(e),
            Ok(_) => Ok(MapSerializer::new()),
        }
    }

    /// Starts the outermost compound, a record, under the record's name.
    pub fn serialize_struct(&mut self, name: &str, len: usize) -> (r: Result<
        MapSerializer,
        Error,
    >)
        ensures
            opened(old(self)@, final(self)@, r, encode_utf8(name@)),
    {
        self.start_compound(name)
    }

    /// A truth value cannot be the outermost value.
    pub fn serialize_bool(&self, v: bool) -> (r: Result<(), Error>)
        ensures
            r == Err::<(), Error>(Error::WrongType),
    {
        Err(Error::WrongType)
    }

    /// An integer cannot be the outermost value.
    pub fn serialize_i8(&self, v: i8) -> (r: Result<(), Error>)
        ensures
            r == Err::<(), Error>(Error::WrongType),
    {
        Err(Error::WrongType)
    }

    /// An integer cannot be the outermost value.
    pub fn serialize_i16(&self, v: i16) -> (r: Result<(), Error>)
        ensures
            r == Err::<(), Error>(Error::WrongType),
    {
        Err(Error::WrongType)
    }

    /// An integer cannot be the outermost value.
    pub fn serialize_i32(&self, v: i32) -> (r: Result<(), Error>)
        ensures
            r == Err::<(), Error>(Error::WrongType),
    {
        Err(Error::WrongType)
    }

    /// An integer cannot be the outermost value.
    pub fn serialize_i64(&self, v: i64) -> (r: Result<(), Error>)
        ensures
            r == Err::<(), Error>(Error::WrongType),
    {
        Err(Error::WrongType)
    }

    /// An integer cannot be the outermost value.
    pub fn serialize_u8(&self, v: u8) -> (r: Result<(), Error>)
        ensures
            r == Err::<(), Error>(Error::WrongType),
    {
        Err(Error::WrongType)
    }

    /// An integer cannot be the outermost value.
    pub fn serialize_u16(&self, v: u16) -> (r: Result<(), Error>)
        ensures
            r == Err::<(), Error>(Error::WrongType),
    {
        Err(Error::WrongType)
    }

    /// An integer cannot be the outermost value.
    pub fn serialize_u32(&self, v: u32) -> (r: Result<(), Error>)
        ensures
            r == Err::<(), Error>(Error::WrongType),
    {
        Err(Error::WrongType)
    }

    /// An integer cannot be the outermost value.
    pub fn serialize_u64(&self, v: u64) -> (r: Result<(), Error>)
        ensures
            r == Err::<(), Error>(Error::WrongType),
    {
        Err(Error::WrongType)
    }

    /// A float cannot be the outermost value.
    pub fn serialize_f32(&self, bits: u32) -> (r: Result<(), Error>)
        ensures
            r == Err::<(), Error>(Error::WrongType),
    {
        Err(Error::WrongType)
    }

    /// A float cannot be the outermost value.
    pub fn serialize_f64(&self, bits: u64) -> (r: Result<(), Error>)
        ensures
            r == Err::<(), Error>(Error::WrongType),
    {
        Err(Error::WrongType)
    }

    /// A character cannot be the outermost value.
    pub fn serialize_char(&self, v: char) -> (r: Result<(), Error>)
        ensures
            r == Err::<(), Error>(Error::WrongType),
    {
        Err(Error::WrongType)
    }

    /// A string cannot be the outermost value.
    pub fn serialize_str(&self, v: &str) -> (r: Result<(), Error>)
        ensures
            r == Err::<(), Error>(Error::WrongType),
    {
        Err(Error::WrongType)
    }

    /// A run of bytes cannot be the outermost value.
    pub fn serialize_bytes(&self, v: &[u8]) -> (r: Result<(), Error>)
        ensures
            r == Err::<(), Error>(Error::WrongType),
    {
        Err(Error::WrongType)
    }

    /// A sequence cannot be the outermost value.
    pub fn serialize_seq(&self, len: Option<usize>) -> (r: Result<(), Error>)
        ensures
            r == Err::<(), Error>(Error::WrongType),
    {
        Err(Error::WrongType)
    }

    /// A tuple cannot be the outermost value.
    pub fn serialize_tuple(&self, len: usize) -> (r: Result<(), Error>)
        ensures
            r == Err::<(), Error>(Error::WrongType),
    {
        Err(Error::WrongType)
    }

    /// A tuple record cannot be the outermost value.
    pub fn serialize_tuple_struct(&self, name: &str, len: usize) -> (r: Result<(), Error>)
        ensures
            r == Err::<(), Error>(Error::WrongType),
    {
        Err(Error::WrongType)
    }

    /// An absent value has no place in the format.
    pub fn serialize_none(&self) -> (r: Result<(), Error>)
        ensures
            refused(r, "serialize_none"@),
    {
        Err(unsupported("serialize_none"))
    }

    /// The empty value has no place in the format.
    pub fn serialize_unit(&self) -> (r: Result<(), Error>)
        ensures
            refused(r, "serialize_unit"@),
    {
        Err(unsupported("serialize_unit"))
    }

    /// A record without fields has no place in the format.
    pub fn serialize_unit_struct(&self, name: &str) -> (r: Result<(), Error>)
        ensures
            refused(r, "serialize_unit_struct"@),
    {
        Err(unsupported("serialize_unit_struct"))
    }

    /// A variant without fields has no place in the format.
    pub fn serialize_unit_variant(&self, name: &str, variant_index: u32, variant: &str) -> (r: Result<(), Error>)
        ensures
            refused(r, "serialize_unit_variant"@),
    {
        Err(unsupported("serialize_unit_variant"))
    }

    /// A variant around one value has no place in the format.
    pub fn serialize_newtype_variant(&self, name: &str, variant_index: u32, variant: &str) -> (r: Result<(), Error>)
        ensures
            refused(r, "serialize_newtype_variant"@),
    {
        Err(unsupported("serialize_newtype_variant"))
    }

    /// A tuple variant has no place in the format.
    pub fn serialize_tuple_variant(&self, name: &str, variant_index: u32, variant: &str, len: usize) -> (r: Result<(), Error>)
        ensures
            refused(r, "serialize_tuple_variant"@),
    {
        Err(unsupported("serialize_tuple_variant"))
    }

    /// A record variant has no place in the format.
    pub fn serialize_struct_variant(&self, name: &str, variant_index: u32, variant: &str, len: usize) -> (r: Result<(), Error>)
        ensures
            refused(r, "serialize_struct_variant"@),
    {
        Err(unsupported("serialize_struct_variant"))
    }
}

} // verus!
