//! The writer of one named value: the value of a field of a compound.

use vstd::prelude::*;
use vstd::slice::slice_to_vec;
use crate::bytes::{i16_of_u16, i32_of_u32, i64_of_u64, i8_bits, u16_bits, u32_bits, u64_bits, u8_of_i8};
use crate::error::Error;
use crate::nbt_tag::{Tag, TagType};
use crate::ser::map_serializer::MapSerializer;
use crate::ser::seq_serializer::SeqSerializer;
use crate::ser::serializer::Serializer;
use crate::ser::{opened, refused, unsupported, wrote};

verus! {

/// The byte that a character is written as where a value is expected: its
/// code point, if that is at most `0xff`.
pub open spec fn char_byte(c: char) -> Option<u8> {
    if (c as u32) <= 0xff {
        Some((c as u32) as u8)
    } else {
        None
    }
}

/// The writer of the value of one field: it knows the field's name and
/// writes the value as the tag that fits its shape.
pub struct ValueSerializer {
    name: Vec<u8>,
}

impl ValueSerializer {
    /// The name that the value is written under.
    pub closed spec fn name(self) -> Seq<u8> {
        self.name@
    }

    /// The writer of a value named `name`.
    pub fn new(name: Vec<u8>) -> (r: Self)
        ensures
            r.name() == name@,
    {
        ValueSerializer { name }
    }

    /// A truth value is written as the byte 1 or 0.
    pub fn serialize_bool(&self, ser: &mut Serializer, v: bool) -> (r: Result<(), Error>)
        ensures
            wrote(old(ser)@, final(ser)@, r, self.name(), Tag::Byte(if v { 1u8 } else { 0u8 })),
    {
        ser.write_byte(self.name.as_slice(), if v { 1 } else { 0 })
    }

    /// A signed byte is written as the byte with its bits.
    pub fn serialize_i8(&self, ser: &mut Serializer, v: i8) -> (r: Result<(), Error>)
        ensures
            wrote(old(ser)@, final(ser)@, r, self.name(), Tag::Byte(u8_of_i8(v))),
    {
        ser.write_byte(self.name.as_slice(), i8_bits(v))
    }

    /// A 16-bit integer is written as a short.
    pub fn serialize_i16(&self, ser: &mut Serializer, v: i16) -> (r: Result<(), Error>)
        ensures
            wrote(old(ser)@, final(ser)@, r, self.name(), Tag::Short(v)),
    {
        ser.write_short(self.name.as_slice(), v)
    }

    /// A 32-bit integer is written as an int.
    pub fn serialize_i32(&self, ser: &mut Serializer, v: i32) -> (r: Result<(), Error>)
        ensures
            wrote(old(ser)@, final(ser)@, r, self.name(), Tag::Int(v)),
    {
        ser.write_int(self.name.as_slice(), v)
    }

    /// A 64-bit integer is written as a long.
    pub fn serialize_i64(&self, ser: &mut Serializer, v: i64) -> (r: Result<(), Error>)
        ensures
            wrote(old(ser)@, final(ser)@, r, self.name(), Tag::Long(v)),
    {
        ser.write_long(self.name.as_slice(), v)
    }

    /// A byte is written as a byte.
    pub fn serialize_u8(&self, ser: &mut Serializer, v: u8) -> (r: Result<(), Error>)
        ensures
            wrote(old(ser)@, final(ser)@, r, self.name(), Tag::Byte(v)),
    {
        ser.write_byte(self.name.as_slice(), v)
    }

    /// An unsigned 16-bit integer is written as the short with its bits.
    pub fn serialize_u16(&self, ser: &mut Serializer, v: u16) -> (r: Result<(), Error>)
        ensures
            wrote(old(ser)@, final(ser)@, r, self.name(), Tag::Short(i16_of_u16(v))),
    {
        ser.write_short(self.name.as_slice(), u16_bits(v))
    }

    /// An unsigned 32-bit integer is written as the int with its bits.
    pub fn serialize_u32(&self, ser: &mut Serializer, v: u32) -> (r: Result<(), Error>)
        ensures
            wrote(old(ser)@, final(ser)@, r, self.name(), Tag::Int(i32_of_u32(v))),
    {
        ser.write_int(self.name.as_slice(), u32_bits(v))
    }

    /// An unsigned 64-bit integer is written as the long with its bits.
    pub fn serialize_u64(&self, ser: &mut Serializer, v: u64) -> (r: Result<(), Error>)
        ensures
            wrote(old(ser)@, final(ser)@, r, self.name(), Tag::Long(i64_of_u64(v))),
    {
        ser.write_long(self.name.as_slice(), u64_bits(v))
    }

    /// A 32-bit float, given by its bits, is written as a float.
    pub fn serialize_f32(&self, ser: &mut Serializer, bits: u32) -> (r: Result<(), Error>)
        ensures
            wrote(old(ser)@, final(ser)@, r, self.name(), Tag::Float(bits)),
    {
        ser.write_float(self.name.as_slice(), bits)
    }

    /// A 64-bit float, given by its bits, is written as a double.
    pub fn serialize_f64(&self, ser: &mut Serializer, bits: u64) -> (r: Result<(), Error>)
        ensures
            wrote(old(ser)@, final(ser)@, r, self.name(), Tag::Double(bits)),
    {
        ser.write_double(self.name.as_slice(), bits)
    }

    /// Text is written as a string.
    pub fn serialize_str(&self, ser: &mut Serializer, v: &str) -> (r: Result<(), Error>)
        ensures
            wrote(old(ser)@, final(ser)@, r, self.name(), Tag::String(v@)),
    {
        ser.write_string(self.name.as_slice(), v)
    }

    /// A run of bytes is written as a byte array.
    pub fn serialize_bytes(&self, ser: &mut Serializer, v: &[u8]) -> (r: Result<(), Error>)
        ensures
            wrote(old(ser)@, final(ser)@, r, self.name(), Tag::ByteArray(v@)),
    {
        ser.write_byte_array(self.name.as_slice(), v)
    }

    /// A character up to `0xff` is written as the byte of its code point; any
    /// other has no place in the format.
    pub fn serialize_char(&self, ser: &mut Serializer, v: char) -> (r: Result<(), Error>)
        ensures
            match char_byte(v) {
                Some(b) => wrote(old(ser)@, final(ser)@, r, self.name(), Tag::Byte(b)),
                None => refused(r, "serialize_char"@) && final(ser)@ == old(ser)@,
            },
    {
        let code = v as u32;
        if code <= 0xff {
            ser.write_byte(self.name.as_slice(), code as u8)
        } else {
            Err(unsupported("serialize_char"))
        }
    }

    /// An absent value has no place in the format.
    pub fn serialize_none(&self) -> (r: Result<(), Error>)
        ensures
            refused(r, "serialize_none"@),
    {
        Err(unsupported("serialize_none"))
    }

    /// The empty value has no place in the format.
    pub fn serialize_unit(&self) -> (r: Result<(), Error>)
        ensures
            refused(r, "serialize_unit"@),
    {
        Err(unsupported("serialize_unit"))
    }

    /// A record without fields has no place in the format.
    pub fn serialize_unit_struct(&self, name: &str) -> (r: Result<(), Error>)
        ensures
            refused(r, "serialize_unit_struct"@),
    {
        Err(unsupported("serialize_unit_struct"))
    }

    /// A variant without fields has no place in the format.
    pub fn serialize_unit_variant(&self, name: &str, variant_index: u32, variant: &str) -> (r: Result<(), Error>)
        ensures
            refused(r, "serialize_unit_variant"@),
    {
        Err(unsupported("serialize_unit_variant"))
    }

    /// A variant around one value has no place in the format.
    pub fn serialize_newtype_variant(&self, name: &str, variant_index: u32, variant: &str) -> (r: Result<(), Error>)
        ensures
            refused(r, "serialize_newtype_variant"@),
    {
        Err(unsupported("serialize_newtype_variant"))
    }

    /// A tuple variant has no place in the format.
    pub fn serialize_tuple_variant(
        &self,
        name: &str,
        variant_index: u32,
        variant: &str,
        len: usize,
    ) -> (r: Result<SeqSerializer, Error>)
        ensures
            refused(r, "serialize_tuple_variant"@),
    {
        Err(unsupported("serialize_tuple_variant"))
    }

    /// A record variant has no place in the format.
    pub fn serialize_struct_variant(
        &self,
        name: &str,
        variant_index: u32,
        variant: &str,
        len: usize,
    ) -> (r: Result<MapSerializer, Error>)
        ensures
            refused(r, "serialize_struct_variant"@),
    {
        Err(unsupported("serialize_struct_variant"))
    }

    /// Starts a sequence of `len` elements under the name; its first element
    /// chooses what it is written as. A sequence whose length is not known
    /// beforehand cannot be written: its count stands in front of its
    /// elements.
    pub fn serialize_seq(&self, len: Option<usize>) -> (r: Result<SeqSerializer, Error>)
        ensures
            match len {
                None => r matches Err(Error::UnknownSize),
                Some(n) => r matches Ok(seq) && seq.fresh(Some(self.name()), n, TagType::List),
            },
    {
        match len {
            None => Err(Error::UnknownSize),
            Some(n) => Ok(SeqSerializer::inferring(slice_to_vec(self.name.as_slice()), n)),
        }
    }

    /// Starts a tuple of `len` elements under the name, as a sequence.
    pub fn serialize_tuple(&self, len: usize) -> (r: Result<SeqSerializer, Error>)
        ensures
            r matches Ok(seq) && seq.fresh(Some(self.name()), len, TagType::List),
    {
        Ok(SeqSerializer::inferring(slice_to_vec(self.name.as_slice()), len))
    }

    /// Starts a tuple record of `len` elements under the name, as a sequence.
    pub fn serialize_tuple_struct(&self, name: &str, len: usize) -> (r: Result<
        SeqSerializer,
        Error,
    >)
        ensures
            r matches Ok(seq) && seq.fresh(Some(self.name()), len, TagType::List),
    {
        Ok(SeqSerializer::inferring(slice_to_vec(self.name.as_slice()), len))
    }

    /// Starts a compound under the name: writes its header.
    pub fn serialize_map(&self, ser: &mut Serializer, len: Option<usize>) -> (r: Result<
        MapSerializer,
        Error,
    >)
        ensures
            opened(old(ser)@, final(ser)@, r, self.name()),
    {
        match ser.write_compound_header(self.name.as_slice()) {
            Err(e) => Err(e),
            Ok(_) => Ok(MapSerializer::new()),
        }
    }

    /// Starts a compound under the name: writes its header. The name of the
    /// record itself is not written.
    pub fn serialize_struct(&self, ser: &mut Serializer, name: &str, len: usize) -> (r: Result<
        MapSerializer,
        Error,
    >)
        ensures
            opened(old(ser)@, final(ser)@, r, self.name()),
    {
        self.serialize_map(ser, None)
    }
}

} // verus!
