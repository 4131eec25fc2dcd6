//! The builder of a compound.

use vstd::prelude::*;
use vstd::slice::slice_to_vec;
use vstd::utf8::encode_utf8;
use crate::bytes::{i16_of_u16, i32_of_u32, i64_of_u64, u8_of_i8};
use crate::error::Error;
use crate::nbt_tag::{NbtTag, Tag, TagType};
use crate::ser::seq_serializer::SeqSerializer;
use crate::ser::serializer::Serializer;
use crate::ser::value_serializer::{char_byte, ValueSerializer};
use crate::ser::{opened, refused, wrote};

verus! {

/// How far a compound has come.
#[derive(Clone, Copy, Debug, PartialEq, Eq, Structural)]
pub enum MapState {
    /// Opened, no field yet.
    Empty,
    /// At least one field was begun.
    HasFields,
    /// Closed; nothing more can be written.
    Ended,
}

/// The builder of one compound whose header has been written: it takes
/// keys and values in turn and is closed by `end`. After `end` every call
/// fails with `Ended`.
pub struct MapSerializer {
    key: Option<Vec<u8>>,
    state: MapState,
}

impl MapSerializer {
    /// The key that the next value is written under, if one was given.
    pub closed spec fn key(self) -> Option<Seq<u8>> {
        match self.key {
            Some(k) => Some(k@),
            None => None,
        }
    }

    /// How far the compound has come.
    pub closed spec fn state(self) -> MapState {
        self.state
    }

    /// The name that a value would be written under now, or why none can
    /// be written.
    pub open spec fn value_name(self) -> Result<Seq<u8>, Error> {
        if self.state() == MapState::Ended {
            Err(Error::Ended)
        } else {
            match self.key() {
                None => Err(Error::MissingKey),
                Some(name) => Ok(name),
            }
        }
    }

    /// A call began the value of a field: the key stays, and where a value
    /// can be written the compound has fields from now on.
    pub open spec fn begins(self, later: MapSerializer) -> bool {
        &&& later.key() == self.key()
        &&& later.state() == if self.value_name() is Ok {
            MapState::HasFields
        } else {
            self.state()
        }
    }

    /// A call wrote `tag` under the key, whole, or refused and wrote nothing.
    pub open spec fn put(
        self,
        later: MapSerializer,
        before: Seq<u8>,
        after: Seq<u8>,
        r: Result<(), Error>,
        tag: Tag,
    ) -> bool {
        &&& self.begins(later)
        &&& match self.value_name() {
            Err(e) => r == Err::<(), Error>(e) && after == before,
            Ok(name) => wrote(before, after, r, name, tag),
        }
    }

    /// A call refused a value whose shape the format has no place for;
    /// `what` names the call.
    pub open spec fn declines<T>(self, later: MapSerializer, r: Result<T, Error>, what: Seq<char>) -> bool {
        &&& self.begins(later)
        &&& match self.value_name() {
            Err(e) => r matches Err(x) && x == e,
            Ok(_) => refused(r, what),
        }
    }

    /// The builder of a compound whose header has just been written.
    pub fn new() -> (r: Self)
        ensures
            r.state() == MapState::Empty,
            r.key() is None,
    {
        MapSerializer { key: None, state: MapState::Empty }
    }

    /// Takes the key of the next field, reduced to bytes.
    pub fn serialize_key(&mut self, key: &[u8]) -> (r: Result<(), Error>)
        ensures
            final(self).state() == old(self).state(),
            if old(self).state() == MapState::Ended {
                r == Err::<(), Error>(Error::Ended) && final(self).key() == old(self).key()
            } else {
                r is Ok && final(self).key() == Some(key@)
            },
    {
        if self.state == MapState::Ended {
            return Err(Error::Ended);
        }
        self.key = Some(slice_to_vec(key));
        Ok(())
    }

    /// Begins the value of the field whose key was given last, and hands out
    /// the writer for it. Without a key there is no field.
    pub fn serialize_value(&mut self) -> (r: Result<ValueSerializer, Error>)
        ensures
            old(self).begins(*final(self)),
            match old(self).value_name() {
                Err(e) => r matches Err(x) && x == e,
                Ok(name) => r matches Ok(value) && value.name() == name,
            },
    {
        if self.state == MapState::Ended {
            return Err(Error::Ended);
        }
        let name = match &self.key {
            None => {
                return Err(Error::MissingKey);
            },
            Some(k) => slice_to_vec(k.as_slice()),
        };
        self.state = MapState::HasFields;
        Ok(ValueSerializer::new(name))
    }

    /// Begins the field named `key` of a record, and hands out the writer
    /// for its value.
    pub fn serialize_field(&mut self, key: &str) -> (r: Result<ValueSerializer, Error>)
        ensures
            if old(self).state() == MapState::Ended {
                &&& r matches Err(Error::Ended)
                &&& final(self).state() == MapState::Ended
                &&& final(self).key() == old(self).key()
            } else {
                &&& r matches Ok(value)
                &&& value.name() == encode_utf8(key@)
                &&& final(self).state() == MapState::HasFields
                &&& final(self).key() == Some(encode_utf8(key@))
            },
    {
        match self.serialize_key(key.as_bytes()) {
            Err(e) => Err(e),
            Ok(_) => self.serialize_value(),
        }
    }

    /// Writes one field from a tag: `value` under `name`. `End` closes a
    /// compound and cannot be the value of a field.
    pub fn write_field(&mut self, ser: &mut Serializer, name: &str, value: &NbtTag) -> (r: Result<
        (),
        Error,
    >)
        ensures
            final(self).key() == old(self).key(),
            if old(self).state() == MapState::Ended {
                &&& r == Err::<(), Error>(Error::Ended)
                &&& final(self).state() == MapState::Ended
                &&& final(ser)@ == old(ser)@
            } else if value@ is End {
                &&& r == Err::<(), Error>(Error::WrongType)
                &&& final(self).state() == old(self).state()
                &&& final(ser)@ == old(ser)@
            } else {
                &&& final(self).state() == MapState::HasFields
                &&& wrote(old(ser)@, final(ser)@, r, encode_utf8(name@), value@)
            },
    {
        if self.state == MapState::Ended {
            return Err(Error::Ended);
        }
        if value.tag_type() == TagType::End {
            return Err(Error::WrongType);
        }
        self.state = MapState::HasFields;
        ser.write_tag(name.as_bytes(), value)
    }

    /// Closes the compound: writes the `End` byte.
    pub fn end(&mut self, ser: &mut Serializer) -> (r: Result<(), Error>)
        ensures
            final(self).key() == old(self).key(),
            final(self).state() == MapState::Ended,
            if old(self).state() == MapState::Ended {
                r == Err::<(), Error>(Error::Ended) && final(ser)@ == old(ser)@
            } else {
                r is Ok && final(ser)@ == old(ser)@ + seq![TagType::End.code()]
            },
    {
        if self.state == MapState::Ended {
            return Err(Error::Ended);
        }
        ser.write_end();
        self.state = MapState::Ended;
        Ok(())
    }

    /// A truth value is written under the key as the byte 1 or 0.
    pub fn serialize_bool(&mut self, ser: &mut Serializer, v: bool) -> (r: Result<(), Error>)
        ensures
            old(self).put(
                *final(self),
                old(ser)@,
                final(ser)@,
                r,
                Tag::Byte(if v { 1u8 } else { 0u8 }),
            ),
    {
        match self.serialize_value() {
            Err(e) => Err(e),
            Ok(value) => value.serialize_bool(ser, v),
        }
    }

    /// A signed byte is written under the key as the byte with its bits.
    pub fn serialize_i8(&mut self, ser: &mut Serializer, v: i8) -> (r: Result<(), Error>)
        ensures
            old(self).put(*final(self), old(ser)@, final(ser)@, r, Tag::Byte(u8_of_i8(v))),
    {
        match self.serialize_value() {
            Err(e) => Err(e),
            Ok(value) => value.serialize_i8(ser, v),
        }
    }

    /// A 16-bit integer is written under the key as a short.
    pub fn serialize_i16(&mut self, ser: &mut Serializer, v: i16) -> (r: Result<(), Error>)
        ensures
            old(self).put(*final(self), old(ser)@, final(ser)@, r, Tag::Short(v)),
    {
        match self.serialize_value() {
            Err(e) => Err(e),
            Ok(value) => value.serialize_i16(ser, v),
        }
    }

    /// A 32-bit integer is written under the key as an int.
    pub fn serialize_i32(&mut self, ser: &mut Serializer, v: i32) -> (r: Result<(), Error>)
        ensures
            old(self).put(*final(self), old(ser)@, final(ser)@, r, Tag::Int(v)),
    {
        match self.serialize_value() {
            Err(e) => Err(e),
            Ok(value) => value.serialize_i32(ser, v),
        }
    }

    /// A 64-bit integer is written under the key as a long.
    pub fn serialize_i64(&mut self, ser: &mut Serializer, v: i64) -> (r: Result<(), Error>)
        ensures
            old(self).put(*final(self), old(ser)@, final(ser)@, r, Tag::Long(v)),
    {
        match self.serialize_value() {
            Err(e) => Err(e),
            Ok(value) => value.serialize_i64(ser, v),
        }
    }

    /// A byte is written under the key as a byte.
    pub fn serialize_u8(&mut self, ser: &mut Serializer, v: u8) -> (r: Result<(), Error>)
        ensures
            old(self).put(*final(self), old(ser)@, final(ser)@, r, Tag::Byte(v)),
    {
        match self.serialize_value() {
            Err(e) => Err(e),
            Ok(value) => value.serialize_u8(ser, v),
        }
    }

    /// An unsigned 16-bit integer is written under the key as the short with its bits.
    pub fn serialize_u16(&mut self, ser: &mut Serializer, v: u16) -> (r: Result<(), Error>)
        ensures
            old(self).put(*final(self), old(ser)@, final(ser)@, r, Tag::Short(i16_of_u16(v))),
    {
        match self.serialize_value() {
            Err(e) => Err(e),
            Ok(value) => value.serialize_u16(ser, v),
        }
    }

    /// An unsigned 32-bit integer is written under the key as the int with its bits.
    pub fn serialize_u32(&mut self, ser: &mut Serializer, v: u32) -> (r: Result<(), Error>)
        ensures
            old(self).put(*final(self), old(ser)@, final(ser)@, r, Tag::Int(i32_of_u32(v))),
    {
        match self.serialize_value() {
            Err(e) => Err(e),
            Ok(value) => value.serialize_u32(ser, v),
        }
    }

    /// An unsigned 64-bit integer is written under the key as the long with its bits.
    pub fn serialize_u64(&mut self, ser: &mut Serializer, v: u64) -> (r: Result<(), Error>)
        ensures
            old(self).put(*final(self), old(ser)@, final(ser)@, r, Tag::Long(i64_of_u64(v))),
    {
        match self.serialize_value() {
            Err(e) => Err(e),
            Ok(value) => value.serialize_u64(ser, v),
        }
    }

    /// A 32-bit float, given by its bits, is written under the key as a float.
    pub fn serialize_f32(&mut self, ser: &mut Serializer, bits: u32) -> (r: Result<(), Error>)
        ensures
            old(self).put(*final(self), old(ser)@, final(ser)@, r, Tag::Float(bits)),
    {
        match self.serialize_value() {
            Err(e) => Err(e),
            Ok(value) => value.serialize_f32(ser, bits),
        }
    }

    /// A 64-bit float, given by its bits, is written under the key as a double.
    pub fn serialize_f64(&mut self, ser: &mut Serializer, bits: u64) -> (r: Result<(), Error>)
        ensures
            old(self).put(*final(self), old(ser)@, final(ser)@, r, Tag::Double(bits)),
    {
        match self.serialize_value() {
            Err(e) => Err(e),
            Ok(value) => value.serialize_f64(ser, bits),
        }
    }

    /// Text is written under the key as a string.
    pub fn serialize_str(&mut self, ser: &mut Serializer, v: &str) -> (r: Result<(), Error>)
        ensures
            old(self).put(*final(self), old(ser)@, final(ser)@, r, Tag::String(v@)),
    {
        match self.serialize_value() {
            Err(e) => Err(e),
            Ok(value) => value.serialize_str(ser, v),
        }
    }

    /// A run of bytes is written under the key as a byte array.
    pub fn serialize_bytes(&mut self, ser: &mut Serializer, v: &[u8]) -> (r: Result<(), Error>)
        ensures
            old(self).put(*final(self), old(ser)@, final(ser)@, r, Tag::ByteArray(v@)),
    {
        match self.serialize_value() {
            Err(e) => Err(e),
            Ok(value) => value.serialize_bytes(ser, v),
        }
    }

    /// A character up to `0xff` is written under the key as the byte of its
    /// code point; any other has no place in the format.
    pub fn serialize_char(&mut self, ser: &mut Serializer, v: char) -> (r: Result<(), Error>)
        ensures
            match char_byte(v) {
                Some(b) => old(self).put(*final(self), old(ser)@, final(ser)@, r, Tag::Byte(b)),
                None => old(self).declines(*final(self), r, "serialize_char"@) && final(ser)@
                    == old(ser)@,
            },
    {
        match self.serialize_value() {
            Err(e) => Err(e),
            Ok(value) => value.serialize_char(ser, v),
        }
    }

    /// An absent value has no place in the format.
    pub fn serialize_none(&mut self) -> (r: Result<(), Error>)
        ensures
            old(self).declines(*final(self), r, "serialize_none"@),
    {
        match self.serialize_value() {
            Err(e) => Err(e),
            Ok(value) => value.serialize_none(),
        }
    }

    /// The empty value has no place in the format.
    pub fn serialize_unit(&mut self) -> (r: Result<(), Error>)
        ensures
            old(self).declines(*final(self), r, "serialize_unit"@),
    {
        match self.serialize_value() {
            Err(e) => Err(e),
            Ok(value) => value.serialize_unit(),
        }
    }

    /// A record without fields has no place in the format.
    pub fn serialize_unit_struct(&mut self, name: &str) -> (r: Result<(), Error>)
        ensures
            old(self).declines(*final(self), r, "serialize_unit_struct"@),
    {
        match self.serialize_value() {
            Err(e) => Err(e),
            Ok(value) => value.serialize_unit_struct(name),
        }
    }

    /// A variant without fields has no place in the format.
    pub fn serialize_unit_variant(&mut self, name: &str, variant_index: u32, variant: &str) -> (r: Result<(), Error>)
        ensures
            old(self).declines(*final(self), r, "serialize_unit_variant"@),
    {
        match self.serialize_value() {
            Err(e) => Err(e),
            Ok(value) => value.serialize_unit_variant(name, variant_index, variant),
        }
    }

    /// A variant around one value has no place in the format.
    pub fn serialize_newtype_variant(&mut self, name: &str, variant_index: u32, variant: &str) -> (r: Result<(), Error>)
        ensures
            old(self).declines(*final(self), r, "serialize_newtype_variant"@),
    {
        match self.serialize_value() {
            Err(e) => Err(e),
            Ok(value) => value.serialize_newtype_variant(name, variant_index, variant),
        }
    }

    /// A tuple variant has no place in the format.
    pub fn serialize_tuple_variant(&mut self, name: &str, variant_index: u32, variant: &str, len: usize) -> (r: Result<SeqSerializer, Error>)
        ensures
            old(self).declines(*final(self), r, "serialize_tuple_variant"@),
    {
        match self.serialize_value() {
            Err(e) => Err(e),
            Ok(value) => value.serialize_tuple_variant(name, variant_index, variant, len),
        }
    }

    /// A record variant has no place in the format.
    pub fn serialize_struct_variant(&mut self, name: &str, variant_index: u32, variant: &str, len: usize) -> (r: Result<MapSerializer, Error>)
        ensures
            old(self).declines(*final(self), r, "serialize_struct_variant"@),
    {
        match self.serialize_value() {
            Err(e) => Err(e),
            Ok(value) => value.serialize_struct_variant(name, variant_index, variant, len),
        }
    }

    /// Starts a sequence of `len` elements under the key; its first element
    /// chooses what it is written as. A sequence whose length is not known
    /// beforehand cannot be written.
    pub fn serialize_seq(&mut self, len: Option<usize>) -> (r: Result<SeqSerializer, Error>)
        ensures
            old(self).begins(*final(self)),
            match old(self).value_name() {
                Err(e) => r matches Err(x) && x == e,
                Ok(name) => match len {
                    None => r matches Err(Error::UnknownSize),
                    Some(n) => r matches Ok(seq) && seq.fresh(Some(name), n, TagType::List),
                },
            },
    {
        match self.serialize_value() {
            Err(e) => Err(e),
            Ok(value) => value.serialize_seq(len),
        }
    }

    /// Starts a tuple of `len` elements under the key, as a sequence.
    pub fn serialize_tuple(&mut self, len: usize) -> (r: Result<SeqSerializer, Error>)
        ensures
            old(self).begins(*final(self)),
            match old(self).value_name() {
                Err(e) => r matches Err(x) && x == e,
                Ok(name) => r matches Ok(seq) && seq.fresh(Some(name), len, TagType::List),
            },
    {
        match self.serialize_value() {
            Err(e) => Err(e),
            Ok(value) => value.serialize_tuple(len),
        }
    }

    /// Starts a tuple record of `len` elements under the key, as a sequence.
    pub fn serialize_tuple_struct(&mut self, name: &str, len: usize) -> (r: Result<
        SeqSerializer,
        Error,
    >)
        ensures
            old(self).begins(*final(self)),
            match old(self).value_name() {
                Err(e) => r matches Err(x) && x == e,
                Ok(name) => r matches Ok(seq) && seq.fresh(Some(name), len, TagType::List),
            },
    {
        match self.serialize_value() {
            Err(e) => Err(e),
            Ok(value) => value.serialize_tuple_struct(name, len),
        }
    }

    /// Starts a compound under the key: writes its header and hands out the
    /// builder of the inner compound.
    pub fn serialize_map(&mut self, ser: &mut Serializer, len: Option<usize>) -> (r: Result<
        MapSerializer,
        Error,
    >)
        ensures
            old(self).begins(*final(self)),
            match old(self).value_name() {
                Err(e) => (r matches Err(x) && x == e) && final(ser)@ == old(ser)@,
                Ok(name) => opened(old(ser)@, final(ser)@, r, name),
            },
    {
        match self.serialize_value() {
            Err(e) => Err(e),
            Ok(value) => value.serialize_map(ser, len),
        }
    }

    /// Starts a compound under the key, for a record, as for a map.
    pub fn serialize_struct(&mut self, ser: &mut Serializer, name: &str, len: usize) -> (r: Result<
        MapSerializer,
        Error,
    >)
        ensures
            old(self).begins(*final(self)),
            match old(self).value_name() {
                Err(e) => (r matches Err(x) && x == e) && final(ser)@ == old(ser)@,
                Ok(name) => opened(old(ser)@, final(ser)@, r, name),
            },
    {
        match self.serialize_value() {
            Err(e) => Err(e),
            Ok(value) => value.serialize_struct(ser, name, len),
        }
    }
}

} // verus!
