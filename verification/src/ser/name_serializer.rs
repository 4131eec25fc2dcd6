//! The writer of the name field of a tag.

use vstd::prelude::*;
use vstd::utf8::encode_utf8;
use crate::bytes::{be_i16, be_i32, be_i64, be_u16, be_u32, be_u64, u8_of_i8};
use crate::encode::put_text;
use crate::error::Error;
use crate::ser::key_serializer::KeySerializer;
use crate::wire::{text, MAX_TEXT_LEN};

verus! {

/// A call wrote the name field of a name made of `bytes`, or refused a name
/// of more than 32767 bytes and wrote nothing.
pub open spec fn named_as(
    before: Seq<u8>,
    after: Seq<u8>,
    r: Result<(), Error>,
    bytes: Seq<u8>,
) -> bool {
    if bytes.len() <= MAX_TEXT_LEN {
        r is Ok && after == before + text(bytes)
    } else {
        r == Err::<(), Error>(Error::InvalidLength) && after == before
    }
}

/// Writes a name as it stands on the wire, behind its 16-bit length. The
/// name is reduced to bytes as a key is; the empty value is the empty name.
pub struct NameSerializer {
    out: Vec<u8>,
}

impl View for NameSerializer {
    type V = Seq<u8>;

    closed spec fn view(&self) -> Seq<u8> {
        self.out@
    }
}

impl NameSerializer {
    /// A name serializer that writes behind what `writer` holds.
    pub fn new(writer: Vec<u8>) -> (r: Self)
        ensures
            r@ == writer@,
    {
        NameSerializer { out: writer }
    }

    /// All that was written.
    pub fn into_inner(self) -> (r: Vec<u8>)
        ensures
            r@ == self@,
    {
        self.out
    }

    /// Writes the name field of a name made of `bytes`.
    pub fn put_name(&mut self, bytes: &[u8]) -> (r: Result<(), Error>)
        ensures
            named_as(old(self)@, final(self)@, r, bytes@),
    {
        if bytes.len() > MAX_TEXT_LEN {
            return Err(Error::InvalidLength);
        }
        put_text(&mut self.out, bytes);
        Ok(())
    }

    /// The empty value is the empty name.
    pub fn serialize_unit(&mut self) -> (r: Result<(), Error>)
        ensures
            named_as(old(self)@, final(self)@, r, Seq::empty()),
    {
        let empty: Vec<u8> = Vec::new();
        assert(empty@ =~= Seq::<u8>::empty());
        self.put_name(empty.as_slice())
    }

    /// A truth value is the byte 1 or 0.
    pub fn serialize_bool(&mut self, v: bool) -> (r: Result<(), Error>)
        ensures
            named_as(old(self)@, final(self)@, r, seq![if v { 1u8 } else { 0u8 }]),
    {
        let mut key = KeySerializer::new(Vec::new());
        let _ = key.serialize_bool(v);
        let bytes = key.into_inner();
        assert(bytes@ =~= seq![if v { 1u8 } else { 0u8 }]);
        self.put_name(bytes.as_slice())
    }

    /// A signed byte is the byte with its bits.
    pub fn serialize_i8(&mut self, v: i8) -> (r: Result<(), Error>)
        ensures
            named_as(old(self)@, final(self)@, r, seq![u8_of_i8(v)]),
    {
        let mut key = KeySerializer::new(Vec::new());
        let _ = key.serialize_i8(v);
        let bytes = key.into_inner();
        assert(bytes@ =~= seq![u8_of_i8(v)]);
        self.put_name(bytes.as_slice())
    }

    /// A 16-bit integer is its two bytes.
    pub fn serialize_i16(&mut self, v: i16) -> (r: Result<(), Error>)
        ensures
            named_as(old(self)@, final(self)@, r, be_i16(v)),
    {
        let mut key = KeySerializer::new(Vec::new());
        let _ = key.serialize_i16(v);
        let bytes = key.into_inner();
        assert(bytes@ =~= be_i16(v));
        self.put_name(bytes.as_slice())
    }

    /// A 32-bit integer is its four bytes.
    pub fn serialize_i32(&mut self, v: i32) -> (r: Result<(), Error>)
        ensures
            named_as(old(self)@, final(self)@, r, be_i32(v)),
    {
        let mut key = KeySerializer::new(Vec::new());
        let _ = key.serialize_i32(v);
        let bytes = key.into_inner();
        assert(bytes@ =~= be_i32(v));
        self.put_name(bytes.as_slice())
    }

    /// A 64-bit integer is its eight bytes.
    pub fn serialize_i64(&mut self, v: i64) -> (r: Result<(), Error>)
        ensures
            named_as(old(self)@, final(self)@, r, be_i64(v)),
    {
        let mut key = KeySerializer::new(Vec::new());
        let _ = key.serialize_i64(v);
        let bytes = key.into_inner();
        assert(bytes@ =~= be_i64(v));
        self.put_name(bytes.as_slice())
    }

    /// A byte is itself.
    pub fn serialize_u8(&mut self, v: u8) -> (r: Result<(), Error>)
        ensures
            named_as(old(self)@, final(self)@, r, seq![v]),
    {
        let mut key = KeySerializer::new(Vec::new());
        let _ = key.serialize_u8(v);
        let bytes = key.into_inner();
        assert(bytes@ =~= seq![v]);
        self.put_name(bytes.as_slice())
    }

    /// An unsigned 16-bit integer is its two bytes.
    pub fn serialize_u16(&mut self, v: u16) -> (r: Result<(), Error>)
        ensures
            named_as(old(self)@, final(self)@, r, be_u16(v)),
    {
        let mut key = KeySerializer::new(Vec::new());
        let _ = key.serialize_u16(v);
        let bytes = key.into_inner();
        assert(bytes@ =~= be_u16(v));
        self.put_name(bytes.as_slice())
    }

    /// An unsigned 32-bit integer is its four bytes.
    pub fn serialize_u32(&mut self, v: u32) -> (r: Result<(), Error>)
        ensures
            named_as(old(self)@, final(self)@, r, be_u32(v)),
    {
        let mut key = KeySerializer::new(Vec::new());
        let _ = key.serialize_u32(v);
        let bytes = key.into_inner();
        assert(bytes@ =~= be_u32(v));
        self.put_name(bytes.as_slice())
    }

    /// An unsigned 64-bit integer is its eight bytes.
    pub fn serialize_u64(&mut self, v: u64) -> (r: Result<(), Error>)
        ensures
            named_as(old(self)@, final(self)@, r, be_u64(v)),
    {
        let mut key = KeySerializer::new(Vec::new());
        let _ = key.serialize_u64(v);
        let bytes = key.into_inner();
        assert(bytes@ =~= be_u64(v));
        self.put_name(bytes.as_slice())
    }

    /// A 32-bit float, given by its bits, is its four bytes.
    pub fn serialize_f32(&mut self, bits: u32) -> (r: Result<(), Error>)
        ensures
            named_as(old(self)@, final(self)@, r, be_u32(bits)),
    {
        let mut key = KeySerializer::new(Vec::new());
        let _ = key.serialize_f32(bits);
        let bytes = key.into_inner();
        assert(bytes@ =~= be_u32(bits));
        self.put_name(bytes.as_slice())
    }

    /// A 64-bit float, given by its bits, is its eight bytes.
    pub fn serialize_f64(&mut self, bits: u64) -> (r: Result<(), Error>)
        ensures
            named_as(old(self)@, final(self)@, r, be_u64(bits)),
    {
        let mut key = KeySerializer::new(Vec::new());
        let _ = key.serialize_f64(bits);
        let bytes = key.into_inner();
        assert(bytes@ =~= be_u64(bits));
        self.put_name(bytes.as_slice())
    }

    /// A character is its UTF-8 bytes.
    pub fn serialize_char(&mut self, v: char) -> (r: Result<(), Error>)
        ensures
            named_as(old(self)@, final(self)@, r, encode_utf8(seq![v])),
    {
        let mut key = KeySerializer::new(Vec::new());
        let _ = key.serialize_char(v);
        let bytes = key.into_inner();
        assert(bytes@ =~= encode_utf8(seq![v]));
        self.put_name(bytes.as_slice())
    }

    /// Text is its UTF-8 bytes.
    pub fn serialize_str(&mut self, v: &str) -> (r: Result<(), Error>)
        ensures
            named_as(old(self)@, final(self)@, r, encode_utf8(v@)),
    {
        let mut key = KeySerializer::new(Vec::new());
        let _ = key.serialize_str(v);
        let bytes = key.into_inner();
        assert(bytes@ =~= encode_utf8(v@));
        self.put_name(bytes.as_slice())
    }

    /// A run of bytes is itself.
    pub fn serialize_bytes(&mut self, v: &[u8]) -> (r: Result<(), Error>)
        ensures
            named_as(old(self)@, final(self)@, r, v@),
    {
        let mut key = KeySerializer::new(Vec::new());
        let _ = key.serialize_bytes(v);
        let bytes = key.into_inner();
        assert(bytes@ =~= v@);
        self.put_name(bytes.as_slice())
    }

    /// An absent value cannot be a name.
    pub fn serialize_none(&self) -> (r: Result<(), Error>)
        ensures
            r == Err::<(), Error>(Error::WrongType),
    {
        Err(Error::WrongType)
    }

    /// A record without fields cannot be a name.
    pub fn serialize_unit_struct(&self, name: &str) -> (r: Result<(), Error>)
        ensures
            r == Err::<(), Error>(Error::WrongType),
    {
        Err(Error::WrongType)
    }

    /// A variant without fields cannot be a name.
    pub fn serialize_unit_variant(&self, name: &str, variant_index: u32, variant: &str) -> (r: Result<(), Error>)
        ensures
            r == Err::<(), Error>(Error::WrongType),
    {
        Err(Error::WrongType)
    }

    /// A variant around one value cannot be a name.
    pub fn serialize_newtype_variant(&self, name: &str, variant_index: u32, variant: &str) -> (r: Result<(), Error>)
        ensures
            r == Err::<(), Error>(Error::WrongType),
    {
        Err(Error::WrongType)
    }

    /// A sequence cannot be a name.
    pub fn serialize_seq(&self, len: Option<usize>) -> (r: Result<(), Error>)
        ensures
            r == Err::<(), Error>(Error::WrongType),
    {
        Err(Error::WrongType)
    }

    /// A tuple cannot be a name.
    pub fn serialize_tuple(&self, len: usize) -> (r: Result<(), Error>)
        ensures
            r == Err::<(), Error>(Error::WrongType),
    {
        Err(Error::WrongType)
    }

    /// A tuple record cannot be a name.
    pub fn serialize_tuple_struct(&self, name: &str, len: usize) -> (r: Result<(), Error>)
        ensures
            r == Err::<(), Error>(Error::WrongType),
    {
        Err(Error::WrongType)
    }

    /// A tuple variant cannot be a name.
    pub fn serialize_tuple_variant(&self, name: &str, variant_index: u32, variant: &str, len: usize) -> (r: Result<(), Error>)
        ensures
            r == Err::<(), Error>(Error::WrongType),
    {
        Err(Error::WrongType)
    }

    /// A map cannot be a name.
    pub fn serialize_map(&self, len: Option<usize>) -> (r: Result<(), Error>)
        ensures
            r == Err::<(), Error>(Error::WrongType),
    {
        Err(Error::WrongType)
    }

    /// A record cannot be a name.
    pub fn serialize_struct(&self, name: &str, len: usize) -> (r: Result<(), Error>)
        ensures
            r == Err::<(), Error>(Error::WrongType),
    {
        Err(Error::WrongType)
    }

    /// A record variant cannot be a name.
    pub fn serialize_struct_variant(&self, name: &str, variant_index: u32, variant: &str, len: usize) -> (r: Result<(), Error>)
        ensures
            r == Err::<(), Error>(Error::WrongType),
    {
        Err(Error::WrongType)
    }
}

} // verus!
