//! The reduction of a map key to the bytes of a name.

use vstd::prelude::*;
use vstd::utf8::encode_utf8;
use crate::bytes::{be_i16, be_i32, be_i64, be_u16, be_u32, be_u64, u8_of_i8};
use crate::bytes::{i16_bits, i32_bits, i64_bits, i8_bits, put_u16, put_u32, put_u64};
use crate::encode::put_bytes;
use crate::error::Error;

verus! {

/// `String::from` of a character: the string made of that one character.
#[verifier::external_body]
pub(crate) fn string_of_char(c: char) -> (s: std::string::String)
    ensures
        s@ == seq![c],
{
    std::string::String::from(c)
}

/// Reduces a key to bytes and appends them to what it holds: text to its
/// UTF-8 bytes, a number to its big-endian bytes, a truth value to the byte
/// 1 or 0. A key of any other shape is refused. The bytes of a key that is
/// not text need not be UTF-8.
pub struct KeySerializer {
    out: Vec<u8>,
}

impl View for KeySerializer {
    type V = Seq<u8>;

    closed spec fn view(&self) -> Seq<u8> {
        self.out@
    }
}

impl KeySerializer {
    /// A key serializer that writes behind what `writer` holds.
    pub fn new(writer: Vec<u8>) -> (r: Self)
        ensures
            r@ == writer@,
    {
        KeySerializer { out: writer }
    }

    /// All that was written.
    pub fn into_inner(self) -> (r: Vec<u8>)
        ensures
            r@ == self@,
    {
        self.out
    }

    /// A truth value is the byte 1 or 0.
    pub fn serialize_bool(&mut self, v: bool) -> (r: Result<(), Error>)
        ensures
            r is Ok,
            final(self)@ == old(self)@ + seq![if v { 1u8 } else { 0u8 }],
    {
        self.out.push(if v { 1 } else { 0 });
        assert(self@ =~= old(self)@ + seq![if v { 1u8 } else { 0u8 }]);
        Ok(())
    }

    /// A signed byte is the byte with its bits.
    pub fn serialize_i8(&mut self, v: i8) -> (r: Result<(), Error>)
        ensures
            r is Ok,
            final(self)@ == old(self)@ + seq![u8_of_i8(v)],
    {
        self.out.push(i8_bits(v));
        assert(self@ =~= old(self)@ + seq![u8_of_i8(v)]);
        Ok(())
    }

    /// A 16-bit integer is its two bytes.
    pub fn serialize_i16(&mut self, v: i16) -> (r: Result<(), Error>)
        ensures
            r is Ok,
            final(self)@ == old(self)@ + be_i16(v),
    {
        put_u16(&mut self.out, i16_bits(v));
        assert(self@ =~= old(self)@ + be_i16(v));
        Ok(())
    }

    /// A 32-bit integer is its four bytes.
    pub fn serialize_i32(&mut self, v: i32) -> (r: Result<(), Error>)
        ensures
            r is Ok,
            final(self)@ == old(self)@ + be_i32(v),
    {
        put_u32(&mut self.out, i32_bits(v));
        assert(self@ =~= old(self)@ + be_i32(v));
        Ok(())
    }

    /// A 64-bit integer is its eight bytes.
    pub fn serialize_i64(&mut self, v: i64) -> (r: Result<(), Error>)
        ensures
            r is Ok,
            final(self)@ == old(self)@ + be_i64(v),
    {
        put_u64(&mut self.out, i64_bits(v));
        assert(self@ =~= old(self)@ + be_i64(v));
        Ok(())
    }

    /// A byte is itself.
    pub fn serialize_u8(&mut self, v: u8) -> (r: Result<(), Error>)
        ensures
            r is Ok,
            final(self)@ == old(self)@ + seq![v],
    {
        self.out.push(v);
        assert(self@ =~= old(self)@ + seq![v]);
        Ok(())
    }

    /// An unsigned 16-bit integer is its two bytes.
    pub fn serialize_u16(&mut self, v: u16) -> (r: Result<(), Error>)
        ensures
            r is Ok,
            final(self)@ == old(self)@ + be_u16(v),
    {
        put_u16(&mut self.out, v);
        assert(self@ =~= old(self)@ + be_u16(v));
        Ok(())
    }

    /// An unsigned 32-bit integer is its four bytes.
    pub fn serialize_u32(&mut self, v: u32) -> (r: Result<(), Error>)
        ensures
            r is Ok,
            final(self)@ == old(self)@ + be_u32(v),
    {
        put_u32(&mut self.out, v);
        assert(self@ =~= old(self)@ + be_u32(v));
        Ok(())
    }

    /// An unsigned 64-bit integer is its eight bytes.
    pub fn serialize_u64(&mut self, v: u64) -> (r: Result<(), Error>)
        ensures
            r is Ok,
            final(self)@ == old(self)@ + be_u64(v),
    {
        put_u64(&mut self.out, v);
        assert(self@ =~= old(self)@ + be_u64(v));
        Ok(())
    }

    /// A 32-bit float, given by its bits, is its four bytes.
    pub fn serialize_f32(&mut self, bits: u32) -> (r: Result<(), Error>)
        ensures
            r is Ok,
            final(self)@ == old(self)@ + be_u32(bits),
    {
        put_u32(&mut self.out, bits);
        assert(self@ =~= old(self)@ + be_u32(bits));
        Ok(())
    }

    /// A 64-bit float, given by its bits, is its eight bytes.
    pub fn serialize_f64(&mut self, bits: u64) -> (r: Result<(), Error>)
        ensures
            r is Ok,
            final(self)@ == old(self)@ + be_u64(bits),
    {
        put_u64(&mut self.out, bits);
        assert(self@ =~= old(self)@ + be_u64(bits));
        Ok(())
    }

    /// A character is its UTF-8 bytes.
    pub fn serialize_char(&mut self, v: char) -> (r: Result<(), Error>)
        ensures
            r is Ok,
            final(self)@ == old(self)@ + encode_utf8(seq![v]),
    {
        let s = string_of_char(v);
        put_bytes(&mut self.out, s.as_str().as_bytes());
        assert(self@ =~= old(self)@ + encode_utf8(seq![v]));
        Ok(())
    }

    /// Text is its UTF-8 bytes.
    pub fn serialize_str(&mut self, v: &str) -> (r: Result<(), Error>)
        ensures
            r is Ok,
            final(self)@ == old(self)@ + encode_utf8(v@),
    {
        put_bytes(&mut self.out, v.as_bytes());
        assert(self@ =~= old(self)@ + encode_utf8(v@));
        Ok(())
    }

    /// A run of bytes is itself.
    pub fn serialize_bytes(&mut self, v: &[u8]) -> (r: Result<(), Error>)
        ensures
            r is Ok,
            final(self)@ == old(self)@ + v@,
    {
        put_bytes(&mut self.out, v);
        assert(self@ =~= old(self)@ + v@);
        Ok(())
    }

    /// An absent value cannot be a key.
    pub fn serialize_none(&self) -> (r: Result<(), Error>)
        ensures
            r == Err::<(), Error>(Error::WrongType),
    {
        Err(Error::WrongType)
    }

    /// The empty value cannot be a key.
    pub fn serialize_unit(&self) -> (r: Result<(), Error>)
        ensures
            r == Err::<(), Error>(Error::WrongType),
    {
        Err(Error::WrongType)
    }

    /// A record without fields cannot be a key.
    pub fn serialize_unit_struct(&self, name: &str) -> (r: Result<(), Error>)
        ensures
            r == Err::<(), Error>(Error::WrongType),
    {
        Err(Error::WrongType)
    }

    /// A variant without fields cannot be a key.
    pub fn serialize_unit_variant(&self, name: &str, variant_index: u32, variant: &str) -> (r: Result<(), Error>)
        ensures
            r == Err::<(), Error>(Error::WrongType),
    {
        Err(Error::WrongType)
    }

    /// A variant around one value cannot be a key.
    pub fn serialize_newtype_variant(&self, name: &str, variant_index: u32, variant: &str) -> (r: Result<(), Error>)
        ensures
            r == Err::<(), Error>(Error::WrongType),
    {
        Err(Error::WrongType)
    }

    /// A sequence cannot be a key.
    pub fn serialize_seq(&self, len: Option<usize>) -> (r: Result<(), Error>)
        ensures
            r == Err::<(), Error>(Error::WrongType),
    {
        Err(Error::WrongType)
    }

    /// A tuple cannot be a key.
    pub fn serialize_tuple(&self, len: usize) -> (r: Result<(), Error>)
        ensures
            r == Err::<(), Error>(Error::WrongType),
    {
        Err(Error::WrongType)
    }

    /// A tuple record cannot be a key.
    pub fn serialize_tuple_struct(&self, name: &str, len: usize) -> (r: Result<(), Error>)
        ensures
            r == Err::<(), Error>(Error::WrongType),
    {
        Err(Error::WrongType)
    }

    /// A tuple variant cannot be a key.
    pub fn serialize_tuple_variant(&self, name: &str, variant_index: u32, variant: &str, len: usize) -> (r: Result<(), Error>)
        ensures
            r == Err::<(), Error>(Error::WrongType),
    {
        Err(Error::WrongType)
    }

    /// A map cannot be a key.
    pub fn serialize_map(&self, len: Option<usize>) -> (r: Result<(), Error>)
        ensures
            r == Err::<(), Error>(Error::WrongType),
    {
        Err(Error::WrongType)
    }

    /// A record cannot be a key.
    pub fn serialize_struct(&self, name: &str, len: usize) -> (r: Result<(), Error>)
        ensures
            r == Err::<(), Error>(Error::WrongType),
    {
        Err(Error::WrongType)
    }

    /// A record variant cannot be a key.
    pub fn serialize_struct_variant(&self, name: &str, variant_index: u32, variant: &str, len: usize) -> (r: Result<(), Error>)
        ensures
            r == Err::<(), Error>(Error::WrongType),
    {
        Err(Error::WrongType)
    }
}

} // verus!
