//! The decoder: from bytes to a tag tree.

use vstd::prelude::*;
use vstd::slice::{slice_subrange, slice_to_vec};
use crate::bytes::{get_u16, get_u32, get_u64, lemma_of_be_front, u16_bits, u32_bits, u64_bits};
use crate::bytes::{u8_bits, u8_of_i8};
use crate::bytes::{i16_of_u16, i32_of_u32, i64_of_u64};
use crate::error::Error;
use crate::nbt_tag::{view_entries, view_tags, NbtTag, Tag, TagType};
use crate::wire::{
    ints_of, longs_of, parse_bytes, parse_count, parse_elements, parse_fields, parse_len16,
    parse_header, parse_named, parse_payload, parse_seq_start, parse_text, parse_u16, parse_u32,
    parse_u64, parse_u8,
};

verus! {

/// A reader over a buffer of bytes that remembers how far it has read.
pub struct Deserializer {
    input: Vec<u8>,
    pos: usize,
}

impl Deserializer {
    #[verifier::type_invariant]
    spec fn within(self) -> bool {
        self.pos <= self.input@.len()
    }

    /// The whole buffer, read or not.
    pub closed spec fn input(self) -> Seq<u8> {
        self.input@
    }

    /// How many bytes have been read.
    pub closed spec fn position(self) -> nat {
        self.pos as nat
    }

    /// The bytes not yet read.
    pub open spec fn remaining(self) -> Seq<u8> {
        self.input().skip(self.position() as int)
    }

    /// `later` is this reader after it has read on: the same buffer, and what
    /// remains is `rest`.
    pub open spec fn reads_on(self, later: Deserializer, rest: Seq<u8>) -> bool {
        &&& later.input() == self.input()
        &&& later.position() >= self.position()
        &&& later.position() + rest.len() == self.input().len()
        &&& later.remaining() == rest
    }

    /// `later` is this reader where it was: the same buffer, read as far.
    pub open spec fn stays(self, later: Deserializer) -> bool {
        later.input() == self.input() && later.position() == self.position()
    }

    /// A reader at the start of `reader`.
    pub fn new(reader: Vec<u8>) -> (r: Self)
        ensures
            r.input() == reader@,
            r.position() == 0,
    {
        Deserializer { input: reader, pos: 0 }
    }

    /// How many bytes have been read.
    pub fn offset(&self) -> (r: usize)
        ensures
            r == self.position(),
    {
        self.pos
    }

    /// What is left of the buffer: the bytes not yet read, so that reading
    /// can go on where it stopped.
    pub fn into_inner(self) -> (r: Vec<u8>)
        ensures
            r@ == self.remaining(),
    {
        proof {
            use_type_invariant(&self);
        }
        let end = self.input.len();
        let rest = slice_to_vec(slice_subrange(self.input.as_slice(), self.pos, end));
        assert(rest@ =~= self.remaining());
        rest
    }

    /// Whether `n` more bytes are there.
    fn has(&self, n: u64) -> (r: bool)
        ensures
            r == (n <= self.remaining().len()),
            r == (self.pos + n <= self.input@.len()),
            self.pos <= self.input@.len() <= usize::MAX,
    {
        proof {
            use_type_invariant(self);
        }
        let left = self.input.len() - self.pos;
        n <= left as u64
    }

    /// Reads one byte.
    pub fn read_u8(&mut self) -> (r: Result<u8, Error>)
        ensures
            match parse_u8(old(self).remaining()) {
                Ok((v, rest)) => r == Ok::<u8, Error>(v) && old(self).reads_on(*final(self), rest),
                Err(e) => r == Err::<u8, Error>(e) && *final(self) == *old(self),
            },
    {
        if !self.has(1) {
            return Err(Error::Io);
        }
        let v = self.input[self.pos];
        self.pos = self.pos + 1;
        assert(self.remaining() =~= old(self).remaining().skip(1));
        Ok(v)
    }

    /// Reads a 16-bit integer.
    pub fn read_u16(&mut self) -> (r: Result<u16, Error>)
        ensures
            match parse_u16(old(self).remaining()) {
                Ok((v, rest)) => r == Ok::<u16, Error>(v) && old(self).reads_on(*final(self), rest),
                Err(e) => r == Err::<u16, Error>(e) && *final(self) == *old(self),
            },
    {
        if !self.has(2) {
            return Err(Error::Io);
        }
        let v = get_u16(self.input.as_slice(), self.pos);
        self.pos = self.pos + 2;
        assert(self.remaining() =~= old(self).remaining().skip(2));
        Ok(v)
    }

    /// Reads a 32-bit integer.
    pub fn read_u32(&mut self) -> (r: Result<u32, Error>)
        ensures
            match parse_u32(old(self).remaining()) {
                Ok((v, rest)) => r == Ok::<u32, Error>(v) && old(self).reads_on(*final(self), rest),
                Err(e) => r == Err::<u32, Error>(e) && *final(self) == *old(self),
            },
    {
        if !self.has(4) {
            return Err(Error::Io);
        }
        let v = get_u32(self.input.as_slice(), self.pos);
        self.pos = self.pos + 4;
        assert(self.remaining() =~= old(self).remaining().skip(4));
        Ok(v)
    }

    /// Reads a 64-bit integer.
    pub fn read_u64(&mut self) -> (r: Result<u64, Error>)
        ensures
            match parse_u64(old(self).remaining()) {
                Ok((v, rest)) => r == Ok::<u64, Error>(v) && old(self).reads_on(*final(self), rest),
                Err(e) => r == Err::<u64, Error>(e) && *final(self) == *old(self),
            },
    {
        if !self.has(8) {
            return Err(Error::Io);
        }
        let v = get_u64(self.input.as_slice(), self.pos);
        self.pos = self.pos + 8;
        assert(self.remaining() =~= old(self).remaining().skip(8));
        Ok(v)
    }

    /// Reads a 16-bit signed length and refuses a negative one.
    pub fn read_len16(&mut self) -> (r: Result<u16, Error>)
        ensures
            final(self).input() == old(self).input(),
            match parse_len16(old(self).remaining()) {
                Ok((n, rest)) => r == Ok::<u16, Error>(n as u16) && n <= 0x7fff && old(
                    self,
                ).reads_on(*final(self), rest),
                Err(e) => r == Err::<u16, Error>(e) && old(self).stays(*final(self)),
            },
    {
        proof {
            use_type_invariant(&*self);
        }
        let start = self.pos;
        match self.raw_read_len16() {
            Err(e) => {
                self.pos = start;
                Err(e)
            },
            Ok(v) => Ok(v),
        }
    }

    /// As [`Deserializer::read_len16`], but where it fails the reader may have read on.
    fn raw_read_len16(&mut self) -> (r: Result<u16, Error>)
        ensures
            final(self).input() == old(self).input(),
            match parse_len16(old(self).remaining()) {
                Ok((n, rest)) => r == Ok::<u16, Error>(n as u16) && n <= 0x7fff && old(
                    self,
                ).reads_on(*final(self), rest),
                Err(e) => r == Err::<u16, Error>(e),
            },
    {
        match self.read_u16() {
            Err(e) => Err(e),
            Ok(n) => if u16_bits(n) < 0 {
                Err(Error::InvalidLength)
            } else {
                Ok(n)
            },
        }
    }

    /// Reads a 32-bit signed count and refuses a negative one.
    pub fn read_count(&mut self) -> (r: Result<u32, Error>)
        ensures
            final(self).input() == old(self).input(),
            match parse_count(old(self).remaining()) {
                Ok((n, rest)) => r == Ok::<u32, Error>(n as u32) && n <= 0x7fff_ffff && old(
                    self,
                ).reads_on(*final(self), rest),
                Err(e) => r == Err::<u32, Error>(e) && old(self).stays(*final(self)),
            },
    {
        proof {
            use_type_invariant(&*self);
        }
        let start = self.pos;
        match self.raw_read_count() {
            Err(e) => {
                self.pos = start;
                Err(e)
            },
            Ok(v) => Ok(v),
        }
    }

    /// As [`Deserializer::read_count`], but where it fails the reader may have read on.
    fn raw_read_count(&mut self) -> (r: Result<u32, Error>)
        ensures
            final(self).input() == old(self).input(),
            match parse_count(old(self).remaining()) {
                Ok((n, rest)) => r == Ok::<u32, Error>(n as u32) && n <= 0x7fff_ffff && old(
                    self,
                ).reads_on(*final(self), rest),
                Err(e) => r == Err::<u32, Error>(e),
            },
    {
        match self.read_u32() {
            Err(e) => Err(e),
            Ok(n) => if u32_bits(n) < 0 {
                Err(Error::InvalidLength)
            } else {
                Ok(n)
            },
        }
    }

    /// Reads `n` bytes.
    pub fn read_bytes(&mut self, n: u32) -> (r: Result<Vec<u8>, Error>)
        ensures
            match parse_bytes(old(self).remaining(), n as nat) {
                Ok((bytes, rest)) => r matches Ok(v) && v@ == bytes && old(self).reads_on(
                    *final(self),
                    rest,
                ),
                Err(e) => r == Err::<Vec<u8>, Error>(e) && *final(self) == *old(self),
            },
    {
        if !self.has(n as u64) {
            return Err(Error::Io);
        }
        let end = self.pos + n as usize;
        let v = slice_to_vec(slice_subrange(self.input.as_slice(), self.pos, end));
        self.pos = end;
        assert(v@ =~= old(self).remaining().take(n as int));
        assert(self.remaining() =~= old(self).remaining().skip(n as int));
        Ok(v)
    }

    /// Reads a name or a string: a 16-bit length, then that many bytes of
    /// UTF-8.
    pub fn read_text(&mut self) -> (r: Result<String, Error>)
        ensures
            final(self).input() == old(self).input(),
            match parse_text(old(self).remaining()) {
                Ok((chars, rest)) => r matches Ok(s) && s@ == chars && old(self).reads_on(
                    *final(self),
                    rest,
                ),
                Err(e) => r == Err::<String, Error>(e) && old(self).stays(*final(self)),
            },
    {
        proof {
            use_type_invariant(&*self);
        }
        let start = self.pos;
        match self.raw_read_text() {
            Err(e) => {
                self.pos = start;
                Err(e)
            },
            Ok(v) => Ok(v),
        }
    }

    /// As [`Deserializer::read_text`], but where it fails the reader may have read on.
    fn raw_read_text(&mut self) -> (r: Result<String, Error>)
        ensures
            final(self).input() == old(self).input(),
            match parse_text(old(self).remaining()) {
                Ok((chars, rest)) => r matches Ok(s) && s@ == chars && old(self).reads_on(
                    *final(self),
                    rest,
                ),
                Err(e) => r == Err::<String, Error>(e),
            },
    {
        let n = match self.read_len16() {
            Err(e) => {
                return Err(e);
            },
            Ok(n) => n,
        };
        let bytes = match self.read_bytes(n as u32) {
            Err(e) => {
                return Err(e);
            },
            Ok(bytes) => bytes,
        };
        match String::from_utf8(bytes) {
            Err(_) => Err(Error::Utf8),
            Ok(s) => Ok(s),
        }
    }

    /// Reads the `n` elements of an int array.
    pub fn read_ints(&mut self, n: u32) -> (r: Result<Vec<i32>, Error>)
        ensures
            match parse_bytes(old(self).remaining(), 4 * (n as nat)) {
                Ok((bytes, rest)) => r matches Ok(v) && v@ == ints_of(bytes, n as nat) && old(
                    self,
                ).reads_on(*final(self), rest),
                Err(e) => r == Err::<Vec<i32>, Error>(e) && *final(self) == *old(self),
            },
    {
        if !self.has(4 * (n as u64)) {
            return Err(Error::Io);
        }
        let ghost bytes = self.remaining().take(4 * (n as int));
        let mut v: Vec<i32> = Vec::new();
        let mut i: u32 = 0;
        while i < n
            invariant
                i <= n,
                self.input() == old(self).input(),
                self.position() == old(self).position() + 4 * i,
                self.position() + 4 * (n - i) <= self.input().len(),
                bytes == old(self).remaining().take(4 * (n as int)),
                v@ == ints_of(bytes, i as nat),
            decreases n - i,
        {
            let x = match self.read_u32() {
                Err(e) => {
                    return Err(e);
                },
                Ok(x) => x,
            };
            proof {
                let at = old(self).position() + 4 * i;
                let a = bytes.skip(4 * i);
                let b = self.input().skip(at as int);
                assert(a.take(4) =~= b.take(4));
                lemma_of_be_front(a, b);
            }
            v.push(u32_bits(x));
            i += 1;
            assert(v@ =~= ints_of(bytes, i as nat));
        }
        assert(self.remaining() =~= old(self).remaining().skip(4 * (n as int)));
        Ok(v)
    }

    /// Reads the `n` elements of a long array.
    pub fn read_longs(&mut self, n: u32) -> (r: Result<Vec<i64>, Error>)
        ensures
            match parse_bytes(old(self).remaining(), 8 * (n as nat)) {
                Ok((bytes, rest)) => r matches Ok(v) && v@ == longs_of(bytes, n as nat) && old(
                    self,
                ).reads_on(*final(self), rest),
                Err(e) => r == Err::<Vec<i64>, Error>(e) && *final(self) == *old(self),
            },
    {
        if !self.has(8 * (n as u64)) {
            return Err(Error::Io);
        }
        let ghost bytes = self.remaining().take(8 * (n as int));
        let mut v: Vec<i64> = Vec::new();
        let mut i: u32 = 0;
        while i < n
            invariant
                i <= n,
                self.input() == old(self).input(),
                self.position() == old(self).position() + 8 * i,
                self.position() + 8 * (n - i) <= self.input().len(),
                bytes == old(self).remaining().take(8 * (n as int)),
                v@ == longs_of(bytes, i as nat),
            decreases n - i,
        {
            let x = match self.read_u64() {
                Err(e) => {
                    return Err(e);
                },
                Ok(x) => x,
            };
            proof {
                let at = old(self).position() + 8 * i;
                let a = bytes.skip(8 * i);
                let b = self.input().skip(at as int);
                assert(a.take(8) =~= b.take(8));
                lemma_of_be_front(a, b);
            }
            v.push(u64_bits(x));
            i += 1;
            assert(v@ =~= longs_of(bytes, i as nat));
        }
        assert(self.remaining() =~= old(self).remaining().skip(8 * (n as int)));
        Ok(v)
    }

    /// Reads the payload of a tag of type `kind`.
    ///
    /// A list reads its element type and its count; with a count of zero the
    /// list is empty whatever byte stands for the element type. The fields of
    /// a compound come out in the order in which they stand in the input.
    pub fn read_payload(&mut self, kind: TagType) -> (r: Result<NbtTag, Error>)
        ensures
            final(self).input() == old(self).input(),
            match parse_payload(kind, old(self).remaining()) {
                Ok((tag, rest)) => r matches Ok(t) && t@ == tag && old(self).reads_on(
                    *final(self),
                    rest,
                ),
                Err(e) => r == Err::<NbtTag, Error>(e) && old(self).stays(*final(self)),
            },
    {
        proof {
            use_type_invariant(&*self);
        }
        let start = self.pos;
        match self.raw_read_payload(kind) {
            Err(e) => {
                self.pos = start;
                Err(e)
            },
            Ok(v) => Ok(v),
        }
    }

    /// As [`Deserializer::read_payload`], but where it fails the reader may have read on.
    fn raw_read_payload(&mut self, kind: TagType) -> (r: Result<NbtTag, Error>)
        ensures
            final(self).input() == old(self).input(),
            match parse_payload(kind, old(self).remaining()) {
                Ok((tag, rest)) => r matches Ok(t) && t@ == tag && old(self).reads_on(
                    *final(self),
                    rest,
                ),
                Err(e) => r == Err::<NbtTag, Error>(e),
            },
        decreases old(self).remaining().len(),
    {
        proof {
            use_type_invariant(&*self);
        }
        match kind {
            TagType::End => Ok(NbtTag::End),
            TagType::Byte => match self.read_u8() {
                Err(e) => Err(e),
                Ok(v) => Ok(NbtTag::Byte(v)),
            },
            TagType::Short => match self.read_u16() {
                Err(e) => Err(e),
                Ok(v) => Ok(NbtTag::Short(u16_bits(v))),
            },
            TagType::Int => match self.read_u32() {
                Err(e) => Err(e),
                Ok(v) => Ok(NbtTag::Int(u32_bits(v))),
            },
            TagType::Long => match self.read_u64() {
                Err(e) => Err(e),
                Ok(v) => Ok(NbtTag::Long(u64_bits(v))),
            },
            TagType::Float => match self.read_u32() {
                Err(e) => Err(e),
                Ok(v) => Ok(NbtTag::Float(v)),
            },
            TagType::Double => match self.read_u64() {
                Err(e) => Err(e),
                Ok(v) => Ok(NbtTag::Double(v)),
            },
            TagType::ByteArray => {
                let n = match self.read_count() {
                    Err(e) => {
                        return Err(e);
                    },
                    Ok(n) => n,
                };
                match self.read_bytes(n) {
                    Err(e) => Err(e),
                    Ok(bytes) => Ok(NbtTag::ByteArray(bytes)),
                }
            },
            TagType::String => match self.read_text() {
                Err(e) => Err(e),
                Ok(s) => Ok(NbtTag::String(s)),
            },
            TagType::List => {
                let code = match self.read_u8() {
                    Err(e) => {
                        return Err(e);
                    },
                    Ok(code) => code,
                };
                let n = match self.read_count() {
                    Err(e) => {
                        return Err(e);
                    },
                    Ok(n) => n,
                };
                let mut tags: Vec<NbtTag> = Vec::new();
                assert(view_tags(tags@) =~= Seq::<Tag>::empty());
                if n == 0 {
                    return Ok(NbtTag::List(tags));
                }
                let element = match TagType::try_from(code) {
                    Err(e) => {
                        return Err(e);
                    },
                    Ok(element) => element,
                };
                let ghost start = self.remaining();
                let mut i: u32 = 0;
                while i < n
                    invariant
                        i <= n,
                        self.input() == old(self).input(),
                        self.position() >= old(self).position() + 5,
                        self.position() <= self.input().len(),
                        parse_payload(kind, old(self).remaining()) == match parse_elements(
                            element,
                            n as nat,
                            start,
                        ) {
                            Err(e) => Err::<(Tag, Seq<u8>), Error>(e),
                            Ok((all, rest)) => Ok((Tag::List(all), rest)),
                        },
                        parse_elements(element, n as nat, start) == match parse_elements(
                            element,
                            (n - i) as nat,
                            self.remaining(),
                        ) {
                            Err(e) => Err::<(Seq<Tag>, Seq<u8>), Error>(e),
                            Ok((more, rest)) => Ok((view_tags(tags@) + more, rest)),
                        },
                    decreases n - i,
                {
                    let ghost before = view_tags(tags@);
                    let tag = match self.raw_read_payload(element) {
                        Err(e) => {
                            return Err(e);
                        },
                        Ok(tag) => tag,
                    };
                    tags.push(tag);
                    i += 1;
                    proof {
                        assert(view_tags(tags@) =~= before.push(tag@));
                        match parse_elements(element, (n - i) as nat, self.remaining()) {
                            Err(e) => {},
                            Ok((more, rest)) => {
                                assert(before + (seq![tag@] + more) =~= view_tags(tags@) + more);
                            },
                        }
                    }
                }
                proof {
                    assert(view_tags(tags@) + Seq::<Tag>::empty() =~= view_tags(tags@));
                }
                Ok(NbtTag::List(tags))
            },
            TagType::Compound => {
                let ghost start = self.remaining();
                let mut fields: Vec<(String, NbtTag)> = Vec::new();
                assert(view_entries(fields@) =~= Seq::<(Seq<char>, Tag)>::empty());
                loop
                    invariant
                        self.input() == old(self).input(),
                        self.position() >= old(self).position(),
                        self.position() <= self.input().len(),
                        start == old(self).remaining(),
                        kind == TagType::Compound,
                        parse_fields(start) == match parse_fields(self.remaining()) {
                            Err(e) => Err::<(Seq<(Seq<char>, Tag)>, Seq<u8>), Error>(e),
                            Ok((more, rest)) => Ok((view_entries(fields@) + more, rest)),
                        },
                    decreases self.remaining().len(),
                {
                    let ghost before = view_entries(fields@);
                    let code = match self.read_u8() {
                        Err(e) => {
                            return Err(e);
                        },
                        Ok(code) => code,
                    };
                    let field_kind = match TagType::try_from(code) {
                        Err(e) => {
                            return Err(e);
                        },
                        Ok(field_kind) => field_kind,
                    };
                    if field_kind == TagType::End {
                        proof {
                            assert(before + Seq::<(Seq<char>, Tag)>::empty() =~= before);
                        }
                        return Ok(NbtTag::Compound(fields));
                    }
                    let name = match self.read_text() {
                        Err(e) => {
                            return Err(e);
                        },
                        Ok(name) => name,
                    };
                    let tag = match self.raw_read_payload(field_kind) {
                        Err(e) => {
                            return Err(e);
                        },
                        Ok(tag) => tag,
                    };
                    let ghost entry = (name@, tag@);
                    fields.push((name, tag));
                    proof {
                        assert(view_entries(fields@) =~= before.push(entry));
                        match parse_fields(self.remaining()) {
                            Err(e) => {},
                            Ok((more, rest)) => {
                                assert(before + (seq![entry] + more) =~= view_entries(fields@)
                                    + more);
                            },
                        }
                    }
                }
            },
            TagType::IntArray => {
                let n = match self.read_count() {
                    Err(e) => {
                        return Err(e);
                    },
                    Ok(n) => n,
                };
                match self.read_ints(n) {
                    Err(e) => Err(e),
                    Ok(values) => Ok(NbtTag::IntArray(values)),
                }
            },
            TagType::LongArray => {
                let n = match self.read_count() {
                    Err(e) => {
                        return Err(e);
                    },
                    Ok(n) => n,
                };
                match self.read_longs(n) {
                    Err(e) => Err(e),
                    Ok(values) => Ok(NbtTag::LongArray(values)),
                }
            },
        }
    }

    /// A typed read gave the payload `tag`: the tag type read before it was
    /// the one wanted, and the payload was there.
    pub open spec fn gave(self, later: Deserializer, kind: TagType, want: TagType, tag: Tag) -> bool {
        &&& kind == want
        &&& parse_payload(kind, self.remaining()) matches Ok((t, rest))
        &&& t == tag
        &&& self.reads_on(later, rest)
    }

    /// A typed read failed with `e`: the tag type read before it was not the
    /// one wanted (`WrongType`), or the payload was not there. Either way the
    /// reader is where it was.
    pub open spec fn failed(self, later: Deserializer, kind: TagType, want: TagType, e: Error) -> bool {
        &&& self.stays(later)
        &&& if kind != want {
            e == Error::WrongType && later == self
        } else {
            parse_payload(kind, self.remaining()) matches Err(x) && x == e
        }
    }

    /// Reads the header of the next tag: its tag type and its name. An `End`
    /// has no name and reads as the empty name.
    pub fn read_header(&mut self) -> (r: Result<(TagType, String), Error>)
        ensures
            final(self).input() == old(self).input(),
            match parse_header(old(self).remaining()) {
                Ok(((kind, name), rest)) => r matches Ok(pair) && pair.0 == kind && pair.1@
                    == name && old(self).reads_on(*final(self), rest),
                Err(e) => r == Err::<(TagType, String), Error>(e) && old(self).stays(*final(self)),
            },
    {
        proof {
            use_type_invariant(&*self);
        }
        let start = self.pos;
        match self.raw_read_header() {
            Err(e) => {
                self.pos = start;
                Err(e)
            },
            Ok(v) => Ok(v),
        }
    }

    /// As [`Deserializer::read_header`], but where it fails the reader may have read on.
    fn raw_read_header(&mut self) -> (r: Result<(TagType, String), Error>)
        ensures
            final(self).input() == old(self).input(),
            match parse_header(old(self).remaining()) {
                Ok(((kind, name), rest)) => r matches Ok(pair) && pair.0 == kind && pair.1@
                    == name && old(self).reads_on(*final(self), rest),
                Err(e) => r == Err::<(TagType, String), Error>(e),
            },
    {
        let code = match self.read_u8() {
            Err(e) => {
                return Err(e);
            },
            Ok(code) => code,
        };
        let kind = match TagType::try_from(code) {
            Err(e) => {
                return Err(e);
            },
            Ok(kind) => kind,
        };
        if kind == TagType::End {
            return Ok((kind, String::new()));
        }
        match self.read_text() {
            Err(e) => Err(e),
            Ok(name) => Ok((kind, name)),
        }
    }

    /// Expects a compound where a map or a record is wanted. The fields
    /// follow: each is a header and a value, and the header of an `End` closes
    /// the compound.
    pub fn deserialize_map(&self, kind: TagType) -> (r: Result<(), Error>)
        ensures
            r == if kind == TagType::Compound {
                Ok::<(), Error>(())
            } else {
                Err(Error::WrongType)
            },
    {
        if kind == TagType::Compound {
            Ok(())
        } else {
            Err(Error::WrongType)
        }
    }

    /// Expects an array or a list where a sequence is wanted, and reads what
    /// stands in front of its elements: gives the tag type of the elements
    /// and their count. The elements follow as bare payloads. For a list
    /// without elements the tag type given is `End`.
    pub fn deserialize_seq(&mut self, kind: TagType) -> (r: Result<(TagType, u32), Error>)
        ensures
            final(self).input() == old(self).input(),
            match parse_seq_start(kind, old(self).remaining()) {
                Ok(((element, n), rest)) => r == Ok::<(TagType, u32), Error>((element, n as u32))
                    && n <= 0x7fff_ffff && old(self).reads_on(*final(self), rest),
                Err(e) => r == Err::<(TagType, u32), Error>(e) && old(self).stays(*final(self)),
            },
    {
        proof {
            use_type_invariant(&*self);
        }
        let start = self.pos;
        match self.raw_deserialize_seq(kind) {
            Err(e) => {
                self.pos = start;
                Err(e)
            },
            Ok(v) => Ok(v),
        }
    }

    /// As [`Deserializer::deserialize_seq`], but where it fails the reader may have read on.
    fn raw_deserialize_seq(&mut self, kind: TagType) -> (r: Result<(TagType, u32), Error>)
        ensures
            final(self).input() == old(self).input(),
            match parse_seq_start(kind, old(self).remaining()) {
                Ok(((element, n), rest)) => r == Ok::<(TagType, u32), Error>((element, n as u32))
                    && n <= 0x7fff_ffff && old(self).reads_on(*final(self), rest),
                Err(e) => r == Err::<(TagType, u32), Error>(e),
            },
    {
        match kind {
            TagType::ByteArray => match self.read_count() {
                Err(e) => Err(e),
                Ok(n) => Ok((TagType::Byte, n)),
            },
            TagType::IntArray => match self.read_count() {
                Err(e) => Err(e),
                Ok(n) => Ok((TagType::Int, n)),
            },
            TagType::LongArray => match self.read_count() {
                Err(e) => Err(e),
                Ok(n) => Ok((TagType::Long, n)),
            },
            TagType::List => {
                let code = match self.read_u8() {
                    Err(e) => {
                        return Err(e);
                    },
                    Ok(code) => code,
                };
                let n = match self.read_count() {
                    Err(e) => {
                        return Err(e);
                    },
                    Ok(n) => n,
                };
                if n == 0 {
                    return Ok((TagType::End, 0));
                }
                match TagType::try_from(code) {
                    Err(e) => Err(e),
                    Ok(element) => Ok((element, n)),
                }
            },
            _ => Err(Error::WrongType),
        }
    }

    /// Expects a byte that is 0 or 1 where a truth value is wanted.
    pub fn deserialize_bool(&mut self, kind: TagType) -> (r: Result<bool, Error>)
        ensures
            match r {
                Ok(v) => old(self).gave(
                    *final(self),
                    kind,
                    TagType::Byte,
                    Tag::Byte(if v { 1u8 } else { 0u8 }),
                ),
                Err(e) => old(self).failed(*final(self), kind, TagType::Byte, e) || (e
                    == Error::WrongType && *final(self) == *old(self) && kind == TagType::Byte
                    && old(self).remaining().len() > 0 && old(self).remaining()[0] > 1),
            },
    {
        if kind != TagType::Byte {
            return Err(Error::WrongType);
        }
        if !self.has(1) {
            return Err(Error::Io);
        }
        let v = self.input[self.pos];
        assert(v == self.remaining()[0]);
        if v > 1 {
            return Err(Error::WrongType);
        }
        self.pos = self.pos + 1;
        assert(self.remaining() =~= old(self).remaining().skip(1));
        Ok(v == 1)
    }

    /// Expects a byte of a code point where a character is wanted.
    pub fn deserialize_char(&mut self, kind: TagType) -> (r: Result<char, Error>)
        ensures
            match r {
                Ok(v) => (v as u32) <= 0xff && old(self).gave(
                    *final(self),
                    kind,
                    TagType::Byte,
                    Tag::Byte((v as u32) as u8),
                ),
                Err(e) => old(self).failed(*final(self), kind, TagType::Byte, e),
            },
    {
        match self.deserialize_u8(kind) {
            Err(e) => Err(e),
            Ok(v) => Ok(v as char),
        }
    }

    /// Expects a byte where a byte is wanted.
    pub fn deserialize_u8(&mut self, kind: TagType) -> (r: Result<u8, Error>)
        ensures
            match r {
                Ok(v) => old(self).gave(*final(self), kind, TagType::Byte, Tag::Byte(v)),
                Err(e) => old(self).failed(*final(self), kind, TagType::Byte, e),
            },
    {
        if kind != TagType::Byte {
            return Err(Error::WrongType);
        }
        match self.read_u8() {
            Err(e) => Err(e),
            Ok(v) => Ok(v),
        }
    }

    /// Expects a byte where a signed byte is wanted, and gives the one with its bits.
    pub fn deserialize_i8(&mut self, kind: TagType) -> (r: Result<i8, Error>)
        ensures
            match r {
                Ok(v) => old(self).gave(*final(self), kind, TagType::Byte, Tag::Byte(u8_of_i8(v))),
                Err(e) => old(self).failed(*final(self), kind, TagType::Byte, e),
            },
    {
        if kind != TagType::Byte {
            return Err(Error::WrongType);
        }
        match self.read_u8() {
            Err(e) => Err(e),
            Ok(v) => Ok(u8_bits(v)),
        }
    }

    /// Expects a short where a 16-bit integer is wanted.
    pub fn deserialize_i16(&mut self, kind: TagType) -> (r: Result<i16, Error>)
        ensures
            match r {
                Ok(v) => old(self).gave(*final(self), kind, TagType::Short, Tag::Short(v)),
                Err(e) => old(self).failed(*final(self), kind, TagType::Short, e),
            },
    {
        if kind != TagType::Short {
            return Err(Error::WrongType);
        }
        match self.read_u16() {
            Err(e) => Err(e),
            Ok(v) => Ok(u16_bits(v)),
        }
    }

    /// Expects a short where an unsigned 16-bit integer is wanted, and gives the one with its bits.
    pub fn deserialize_u16(&mut self, kind: TagType) -> (r: Result<u16, Error>)
        ensures
            match r {
                Ok(v) => old(self).gave(*final(self), kind, TagType::Short, Tag::Short(i16_of_u16(v))),
                Err(e) => old(self).failed(*final(self), kind, TagType::Short, e),
            },
    {
        if kind != TagType::Short {
            return Err(Error::WrongType);
        }
        match self.read_u16() {
            Err(e) => Err(e),
            Ok(v) => Ok(v),
        }
    }

    /// Expects an int where a 32-bit integer is wanted.
    pub fn deserialize_i32(&mut self, kind: TagType) -> (r: Result<i32, Error>)
        ensures
            match r {
                Ok(v) => old(self).gave(*final(self), kind, TagType::Int, Tag::Int(v)),
                Err(e) => old(self).failed(*final(self), kind, TagType::Int, e),
            },
    {
        if kind != TagType::Int {
            return Err(Error::WrongType);
        }
        match self.read_u32() {
            Err(e) => Err(e),
            Ok(v) => Ok(u32_bits(v)),
        }
    }

    /// Expects an int where an unsigned 32-bit integer is wanted, and gives the one with its bits.
    pub fn deserialize_u32(&mut self, kind: TagType) -> (r: Result<u32, Error>)
        ensures
            match r {
                Ok(v) => old(self).gave(*final(self), kind, TagType::Int, Tag::Int(i32_of_u32(v))),
                Err(e) => old(self).failed(*final(self), kind, TagType::Int, e),
            },
    {
        if kind != TagType::Int {
            return Err(Error::WrongType);
        }
        match self.read_u32() {
            Err(e) => Err(e),
            Ok(v) => Ok(v),
        }
    }

    /// Expects a long where a 64-bit integer is wanted.
    pub fn deserialize_i64(&mut self, kind: TagType) -> (r: Result<i64, Error>)
        ensures
            match r {
                Ok(v) => old(self).gave(*final(self), kind, TagType::Long, Tag::Long(v)),
                Err(e) => old(self).failed(*final(self), kind, TagType::Long, e),
            },
    {
        if kind != TagType::Long {
            return Err(Error::WrongType);
        }
        match self.read_u64() {
            Err(e) => Err(e),
            Ok(v) => Ok(u64_bits(v)),
        }
    }

    /// Expects a long where an unsigned 64-bit integer is wanted, and gives the one with its bits.
    pub fn deserialize_u64(&mut self, kind: TagType) -> (r: Result<u64, Error>)
        ensures
            match r {
                Ok(v) => old(self).gave(*final(self), kind, TagType::Long, Tag::Long(i64_of_u64(v))),
                Err(e) => old(self).failed(*final(self), kind, TagType::Long, e),
            },
    {
        if kind != TagType::Long {
            return Err(Error::WrongType);
        }
        match self.read_u64() {
            Err(e) => Err(e),
            Ok(v) => Ok(v),
        }
    }

    /// Expects a float where a 32-bit float is wanted, and gives its bits.
    pub fn deserialize_f32(&mut self, kind: TagType) -> (r: Result<u32, Error>)
        ensures
            match r {
                Ok(v) => old(self).gave(*final(self), kind, TagType::Float, Tag::Float(v)),
                Err(e) => old(self).failed(*final(self), kind, TagType::Float, e),
            },
    {
        if kind != TagType::Float {
            return Err(Error::WrongType);
        }
        match self.read_u32() {
            Err(e) => Err(e),
            Ok(v) => Ok(v),
        }
    }

    /// Expects a double where a 64-bit float is wanted, and gives its bits.
    pub fn deserialize_f64(&mut self, kind: TagType) -> (r: Result<u64, Error>)
        ensures
            match r {
                Ok(v) => old(self).gave(*final(self), kind, TagType::Double, Tag::Double(v)),
                Err(e) => old(self).failed(*final(self), kind, TagType::Double, e),
            },
    {
        if kind != TagType::Double {
            return Err(Error::WrongType);
        }
        match self.read_u64() {
            Err(e) => Err(e),
            Ok(v) => Ok(v),
        }
    }

    /// Expects a string where text is wanted.
    pub fn deserialize_string(&mut self, kind: TagType) -> (r: Result<String, Error>)
        ensures
            match r {
                Ok(v) => old(self).gave(*final(self), kind, TagType::String, Tag::String(v@)),
                Err(e) => old(self).failed(*final(self), kind, TagType::String, e),
            },
    {
        if kind != TagType::String {
            return Err(Error::WrongType);
        }
        match self.read_payload(kind) {
            Err(e) => Err(e),
            Ok(NbtTag::String(v)) => Ok(v),
            Ok(_) => Err(Error::WrongType),
        }
    }

    /// Expects a byte array where a run of bytes is wanted.
    pub fn deserialize_bytes(&mut self, kind: TagType) -> (r: Result<Vec<u8>, Error>)
        ensures
            match r {
                Ok(v) => old(self).gave(*final(self), kind, TagType::ByteArray, Tag::ByteArray(v@)),
                Err(e) => old(self).failed(*final(self), kind, TagType::ByteArray, e),
            },
    {
        if kind != TagType::ByteArray {
            return Err(Error::WrongType);
        }
        match self.read_payload(kind) {
            Err(e) => Err(e),
            Ok(NbtTag::ByteArray(v)) => Ok(v),
            Ok(_) => Err(Error::WrongType),
        }
    }

    /// Expects an int array where a sequence of 32-bit integers is wanted, and
    /// reads it whole.
    pub fn deserialize_ints(&mut self, kind: TagType) -> (r: Result<Vec<i32>, Error>)
        ensures
            match r {
                Ok(v) => old(self).gave(*final(self), kind, TagType::IntArray, Tag::IntArray(v@)),
                Err(e) => old(self).failed(*final(self), kind, TagType::IntArray, e),
            },
    {
        if kind != TagType::IntArray {
            return Err(Error::WrongType);
        }
        match self.read_payload(kind) {
            Err(e) => Err(e),
            Ok(NbtTag::IntArray(v)) => Ok(v),
            Ok(_) => Err(Error::WrongType),
        }
    }

    /// Expects a long array where a sequence of 64-bit integers is wanted, and
    /// reads it whole.
    pub fn deserialize_longs(&mut self, kind: TagType) -> (r: Result<Vec<i64>, Error>)
        ensures
            match r {
                Ok(v) => old(self).gave(*final(self), kind, TagType::LongArray, Tag::LongArray(v@)),
                Err(e) => old(self).failed(*final(self), kind, TagType::LongArray, e),
            },
    {
        if kind != TagType::LongArray {
            return Err(Error::WrongType);
        }
        match self.read_payload(kind) {
            Err(e) => Err(e),
            Ok(NbtTag::LongArray(v)) => Ok(v),
            Ok(_) => Err(Error::WrongType),
        }
    }

    /// Reads one named tag: a tag type, then, unless it is `End`, a name and
    /// the payload. An `End` reads as the tag `End` under the empty name.
    ///
    /// Fails with `Io` where the input ends too early, with
    /// `UnknownTagType` on a byte that names no tag type, with `Utf8` on a
    /// name or string that is not UTF-8, and with `InvalidLength` on a
    /// negative length.
    pub fn decode_one(&mut self) -> (r: Result<(String, NbtTag), Error>)
        ensures
            final(self).input() == old(self).input(),
            match parse_named(old(self).remaining()) {
                Ok((name, tag, rest)) => r matches Ok(pair) && pair.0@ == name && pair.1@ == tag
                    && old(self).reads_on(*final(self), rest),
                Err(e) => r == Err::<(String, NbtTag), Error>(e) && old(self).stays(*final(self)),
            },
    {
        proof {
            use_type_invariant(&*self);
        }
        let start = self.pos;
        match self.raw_decode_one() {
            Err(e) => {
                self.pos = start;
                Err(e)
            },
            Ok(v) => Ok(v),
        }
    }

    /// As [`Deserializer::decode_one`], but where it fails the reader may have read on.
    fn raw_decode_one(&mut self) -> (r: Result<(String, NbtTag), Error>)
        ensures
            final(self).input() == old(self).input(),
            match parse_named(old(self).remaining()) {
                Ok((name, tag, rest)) => r matches Ok(pair) && pair.0@ == name && pair.1@ == tag
                    && old(self).reads_on(*final(self), rest),
                Err(e) => r == Err::<(String, NbtTag), Error>(e),
            },
    {
        let code = match self.read_u8() {
            Err(e) => {
                return Err(e);
            },
            Ok(code) => code,
        };
        let kind = match TagType::try_from(code) {
            Err(e) => {
                return Err(e);
            },
            Ok(kind) => kind,
        };
        if kind == TagType::End {
            return Ok((String::new(), NbtTag::End));
        }
        let name = match self.read_text() {
            Err(e) => {
                return Err(e);
            },
            Ok(name) => name,
        };
        match self.read_payload(kind) {
            Err(e) => Err(e),
            Ok(tag) => Ok((name, tag)),
        }
    }
}

/// Reads one named tag off the front of `buffer`; what follows it is not
/// looked at.
pub fn decode_from_bytes(buffer: &[u8]) -> (r: Result<(String, NbtTag), Error>)
    ensures
        match parse_named(buffer@) {
            Ok((name, tag, rest)) => r matches Ok(pair) && pair.0@ == name && pair.1@ == tag,
            Err(e) => r == Err::<(String, NbtTag), Error>(e),
        },
{
    let mut reader = Deserializer::new(slice_to_vec(buffer));
    assert(reader.remaining() =~= buffer@);
    reader.decode_one()
}

} // verus!
