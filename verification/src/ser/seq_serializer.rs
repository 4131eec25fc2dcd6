//! The builder of a sequence: an array or a list.

use vstd::prelude::*;
use crate::bytes::{be_u32, i16_bits, i32_bits, i64_bits, i8_bits, u8_of_i8};
use crate::bytes::{i16_of_u16, i32_of_u32, i64_of_u64, u16_bits, u32_bits, u64_bits};
use crate::encode::validate;
use crate::error::Error;
use crate::nbt_tag::{NbtTag, Tag, TagType};
use crate::ser::map_serializer::{MapSerializer, MapState};
use crate::ser::serializer::Serializer;
use crate::ser::value_serializer::char_byte;
use crate::ser::{cut, refused, unsupported};
use crate::wire::{check, header, payload, MAX_COUNT, MAX_TEXT_LEN};

verus! {

/// The tag types that a sequence can be declared as.
pub open spec fn is_sequence_type(typ: TagType) -> bool {
    typ == TagType::ByteArray || typ == TagType::IntArray || typ == TagType::LongArray || typ
        == TagType::List
}

/// Whether a sequence declared as `typ` takes elements of type `element`:
/// an array takes its own kind of number only, a list takes anything, and
/// what is no sequence takes nothing.
pub open spec fn admits(typ: TagType, element: TagType) -> bool {
    match typ {
        TagType::ByteArray => element == TagType::Byte,
        TagType::IntArray => element == TagType::Int,
        TagType::LongArray => element == TagType::Long,
        TagType::List => true,
        _ => false,
    }
}

/// The tag type that a sequence of elements of type `element` is written as
/// where the first element chooses: bytes, ints and longs make the array of
/// their kind, anything else a list.
pub open spec fn chosen_type(element: TagType) -> TagType {
    match element {
        TagType::Byte => TagType::ByteArray,
        TagType::Int => TagType::IntArray,
        TagType::Long => TagType::LongArray,
        _ => TagType::List,
    }
}

/// The builder of one sequence of a length announced beforehand.
///
/// A builder made by [`SeqSerializer::new`] is declared as an array or as a
/// list and writes what follows the header of its tag: the count of an
/// array, or the element type and the count of a list, and the elements. The
/// header is the business of whoever made it.
///
/// A builder made by [`SeqSerializer::inferring`] has a name and lets the
/// first element choose what the sequence is written as; it writes the
/// header too.
///
/// Nothing is written before the first element. An element that is not of
/// the type of the first voids the sequence: all that was written of it is
/// taken back.
pub struct SeqSerializer {
    name: Option<Vec<u8>>,
    typ: TagType,
    list_type: Option<TagType>,
    len: usize,
    written: usize,
    start: usize,
    ended: bool,
}

impl SeqSerializer {
    #[verifier::type_invariant]
    spec fn inv(self) -> bool {
        self.written <= self.len
    }

    /// The name that the sequence is written under, where the builder writes
    /// the header itself.
    pub closed spec fn name(self) -> Option<Seq<u8>> {
        match self.name {
            Some(n) => Some(n@),
            None => None,
        }
    }

    /// What the sequence was declared as.
    pub closed spec fn declared(self) -> TagType {
        self.typ
    }

    /// The tag type of the elements, once there is one.
    pub closed spec fn element(self) -> Option<TagType> {
        self.list_type
    }

    /// The number of elements announced.
    pub closed spec fn len(self) -> nat {
        self.len as nat
    }

    /// The number of elements written.
    pub closed spec fn written(self) -> nat {
        self.written as nat
    }

    /// How many bytes the sink held before the first element was written.
    pub closed spec fn start(self) -> nat {
        self.start as nat
    }

    /// Whether the sequence was ended or voided.
    pub closed spec fn ended(self) -> bool {
        self.ended
    }

    /// A builder that has written nothing yet.
    pub open spec fn fresh(self, name: Option<Seq<u8>>, len: usize, typ: TagType) -> bool {
        &&& self.name() == name
        &&& self.declared() == typ
        &&& self.element() is None
        &&& self.len() == len
        &&& self.written() == 0
        &&& !self.ended()
    }

    /// Whether an element of type `element` is of a kind that this sequence
    /// takes at all.
    pub open spec fn fits(self, element: TagType) -> bool {
        self.name() is Some || admits(self.declared(), element)
    }

    /// The tag type that the sequence is written as, with elements of type
    /// `element`.
    pub open spec fn wire_type(self, element: TagType) -> TagType {
        if self.name() is Some {
            chosen_type(element)
        } else {
            self.declared()
        }
    }

    /// Why an element of type `element` cannot come next, if it cannot.
    ///
    /// A declared array refuses every element that is not of its kind, and a
    /// builder declared as no sequence refuses every element (`WrongType`).
    /// Otherwise the first element fixes the type of all
    /// (`ElementTypesDiffer`). No more elements are taken than were announced,
    /// and the count and the name must fit their fields (`InvalidLength`).
    pub open spec fn element_error(self, element: TagType) -> Option<Error> {
        if self.ended() {
            Some(Error::Ended)
        } else if !self.fits(element) {
            Some(Error::WrongType)
        } else if self.written() > 0 && self.element() != Some(element) {
            Some(Error::ElementTypesDiffer)
        } else if self.written() >= self.len() {
            Some(Error::InvalidLength)
        } else if self.written() == 0 && (self.len() > MAX_COUNT || (self.name() matches Some(n)
            && n.len() > MAX_TEXT_LEN)) {
            Some(Error::InvalidLength)
        } else {
            None
        }
    }

    /// What stands in front of an element of type `element`: in front of the
    /// first one the header, where the builder writes it, for a list the type
    /// of its elements, and the count; in front of the others nothing.
    pub open spec fn opening(self, element: TagType) -> Seq<u8> {
        if self.written() == 0 {
            let kind = self.wire_type(element);
            (match self.name() {
                Some(n) => header(kind, n),
                None => Seq::empty(),
            }) + (if kind == TagType::List {
                seq![element.code()]
            } else {
                Seq::empty()
            }) + be_u32(self.len() as u32)
        } else {
            Seq::empty()
        }
    }

    /// `later` is this builder after one more element of type `element`,
    /// written to a sink that held `held` bytes before.
    pub open spec fn steps(self, later: SeqSerializer, element: TagType, held: nat) -> bool {
        &&& later.name() == self.name()
        &&& later.declared() == self.declared()
        &&& later.len() == self.len()
        &&& later.ended() == self.ended()
        &&& later.written() == self.written() + 1
        &&& later.element() == Some(element)
        &&& later.start() == if self.written() == 0 {
            held
        } else {
            self.start()
        }
    }

    /// `later` is this builder, closed: it takes nothing more.
    pub open spec fn closes(self, later: SeqSerializer) -> bool {
        &&& later.name() == self.name()
        &&& later.declared() == self.declared()
        &&& later.len() == self.len()
        &&& later.written() == self.written()
        &&& later.element() == self.element()
        &&& later.start() == self.start()
        &&& later.ended()
    }

    /// A call refused an element with `e`. An element of another type than
    /// the first voids the sequence: the sink is cut back to what it held
    /// before the first element, and the builder is closed. Any other refusal
    /// leaves builder and sink as they were.
    pub open spec fn refuses(
        self,
        later: SeqSerializer,
        before: Seq<u8>,
        after: Seq<u8>,
        e: Error,
    ) -> bool {
        if e == Error::ElementTypesDiffer {
            self.closes(later) && after == cut(before, self.start())
        } else {
            later == self && after == before
        }
    }

    /// A call wrote `tag` as the next element, whole, or refused it.
    pub open spec fn took(
        self,
        later: SeqSerializer,
        before: Seq<u8>,
        after: Seq<u8>,
        r: Result<(), Error>,
        tag: Tag,
    ) -> bool {
        match self.element_error(tag.tag_type()) {
            Some(e) => r == Err::<(), Error>(e) && self.refuses(later, before, after, e),
            None => match check(tag) {
                Err(e) => r == Err::<(), Error>(e) && later == self && after == before,
                Ok(_) => {
                    &&& r is Ok
                    &&& self.steps(later, tag.tag_type(), before.len())
                    &&& after == before + self.opening(tag.tag_type()) + payload(tag)
                },
            },
        }
    }

    /// A call began a compound as the next element and handed out its
    /// builder, or refused.
    pub open spec fn took_map(
        self,
        later: SeqSerializer,
        before: Seq<u8>,
        after: Seq<u8>,
        r: Result<MapSerializer, Error>,
    ) -> bool {
        match self.element_error(TagType::Compound) {
            Some(e) => (r matches Err(x) && x == e) && self.refuses(later, before, after, e),
            None => {
                &&& r matches Ok(map)
                &&& map.state() == MapState::Empty
                &&& map.key() is None
                &&& self.steps(later, TagType::Compound, before.len())
                &&& after == before + self.opening(TagType::Compound)
            },
        }
    }

    /// Why the sequence cannot be ended, if it cannot: it was ended before,
    /// it was declared as what is no sequence, fewer elements were written
    /// than announced, or it is a list without elements, which has no element
    /// type.
    pub open spec fn end_error(self) -> Option<Error> {
        if self.ended() {
            Some(Error::Ended)
        } else if self.name() is None && !is_sequence_type(self.declared()) {
            Some(Error::WrongType)
        } else if self.written() < self.len() {
            Some(Error::InvalidLength)
        } else if self.len() == 0 && (self.name() is Some || self.declared() == TagType::List) {
            Some(Error::EmptySequence)
        } else {
            None
        }
    }

    /// The builder of a sequence of `len` elements declared as `typ`. It is
    /// made whatever `typ` and `len` are; what cannot be written is refused
    /// when it is asked for.
    pub fn new(len: usize, typ: TagType) -> (r: Self)
        ensures
            r.fresh(None, len, typ),
    {
        SeqSerializer {
            name: None,
            typ,
            list_type: None,
            len,
            written: 0,
            start: 0,
            ended: false,
        }
    }

    /// The builder of a sequence of `len` elements named `name` whose first
    /// element chooses what it is written as.
    pub fn inferring(name: Vec<u8>, len: usize) -> (r: Self)
        ensures
            r.fresh(Some(name@), len, TagType::List),
    {
        SeqSerializer {
            name: Some(name),
            typ: TagType::List,
            list_type: None,
            len,
            written: 0,
            start: 0,
            ended: false,
        }
    }

    /// Whether an element of type `element` can come next.
    pub fn check_element(&self, element: TagType) -> (r: Result<(), Error>)
        ensures
            r == match self.element_error(element) {
                Some(e) => Err::<(), Error>(e),
                None => Ok(()),
            },
    {
        if self.ended {
            return Err(Error::Ended);
        }
        let fits = match &self.name {
            Some(_) => true,
            None => match self.typ {
                TagType::ByteArray => element == TagType::Byte,
                TagType::IntArray => element == TagType::Int,
                TagType::LongArray => element == TagType::Long,
                TagType::List => true,
                _ => false,
            },
        };
        if !fits {
            return Err(Error::WrongType);
        }
        if self.written > 0 {
            let same = match self.list_type {
                Some(first) => first == element,
                None => false,
            };
            if !same {
                return Err(Error::ElementTypesDiffer);
            }
        }
        if self.written >= self.len {
            return Err(Error::InvalidLength);
        }
        if self.written == 0 {
            let long_name = match &self.name {
                Some(n) => n.len() > MAX_TEXT_LEN,
                None => false,
            };
            if self.len > MAX_COUNT || long_name {
                return Err(Error::InvalidLength);
            }
        }
        Ok(())
    }

    /// Lets an element of type `element` in, or refuses it; an element of
    /// another type than the first voids the sequence.
    pub fn let_in(&mut self, ser: &mut Serializer, element: TagType) -> (r: Result<(), Error>)
        ensures
            match old(self).element_error(element) {
                Some(e) => r == Err::<(), Error>(e) && old(self).refuses(
                    *final(self),
                    old(ser)@,
                    final(ser)@,
                    e,
                ),
                None => r is Ok && *final(self) == *old(self) && final(ser)@ == old(ser)@,
            },
    {
        proof {
            use_type_invariant(&*self);
        }
        match self.check_element(element) {
            Ok(_) => Ok(()),
            Err(Error::ElementTypesDiffer) => {
                ser.truncate(self.start);
                self.ended = true;
                Err(Error::ElementTypesDiffer)
            },
            Err(e) => Err(e),
        }
    }

    /// Makes room for an element of type `element`: lets it in, writes what
    /// stands in front of it and counts it. The caller writes its payload.
    pub fn begin(&mut self, ser: &mut Serializer, element: TagType) -> (r: Result<(), Error>)
        ensures
            match old(self).element_error(element) {
                Some(e) => r == Err::<(), Error>(e) && old(self).refuses(
                    *final(self),
                    old(ser)@,
                    final(ser)@,
                    e,
                ),
                None => r is Ok && old(self).steps(*final(self), element, old(ser)@.len())
                    && final(ser)@ == old(ser)@ + old(self).opening(element),
            },
    {
        proof {
            use_type_invariant(&*self);
        }
        match self.let_in(ser, element) {
            Err(e) => {
                return Err(e);
            },
            Ok(_) => {},
        }
        if self.written == 0 {
            self.start = ser.len();
            let kind = match &self.name {
                Some(_) => match element {
                    TagType::Byte => TagType::ByteArray,
                    TagType::Int => TagType::IntArray,
                    TagType::Long => TagType::LongArray,
                    _ => TagType::List,
                },
                None => self.typ,
            };
            match &self.name {
                Some(n) => {
                    let _ = ser.put_header(kind, n.as_slice());
                },
                None => {},
            }
            if kind == TagType::List {
                ser.put_u8(element.to_byte());
            }
            ser.put_u32(self.len as u32);
            assert(ser@ =~= old(ser)@ + old(self).opening(element));
        } else {
            assert(ser@ =~= old(ser)@ + old(self).opening(element));
        }
        self.list_type = Some(element);
        self.written = self.written + 1;
        Ok(())
    }

    /// Ends the sequence. An array of no elements is written here: its
    /// count. A sequence that cannot be ended is refused, and nothing is
    /// written.
    pub fn end(&mut self, ser: &mut Serializer) -> (r: Result<(), Error>)
        ensures
            match old(self).end_error() {
                Some(e) => r == Err::<(), Error>(e) && *final(self) == *old(self) && final(ser)@
                    == old(ser)@,
                None => r is Ok && old(self).closes(*final(self)) && final(ser)@ == old(ser)@ + (
                if old(self).len() == 0 {
                    be_u32(0)
                } else {
                    Seq::empty()
                }),
            },
    {
        proof {
            use_type_invariant(&*self);
        }
        if self.ended {
            return Err(Error::Ended);
        }
        let named = match &self.name {
            Some(_) => true,
            None => false,
        };
        if !named && self.typ != TagType::ByteArray && self.typ != TagType::IntArray && self.typ
            != TagType::LongArray && self.typ != TagType::List {
            return Err(Error::WrongType);
        }
        if self.written < self.len {
            return Err(Error::InvalidLength);
        }
        if self.len == 0 {
            if named || self.typ == TagType::List {
                return Err(Error::EmptySequence);
            }
            ser.put_u32(0);
        } else {
            assert(ser@ =~= old(ser)@ + Seq::<u8>::empty());
        }
        self.ended = true;
        Ok(())
    }

    /// A truth value is an element of type byte, 1 or 0.
    pub fn serialize_bool(&mut self, ser: &mut Serializer, v: bool) -> (r: Result<(), Error>)
        ensures
            old(self).took(
                *final(self),
                old(ser)@,
                final(ser)@,
                r,
                Tag::Byte(if v { 1u8 } else { 0u8 }),
            ),
    {
        self.serialize_u8(ser, if v { 1 } else { 0 })
    }

    /// A byte is an element of type byte.
    pub fn serialize_u8(&mut self, ser: &mut Serializer, v: u8) -> (r: Result<(), Error>)
        ensures
            old(self).took(*final(self), old(ser)@, final(ser)@, r, Tag::Byte(v)),
    {
        match self.begin(ser, TagType::Byte) {
            Err(e) => Err(e),
            Ok(_) => {
                ser.put_u8(v);
                assert(ser@ =~= old(ser)@ + old(self).opening(TagType::Byte) + payload(
                    Tag::Byte(v),
                ));
                Ok(())
            },
        }
    }

    /// A 16-bit integer is an element of type short.
    pub fn serialize_i16(&mut self, ser: &mut Serializer, v: i16) -> (r: Result<(), Error>)
        ensures
            old(self).took(*final(self), old(ser)@, final(ser)@, r, Tag::Short(v)),
    {
        match self.begin(ser, TagType::Short) {
            Err(e) => Err(e),
            Ok(_) => {
                ser.put_u16(i16_bits(v));
                Ok(())
            },
        }
    }

    /// A 32-bit integer is an element of type int.
    pub fn serialize_i32(&mut self, ser: &mut Serializer, v: i32) -> (r: Result<(), Error>)
        ensures
            old(self).took(*final(self), old(ser)@, final(ser)@, r, Tag::Int(v)),
    {
        match self.begin(ser, TagType::Int) {
            Err(e) => Err(e),
            Ok(_) => {
                ser.put_u32(i32_bits(v));
                Ok(())
            },
        }
    }

    /// A 64-bit integer is an element of type long.
    pub fn serialize_i64(&mut self, ser: &mut Serializer, v: i64) -> (r: Result<(), Error>)
        ensures
            old(self).took(*final(self), old(ser)@, final(ser)@, r, Tag::Long(v)),
    {
        match self.begin(ser, TagType::Long) {
            Err(e) => Err(e),
            Ok(_) => {
                ser.put_u64(i64_bits(v));
                Ok(())
            },
        }
    }

    /// A 32-bit float, given by its bits, is an element of type float.
    pub fn serialize_f32(&mut self, ser: &mut Serializer, bits: u32) -> (r: Result<(), Error>)
        ensures
            old(self).took(*final(self), old(ser)@, final(ser)@, r, Tag::Float(bits)),
    {
        match self.begin(ser, TagType::Float) {
            Err(e) => Err(e),
            Ok(_) => {
                ser.put_u32(bits);
                Ok(())
            },
        }
    }

    /// A 64-bit float, given by its bits, is an element of type double.
    pub fn serialize_f64(&mut self, ser: &mut Serializer, bits: u64) -> (r: Result<(), Error>)
        ensures
            old(self).took(*final(self), old(ser)@, final(ser)@, r, Tag::Double(bits)),
    {
        match self.begin(ser, TagType::Double) {
            Err(e) => Err(e),
            Ok(_) => {
                ser.put_u64(bits);
                Ok(())
            },
        }
    }

    /// A signed byte is an element of type byte, with its bits.
    pub fn serialize_i8(&mut self, ser: &mut Serializer, v: i8) -> (r: Result<(), Error>)
        ensures
            old(self).took(*final(self), old(ser)@, final(ser)@, r, Tag::Byte(u8_of_i8(v))),
    {
        self.serialize_u8(ser, i8_bits(v))
    }

    /// An unsigned 16-bit integer is an element of type short, with its bits.
    pub fn serialize_u16(&mut self, ser: &mut Serializer, v: u16) -> (r: Result<(), Error>)
        ensures
            old(self).took(*final(self), old(ser)@, final(ser)@, r, Tag::Short(i16_of_u16(v))),
    {
        self.serialize_i16(ser, u16_bits(v))
    }

    /// An unsigned 32-bit integer is an element of type int, with its bits.
    pub fn serialize_u32(&mut self, ser: &mut Serializer, v: u32) -> (r: Result<(), Error>)
        ensures
            old(self).took(*final(self), old(ser)@, final(ser)@, r, Tag::Int(i32_of_u32(v))),
    {
        self.serialize_i32(ser, u32_bits(v))
    }

    /// An unsigned 64-bit integer is an element of type long, with its bits.
    pub fn serialize_u64(&mut self, ser: &mut Serializer, v: u64) -> (r: Result<(), Error>)
        ensures
            old(self).took(*final(self), old(ser)@, final(ser)@, r, Tag::Long(i64_of_u64(v))),
    {
        self.serialize_i64(ser, u64_bits(v))
    }

    /// A character up to `0xff` is an element of type byte, its code point;
    /// any other has no place in the format.
    pub fn serialize_char(&mut self, ser: &mut Serializer, v: char) -> (r: Result<(), Error>)
        ensures
            match char_byte(v) {
                Some(b) => old(self).took(*final(self), old(ser)@, final(ser)@, r, Tag::Byte(b)),
                None => refused(r, "serialize_char"@) && *final(self) == *old(self) && final(ser)@
                    == old(ser)@,
            },
    {
        let code = v as u32;
        if code <= 0xff {
            self.serialize_u8(ser, code as u8)
        } else {
            Err(unsupported("serialize_char"))
        }
    }

    /// Text is an element of type string.
    pub fn serialize_str(&mut self, ser: &mut Serializer, v: &str) -> (r: Result<(), Error>)
        ensures
            old(self).took(*final(self), old(ser)@, final(ser)@, r, Tag::String(v@)),
    {
        match self.let_in(ser, TagType::String) {
            Err(e) => {
                return Err(e);
            },
            Ok(_) => {},
        }
        let bytes = v.as_bytes();
        if bytes.len() > MAX_TEXT_LEN {
            return Err(Error::InvalidLength);
        }
        let _ = self.begin(ser, TagType::String);
        let _ = ser.put_text(bytes);
        Ok(())
    }

    /// A run of bytes is an element of type byte array.
    pub fn serialize_bytes(&mut self, ser: &mut Serializer, v: &[u8]) -> (r: Result<(), Error>)
        ensures
            old(self).took(*final(self), old(ser)@, final(ser)@, r, Tag::ByteArray(v@)),
    {
        match self.let_in(ser, TagType::ByteArray) {
            Err(e) => {
                return Err(e);
            },
            Ok(_) => {},
        }
        if v.len() > MAX_COUNT {
            return Err(Error::InvalidLength);
        }
        let _ = self.begin(ser, TagType::ByteArray);
        ser.put_u32(v.len() as u32);
        ser.put_bytes(v);
        assert(final(ser)@ =~= old(ser)@ + old(self).opening(TagType::ByteArray) + payload(
            Tag::ByteArray(v@),
        ));
        Ok(())
    }

    /// Writes a whole tag as the next element: its payload. This is how a
    /// sequence comes to hold sequences.
    pub fn write_element(&mut self, ser: &mut Serializer, value: &NbtTag) -> (r: Result<(), Error>)
        ensures
            old(self).took(*final(self), old(ser)@, final(ser)@, r, value@),
    {
        match self.let_in(ser, value.tag_type()) {
            Err(e) => {
                return Err(e);
            },
            Ok(_) => {},
        }
        match validate(value) {
            Err(e) => {
                return Err(e);
            },
            Ok(_) => {},
        }
        let _ = self.begin(ser, value.tag_type());
        ser.put_payload(value);
        Ok(())
    }

    /// A map is an element of type compound. Its fields are written through
    /// the builder handed out, which also closes it.
    pub fn serialize_map(&mut self, ser: &mut Serializer, len: Option<usize>) -> (r: Result<
        MapSerializer,
        Error,
    >)
        ensures
            old(self).took_map(*final(self), old(ser)@, final(ser)@, r),
    {
        match self.begin(ser, TagType::Compound) {
            Err(e) => Err(e),
            Ok(_) => Ok(MapSerializer::new()),
        }
    }

    /// A record is an element of type compound, as a map is.
    pub fn serialize_struct(&mut self, ser: &mut Serializer, name: &str, len: usize) -> (r: Result<
        MapSerializer,
        Error,
    >)
        ensures
            old(self).took_map(*final(self), old(ser)@, final(ser)@, r),
    {
        self.serialize_map(ser, None)
    }

    /// A sequence cannot be begun inside a sequence: what the outer one is
    /// written as depends on what the inner one turns out to be. It can be
    /// given whole, see [`SeqSerializer::write_element`].
    pub fn serialize_seq(&self, len: Option<usize>) -> (r: Result<SeqSerializer, Error>)
        ensures
            refused(r, "serialize_seq"@),
    {
        Err(unsupported("serialize_seq"))
    }

    /// An absent value has no place here.
    pub fn serialize_none(&self) -> (r: Result<(), Error>)
        ensures
            refused(r, "serialize_none"@),
    {
        Err(unsupported("serialize_none"))
    }

    /// The empty value has no place here.
    pub fn serialize_unit(&self) -> (r: Result<(), Error>)
        ensures
            refused(r, "serialize_unit"@),
    {
        Err(unsupported("serialize_unit"))
    }

    /// A record without fields has no place here.
    pub fn serialize_unit_struct(&self, name: &str) -> (r: Result<(), Error>)
        ensures
            refused(r, "serialize_unit_struct"@),
    {
        Err(unsupported("serialize_unit_struct"))
    }

    /// A variant without fields has no place here.
    pub fn serialize_unit_variant(&self, name: &str, variant_index: u32, variant: &str) -> (r: Result<(), Error>)
        ensures
            refused(r, "serialize_unit_variant"@),
    {
        Err(unsupported("serialize_unit_variant"))
    }

    /// A variant around one value has no place here.
    pub fn serialize_newtype_variant(&self, name: &str, variant_index: u32, variant: &str) -> (r: Result<(), Error>)
        ensures
            refused(r, "serialize_newtype_variant"@),
    {
        Err(unsupported("serialize_newtype_variant"))
    }

    /// A tuple inside a sequence has no place here.
    pub fn serialize_tuple(&self, len: usize) -> (r: Result<SeqSerializer, Error>)
        ensures
            refused(r, "serialize_tuple"@),
    {
        Err(unsupported("serialize_tuple"))
    }

    /// A tuple record inside a sequence has no place here.
    pub fn serialize_tuple_struct(&self, name: &str, len: usize) -> (r: Result<SeqSerializer, Error>)
        ensures
            refused(r, "serialize_tuple_struct"@),
    {
        Err(unsupported("serialize_tuple_struct"))
    }

    /// A tuple variant has no place here.
    pub fn serialize_tuple_variant(&self, name: &str, variant_index: u32, variant: &str, len: usize) -> (r: Result<SeqSerializer, Error>)
        ensures
            refused(r, "serialize_tuple_variant"@),
    {
        Err(unsupported("serialize_tuple_variant"))
    }

    /// A record variant has no place here.
    pub fn serialize_struct_variant(&self, name: &str, variant_index: u32, variant: &str, len: usize) -> (r: Result<MapSerializer, Error>)
        ensures
            refused(r, "serialize_struct_variant"@),
    {
        Err(unsupported("serialize_struct_variant"))
    }
}

} // verus!
