//! The tag types, the tag tree and its mathematical model.

use vstd::prelude::*;
use vstd::string::StringExecFns;
use crate::bytes::{i16_of_u16, i32_of_u32, i64_of_u64, i8_bits, u16_bits, u32_bits, u64_bits, u8_of_i8};
use crate::error::Error;

verus! {

/// The thirteen tag types of the format.
#[derive(Clone, Copy, Debug, PartialEq, Eq, Structural)]
pub enum TagType {
    End,
    Byte,
    Short,
    Int,
    Long,
    Float,
    Double,
    ByteArray,
    String,
    List,
    Compound,
    IntArray,
    LongArray,
}

impl TagType {
    /// The byte that stands for this tag type on the wire.
    pub open spec fn code(self) -> u8 {
        match self {
            TagType::End => 0x00,
            TagType::Byte => 0x01,
            TagType::Short => 0x02,
            TagType::Int => 0x03,
            TagType::Long => 0x04,
            TagType::Float => 0x05,
            TagType::Double => 0x06,
            TagType::ByteArray => 0x07,
            TagType::String => 0x08,
            TagType::List => 0x09,
            TagType::Compound => 0x0a,
            TagType::IntArray => 0x0b,
            TagType::LongArray => 0x0c,
        }
    }

    /// The tag type that a byte stands for, if it stands for any.
    pub open spec fn of_code(byte: u8) -> Option<TagType> {
        match byte {
            0x00 => Some(TagType::End),
            0x01 => Some(TagType::Byte),
            0x02 => Some(TagType::Short),
            0x03 => Some(TagType::Int),
            0x04 => Some(TagType::Long),
            0x05 => Some(TagType::Float),
            0x06 => Some(TagType::Double),
            0x07 => Some(TagType::ByteArray),
            0x08 => Some(TagType::String),
            0x09 => Some(TagType::List),
            0x0a => Some(TagType::Compound),
            0x0b => Some(TagType::IntArray),
            0x0c => Some(TagType::LongArray),
            _ => None,
        }
    }

    /// The wire byte of this tag type.
    pub fn to_byte(self) -> (byte: u8)
        ensures
            byte == self.code(),
    {
        match self {
            TagType::End => 0x00,
            TagType::Byte => 0x01,
            TagType::Short => 0x02,
            TagType::Int => 0x03,
            TagType::Long => 0x04,
            TagType::Float => 0x05,
            TagType::Double => 0x06,
            TagType::ByteArray => 0x07,
            TagType::String => 0x08,
            TagType::List => 0x09,
            TagType::Compound => 0x0a,
            TagType::IntArray => 0x0b,
            TagType::LongArray => 0x0c,
        }
    }

    /// Bytes and tag types correspond one to one: a byte names a tag type
    /// exactly when it is at most `0x0c`, and it is then that type's code.
    pub proof fn lemma_code_bijection(kind: TagType, byte: u8)
        ensures
            TagType::of_code(kind.code()) == Some(kind),
            TagType::of_code(byte) is Some <==> byte <= 0x0c,
            TagType::of_code(byte) == Some(kind) <==> kind.code() == byte,
    {
    }
}

impl TryFrom<u8> for TagType {
    type Error = Error;

    /// The tag type named by `value`; any byte that names none is refused.
    fn try_from(value: u8) -> (r: Result<TagType, Error>)
        ensures
            r == match TagType::of_code(value) {
                Some(kind) => Ok::<TagType, Error>(kind),
                None => Err(Error::UnknownTagType(value)),
            },
    {
        match value {
            0x00 => Ok(TagType::End),
            0x01 => Ok(TagType::Byte),
            0x02 => Ok(TagType::Short),
            0x03 => Ok(TagType::Int),
            0x04 => Ok(TagType::Long),
            0x05 => Ok(TagType::Float),
            0x06 => Ok(TagType::Double),
            0x07 => Ok(TagType::ByteArray),
            0x08 => Ok(TagType::String),
            0x09 => Ok(TagType::List),
            0x0a => Ok(TagType::Compound),
            0x0b => Ok(TagType::IntArray),
            0x0c => Ok(TagType::LongArray),
            _ => Err(Error::UnknownTagType(value)),
        }
    }
}

impl vstd::std_specs::convert::TryFromSpecImpl<u8> for TagType {
    open spec fn obeys_try_from_spec() -> bool {
        true
    }

    open spec fn try_from_spec(value: u8) -> Result<TagType, Error> {
        match TagType::of_code(value) {
            Some(kind) => Ok(kind),
            None => Err(Error::UnknownTagType(value)),
        }
    }
}

/// The mathematical model of a tag tree.
///
/// `Float` and `Double` hold the IEEE-754 bit pattern of the number. The
/// entries of a `Compound` keep their order, and a name may occur twice.
pub enum Tag {
    End,
    Byte(u8),
    Short(i16),
    Int(i32),
    Long(i64),
    Float(u32),
    Double(u64),
    ByteArray(Seq<u8>),
    String(Seq<char>),
    List(Seq<Tag>),
    Compound(Seq<(Seq<char>, Tag)>),
    IntArray(Seq<i32>),
    LongArray(Seq<i64>),
}

impl Tag {
    /// The tag type of a tag.
    pub open spec fn tag_type(self) -> TagType {
        match self {
            Tag::End => TagType::End,
            Tag::Byte(_) => TagType::Byte,
            Tag::Short(_) => TagType::Short,
            Tag::Int(_) => TagType::Int,
            Tag::Long(_) => TagType::Long,
            Tag::Float(_) => TagType::Float,
            Tag::Double(_) => TagType::Double,
            Tag::ByteArray(_) => TagType::ByteArray,
            Tag::String(_) => TagType::String,
            Tag::List(_) => TagType::List,
            Tag::Compound(_) => TagType::Compound,
            Tag::IntArray(_) => TagType::IntArray,
            Tag::LongArray(_) => TagType::LongArray,
        }
    }
}

/// One node of a tag tree.
///
/// `Float` and `Double` hold the IEEE-754 bit pattern of the number
/// (`f32::to_bits`, `f64::to_bits`). A `Compound` is the sequence of its named
/// entries in the order in which they were added or read, as they stand on
/// the wire; a name may stand in it more than once, and [`NbtTag::field`]
/// finds the first entry of a name.
#[derive(Debug, PartialEq)]
pub enum NbtTag {
    End,
    Byte(u8),
    Short(i16),
    Int(i32),
    Long(i64),
    Float(u32),
    Double(u64),
    ByteArray(Vec<u8>),
    String(String),
    List(Vec<NbtTag>),
    Compound(Vec<(String, NbtTag)>),
    IntArray(Vec<i32>),
    LongArray(Vec<i64>),
}

/// The models of the tags of a vector, in order.
pub open spec fn view_tags(tags: Seq<NbtTag>) -> Seq<Tag>
    decreases tags,
{
    Seq::new(tags.len(), |i: int| if 0 <= i < tags.len() { tags[i]@ } else { Tag::End })
}

/// The models of the entries of a compound, in order.
pub open spec fn view_entries(entries: Seq<(String, NbtTag)>) -> Seq<(Seq<char>, Tag)>
    decreases entries,
{
    Seq::new(
        entries.len(),
        |i: int|
            if 0 <= i < entries.len() {
                (entries[i].0@, entries[i].1@)
            } else {
                (Seq::empty(), Tag::End)
            },
    )
}

impl View for NbtTag {
    type V = Tag;

    open spec fn view(&self) -> Tag
        decreases self,
    {
        match self {
            NbtTag::End => Tag::End,
            NbtTag::Byte(v) => Tag::Byte(*v),
            NbtTag::Short(v) => Tag::Short(*v),
            NbtTag::Int(v) => Tag::Int(*v),
            NbtTag::Long(v) => Tag::Long(*v),
            NbtTag::Float(v) => Tag::Float(*v),
            NbtTag::Double(v) => Tag::Double(*v),
            NbtTag::ByteArray(v) => Tag::ByteArray(v@),
            NbtTag::String(v) => Tag::String(v@),
            NbtTag::List(v) => Tag::List(view_tags(v@)),
            NbtTag::Compound(v) => Tag::Compound(view_entries(v@)),
            NbtTag::IntArray(v) => Tag::IntArray(v@),
            NbtTag::LongArray(v) => Tag::LongArray(v@),
        }
    }
}

/// The field at place `i` is the first one named `name`.
pub open spec fn is_first_named(fields: Seq<(Seq<char>, Tag)>, name: Seq<char>, i: int) -> bool {
    &&& 0 <= i < fields.len()
    &&& fields[i].0 == name
    &&& forall|j: int| 0 <= j < i ==> (#[trigger] fields[j]).0 != name
}

impl NbtTag {
    /// The value of the first field named `name` of a compound; nothing
    /// where there is no such field or the tag is no compound.
    pub fn field(&self, name: &str) -> (r: Option<&NbtTag>)
        ensures
            self@ is Compound ==> match r {
                Some(tag) => exists|i: int|
                    #[trigger] is_first_named(self@->Compound_0, name@, i) && self@->Compound_0[i].1
                        == tag@,
                None => forall|i: int|
                    0 <= i < self@->Compound_0.len() ==> (#[trigger] self@->Compound_0[i]).0
                        != name@,
            },
            !(self@ is Compound) ==> r is None,
    {
        match self {
            NbtTag::Compound(fields) => {
                let wanted = String::from_str(name);
                let ghost model = view_entries(fields@);
                let mut i: usize = 0;
                while i < fields.len()
                    invariant
                        i <= fields.len(),
                        wanted@ == name@,
                        model == view_entries(fields@),
                        self@ == Tag::Compound(model),
                        forall|j: int| 0 <= j < i ==> (#[trigger] model[j]).0 != name@,
                    decreases fields.len() - i,
                {
                    if fields[i].0 == wanted {
                        let found = &fields[i].1;
                        assert(is_first_named(self@->Compound_0, name@, i as int));
                        assert(self@->Compound_0[i as int].1 == found@);
                        return Some(found);
                    }
                    i += 1;
                }
                None
            },
            _ => None,
        }
    }

    /// The tag type of this tag.
    pub fn tag_type(&self) -> (kind: TagType)
        ensures
            kind == self@.tag_type(),
    {
        match self {
            NbtTag::End => TagType::End,
            NbtTag::Byte(_) => TagType::Byte,
            NbtTag::Short(_) => TagType::Short,
            NbtTag::Int(_) => TagType::Int,
            NbtTag::Long(_) => TagType::Long,
            NbtTag::Float(_) => TagType::Float,
            NbtTag::Double(_) => TagType::Double,
            NbtTag::ByteArray(_) => TagType::ByteArray,
            NbtTag::String(_) => TagType::String,
            NbtTag::List(_) => TagType::List,
            NbtTag::Compound(_) => TagType::Compound,
            NbtTag::IntArray(_) => TagType::IntArray,
            NbtTag::LongArray(_) => TagType::LongArray,
        }
    }
}

/// A copy of some bytes.
fn copy_bytes(v: &Vec<u8>) -> (r: Vec<u8>)
    ensures
        r@ == v@,
{
    vstd::slice::slice_to_vec(v.as_slice())
}

impl Clone for NbtTag {
    /// A copy of the whole tree.
    fn clone(&self) -> (r: NbtTag)
        ensures
            r@ == self@,
        decreases self,
    {
        match self {
            NbtTag::End => NbtTag::End,
            NbtTag::Byte(v) => NbtTag::Byte(*v),
            NbtTag::Short(v) => NbtTag::Short(*v),
            NbtTag::Int(v) => NbtTag::Int(*v),
            NbtTag::Long(v) => NbtTag::Long(*v),
            NbtTag::Float(v) => NbtTag::Float(*v),
            NbtTag::Double(v) => NbtTag::Double(*v),
            NbtTag::ByteArray(v) => NbtTag::ByteArray(copy_bytes(v)),
            NbtTag::String(v) => NbtTag::String(v.clone()),
            NbtTag::List(tags) => {
                let mut copy: Vec<NbtTag> = Vec::new();
                let mut i: usize = 0;
                while i < tags.len()
                    invariant
                        i <= tags.len(),
                        self is List,
                        self->List_0 == *tags,
                        view_tags(copy@) == view_tags(tags@).take(i as int),
                    decreases tags.len() - i,
                {
                    proof {
                        assert(decreases_to!(*self => self->List_0));
                        assert(decreases_to!(*tags => tags[i as int]));
                    }
                    let ghost before = view_tags(copy@);
                    let tag = tags[i].clone();
                    copy.push(tag);
                    i += 1;
                    assert(view_tags(copy@) =~= before.push(tag@));
                    assert(view_tags(copy@) =~= view_tags(tags@).take(i as int));
                }
                assert(view_tags(tags@).take(i as int) =~= view_tags(tags@));
                NbtTag::List(copy)
            },
            NbtTag::Compound(fields) => {
                let mut copy: Vec<(String, NbtTag)> = Vec::new();
                let mut i: usize = 0;
                while i < fields.len()
                    invariant
                        i <= fields.len(),
                        self is Compound,
                        self->Compound_0 == *fields,
                        view_entries(copy@) == view_entries(fields@).take(i as int),
                    decreases fields.len() - i,
                {
                    proof {
                        assert(decreases_to!(*self => self->Compound_0));
                        assert(decreases_to!(*fields => fields[i as int]));
                        assert(decreases_to!(fields[i as int] => fields[i as int].1));
                    }
                    let ghost before = view_entries(copy@);
                    let name = fields[i].0.clone();
                    let tag = fields[i].1.clone();
                    let ghost entry = (name@, tag@);
                    copy.push((name, tag));
                    i += 1;
                    assert(view_entries(copy@) =~= before.push(entry));
                    assert(view_entries(copy@) =~= view_entries(fields@).take(i as int));
                }
                assert(view_entries(fields@).take(i as int) =~= view_entries(fields@));
                NbtTag::Compound(copy)
            },
            NbtTag::IntArray(v) => NbtTag::IntArray(vstd::slice::slice_to_vec(v.as_slice())),
            NbtTag::LongArray(v) => NbtTag::LongArray(vstd::slice::slice_to_vec(v.as_slice())),
        }
    }
}

impl From<u8> for NbtTag {
    /// A byte as a tag.
    fn from(v: u8) -> (r: NbtTag) {
        NbtTag::Byte(v)
    }
}

impl vstd::std_specs::convert::FromSpecImpl<u8> for NbtTag {
    open spec fn obeys_from_spec() -> bool {
        true
    }

    open spec fn from_spec(v: u8) -> NbtTag {
        NbtTag::Byte(v)
    }
}

impl From<i8> for NbtTag {
    /// A signed byte as the byte tag with its bits.
    fn from(v: i8) -> (r: NbtTag) {
        NbtTag::Byte(i8_bits(v))
    }
}

impl vstd::std_specs::convert::FromSpecImpl<i8> for NbtTag {
    open spec fn obeys_from_spec() -> bool {
        true
    }

    open spec fn from_spec(v: i8) -> NbtTag {
        NbtTag::Byte(u8_of_i8(v))
    }
}

impl From<i16> for NbtTag {
    /// A 16-bit integer as a tag.
    fn from(v: i16) -> (r: NbtTag) {
        NbtTag::Short(v)
    }
}

impl vstd::std_specs::convert::FromSpecImpl<i16> for NbtTag {
    open spec fn obeys_from_spec() -> bool {
        true
    }

    open spec fn from_spec(v: i16) -> NbtTag {
        NbtTag::Short(v)
    }
}

impl From<u16> for NbtTag {
    /// An unsigned 16-bit integer as the short tag with its bits.
    fn from(v: u16) -> (r: NbtTag) {
        NbtTag::Short(u16_bits(v))
    }
}

impl vstd::std_specs::convert::FromSpecImpl<u16> for NbtTag {
    open spec fn obeys_from_spec() -> bool {
        true
    }

    open spec fn from_spec(v: u16) -> NbtTag {
        NbtTag::Short(i16_of_u16(v))
    }
}

impl From<i32> for NbtTag {
    /// A 32-bit integer as a tag.
    fn from(v: i32) -> (r: NbtTag) {
        NbtTag::Int(v)
    }
}

impl vstd::std_specs::convert::FromSpecImpl<i32> for NbtTag {
    open spec fn obeys_from_spec() -> bool {
        true
    }

    open spec fn from_spec(v: i32) -> NbtTag {
        NbtTag::Int(v)
    }
}

impl From<u32> for NbtTag {
    /// An unsigned 32-bit integer as the int tag with its bits.
    fn from(v: u32) -> (r: NbtTag) {
        NbtTag::Int(u32_bits(v))
    }
}

impl vstd::std_specs::convert::FromSpecImpl<u32> for NbtTag {
    open spec fn obeys_from_spec() -> bool {
        true
    }

    open spec fn from_spec(v: u32) -> NbtTag {
        NbtTag::Int(i32_of_u32(v))
    }
}

impl From<i64> for NbtTag {
    /// A 64-bit integer as a tag.
    fn from(v: i64) -> (r: NbtTag) {
        NbtTag::Long(v)
    }
}

impl vstd::std_specs::convert::FromSpecImpl<i64> for NbtTag {
    open spec fn obeys_from_spec() -> bool {
        true
    }

    open spec fn from_spec(v: i64) -> NbtTag {
        NbtTag::Long(v)
    }
}

impl From<u64> for NbtTag {
    /// An unsigned 64-bit integer as the long tag with its bits.
    fn from(v: u64) -> (r: NbtTag) {
        NbtTag::Long(u64_bits(v))
    }
}

impl vstd::std_specs::convert::FromSpecImpl<u64> for NbtTag {
    open spec fn obeys_from_spec() -> bool {
        true
    }

    open spec fn from_spec(v: u64) -> NbtTag {
        NbtTag::Long(i64_of_u64(v))
    }
}

impl From<Vec<u8>> for NbtTag {
    /// Bytes as a byte array.
    fn from(v: Vec<u8>) -> (r: NbtTag) {
        NbtTag::ByteArray(v)
    }
}

impl vstd::std_specs::convert::FromSpecImpl<Vec<u8>> for NbtTag {
    open spec fn obeys_from_spec() -> bool {
        true
    }

    open spec fn from_spec(v: Vec<u8>) -> NbtTag {
        NbtTag::ByteArray(v)
    }
}

impl From<std::string::String> for NbtTag {
    /// Text as a string tag.
    fn from(v: std::string::String) -> (r: NbtTag) {
        NbtTag::String(v)
    }
}

impl vstd::std_specs::convert::FromSpecImpl<std::string::String> for NbtTag {
    open spec fn obeys_from_spec() -> bool {
        true
    }

    open spec fn from_spec(v: std::string::String) -> NbtTag {
        NbtTag::String(v)
    }
}

impl From<Vec<NbtTag>> for NbtTag {
    /// Tags as a list.
    fn from(v: Vec<NbtTag>) -> (r: NbtTag) {
        NbtTag::List(v)
    }
}

impl vstd::std_specs::convert::FromSpecImpl<Vec<NbtTag>> for NbtTag {
    open spec fn obeys_from_spec() -> bool {
        true
    }

    open spec fn from_spec(v: Vec<NbtTag>) -> NbtTag {
        NbtTag::List(v)
    }
}

impl From<Vec<(std::string::String, NbtTag)>> for NbtTag {
    /// Named tags as a compound, in their order.
    fn from(v: Vec<(std::string::String, NbtTag)>) -> (r: NbtTag) {
        NbtTag::Compound(v)
    }
}

impl vstd::std_specs::convert::FromSpecImpl<Vec<(std::string::String, NbtTag)>> for NbtTag {
    open spec fn obeys_from_spec() -> bool {
        true
    }

    open spec fn from_spec(v: Vec<(std::string::String, NbtTag)>) -> NbtTag {
        NbtTag::Compound(v)
    }
}

impl From<Vec<i32>> for NbtTag {
    /// 32-bit integers as an int array.
    fn from(v: Vec<i32>) -> (r: NbtTag) {
        NbtTag::IntArray(v)
    }
}

impl vstd::std_specs::convert::FromSpecImpl<Vec<i32>> for NbtTag {
    open spec fn obeys_from_spec() -> bool {
        true
    }

    open spec fn from_spec(v: Vec<i32>) -> NbtTag {
        NbtTag::IntArray(v)
    }
}

impl From<Vec<i64>> for NbtTag {
    /// 64-bit integers as a long array.
    fn from(v: Vec<i64>) -> (r: NbtTag) {
        NbtTag::LongArray(v)
    }
}

impl vstd::std_specs::convert::FromSpecImpl<Vec<i64>> for NbtTag {
    open spec fn obeys_from_spec() -> bool {
        true
    }

    open spec fn from_spec(v: Vec<i64>) -> NbtTag {
        NbtTag::LongArray(v)
    }
}

} // verus!
