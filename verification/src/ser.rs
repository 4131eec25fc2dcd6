//! The value adapter: writers that take host values shape by shape (an
//! integer of some width, a string, a sequence, a map or record) and put on
//! the wire what the encoder would put there for the matching tag.
//!
//! The builders hold no reference to the [`Serializer`] they write to: each
//! call that writes takes it as an argument.

pub mod key_serializer;
pub mod map_serializer;
pub mod name_serializer;
pub mod seq_serializer;
pub mod serializer;
pub mod value_serializer;

pub use key_serializer::KeySerializer;
pub use map_serializer::MapSerializer;
pub use name_serializer::NameSerializer;
pub use seq_serializer::SeqSerializer;
pub use serializer::Serializer;
pub use value_serializer::ValueSerializer;

use vstd::prelude::*;
use vstd::string::StringExecFns;
use crate::error::Error;
use crate::nbt_tag::{Tag, TagType};
use crate::ser::map_serializer::MapState;
use crate::wire::{check_entry, entry, header, MAX_TEXT_LEN};

verus! {

/// A call wrote `tag` under `name`, whole, or refused it and wrote nothing.
pub open spec fn wrote(
    before: Seq<u8>,
    after: Seq<u8>,
    r: Result<(), Error>,
    name: Seq<u8>,
    tag: Tag,
) -> bool {
    match check_entry(name, tag) {
        Ok(_) => r is Ok && after == before + entry(name, tag),
        Err(e) => r == Err::<(), Error>(e) && after == before,
    }
}

/// `s` cut back to its first `n` bytes; where it is no longer than that, it
/// stays as it is.
pub open spec fn cut(s: Seq<u8>, n: nat) -> Seq<u8> {
    if n <= s.len() {
        s.take(n as int)
    } else {
        s
    }
}

/// A call opened a compound named `name` and handed out its builder, or
/// refused the name and wrote nothing.
pub open spec fn opened(
    before: Seq<u8>,
    after: Seq<u8>,
    r: Result<MapSerializer, Error>,
    name: Seq<u8>,
) -> bool {
    if name.len() <= MAX_TEXT_LEN {
        &&& r matches Ok(map)
        &&& map.state() == MapState::Empty
        &&& map.key() is None
        &&& after == before + header(TagType::Compound, name)
    } else {
        &&& r matches Err(Error::InvalidLength)
        &&& after == before
    }
}

/// A call refused a shape that the format has no place for; `what` names
/// the call.
pub open spec fn refused<T>(r: Result<T, Error>, what: Seq<char>) -> bool {
    r matches Err(e) && e.is_unsupported(what)
}

/// The error of a call named `what` that refuses its argument's shape.
pub fn unsupported(what: &str) -> (e: Error)
    ensures
        e.is_unsupported(what@),
{
    Error::Unsupported(String::from_str(what))
}

} // verus!
