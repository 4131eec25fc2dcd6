//! A codec for a hierarchical binary tag format: every value carries a
//! one-byte tag type and, where it is a field of a compound, a name.
//!
//! [`encode::encode_tag`] turns a tag tree into bytes and
//! [`de::decode_from_bytes`] turns bytes into a tag tree; [`wire`] says in
//! mathematical terms what the bytes are, and [`laws`] proves that the two
//! directions fit. [`ser`] writes host values without a tree in between.

pub mod bytes;
pub mod de;
pub mod encode;
pub mod error;
pub mod laws;
pub mod nbt_tag;
pub mod ser;
pub mod wire;

pub use de::Deserializer;
pub use nbt_tag::NbtTag;
pub use nbt_tag::TagType;
pub use ser::Serializer;
