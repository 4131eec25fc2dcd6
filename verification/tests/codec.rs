use nbt_rust::bytes::{i16_bits, i32_bits, i64_bits, i8_bits, u16_bits, u32_bits, u64_bits, u8_bits};
use nbt_rust::de::{decode_from_bytes, Deserializer};
use nbt_rust::encode::{encode_tag, make_header};
use nbt_rust::error::Error;
use nbt_rust::nbt_tag::{NbtTag, TagType};

fn roundtrip(name: &str, tag: NbtTag) {
    let bytes = encode_tag(name, &tag).unwrap();
    let (n, t) = decode_from_bytes(&bytes).unwrap();
    assert_eq!(n, name);
    assert_eq!(t, tag);
}

#[test]
fn int_is_big_endian() {
    let bytes = encode_tag("n", &NbtTag::Int(0x12345678)).unwrap();
    assert_eq!(bytes, vec![0x03, 0x00, 0x01, b'n', 0x12, 0x34, 0x56, 0x78]);
}

#[test]
fn short_minus_one_is_ff_ff() {
    let bytes = encode_tag("n", &NbtTag::Short(-1)).unwrap();
    assert_eq!(bytes, vec![0x02, 0x00, 0x01, b'n', 0xff, 0xff]);
}

#[test]
fn long_and_double_are_eight_bytes() {
    let bytes = encode_tag("", &NbtTag::Long(-2)).unwrap();
    assert_eq!(bytes, vec![0x04, 0, 0, 0xff, 0xff, 0xff, 0xff, 0xff, 0xff, 0xff, 0xfe]);
    let bytes = encode_tag("", &NbtTag::Double(1.5f64.to_bits())).unwrap();
    assert_eq!(bytes, vec![0x06, 0, 0, 0x3f, 0xf8, 0, 0, 0, 0, 0, 0]);
    let bytes = encode_tag("", &NbtTag::Float(1.5f32.to_bits())).unwrap();
    assert_eq!(bytes, vec![0x05, 0, 0, 0x3f, 0xc0, 0, 0]);
}

#[test]
fn mixed_list_is_refused() {
    let list = NbtTag::List(vec![NbtTag::Int(1), NbtTag::Long(2)]);
    assert_eq!(encode_tag("l", &list), Err(Error::ElementTypesDiffer));
}

#[test]
fn empty_list_is_refused() {
    assert_eq!(encode_tag("l", &NbtTag::List(vec![])), Err(Error::EmptySequence));
}

#[test]
fn end_as_field_is_refused() {
    let c = NbtTag::Compound(vec![("a".to_string(), NbtTag::End)]);
    assert_eq!(encode_tag("c", &c), Err(Error::WrongType));
}

#[test]
fn long_string_is_refused() {
    let s = "a".repeat(40000);
    assert_eq!(encode_tag("s", &NbtTag::String(s.clone())), Err(Error::InvalidLength));
    assert_eq!(encode_tag(&s, &NbtTag::Int(1)), Err(Error::InvalidLength));
    let ok = "a".repeat(32767);
    let bytes = encode_tag("s", &NbtTag::String(ok)).unwrap();
    assert_eq!(&bytes[..6], &[0x08, 0, 1, b's', 0x7f, 0xff]);
    assert_eq!(bytes.len(), 6 + 32767);
    assert_eq!(
        encode_tag("s", &NbtTag::String("a".repeat(32768))),
        Err(Error::InvalidLength)
    );
}

#[test]
fn byte_array_has_a_four_byte_count() {
    let bytes = encode_tag("b", &NbtTag::ByteArray(vec![7u8; 40000])).unwrap();
    assert_eq!(&bytes[..8], &[0x07, 0, 1, b'b', 0, 0, 0x9c, 0x40]);
    assert_eq!(bytes.len(), 8 + 40000);
    roundtrip("b", NbtTag::ByteArray(vec![7u8; 40000]));
}

#[test]
fn unknown_kind_is_refused() {
    assert_eq!(decode_from_bytes(&[0x7f]), Err(Error::UnknownTagType(0x7f)));
    assert_eq!(decode_from_bytes(&[0x0d, 0, 0]), Err(Error::UnknownTagType(0x0d)));
}

#[test]
fn compound_keeps_two_fields_in_order() {
    let bytes = [
        0x0a, 0x00, 0x01, b'c', // compound "c"
        0x01, 0x00, 0x01, b'b', 0x05, // byte "b" = 5
        0x03, 0x00, 0x01, b'a', 0, 0, 0, 9, // int "a" = 9
        0x00, // end
        0xee, // not looked at
    ];
    let (name, tag) = decode_from_bytes(&bytes).unwrap();
    assert_eq!(name, "c");
    assert_eq!(
        tag,
        NbtTag::Compound(vec![
            ("b".to_string(), NbtTag::Byte(5)),
            ("a".to_string(), NbtTag::Int(9)),
        ])
    );
}

#[test]
fn empty_compound_and_empty_list_decode() {
    let (_, tag) = decode_from_bytes(&[0x0a, 0, 0, 0x00]).unwrap();
    assert_eq!(tag, NbtTag::Compound(vec![]));
    let (_, tag) = decode_from_bytes(&[0x09, 0, 0, 0x03, 0, 0, 0, 0]).unwrap();
    assert_eq!(tag, NbtTag::List(vec![]));
    let (_, tag) = decode_from_bytes(&[0x09, 0, 0, 0x7f, 0, 0, 0, 0]).unwrap();
    assert_eq!(tag, NbtTag::List(vec![]));
    assert_eq!(
        decode_from_bytes(&[0x09, 0, 0, 0x7f, 0, 0, 0, 1]),
        Err(Error::UnknownTagType(0x7f))
    );
}

#[test]
fn short_input_is_an_io_error() {
    assert_eq!(decode_from_bytes(&[]), Err(Error::Io));
    assert_eq!(decode_from_bytes(&[0x03, 0x00]), Err(Error::Io));
    assert_eq!(decode_from_bytes(&[0x03, 0x00, 0x01, b'n', 1, 2, 3]), Err(Error::Io));
    assert_eq!(decode_from_bytes(&[0x0a, 0, 0, 0x01, 0, 0, 1]), Err(Error::Io));
    assert_eq!(decode_from_bytes(&[0x0b, 0, 0, 0, 0, 0, 2, 0, 0, 0, 1]), Err(Error::Io));
}

#[test]
fn bad_utf8_is_refused() {
    assert_eq!(decode_from_bytes(&[0x01, 0x00, 0x01, 0xff, 0x00]), Err(Error::Utf8));
    assert_eq!(decode_from_bytes(&[0x08, 0, 0, 0, 2, 0xc3, 0x28]), Err(Error::Utf8));
}

#[test]
fn negative_length_is_refused() {
    assert_eq!(decode_from_bytes(&[0x01, 0xff, 0xff]), Err(Error::InvalidLength));
    assert_eq!(
        decode_from_bytes(&[0x07, 0, 0, 0x80, 0, 0, 0]),
        Err(Error::InvalidLength)
    );
    assert_eq!(
        decode_from_bytes(&[0x09, 0, 0, 0x01, 0xff, 0xff, 0xff, 0xff]),
        Err(Error::InvalidLength)
    );
}

#[test]
fn end_reads_as_end_without_a_name() {
    assert_eq!(encode_tag("ignored", &NbtTag::End).unwrap(), vec![0x00]);
    assert_eq!(decode_from_bytes(&[0x00]), Ok((String::new(), NbtTag::End)));
    roundtrip("", NbtTag::End);
}

#[test]
fn every_kind_round_trips() {
    roundtrip("n", NbtTag::Byte(200));
    roundtrip("n", NbtTag::Short(-12345));
    roundtrip("n", NbtTag::Int(i32::MIN));
    roundtrip("n", NbtTag::Int(i32::MAX));
    roundtrip("n", NbtTag::Long(i64::MIN));
    roundtrip("n", NbtTag::Long(0x0102030405060708));
    roundtrip("n", NbtTag::Float(3.25f32.to_bits()));
    roundtrip("n", NbtTag::Double((-0.1f64).to_bits()));
    roundtrip("n", NbtTag::ByteArray(vec![0, 1, 255]));
    roundtrip("n", NbtTag::ByteArray(vec![]));
    roundtrip("héllo", NbtTag::String("wörld ✓".to_string()));
    roundtrip("n", NbtTag::IntArray(vec![1, -1, i32::MIN, i32::MAX]));
    roundtrip("n", NbtTag::LongArray(vec![1, -1, i64::MIN, i64::MAX]));
    roundtrip("n", NbtTag::List(vec![NbtTag::End, NbtTag::End]));
    roundtrip(
        "n",
        NbtTag::List(vec![
            NbtTag::List(vec![NbtTag::Short(1)]),
            NbtTag::List(vec![NbtTag::String("x".to_string())]),
        ]),
    );
    roundtrip("n", NbtTag::Compound(vec![]));
}

#[test]
fn nested_compounds_in_a_list_round_trip() {
    let inner = |a: i32, b: &str| {
        NbtTag::Compound(vec![
            ("id".to_string(), NbtTag::Int(a)),
            ("label".to_string(), NbtTag::String(b.to_string())),
            ("id".to_string(), NbtTag::Long(7)),
        ])
    };
    let tag = NbtTag::Compound(vec![
        ("zeta".to_string(), NbtTag::Byte(1)),
        ("items".to_string(), NbtTag::List(vec![inner(1, "one"), inner(2, "two")])),
        ("alpha".to_string(), NbtTag::Short(2)),
    ]);
    roundtrip("root", tag);
}

#[test]
fn reader_goes_on_behind_a_tag() {
    let mut bytes = encode_tag("a", &NbtTag::Int(1)).unwrap();
    bytes.extend(encode_tag("b", &NbtTag::Short(2)).unwrap());
    let mut reader = Deserializer::new(bytes.clone());
    assert_eq!(reader.offset(), 0);
    assert_eq!(reader.decode_one(), Ok(("a".to_string(), NbtTag::Int(1))));
    assert_eq!(reader.offset(), 8);
    let rest = reader.into_inner();
    assert_eq!(rest, bytes[8..].to_vec());
    let mut reader = Deserializer::new(rest);
    assert_eq!(reader.decode_one(), Ok(("b".to_string(), NbtTag::Short(2))));
    assert_eq!(reader.decode_one(), Err(Error::Io));
    assert!(reader.into_inner().is_empty());
    assert_eq!(Deserializer::new(bytes.clone()).into_inner(), bytes);
}

#[test]
fn header_is_kind_and_name() {
    assert_eq!(make_header(TagType::Int, b"hi").unwrap(), vec![0x03, 0x00, 0x02, b'h', b'i']);
    assert_eq!(make_header(TagType::End, b"hi").unwrap(), vec![0x00]);
    assert_eq!(make_header(TagType::Compound, b"").unwrap(), vec![0x0a, 0, 0]);
    assert_eq!(make_header(TagType::Int, &[b'a'; 32768]), Err(Error::InvalidLength));
    assert_eq!(make_header(TagType::Int, &[b'a'; 32767]).unwrap().len(), 3 + 32767);
}

#[test]
fn tag_types_and_bytes_correspond() {
    let kinds = [
        TagType::End,
        TagType::Byte,
        TagType::Short,
        TagType::Int,
        TagType::Long,
        TagType::Float,
        TagType::Double,
        TagType::ByteArray,
        TagType::String,
        TagType::List,
        TagType::Compound,
        TagType::IntArray,
        TagType::LongArray,
    ];
    for (i, kind) in kinds.iter().enumerate() {
        assert_eq!(kind.to_byte(), i as u8);
        assert_eq!(TagType::try_from(i as u8), Ok(*kind));
    }
    for b in 13u8..=255 {
        assert_eq!(TagType::try_from(b), Err(Error::UnknownTagType(b)));
    }
    assert_eq!(NbtTag::IntArray(vec![]).tag_type(), TagType::IntArray);
    assert_eq!(NbtTag::End.tag_type(), TagType::End);
}

#[test]
fn typed_reads_route_by_tag_type() {
    let mut bytes = Vec::new();
    bytes.extend(encode_tag("a", &NbtTag::Int(-5)).unwrap());
    bytes.extend(encode_tag("b", &NbtTag::Byte(1)).unwrap());
    bytes.extend(encode_tag("c", &NbtTag::Byte(200)).unwrap());
    bytes.extend(encode_tag("d", &NbtTag::Short(-1)).unwrap());
    bytes.extend(encode_tag("e", &NbtTag::Long(-1)).unwrap());
    bytes.extend(encode_tag("f", &NbtTag::Float(1.5f32.to_bits())).unwrap());
    bytes.extend(encode_tag("g", &NbtTag::Double(2.5f64.to_bits())).unwrap());
    bytes.extend(encode_tag("h", &NbtTag::String("hi".to_string())).unwrap());
    bytes.extend(encode_tag("i", &NbtTag::ByteArray(vec![1, 2])).unwrap());
    bytes.extend(encode_tag("j", &NbtTag::IntArray(vec![1, -2])).unwrap());
    bytes.extend(encode_tag("k", &NbtTag::LongArray(vec![3])).unwrap());
    bytes.extend(encode_tag("l", &NbtTag::Byte(b'x')).unwrap());
    bytes.extend(encode_tag("m", &NbtTag::Int(-1)).unwrap());
    let mut r = Deserializer::new(bytes);

    let (kind, name) = r.read_header().unwrap();
    assert_eq!((kind, name.as_str()), (TagType::Int, "a"));
    assert_eq!(r.deserialize_i64(kind), Err(Error::WrongType));
    assert_eq!(r.deserialize_map(kind), Err(Error::WrongType));
    assert_eq!(r.deserialize_seq(kind), Err(Error::WrongType));
    assert_eq!(r.deserialize_string(kind), Err(Error::WrongType));
    assert_eq!(r.deserialize_i32(kind), Ok(-5));

    let (kind, _) = r.read_header().unwrap();
    assert_eq!(r.deserialize_bool(kind), Ok(true));
    let (kind, _) = r.read_header().unwrap();
    assert_eq!(r.deserialize_bool(kind), Err(Error::WrongType));
    assert_eq!(r.deserialize_u16(kind), Err(Error::WrongType));
    assert_eq!(r.deserialize_i8(kind), Ok(-56));
    let (kind, _) = r.read_header().unwrap();
    assert_eq!(r.deserialize_u8(kind), Err(Error::WrongType));
    assert_eq!(r.deserialize_u16(kind), Ok(0xffff));
    let (kind, _) = r.read_header().unwrap();
    assert_eq!(r.deserialize_u64(kind), Ok(u64::MAX));
    let (kind, _) = r.read_header().unwrap();
    assert_eq!(r.deserialize_f64(kind), Err(Error::WrongType));
    assert_eq!(r.deserialize_f32(kind), Ok(1.5f32.to_bits()));
    let (kind, _) = r.read_header().unwrap();
    assert_eq!(r.deserialize_f64(kind), Ok(2.5f64.to_bits()));
    let (kind, _) = r.read_header().unwrap();
    assert_eq!(r.deserialize_bytes(kind), Err(Error::WrongType));
    assert_eq!(r.deserialize_string(kind), Ok("hi".to_string()));
    let (kind, _) = r.read_header().unwrap();
    assert_eq!(r.deserialize_bytes(kind), Ok(vec![1, 2]));
    let (kind, _) = r.read_header().unwrap();
    assert_eq!(r.deserialize_longs(kind), Err(Error::WrongType));
    assert_eq!(r.deserialize_ints(kind), Ok(vec![1, -2]));
    let (kind, _) = r.read_header().unwrap();
    assert_eq!(r.deserialize_ints(kind), Err(Error::WrongType));
    assert_eq!(r.deserialize_longs(kind), Ok(vec![3]));
    let (kind, _) = r.read_header().unwrap();
    assert_eq!(r.deserialize_char(kind), Ok('x'));
    let (kind, _) = r.read_header().unwrap();
    assert_eq!(r.deserialize_i16(kind), Err(Error::WrongType));
    assert_eq!(r.deserialize_u32(kind), Ok(u32::MAX));
    assert_eq!(r.read_header(), Err(Error::Io));
    assert_eq!(r.deserialize_i32(TagType::Int), Err(Error::Io));
    assert_eq!(r.deserialize_bool(TagType::Byte), Err(Error::Io));
}

#[test]
fn typed_reads_walk_records_and_sequences() {
    let tag = NbtTag::Compound(vec![
        ("name".to_string(), NbtTag::String("MyGame".to_string())),
        ("items".to_string(), NbtTag::IntArray(vec![1, 2, 3])),
        ("tags".to_string(), NbtTag::List(vec![NbtTag::Short(7), NbtTag::Short(8)])),
        ("none".to_string(), NbtTag::ByteArray(vec![])),
    ]);
    let mut r = Deserializer::new(encode_tag("root", &tag).unwrap());
    let (kind, name) = r.read_header().unwrap();
    assert_eq!(name, "root");
    assert_eq!(r.deserialize_map(kind), Ok(()));

    let (kind, name) = r.read_header().unwrap();
    assert_eq!(name, "name");
    assert_eq!(r.deserialize_string(kind), Ok("MyGame".to_string()));

    let (kind, name) = r.read_header().unwrap();
    assert_eq!(name, "items");
    let (element, n) = r.deserialize_seq(kind).unwrap();
    assert_eq!((element, n), (TagType::Int, 3));
    let items: Vec<i32> = (0..n).map(|_| r.deserialize_i32(element).unwrap()).collect();
    assert_eq!(items, vec![1, 2, 3]);

    let (kind, _) = r.read_header().unwrap();
    let (element, n) = r.deserialize_seq(kind).unwrap();
    assert_eq!((element, n), (TagType::Short, 2));
    assert_eq!(r.deserialize_i16(element), Ok(7));
    assert_eq!(r.read_payload(element), Ok(NbtTag::Short(8)));

    let (kind, _) = r.read_header().unwrap();
    assert_eq!(r.deserialize_seq(kind), Ok((TagType::Byte, 0)));

    let (kind, name) = r.read_header().unwrap();
    assert_eq!((kind, name.as_str()), (TagType::End, ""));
    assert_eq!(r.read_header(), Err(Error::Io));

    let mut r = Deserializer::new(vec![0x7f, 0, 0, 0, 0]);
    assert_eq!(r.deserialize_seq(TagType::List), Ok((TagType::End, 0)));
    let mut r = Deserializer::new(vec![0x7f, 0, 0, 0, 1]);
    assert_eq!(r.deserialize_seq(TagType::List), Err(Error::UnknownTagType(0x7f)));
    let mut r = Deserializer::new(vec![0x03, 0xff, 0, 0, 1]);
    assert_eq!(r.deserialize_seq(TagType::List), Err(Error::InvalidLength));
}

#[test]
fn primitive_reads_take_bytes_in_order() {
    let mut r = Deserializer::new(vec![1, 0, 2, 0, 0, 0, 3, 0, 0, 0, 0, 0, 0, 0, 4, 0, 1, b'x', 9]);
    assert_eq!(r.read_u8(), Ok(1));
    assert_eq!(r.read_u16(), Ok(2));
    assert_eq!(r.read_u32(), Ok(3));
    assert_eq!(r.read_u64(), Ok(4));
    assert_eq!(r.read_text(), Ok("x".to_string()));
    assert_eq!(r.read_u16(), Err(Error::Io));
    assert_eq!(r.read_bytes(2), Err(Error::Io));
    assert_eq!(r.read_bytes(1), Ok(vec![9]));
    assert_eq!(r.read_bytes(0), Ok(vec![]));
    assert_eq!(r.read_u8(), Err(Error::Io));
    let mut r = Deserializer::new(vec![0x80, 0, 0x7f, 0xff, 0xff, 0xff, 0xff, 0xff]);
    assert_eq!(r.read_len16(), Err(Error::InvalidLength));
    assert_eq!(r.read_count(), Err(Error::InvalidLength));
    assert_eq!(r.read_u16(), Ok(0x8000));
    assert_eq!(r.read_count(), Ok(0x7fff_ffff));
    assert_eq!(r.read_ints(1), Err(Error::Io));
    assert_eq!(r.read_longs(1), Err(Error::Io));
    assert_eq!(r.read_ints(0), Ok(vec![]));
    let mut r = Deserializer::new(vec![0xff, 0xff, 0xff, 0xfe, 0, 0, 0, 0, 0, 0, 0, 5]);
    assert_eq!(r.read_ints(1), Ok(vec![-2]));
    assert_eq!(r.read_longs(1), Ok(vec![5]));
}

#[test]
fn host_values_become_tags() {
    assert_eq!(NbtTag::from(7u8), NbtTag::Byte(7));
    assert_eq!(NbtTag::from(-1i8), NbtTag::Byte(255));
    assert_eq!(NbtTag::from(-3i16), NbtTag::Short(-3));
    assert_eq!(NbtTag::from(0xffffu16), NbtTag::Short(-1));
    assert_eq!(NbtTag::from(5i32), NbtTag::Int(5));
    assert_eq!(NbtTag::from(0x8000_0000u32), NbtTag::Int(i32::MIN));
    assert_eq!(NbtTag::from(6i64), NbtTag::Long(6));
    assert_eq!(NbtTag::from(u64::MAX), NbtTag::Long(-1));
    assert_eq!(NbtTag::from(vec![1u8]), NbtTag::ByteArray(vec![1]));
    assert_eq!(NbtTag::from("s".to_string()), NbtTag::String("s".to_string()));
    assert_eq!(NbtTag::from(vec![NbtTag::End]), NbtTag::List(vec![NbtTag::End]));
    assert_eq!(
        NbtTag::from(vec![("k".to_string(), NbtTag::Int(1))]),
        NbtTag::Compound(vec![("k".to_string(), NbtTag::Int(1))])
    );
    assert_eq!(NbtTag::from(vec![1i32]), NbtTag::IntArray(vec![1]));
    assert_eq!(NbtTag::from(vec![1i64]), NbtTag::LongArray(vec![1]));
    let e: Error = String::from_utf8(vec![0xff]).unwrap_err().into();
    assert_eq!(e, Error::Utf8);
}

#[test]
fn a_copy_is_equal_to_what_was_copied() {
    let tag = NbtTag::Compound(vec![
        ("a".to_string(), NbtTag::List(vec![NbtTag::ByteArray(vec![1, 2]), NbtTag::ByteArray(vec![])])),
        ("b".to_string(), NbtTag::String("x".to_string())),
        ("c".to_string(), NbtTag::IntArray(vec![1])),
        ("d".to_string(), NbtTag::LongArray(vec![2])),
        ("e".to_string(), NbtTag::Compound(vec![("f".to_string(), NbtTag::Double(3))])),
    ]);
    assert_eq!(tag.clone(), tag);
}

#[test]
fn signed_and_unsigned_share_their_bits() {
    assert_eq!(i8_bits(-1), 0xff);
    assert_eq!(i8_bits(i8::MIN), 0x80);
    assert_eq!(i16_bits(-2), 0xfffe);
    assert_eq!(i32_bits(i32::MIN), 0x8000_0000);
    assert_eq!(i64_bits(-1), u64::MAX);
    assert_eq!(i64_bits(i64::MIN), 0x8000_0000_0000_0000);
    assert_eq!(u8_bits(0x80), i8::MIN);
    assert_eq!(u16_bits(0xffff), -1);
    assert_eq!(u32_bits(0xffff_ffff), -1);
    assert_eq!(u64_bits(u64::MAX), -1);
    assert_eq!(u64_bits(0x8000_0000_0000_0000), i64::MIN);
    assert_eq!(u64_bits(5), 5);
    let mut out = vec![9];
    nbt_rust::bytes::put_u16(&mut out, 0x0102);
    nbt_rust::bytes::put_u32(&mut out, 0x03040506);
    nbt_rust::bytes::put_u64(&mut out, 0x0708090a0b0c0d0e);
    assert_eq!(out, vec![9, 1, 2, 3, 4, 5, 6, 7, 8, 9, 10, 11, 12, 13, 14]);
}

#[test]
fn errors_say_what_went_wrong() {
    assert_eq!(Error::Io.message(), "IO error: unexpected end of input");
    assert_eq!(Error::Utf8.message(), "UTF-8 error: invalid utf-8 sequence");
    assert_eq!(Error::UnknownTagType(0).message(), "Unknown tag type: 0");
    assert_eq!(Error::UnknownTagType(7).message(), "Unknown tag type: 7");
    assert_eq!(Error::UnknownTagType(13).message(), "Unknown tag type: 13");
    assert_eq!(Error::UnknownTagType(90).message(), "Unknown tag type: 90");
    assert_eq!(Error::UnknownTagType(100).message(), "Unknown tag type: 100");
    assert_eq!(Error::UnknownTagType(127).message(), "Unknown tag type: 127");
    assert_eq!(Error::UnknownTagType(205).message(), "Unknown tag type: 205");
    assert_eq!(Error::UnknownTagType(255).message(), "Unknown tag type: 255");
    assert_eq!(Error::WrongType.message(), "Wrong Type");
    assert_eq!(Error::EmptySequence.message(), "Empty sequence");
    assert_eq!(Error::ElementTypesDiffer.message(), "Element types differ");
    assert_eq!(Error::UnknownSize.message(), "Size must be specified");
    assert_eq!(Error::MissingKey.message(), "Missing key");
    assert_eq!(Error::InvalidLength.message(), "Length does not fit its field");
    assert_eq!(Error::Ended.message(), "Already ended");
    assert_eq!(
        Error::Unsupported("serialize_none".to_string()).message(),
        "Unsupported method: serialize_none"
    );
    for b in 0u8..=255 {
        assert_eq!(nbt_rust::error::decimal_text(b), format!("{}", b));
    }
}

#[test]
fn failed_read_leaves_the_reader_where_it_was() {
    let mut bytes = encode_tag("a", &NbtTag::Int(1)).unwrap();
    let second = [0x0a, 0, 1, b'c', 0x08, 0, 1, b's', 0, 5, b'x'];
    bytes.extend(second);
    let mut reader = Deserializer::new(bytes);
    assert_eq!(reader.decode_one(), Ok(("a".to_string(), NbtTag::Int(1))));
    assert_eq!(reader.offset(), 8);
    assert_eq!(reader.decode_one(), Err(Error::Io));
    assert_eq!(reader.offset(), 8);
    assert_eq!(reader.read_header(), Ok((TagType::Compound, "c".to_string())));
    assert_eq!(reader.offset(), 12);
    assert_eq!(reader.read_payload(TagType::Compound), Err(Error::Io));
    assert_eq!(reader.offset(), 12);
    assert_eq!(reader.read_header(), Ok((TagType::String, "s".to_string())));
    assert_eq!(reader.deserialize_string(TagType::String), Err(Error::Io));
    assert_eq!(reader.read_text(), Err(Error::Io));
    assert_eq!(reader.offset(), 16);
    assert_eq!(reader.into_inner(), vec![0, 5, b'x']);

    let mut reader = Deserializer::new(vec![0xff, 0xff, 0xff, 0xff, 0x7f]);
    assert_eq!(reader.read_len16(), Err(Error::InvalidLength));
    assert_eq!(reader.read_count(), Err(Error::InvalidLength));
    assert_eq!(reader.deserialize_seq(TagType::List), Err(Error::InvalidLength));
    assert_eq!(reader.deserialize_seq(TagType::IntArray), Err(Error::InvalidLength));
    assert_eq!(reader.read_header(), Err(Error::UnknownTagType(0xff)));
    assert_eq!(reader.offset(), 0);
    let mut reader = Deserializer::new(vec![0x01, 0, 1, 0xff, 0]);
    assert_eq!(reader.read_header(), Err(Error::Utf8));
    assert_eq!(reader.decode_one(), Err(Error::Utf8));
    assert_eq!(reader.offset(), 0);
}

#[test]
fn compound_gives_the_first_field_of_a_name() {
    let tag = NbtTag::Compound(vec![
        ("a".to_string(), NbtTag::Int(1)),
        ("b".to_string(), NbtTag::Int(2)),
        ("a".to_string(), NbtTag::Int(3)),
    ]);
    assert_eq!(tag.field("a"), Some(&NbtTag::Int(1)));
    assert_eq!(tag.field("b"), Some(&NbtTag::Int(2)));
    assert_eq!(tag.field("c"), None);
    assert_eq!(NbtTag::Compound(vec![]).field("a"), None);
    assert_eq!(NbtTag::Int(1).field("a"), None);
}
