use nbt_rust::de::decode_from_bytes;
use nbt_rust::encode::encode_tag;
use nbt_rust::error::Error;
use nbt_rust::nbt_tag::{NbtTag, TagType};
use nbt_rust::ser::map_serializer::MapState;
use nbt_rust::ser::{
    KeySerializer, MapSerializer, NameSerializer, SeqSerializer, Serializer, ValueSerializer,
};

fn unsupported(what: &str) -> Error {
    Error::Unsupported(what.to_string())
}

#[test]
fn record_through_the_adapter_reads_back() {
    let mut ser = Serializer::new(Vec::new());
    let mut map = ser.serialize_struct("root", 3).unwrap();
    map.serialize_field("name").unwrap().serialize_str(&mut ser, "MyGame").unwrap();
    map.serialize_field("version").unwrap().serialize_i64(&mut ser, 1).unwrap();
    let mut seq = map.serialize_field("items").unwrap().serialize_seq(Some(5)).unwrap();
    for i in 1..=5 {
        seq.serialize_i32(&mut ser, i).unwrap();
    }
    seq.end(&mut ser).unwrap();
    map.end(&mut ser).unwrap();
    let bytes = ser.into_inner();

    let (name, tag) = decode_from_bytes(&bytes).unwrap();
    assert_eq!(name, "root");
    let expected = NbtTag::Compound(vec![
        ("name".to_string(), NbtTag::String("MyGame".to_string())),
        ("version".to_string(), NbtTag::Long(1)),
        ("items".to_string(), NbtTag::IntArray(vec![1, 2, 3, 4, 5])),
    ]);
    assert_eq!(tag, expected);
    assert_eq!(bytes, encode_tag("root", &expected).unwrap());
}

#[test]
fn map_keys_and_values_alternate() {
    let mut ser = Serializer::new(vec![0xaa]);
    let mut map = ser.serialize_map(None).unwrap();
    assert_eq!(map.serialize_i32(&mut ser, 1), Err(Error::MissingKey));
    assert!(matches!(map.serialize_value(), Err(Error::MissingKey)));
    map.serialize_key(b"k").unwrap();
    map.serialize_u8(&mut ser, 200).unwrap();
    map.serialize_key(b"b").unwrap();
    map.serialize_bool(&mut ser, true).unwrap();
    map.serialize_key(b"s").unwrap();
    map.serialize_u16(&mut ser, 0xffff).unwrap();
    map.end(&mut ser).unwrap();
    assert_eq!(
        ser.into_inner(),
        vec![
            0xaa, 0x0a, 0, 0, // compound ""
            0x01, 0, 1, b'k', 200, // byte
            0x01, 0, 1, b'b', 1, // bool
            0x02, 0, 1, b's', 0xff, 0xff, // short
            0x00,
        ]
    );
}

#[test]
fn ended_map_refuses_everything() {
    let mut ser = Serializer::new(Vec::new());
    let mut map = ser.serialize_map(None).unwrap();
    map.serialize_key(b"k").unwrap();
    map.end(&mut ser).unwrap();
    let len = ser.into_inner().len();
    let mut ser = Serializer::new(Vec::new());
    assert_eq!(len, 4);
    assert_eq!(map.end(&mut ser), Err(Error::Ended));
    assert_eq!(map.serialize_key(b"x"), Err(Error::Ended));
    assert_eq!(map.serialize_i64(&mut ser, 1), Err(Error::Ended));
    assert!(matches!(map.serialize_field("f"), Err(Error::Ended)));
    assert!(matches!(map.serialize_seq(Some(1)), Err(Error::Ended)));
    assert!(matches!(map.serialize_map(&mut ser, None), Err(Error::Ended)));
    assert_eq!(map.serialize_none(), Err(Error::Ended));
    assert_eq!(map.write_field(&mut ser, "n", &NbtTag::Int(1)), Err(Error::Ended));
    assert!(ser.into_inner().is_empty());
}

#[test]
fn write_field_takes_tags() {
    let mut ser = Serializer::new(Vec::new());
    let mut map = ser.serialize_struct("r", 2).unwrap();
    map.write_field(&mut ser, "a", &NbtTag::Short(3)).unwrap();
    assert_eq!(map.write_field(&mut ser, "e", &NbtTag::End), Err(Error::WrongType));
    assert_eq!(
        map.write_field(&mut ser, "l", &NbtTag::List(vec![NbtTag::Int(1), NbtTag::Long(2)])),
        Err(Error::ElementTypesDiffer)
    );
    map.write_field(&mut ser, "l", &NbtTag::List(vec![NbtTag::Int(1), NbtTag::Int(2)])).unwrap();
    map.end(&mut ser).unwrap();
    let (name, tag) = decode_from_bytes(&ser.into_inner()).unwrap();
    assert_eq!(name, "r");
    assert_eq!(
        tag,
        NbtTag::Compound(vec![
            ("a".to_string(), NbtTag::Short(3)),
            ("l".to_string(), NbtTag::List(vec![NbtTag::Int(1), NbtTag::Int(2)])),
        ])
    );
}

#[test]
fn mixed_list_writes_nothing() {
    let mut ser = Serializer::new(vec![1, 2, 3]);
    let list = NbtTag::List(vec![NbtTag::Int(1), NbtTag::Long(2)]);
    assert_eq!(ser.write_tag(b"l", &list), Err(Error::ElementTypesDiffer));
    assert_eq!(ser.into_inner(), vec![1, 2, 3]);
}

#[test]
fn outermost_value_must_be_a_map_or_record() {
    let ser = Serializer::new(Vec::new());
    assert_eq!(ser.serialize_bool(true), Err(Error::WrongType));
    assert_eq!(ser.serialize_i8(1), Err(Error::WrongType));
    assert_eq!(ser.serialize_i16(1), Err(Error::WrongType));
    assert_eq!(ser.serialize_i32(1), Err(Error::WrongType));
    assert_eq!(ser.serialize_i64(1), Err(Error::WrongType));
    assert_eq!(ser.serialize_u8(1), Err(Error::WrongType));
    assert_eq!(ser.serialize_u16(1), Err(Error::WrongType));
    assert_eq!(ser.serialize_u32(1), Err(Error::WrongType));
    assert_eq!(ser.serialize_u64(1), Err(Error::WrongType));
    assert_eq!(ser.serialize_f32(1.0f32.to_bits()), Err(Error::WrongType));
    assert_eq!(ser.serialize_f64(1.0f64.to_bits()), Err(Error::WrongType));
    assert_eq!(ser.serialize_char('c'), Err(Error::WrongType));
    assert_eq!(ser.serialize_str("s"), Err(Error::WrongType));
    assert_eq!(ser.serialize_bytes(b"s"), Err(Error::WrongType));
    assert_eq!(ser.serialize_seq(Some(1)), Err(Error::WrongType));
    assert_eq!(ser.serialize_tuple(1), Err(Error::WrongType));
    assert_eq!(ser.serialize_tuple_struct("t", 1), Err(Error::WrongType));
    assert_eq!(ser.serialize_none(), Err(unsupported("serialize_none")));
    assert_eq!(ser.serialize_unit(), Err(unsupported("serialize_unit")));
    assert_eq!(ser.serialize_unit_struct("u"), Err(unsupported("serialize_unit_struct")));
    assert_eq!(
        ser.serialize_unit_variant("e", 0, "v"),
        Err(unsupported("serialize_unit_variant"))
    );
    assert_eq!(
        ser.serialize_newtype_variant("e", 0, "v"),
        Err(unsupported("serialize_newtype_variant"))
    );
    assert_eq!(
        ser.serialize_tuple_variant("e", 0, "v", 1),
        Err(unsupported("serialize_tuple_variant"))
    );
    assert_eq!(
        ser.serialize_struct_variant("e", 0, "v", 1),
        Err(unsupported("serialize_struct_variant"))
    );
    assert!(ser.into_inner().is_empty());
}

#[test]
fn serializer_writes_scalars_by_name() {
    let mut ser = Serializer::new(Vec::new());
    ser.write_compound_header(b"c").unwrap();
    ser.write_byte(b"a", 1).unwrap();
    ser.write_short(b"b", -2).unwrap();
    ser.write_int(b"c", 3).unwrap();
    ser.write_long(b"d", -4).unwrap();
    ser.write_float(b"e", 0.5f32.to_bits()).unwrap();
    ser.write_double(b"f", 0.25f64.to_bits()).unwrap();
    ser.write_string(b"g", "hi").unwrap();
    ser.write_byte_array(b"h", &[9, 8]).unwrap();
    ser.write_int_array(b"i", &[1, -1]).unwrap();
    ser.write_long_array(b"j", &[2]).unwrap();
    ser.write_end();
    let (name, tag) = decode_from_bytes(&ser.into_inner()).unwrap();
    assert_eq!(name, "c");
    assert_eq!(
        tag,
        NbtTag::Compound(vec![
            ("a".to_string(), NbtTag::Byte(1)),
            ("b".to_string(), NbtTag::Short(-2)),
            ("c".to_string(), NbtTag::Int(3)),
            ("d".to_string(), NbtTag::Long(-4)),
            ("e".to_string(), NbtTag::Float(0.5f32.to_bits())),
            ("f".to_string(), NbtTag::Double(0.25f64.to_bits())),
            ("g".to_string(), NbtTag::String("hi".to_string())),
            ("h".to_string(), NbtTag::ByteArray(vec![9, 8])),
            ("i".to_string(), NbtTag::IntArray(vec![1, -1])),
            ("j".to_string(), NbtTag::LongArray(vec![2])),
        ])
    );
}

#[test]
fn long_names_and_strings_are_refused_by_the_writers() {
    let long = vec![b'a'; 32768];
    let text = "a".repeat(32768);
    let mut ser = Serializer::new(Vec::new());
    assert_eq!(ser.write_int(&long, 1), Err(Error::InvalidLength));
    assert_eq!(ser.write_string(b"s", &text), Err(Error::InvalidLength));
    assert_eq!(ser.write_compound_header(&long), Err(Error::InvalidLength));
    assert_eq!(ser.put_text(&long), Err(Error::InvalidLength));
    assert_eq!(ser.put_header(TagType::Int, &long), Err(Error::InvalidLength));
    assert!(matches!(ser.serialize_struct(&text, 0), Err(Error::InvalidLength)));
    let value = ValueSerializer::new(long.clone());
    assert_eq!(value.serialize_i8(&mut ser, 1), Err(Error::InvalidLength));
    assert!(matches!(value.serialize_map(&mut ser, None), Err(Error::InvalidLength)));
    let mut seq = value.serialize_seq(Some(1)).unwrap();
    assert_eq!(seq.serialize_i16(&mut ser, 1), Err(Error::InvalidLength));
    assert!(ser.into_inner().is_empty());
}

#[test]
fn values_are_written_as_the_tag_of_their_shape() {
    let mut ser = Serializer::new(Vec::new());
    let v = ValueSerializer::new(b"n".to_vec());
    v.serialize_bool(&mut ser, false).unwrap();
    v.serialize_i8(&mut ser, -1).unwrap();
    v.serialize_u8(&mut ser, 7).unwrap();
    v.serialize_i16(&mut ser, -2).unwrap();
    v.serialize_u16(&mut ser, 0x8000).unwrap();
    v.serialize_i32(&mut ser, 0x01020304).unwrap();
    v.serialize_u32(&mut ser, 0xffff_fffe).unwrap();
    v.serialize_i64(&mut ser, 5).unwrap();
    v.serialize_u64(&mut ser, u64::MAX).unwrap();
    v.serialize_f32(&mut ser, 1.0f32.to_bits()).unwrap();
    v.serialize_f64(&mut ser, 1.0f64.to_bits()).unwrap();
    v.serialize_char(&mut ser, 'A').unwrap();
    v.serialize_char(&mut ser, '\u{e9}').unwrap();
    v.serialize_str(&mut ser, "é").unwrap();
    v.serialize_bytes(&mut ser, &[1, 2]).unwrap();
    assert_eq!(v.serialize_char(&mut ser, '✓'), Err(unsupported("serialize_char")));
    ser.write_end();
    let mut bytes = vec![0x0a, 0, 0];
    bytes.extend(ser.into_inner());
    let (_, tag) = decode_from_bytes(&bytes).unwrap();
    let n = || "n".to_string();
    assert_eq!(
        tag,
        NbtTag::Compound(vec![
            (n(), NbtTag::Byte(0)),
            (n(), NbtTag::Byte(255)),
            (n(), NbtTag::Byte(7)),
            (n(), NbtTag::Short(-2)),
            (n(), NbtTag::Short(i16::MIN)),
            (n(), NbtTag::Int(0x01020304)),
            (n(), NbtTag::Int(-2)),
            (n(), NbtTag::Long(5)),
            (n(), NbtTag::Long(-1)),
            (n(), NbtTag::Float(1.0f32.to_bits())),
            (n(), NbtTag::Double(1.0f64.to_bits())),
            (n(), NbtTag::Byte(b'A')),
            (n(), NbtTag::Byte(0xe9)),
            (n(), NbtTag::String("é".to_string())),
            (n(), NbtTag::ByteArray(vec![1, 2])),
        ])
    );
}

#[test]
fn shapes_without_a_tag_are_refused() {
    let v = ValueSerializer::new(b"n".to_vec());
    assert_eq!(v.serialize_none(), Err(unsupported("serialize_none")));
    assert_eq!(v.serialize_unit(), Err(unsupported("serialize_unit")));
    assert_eq!(v.serialize_unit_struct("u"), Err(unsupported("serialize_unit_struct")));
    assert_eq!(v.serialize_unit_variant("e", 1, "v"), Err(unsupported("serialize_unit_variant")));
    assert_eq!(
        v.serialize_newtype_variant("e", 1, "v"),
        Err(unsupported("serialize_newtype_variant"))
    );
    assert!(matches!(
        v.serialize_tuple_variant("e", 1, "v", 2),
        Err(Error::Unsupported(s)) if s == "serialize_tuple_variant"
    ));
    assert!(matches!(
        v.serialize_struct_variant("e", 1, "v", 2),
        Err(Error::Unsupported(s)) if s == "serialize_struct_variant"
    ));
    assert!(matches!(v.serialize_seq(None), Err(Error::UnknownSize)));
    let mut sink = Serializer::new(Vec::new());
    assert_eq!(v.serialize_seq(Some(0)).unwrap().end(&mut sink), Err(Error::EmptySequence));
    assert_eq!(v.serialize_tuple(0).unwrap().end(&mut sink), Err(Error::EmptySequence));
    assert_eq!(
        v.serialize_tuple_struct("t", 0).unwrap().end(&mut sink),
        Err(Error::EmptySequence)
    );
    assert!(sink.into_inner().is_empty());

    let mut ser = Serializer::new(Vec::new());
    let mut map = MapSerializer::new();
    map.serialize_key(b"k").unwrap();
    assert_eq!(map.serialize_unit(), Err(unsupported("serialize_unit")));
    assert_eq!(map.serialize_unit_struct("u"), Err(unsupported("serialize_unit_struct")));
    assert_eq!(
        map.serialize_unit_variant("e", 1, "v"),
        Err(unsupported("serialize_unit_variant"))
    );
    assert_eq!(
        map.serialize_newtype_variant("e", 1, "v"),
        Err(unsupported("serialize_newtype_variant"))
    );
    assert!(matches!(map.serialize_tuple_variant("e", 1, "v", 1), Err(Error::Unsupported(_))));
    assert!(matches!(map.serialize_struct_variant("e", 1, "v", 1), Err(Error::Unsupported(_))));
    assert_eq!(map.serialize_char(&mut ser, '✓'), Err(unsupported("serialize_char")));
    assert!(ser.into_inner().is_empty());
}

#[test]
fn nested_compound_through_the_adapter() {
    let mut ser = Serializer::new(Vec::new());
    let mut outer = ser.serialize_struct("game", 2).unwrap();
    outer.serialize_key(b"player").unwrap();
    let mut inner = outer.serialize_struct(&mut ser, "Player", 2).unwrap();
    inner.serialize_field("name").unwrap().serialize_str(&mut ser, "Steve").unwrap();
    inner.serialize_field("health").unwrap().serialize_u32(&mut ser, 100).unwrap();
    inner.end(&mut ser).unwrap();
    outer.serialize_key(b"scores").unwrap();
    let mut seq = outer.serialize_tuple(2).unwrap();
    seq.serialize_f64(&mut ser, 1.5f64.to_bits()).unwrap();
    seq.serialize_f64(&mut ser, 2.5f64.to_bits()).unwrap();
    seq.end(&mut ser).unwrap();
    outer.end(&mut ser).unwrap();
    let (name, tag) = decode_from_bytes(&ser.into_inner()).unwrap();
    assert_eq!(name, "game");
    assert_eq!(
        tag,
        NbtTag::Compound(vec![
            (
                "player".to_string(),
                NbtTag::Compound(vec![
                    ("name".to_string(), NbtTag::String("Steve".to_string())),
                    ("health".to_string(), NbtTag::Int(100)),
                ])
            ),
            (
                "scores".to_string(),
                NbtTag::List(vec![
                    NbtTag::Double(1.5f64.to_bits()),
                    NbtTag::Double(2.5f64.to_bits()),
                ])
            ),
        ])
    );
}

#[test]
fn sequences_become_arrays_or_lists() {
    fn run(len: usize, fill: impl Fn(&mut SeqSerializer, &mut Serializer)) -> NbtTag {
        let mut ser = Serializer::new(Vec::new());
        let mut seq = SeqSerializer::inferring(b"s".to_vec(), len);
        fill(&mut seq, &mut ser);
        seq.end(&mut ser).unwrap();
        let (name, tag) = decode_from_bytes(&ser.into_inner()).unwrap();
        assert_eq!(name, "s");
        tag
    }
    let t = run(2, |s, o| {
        s.serialize_u8(o, 1).unwrap();
        s.serialize_i8(o, -1).unwrap();
    });
    assert_eq!(t, NbtTag::ByteArray(vec![1, 255]));
    let t = run(2, |s, o| {
        s.serialize_i32(o, 1).unwrap();
        s.serialize_u32(o, u32::MAX).unwrap();
    });
    assert_eq!(t, NbtTag::IntArray(vec![1, -1]));
    let t = run(2, |s, o| {
        s.serialize_i64(o, 1).unwrap();
        s.serialize_u64(o, u64::MAX).unwrap();
    });
    assert_eq!(t, NbtTag::LongArray(vec![1, -1]));
    let t = run(2, |s, o| {
        s.serialize_i16(o, 1).unwrap();
        s.serialize_u16(o, 0xffff).unwrap();
    });
    assert_eq!(t, NbtTag::List(vec![NbtTag::Short(1), NbtTag::Short(-1)]));
    let t = run(2, |s, o| {
        s.serialize_str(o, "a").unwrap();
        s.serialize_str(o, "").unwrap();
    });
    assert_eq!(
        t,
        NbtTag::List(vec![NbtTag::String("a".to_string()), NbtTag::String(String::new())])
    );
    let t = run(1, |s, o| s.serialize_bytes(o, &[5]).unwrap());
    assert_eq!(t, NbtTag::List(vec![NbtTag::ByteArray(vec![5])]));
    let t = run(1, |s, o| s.serialize_f32(o, 2.0f32.to_bits()).unwrap());
    assert_eq!(t, NbtTag::List(vec![NbtTag::Float(2.0f32.to_bits())]));
    let t = run(2, |s, o| {
        s.serialize_bool(o, true).unwrap();
        s.serialize_char(o, 'a').unwrap();
    });
    assert_eq!(t, NbtTag::ByteArray(vec![1, b'a']));
    let t = run(2, |s, o| {
        for i in 0..2 {
            let mut m = s.serialize_map(o, None).unwrap();
            m.serialize_field("i").unwrap().serialize_i32(o, i).unwrap();
            m.end(o).unwrap();
        }
    });
    let entry = |i| NbtTag::Compound(vec![("i".to_string(), NbtTag::Int(i))]);
    assert_eq!(t, NbtTag::List(vec![entry(0), entry(1)]));
}

#[test]
fn declared_list_stays_a_list() {
    let mut ser = Serializer::new(Vec::new());
    let mut seq = SeqSerializer::new(2, TagType::List);
    assert!(ser.len() == 0);
    seq.serialize_i32(&mut ser, 7).unwrap();
    seq.serialize_i32(&mut ser, 8).unwrap();
    seq.end(&mut ser).unwrap();
    assert_eq!(ser.into_inner(), vec![0x03, 0, 0, 0, 2, 0, 0, 0, 7, 0, 0, 0, 8]);

    let mut ser = Serializer::new(Vec::new());
    ser.put_header(TagType::List, b"l").unwrap();
    let mut seq = SeqSerializer::new(1, TagType::List);
    seq.serialize_u8(&mut ser, 9).unwrap();
    seq.end(&mut ser).unwrap();
    let (name, tag) = decode_from_bytes(&ser.into_inner()).unwrap();
    assert_eq!((name.as_str(), tag), ("l", NbtTag::List(vec![NbtTag::Byte(9)])));
}

#[test]
fn declared_array_writes_count_and_elements() {
    let mut ser = Serializer::new(vec![0xaa]);
    let mut seq = SeqSerializer::new(2, TagType::IntArray);
    assert_eq!(seq.serialize_u8(&mut ser, 1), Err(Error::WrongType));
    assert_eq!(seq.serialize_i64(&mut ser, 1), Err(Error::WrongType));
    assert_eq!(seq.end(&mut ser), Err(Error::InvalidLength));
    seq.serialize_i32(&mut ser, 1).unwrap();
    assert_eq!(seq.serialize_u8(&mut ser, 1), Err(Error::WrongType));
    assert_eq!(seq.serialize_i64(&mut ser, 1), Err(Error::WrongType));
    assert_eq!(seq.serialize_str(&mut ser, "x"), Err(Error::WrongType));
    seq.serialize_u32(&mut ser, 2).unwrap();
    assert_eq!(seq.serialize_i32(&mut ser, 3), Err(Error::InvalidLength));
    seq.end(&mut ser).unwrap();
    assert_eq!(seq.end(&mut ser), Err(Error::Ended));
    assert_eq!(seq.serialize_i32(&mut ser, 3), Err(Error::Ended));
    assert!(matches!(seq.serialize_map(&mut ser, None), Err(Error::Ended)));
    assert_eq!(ser.into_inner(), vec![0xaa, 0, 0, 0, 2, 0, 0, 0, 1, 0, 0, 0, 2]);

    let mut ser = Serializer::new(Vec::new());
    let mut seq = SeqSerializer::new(1, TagType::ByteArray);
    assert_eq!(seq.serialize_i32(&mut ser, 1), Err(Error::WrongType));
    seq.serialize_i8(&mut ser, -1).unwrap();
    seq.end(&mut ser).unwrap();
    assert_eq!(ser.into_inner(), vec![0, 0, 0, 1, 0xff]);

    let mut ser = Serializer::new(Vec::new());
    let mut seq = SeqSerializer::new(1, TagType::LongArray);
    assert_eq!(seq.serialize_u8(&mut ser, 1), Err(Error::WrongType));
    seq.serialize_u64(&mut ser, 9).unwrap();
    seq.end(&mut ser).unwrap();
    assert_eq!(ser.into_inner(), vec![0, 0, 0, 1, 0, 0, 0, 0, 0, 0, 0, 9]);

    let mut ser = Serializer::new(Vec::new());
    ser.put_header(TagType::IntArray, b"e").unwrap();
    let mut seq = SeqSerializer::new(0, TagType::IntArray);
    seq.end(&mut ser).unwrap();
    let (_, tag) = decode_from_bytes(&ser.into_inner()).unwrap();
    assert_eq!(tag, NbtTag::IntArray(vec![]));
}

#[test]
fn builder_is_made_for_every_type_and_length() {
    let mut ser = Serializer::new(Vec::new());
    let mut seq = SeqSerializer::new(1, TagType::Int);
    assert_eq!(seq.serialize_i32(&mut ser, 1), Err(Error::WrongType));
    assert_eq!(seq.end(&mut ser), Err(Error::WrongType));
    let mut seq = SeqSerializer::new(0, TagType::Compound);
    assert_eq!(seq.end(&mut ser), Err(Error::WrongType));
    let mut seq = SeqSerializer::new(0, TagType::List);
    assert_eq!(seq.serialize_i32(&mut ser, 1), Err(Error::InvalidLength));
    assert_eq!(seq.end(&mut ser), Err(Error::EmptySequence));
    let mut seq = SeqSerializer::inferring(b"n".to_vec(), 0);
    assert_eq!(seq.end(&mut ser), Err(Error::EmptySequence));
    let mut seq = SeqSerializer::new(0x8000_0000, TagType::ByteArray);
    assert_eq!(seq.serialize_u8(&mut ser, 1), Err(Error::InvalidLength));
    let mut seq = SeqSerializer::inferring(vec![0; 32768], 1);
    assert_eq!(seq.serialize_u8(&mut ser, 1), Err(Error::InvalidLength));
    assert!(ser.into_inner().is_empty());
}

#[test]
fn mixed_sequence_leaves_nothing_in_the_sink() {
    let mut ser = Serializer::new(vec![1, 2, 3]);
    let mut seq = SeqSerializer::new(2, TagType::List);
    seq.serialize_i32(&mut ser, 7).unwrap();
    assert_eq!(ser.len(), 3 + 1 + 4 + 4);
    assert_eq!(seq.serialize_i64(&mut ser, 8), Err(Error::ElementTypesDiffer));
    assert_eq!(ser.len(), 3);
    assert_eq!(seq.serialize_i32(&mut ser, 8), Err(Error::Ended));
    assert_eq!(seq.end(&mut ser), Err(Error::Ended));
    assert_eq!(ser.into_inner(), vec![1, 2, 3]);

    let mut ser = Serializer::new(vec![1, 2, 3]);
    let mut seq = SeqSerializer::new(2, TagType::List);
    seq.serialize_i64(&mut ser, 7).unwrap();
    assert_eq!(seq.serialize_i32(&mut ser, 8), Err(Error::ElementTypesDiffer));
    assert_eq!(ser.into_inner(), vec![1, 2, 3]);

    let mut ser = Serializer::new(vec![9]);
    let mut seq = SeqSerializer::inferring(b"s".to_vec(), 3);
    seq.serialize_i16(&mut ser, 1).unwrap();
    seq.serialize_i16(&mut ser, 2).unwrap();
    assert_eq!(seq.serialize_str(&mut ser, &"a".repeat(40000)), Err(Error::ElementTypesDiffer));
    assert_eq!(ser.into_inner(), vec![9]);

    let mut ser = Serializer::new(vec![9]);
    let mut seq = SeqSerializer::inferring(b"s".to_vec(), 2);
    let mut map = seq.serialize_map(&mut ser, None).unwrap();
    map.serialize_field("i").unwrap().serialize_i32(&mut ser, 1).unwrap();
    map.end(&mut ser).unwrap();
    assert_eq!(seq.write_element(&mut ser, &NbtTag::Int(1)), Err(Error::ElementTypesDiffer));
    assert_eq!(ser.into_inner(), vec![9]);

    let mut ser = Serializer::new(Vec::new());
    ser.truncate(5);
    ser.put_bytes(&[1, 2, 3]);
    ser.truncate(1);
    assert_eq!(ser.into_inner(), vec![1]);
}

#[test]
fn sequences_refuse_what_has_no_place_in_them() {
    let mut ser = Serializer::new(Vec::new());
    let mut seq = SeqSerializer::inferring(b"s".to_vec(), 2);
    seq.serialize_i16(&mut ser, 1).unwrap();
    assert_eq!(seq.serialize_none(), Err(unsupported("serialize_none")));
    assert_eq!(seq.serialize_unit(), Err(unsupported("serialize_unit")));
    assert!(matches!(seq.serialize_seq(Some(1)), Err(Error::Unsupported(_))));
    assert!(matches!(seq.serialize_tuple(1), Err(Error::Unsupported(_))));
    assert!(matches!(seq.serialize_tuple_struct("t", 1), Err(Error::Unsupported(_))));
    assert!(matches!(seq.serialize_tuple_variant("e", 0, "v", 1), Err(Error::Unsupported(_))));
    assert!(matches!(seq.serialize_struct_variant("e", 0, "v", 1), Err(Error::Unsupported(_))));
    assert_eq!(seq.serialize_unit_struct("u"), Err(unsupported("serialize_unit_struct")));
    assert_eq!(
        seq.serialize_unit_variant("e", 0, "v"),
        Err(unsupported("serialize_unit_variant"))
    );
    assert_eq!(
        seq.serialize_newtype_variant("e", 0, "v"),
        Err(unsupported("serialize_newtype_variant"))
    );
    assert_eq!(seq.serialize_char(&mut ser, '✓'), Err(unsupported("serialize_char")));
    assert_eq!(ser.into_inner(), vec![0x09, 0, 1, b's', 0x02, 0, 0, 0, 2, 0, 1]);

    let mut ser = Serializer::new(Vec::new());
    let mut seq = SeqSerializer::inferring(b"s".to_vec(), 1);
    assert_eq!(seq.serialize_str(&mut ser, &"a".repeat(40000)), Err(Error::InvalidLength));
    assert!(ser.into_inner().is_empty());
}

#[test]
fn sequences_take_whole_tags_as_elements() {
    let mut ser = Serializer::new(Vec::new());
    let mut seq = SeqSerializer::inferring(b"m".to_vec(), 2);
    seq.write_element(&mut ser, &NbtTag::IntArray(vec![1, 2])).unwrap();
    seq.write_element(&mut ser, &NbtTag::IntArray(vec![])).unwrap();
    seq.end(&mut ser).unwrap();
    let (name, tag) = decode_from_bytes(&ser.into_inner()).unwrap();
    assert_eq!(name, "m");
    assert_eq!(
        tag,
        NbtTag::List(vec![NbtTag::IntArray(vec![1, 2]), NbtTag::IntArray(vec![])])
    );

    let mut ser = Serializer::new(Vec::new());
    let mut seq = SeqSerializer::inferring(b"m".to_vec(), 1);
    assert_eq!(
        seq.write_element(&mut ser, &NbtTag::List(vec![])),
        Err(Error::EmptySequence)
    );
    assert!(ser.into_inner().is_empty());
    let mut ser = Serializer::new(Vec::new());
    seq.write_element(&mut ser, &NbtTag::Long(3)).unwrap();
    seq.end(&mut ser).unwrap();
    assert_eq!(
        decode_from_bytes(&ser.into_inner()).unwrap().1,
        NbtTag::LongArray(vec![3])
    );

    let mut ser = Serializer::new(Vec::new());
    let mut seq = SeqSerializer::new(1, TagType::List);
    seq.write_element(&mut ser, &NbtTag::Long(3)).unwrap();
    seq.end(&mut ser).unwrap();
    assert_eq!(ser.into_inner(), vec![0x04, 0, 0, 0, 1, 0, 0, 0, 0, 0, 0, 0, 3]);
}

#[test]
fn keys_are_reduced_to_bytes() {
    let mut key = KeySerializer::new(vec![0xaa]);
    key.serialize_str("né").unwrap();
    key.serialize_char('A').unwrap();
    key.serialize_char('✓').unwrap();
    key.serialize_bytes(&[0, 255]).unwrap();
    key.serialize_bool(true).unwrap();
    key.serialize_bool(false).unwrap();
    key.serialize_i8(-1).unwrap();
    key.serialize_u8(2).unwrap();
    key.serialize_i16(-2).unwrap();
    key.serialize_u16(0x0102).unwrap();
    key.serialize_i32(-2).unwrap();
    key.serialize_u32(0x01020304).unwrap();
    key.serialize_i64(-2).unwrap();
    key.serialize_u64(0x0102030405060708).unwrap();
    key.serialize_f32(1.5f32.to_bits()).unwrap();
    key.serialize_f64(1.5f64.to_bits()).unwrap();
    let mut expected = vec![0xaa];
    expected.extend("né".as_bytes());
    expected.push(b'A');
    expected.extend("✓".as_bytes());
    expected.extend([0, 255, 1, 0, 0xff, 2, 0xff, 0xfe, 1, 2]);
    expected.extend([0xff, 0xff, 0xff, 0xfe, 1, 2, 3, 4]);
    expected.extend([0xff, 0xff, 0xff, 0xff, 0xff, 0xff, 0xff, 0xfe, 1, 2, 3, 4, 5, 6, 7, 8]);
    expected.extend([0x3f, 0xc0, 0, 0, 0x3f, 0xf8, 0, 0, 0, 0, 0, 0]);
    assert_eq!(key.serialize_none(), Err(Error::WrongType));
    assert_eq!(key.serialize_unit(), Err(Error::WrongType));
    assert_eq!(key.serialize_unit_struct("u"), Err(Error::WrongType));
    assert_eq!(key.serialize_unit_variant("e", 0, "v"), Err(Error::WrongType));
    assert_eq!(key.serialize_newtype_variant("e", 0, "v"), Err(Error::WrongType));
    assert_eq!(key.serialize_seq(None), Err(Error::WrongType));
    assert_eq!(key.serialize_tuple(1), Err(Error::WrongType));
    assert_eq!(key.serialize_tuple_struct("t", 1), Err(Error::WrongType));
    assert_eq!(key.serialize_tuple_variant("e", 0, "v", 1), Err(Error::WrongType));
    assert_eq!(key.serialize_map(None), Err(Error::WrongType));
    assert_eq!(key.serialize_struct("s", 1), Err(Error::WrongType));
    assert_eq!(key.serialize_struct_variant("e", 0, "v", 1), Err(Error::WrongType));
    assert_eq!(key.into_inner(), expected);
}

#[test]
fn names_are_written_behind_their_length() {
    let mut name = NameSerializer::new(Vec::new());
    name.serialize_str("hi").unwrap();
    name.serialize_unit().unwrap();
    name.serialize_char('é').unwrap();
    name.serialize_bytes(&[7]).unwrap();
    name.serialize_bool(true).unwrap();
    name.serialize_i8(-1).unwrap();
    name.serialize_u8(1).unwrap();
    name.serialize_i16(1).unwrap();
    name.serialize_u16(2).unwrap();
    name.serialize_i32(-1).unwrap();
    name.serialize_u32(1).unwrap();
    name.serialize_i64(1).unwrap();
    name.serialize_u64(2).unwrap();
    name.serialize_f32(0).unwrap();
    name.serialize_f64(0).unwrap();
    name.put_name(b"x").unwrap();
    assert_eq!(name.serialize_str(&"a".repeat(32768)), Err(Error::InvalidLength));
    assert_eq!(name.serialize_bytes(&[0; 32768]), Err(Error::InvalidLength));
    assert_eq!(name.serialize_none(), Err(Error::WrongType));
    assert_eq!(name.serialize_unit_struct("u"), Err(Error::WrongType));
    assert_eq!(name.serialize_unit_variant("e", 0, "v"), Err(Error::WrongType));
    assert_eq!(name.serialize_newtype_variant("e", 0, "v"), Err(Error::WrongType));
    assert_eq!(name.serialize_seq(Some(1)), Err(Error::WrongType));
    assert_eq!(name.serialize_tuple(1), Err(Error::WrongType));
    assert_eq!(name.serialize_tuple_struct("t", 1), Err(Error::WrongType));
    assert_eq!(name.serialize_tuple_variant("e", 0, "v", 1), Err(Error::WrongType));
    assert_eq!(name.serialize_map(None), Err(Error::WrongType));
    assert_eq!(name.serialize_struct("s", 1), Err(Error::WrongType));
    assert_eq!(name.serialize_struct_variant("e", 0, "v", 1), Err(Error::WrongType));
    let mut expected = vec![0, 2, b'h', b'i', 0, 0, 0, 2, 0xc3, 0xa9, 0, 1, 7, 0, 1, 1];
    expected.extend([0, 1, 0xff, 0, 1, 1, 0, 2, 0, 1, 0, 2, 0, 2]);
    expected.extend([0, 4, 0xff, 0xff, 0xff, 0xff, 0, 4, 0, 0, 0, 1]);
    expected.extend([0, 8, 0, 0, 0, 0, 0, 0, 0, 1, 0, 8, 0, 0, 0, 0, 0, 0, 0, 2]);
    expected.extend([0, 4, 0, 0, 0, 0, 0, 8, 0, 0, 0, 0, 0, 0, 0, 0]);
    expected.extend([0, 1, b'x']);
    assert_eq!(name.into_inner(), expected);
}

#[test]
fn compound_builder_writes_header_fields_and_end() {
    let mut ser = Serializer::new(Vec::new());
    let mut c = ser.start_compound("c").unwrap();
    c.write_field(&mut ser, "x", &NbtTag::Byte(1)).unwrap();
    c.end(&mut ser).unwrap();
    assert_eq!(c.write_field(&mut ser, "y", &NbtTag::Byte(2)), Err(Error::Ended));
    assert_eq!(
        ser.into_inner(),
        vec![0x0a, 0, 1, b'c', 0x01, 0, 1, b'x', 1, 0x00]
    );
    let mut ser = Serializer::new(Vec::new());
    let mut c = ser.start_compound("").unwrap();
    c.end(&mut ser).unwrap();
    assert_eq!(ser.into_inner(), vec![0x0a, 0, 0, 0x00]);
    let mut ser = Serializer::new(Vec::new());
    assert!(matches!(ser.start_compound(&"n".repeat(40000)), Err(Error::InvalidLength)));
    assert!(ser.into_inner().is_empty());
}

#[test]
fn map_state_is_a_plain_value() {
    assert_ne!(MapState::Empty, MapState::HasFields);
    assert_ne!(MapState::HasFields, MapState::Ended);
}
