use fankor_codec::codec::AccountCodec;
use fankor_codec::codec::CodecError;
use fankor_codec::codec::deserialize_payload;
use fankor_codec::codec::serialize_payload;
use fankor_codec::hooks::NoopHook;
use fankor_codec::hooks::SetFieldHook;
use fankor_codec::hooks::deserialize_payload_with_hook;
use fankor_codec::reader::try_from_vec_accounts_with_bounds;
use fankor_codec::schema::FieldSchema;
use fankor_codec::schema::FieldType;
use fankor_codec::schema::Schema;
use fankor_codec::schema::SchemaKind;
use fankor_codec::schema::TagMode;
use fankor_codec::schema::TypeRef;
use fankor_codec::schema::VariantSchema;
use fankor_codec::value::Record;
use fankor_codec::value::Value;

fn field(ft: FieldType) -> FieldSchema {
    FieldSchema { name: None, ty: TypeRef::Concrete(ft), skip: false }
}

fn skip_field(ft: FieldType) -> FieldSchema {
    FieldSchema { name: None, ty: TypeRef::Concrete(ft), skip: true }
}

fn variant(name: &str, fields: Vec<FieldSchema>) -> VariantSchema {
    VariantSchema { name: name.to_owned(), discriminator: Vec::new(), fields }
}

/// The enum `{ A, B(u32, u64), C { value1: u32, value2: string } }` in the
/// standard mode.
fn abc_schema() -> Schema {
    Schema {
        name: "AbcEnum".to_owned(),
        kind: SchemaKind::Enum(TagMode::Standard),
        variants: vec![
            variant("A", vec![]),
            variant("B", vec![field(FieldType::U32), field(FieldType::U64)]),
            variant("C", vec![field(FieldType::U32), field(FieldType::Str)]),
        ],
    }
}

#[test]
fn encodes_b_7_9_exactly() {
    let s = abc_schema();
    let r = Record { variant: 1, fields: vec![Value::U32(7), Value::U64(9)] };
    let mut out: Vec<u8> = Vec::new();
    serialize_payload(&s, &r, &mut out);
    assert_eq!(out, vec![0x01, 7, 0, 0, 0, 9, 0, 0, 0, 0, 0, 0, 0]);
}

#[test]
fn decodes_b_7_9_exactly() {
    let s = abc_schema();
    let buf: Vec<u8> = vec![0x01, 7, 0, 0, 0, 9, 0, 0, 0, 0, 0, 0, 0];
    let mut pos: usize = 0;
    let r = deserialize_payload(&s, &buf, &mut pos).unwrap();
    assert_eq!(r, Record { variant: 1, fields: vec![Value::U32(7), Value::U64(9)] });
    assert_eq!(pos, buf.len());
}

#[test]
fn tags_decode_in_declaration_order() {
    let s = abc_schema();
    let buf: Vec<u8> = vec![0x00];
    let mut pos: usize = 0;
    let r = deserialize_payload(&s, &buf, &mut pos).unwrap();
    assert_eq!(r.variant, 0);
    assert!(r.fields.is_empty());

    let buf2: Vec<u8> = vec![0x02, 5, 0, 0, 0, 2, 0, 0, 0, b'h', b'i'];
    let mut pos2: usize = 0;
    let r2 = deserialize_payload(&s, &buf2, &mut pos2).unwrap();
    assert_eq!(r2, Record { variant: 2, fields: vec![Value::U32(5), Value::Str(vec![b'h', b'i'])] });
    assert_eq!(pos2, buf2.len());
}

#[test]
fn tag_at_or_past_variant_count_is_rejected() {
    let s = abc_schema();
    let buf: Vec<u8> = vec![0x03, 1, 2, 3];
    let mut pos: usize = 0;
    let e = deserialize_payload(&s, &buf, &mut pos).unwrap_err();
    assert_eq!(e, CodecError::UnexpectedVariant { tag: 3 });

    let buf2: Vec<u8> = vec![0xff];
    let mut pos2: usize = 0;
    let e2 = deserialize_payload(&s, &buf2, &mut pos2).unwrap_err();
    assert_eq!(e2, CodecError::UnexpectedVariant { tag: 255 });
}

#[test]
fn string_round_trip() {
    let s = abc_schema();
    let r = Record {
        variant: 2,
        fields: vec![Value::U32(1), Value::Str(b"value two".to_vec())],
    };
    let mut out: Vec<u8> = Vec::new();
    serialize_payload(&s, &r, &mut out);
    let mut pos: usize = 0;
    let back = deserialize_payload(&s, &out, &mut pos).unwrap();
    assert_eq!(back, r);
    assert_eq!(pos, out.len());
}

#[test]
fn truncated_field_payload_fails() {
    let s = abc_schema();
    let buf: Vec<u8> = vec![0x01, 7, 0, 0];
    let mut pos: usize = 0;
    let e = deserialize_payload(&s, &buf, &mut pos).unwrap_err();
    assert_eq!(e, CodecError::UnexpectedEndOfInput);
}

#[test]
fn skip_field_never_reaches_the_wire_and_decodes_to_default() {
    let s = Schema {
        name: "Skippy".to_owned(),
        kind: SchemaKind::Enum(TagMode::Standard),
        variants: vec![variant(
            "Only",
            vec![field(FieldType::U32), skip_field(FieldType::U64), field(FieldType::U8)],
        )],
    };
    let r = Record {
        variant: 0,
        fields: vec![Value::U32(5), Value::U64(77), Value::U8(9)],
    };
    let mut out: Vec<u8> = Vec::new();
    serialize_payload(&s, &r, &mut out);
    assert_eq!(out, vec![0x00, 5, 0, 0, 0, 9]);
    let mut pos: usize = 0;
    let back = deserialize_payload(&s, &out, &mut pos).unwrap();
    assert_eq!(
        back,
        Record { variant: 0, fields: vec![Value::U32(5), Value::U64(0), Value::U8(9)] }
    );
}

#[test]
fn struct_payload_has_no_tag_byte() {
    let s = Schema {
        name: "Plain".to_owned(),
        kind: SchemaKind::Struct,
        variants: vec![variant("Plain", vec![field(FieldType::U32)])],
    };
    let r = Record { variant: 0, fields: vec![Value::U32(0x01020304)] };
    let mut out: Vec<u8> = Vec::new();
    serialize_payload(&s, &r, &mut out);
    assert_eq!(out, vec![4, 3, 2, 1]);
}

fn abc_codec() -> AccountCodec {
    AccountCodec { schema: abc_schema(), discriminator: vec![0xd1, 0xd2, 0xd3] }
}

#[test]
fn account_round_trip_consumes_discriminator_and_payload() {
    let c = abc_codec();
    let r = Record { variant: 1, fields: vec![Value::U32(7), Value::U64(9)] };
    let bytes = c.try_serialize(&r);
    assert_eq!(&bytes[..3], &[0xd1, 0xd2, 0xd3]);
    let mut pos: usize = 0;
    let back = c.try_deserialize(&bytes, &mut pos).unwrap();
    assert_eq!(back, r);
    assert_eq!(pos, bytes.len());
}

#[test]
fn short_buffer_is_not_found_not_mismatch() {
    let c = abc_codec();
    let buf: Vec<u8> = vec![0xd1, 0xd2];
    let mut pos: usize = 0;
    let e = c.try_deserialize(&buf, &mut pos).unwrap_err();
    assert_eq!(e, CodecError::AccountDiscriminatorNotFound { account: "AbcEnum".to_owned() });
}

#[test]
fn foreign_discriminator_is_a_mismatch_naming_both() {
    let c = abc_codec();
    let buf: Vec<u8> = vec![0xd1, 0xd2, 0xff, 0x00];
    let mut pos: usize = 0;
    let e = c.try_deserialize(&buf, &mut pos).unwrap_err();
    assert_eq!(
        e,
        CodecError::AccountDiscriminatorMismatch {
            account: "AbcEnum".to_owned(),
            expected: vec![0xd1, 0xd2, 0xd3],
            actual: vec![0xd1, 0xd2, 0xff],
        }
    );
}

#[test]
fn unchecked_read_takes_the_payload_as_is() {
    let c = abc_codec();
    let buf: Vec<u8> = vec![0x00];
    let mut pos: usize = 0;
    let r = c.try_deserialize_unchecked(&buf, &mut pos).unwrap();
    assert_eq!(r.variant, 0);

    let bad: Vec<u8> = vec![0x01, 7];
    let mut pos2: usize = 0;
    let e = c.try_deserialize_unchecked(&bad, &mut pos2).unwrap_err();
    assert_eq!(e, CodecError::AccountDidNotDeserialize { account: "AbcEnum".to_owned() });
}

fn checked_schema() -> Schema {
    Schema {
        name: "Checked".to_owned(),
        kind: SchemaKind::Enum(TagMode::DiscriminantChecked(9)),
        variants: vec![variant("A", vec![]), variant("B", vec![field(FieldType::U8)])],
    }
}

#[test]
fn discriminant_checked_accepts_only_its_code() {
    let s = checked_schema();
    let buf: Vec<u8> = vec![9, 1, 42];
    let mut pos: usize = 0;
    let r = deserialize_payload(&s, &buf, &mut pos).unwrap();
    assert_eq!(r, Record { variant: 1, fields: vec![Value::U8(42)] });
    assert_eq!(pos, 3);
}

#[test]
fn discriminant_mismatch_fails_before_the_tag_is_read() {
    let s = checked_schema();
    // No tag byte follows at all: the discriminant alone decides.
    let buf: Vec<u8> = vec![8];
    let mut pos: usize = 0;
    let e = deserialize_payload(&s, &buf, &mut pos).unwrap_err();
    assert_eq!(e, CodecError::DiscriminantMismatch { account: "Checked".to_owned() });
}

#[test]
fn discriminant_without_tag_is_eof() {
    let s = checked_schema();
    let buf: Vec<u8> = vec![9];
    let mut pos: usize = 0;
    let e = deserialize_payload(&s, &buf, &mut pos).unwrap_err();
    assert_eq!(e, CodecError::UnexpectedEndOfInput);
}

fn aggregate_schema() -> Schema {
    Schema {
        name: "Wrapper".to_owned(),
        kind: SchemaKind::Enum(TagMode::Aggregate),
        variants: vec![
            VariantSchema {
                name: "First".to_owned(),
                discriminator: vec![0x00, 0xaa],
                fields: vec![],
            },
            VariantSchema {
                name: "Second".to_owned(),
                discriminator: vec![0x01, 0xbb],
                fields: vec![field(FieldType::U32)],
            },
        ],
    }
}

#[test]
fn aggregate_defers_the_tag_to_the_variant_record() {
    let s = aggregate_schema();
    let buf: Vec<u8> = vec![0x01, 0xbb, 7, 0, 0, 0];
    let mut pos: usize = 0;
    let r = deserialize_payload(&s, &buf, &mut pos).unwrap();
    assert_eq!(r, Record { variant: 1, fields: vec![Value::U32(7)] });
    // The tag byte was consumed once, as the discriminator's first byte.
    assert_eq!(pos, 6);
}

#[test]
fn aggregate_propagates_inner_failures_unchanged() {
    let s = aggregate_schema();

    let short: Vec<u8> = vec![0x01];
    let mut pos: usize = 0;
    let e = deserialize_payload(&s, &short, &mut pos).unwrap_err();
    assert_eq!(e, CodecError::AccountDiscriminatorNotFound { account: "Second".to_owned() });

    let wrong: Vec<u8> = vec![0x01, 0xcc, 7, 0, 0, 0];
    let mut pos2: usize = 0;
    let e2 = deserialize_payload(&s, &wrong, &mut pos2).unwrap_err();
    assert_eq!(
        e2,
        CodecError::AccountDiscriminatorMismatch {
            account: "Second".to_owned(),
            expected: vec![0x01, 0xbb],
            actual: vec![0x01, 0xcc],
        }
    );

    let truncated: Vec<u8> = vec![0x01, 0xbb, 7, 0];
    let mut pos3: usize = 0;
    let e3 = deserialize_payload(&s, &truncated, &mut pos3).unwrap_err();
    assert_eq!(e3, CodecError::AccountDidNotDeserialize { account: "Second".to_owned() });

    let bad_tag: Vec<u8> = vec![0x05, 0xbb];
    let mut pos4: usize = 0;
    let e4 = deserialize_payload(&s, &bad_tag, &mut pos4).unwrap_err();
    assert_eq!(e4, CodecError::UnexpectedVariant { tag: 5 });
}

#[test]
fn zero_variant_enum_always_fails() {
    let s = Schema {
        name: "Never".to_owned(),
        kind: SchemaKind::Enum(TagMode::Standard),
        variants: vec![],
    };
    let buf: Vec<u8> = vec![0x00];
    let mut pos: usize = 0;
    let e = deserialize_payload(&s, &buf, &mut pos).unwrap_err();
    assert_eq!(e, CodecError::UnexpectedVariant { tag: 0 });

    let empty: Vec<u8> = vec![];
    let mut pos2: usize = 0;
    let e2 = deserialize_payload(&s, &empty, &mut pos2).unwrap_err();
    assert_eq!(e2, CodecError::UnexpectedEndOfInput);
}

#[test]
fn noop_hook_leaves_the_decoded_value_alone() {
    let s = abc_schema();
    let buf: Vec<u8> = vec![0x01, 7, 0, 0, 0, 9, 0, 0, 0, 0, 0, 0, 0];
    let mut pos: usize = 0;
    let hooked = deserialize_payload_with_hook(&s, &NoopHook, &buf, &mut pos).unwrap();
    let mut pos2: usize = 0;
    let plain = deserialize_payload(&s, &buf, &mut pos2).unwrap();
    assert_eq!(hooked, plain);
}

#[test]
fn set_field_hook_mutates_only_its_field() {
    let s = abc_schema();
    let buf: Vec<u8> = vec![0x01, 7, 0, 0, 0, 9, 0, 0, 0, 0, 0, 0, 0];
    let hook = SetFieldHook { index: 0, value: Value::U32(42) };
    let mut pos: usize = 0;
    let r = deserialize_payload_with_hook(&s, &hook, &buf, &mut pos).unwrap();
    assert_eq!(r, Record { variant: 1, fields: vec![Value::U32(42), Value::U64(9)] });
}

#[test]
fn account_hook_runs_after_the_checked_read() {
    let c = abc_codec();
    let r = Record { variant: 1, fields: vec![Value::U32(7), Value::U64(9)] };
    let bytes = c.try_serialize(&r);
    let hook = SetFieldHook { index: 1, value: Value::U64(1000) };
    let mut pos: usize = 0;
    let back = c.try_deserialize_with_hook(&hook, &bytes, &mut pos).unwrap();
    assert_eq!(back, Record { variant: 1, fields: vec![Value::U32(7), Value::U64(1000)] });
}

#[test]
fn bounded_reader_respects_min_and_max() {
    let c = abc_codec();
    let good = c.try_serialize(&Record { variant: 0, fields: vec![] });
    let bad: Vec<u8> = vec![0xd1, 0xd2, 0xff, 0x00];
    let accounts: Vec<Vec<u8>> = vec![good.clone(), good.clone(), good.clone(), bad];

    // Fewer accounts remain than the minimum.
    let mut cursor: usize = 0;
    let e = try_from_vec_accounts_with_bounds(&c, &accounts, &mut cursor, 5, 9).unwrap_err();
    assert_eq!(e, CodecError::NotEnoughAccountKeys);
    assert_eq!(cursor, 0);

    // The maximum caps the greedy run.
    let mut cursor2: usize = 0;
    let got = try_from_vec_accounts_with_bounds(&c, &accounts, &mut cursor2, 1, 2).unwrap();
    assert_eq!(got.len(), 2);
    assert_eq!(cursor2, 2);

    // The first failing record stops accumulation without failing the call.
    let mut cursor3: usize = 0;
    let got3 = try_from_vec_accounts_with_bounds(&c, &accounts, &mut cursor3, 1, 9).unwrap();
    assert_eq!(got3.len(), 3);
    assert_eq!(cursor3, 3);

    // Too few valid records for the minimum.
    let mut cursor4: usize = 3;
    let e4 = try_from_vec_accounts_with_bounds(&c, &accounts, &mut cursor4, 1, 9).unwrap_err();
    assert_eq!(e4, CodecError::NotEnoughValidAccountForVec);
    assert_eq!(cursor4, 3);
}

#[test]
fn extreme_values_round_trip() {
    let s = abc_schema();
    let r = Record { variant: 1, fields: vec![Value::U32(u32::MAX), Value::U64(u64::MAX)] };
    let mut out: Vec<u8> = Vec::new();
    serialize_payload(&s, &r, &mut out);
    assert_eq!(out, vec![0x01, 255, 255, 255, 255, 255, 255, 255, 255, 255, 255, 255, 255]);
    let mut pos: usize = 0;
    assert_eq!(deserialize_payload(&s, &out, &mut pos).unwrap(), r);
}

#[test]
fn u64_bytes_are_little_endian() {
    let s = abc_schema();
    let r = Record {
        variant: 1,
        fields: vec![Value::U32(0x01020304), Value::U64(0x0102030405060708)],
    };
    let mut out: Vec<u8> = Vec::new();
    serialize_payload(&s, &r, &mut out);
    assert_eq!(out, vec![0x01, 4, 3, 2, 1, 8, 7, 6, 5, 4, 3, 2, 1]);
}

#[test]
fn empty_string_round_trip() {
    let s = abc_schema();
    let r = Record { variant: 2, fields: vec![Value::U32(0), Value::Str(vec![])] };
    let mut out: Vec<u8> = Vec::new();
    serialize_payload(&s, &r, &mut out);
    assert_eq!(out, vec![0x02, 0, 0, 0, 0, 0, 0, 0, 0]);
    let mut pos: usize = 0;
    assert_eq!(deserialize_payload(&s, &out, &mut pos).unwrap(), r);
}

#[test]
fn decode_stops_at_the_record_and_ignores_what_follows() {
    let c = abc_codec();
    let r = Record { variant: 0, fields: vec![] };
    let mut bytes = c.try_serialize(&r);
    let record_len = bytes.len();
    bytes.extend_from_slice(&[0xee, 0xff]);
    let mut pos: usize = 0;
    let back = c.try_deserialize(&bytes, &mut pos).unwrap();
    assert_eq!(back, r);
    assert_eq!(pos, record_len);
}
