use fankor_codec::accounts::EnumAccountData;
use fankor_codec::accounts::ZeroCopyEnumWithoutValues;
use fankor_codec::analyze::DeclBody;
use fankor_codec::analyze::FieldDecl;
use fankor_codec::analyze::TypeDeclaration;
use fankor_codec::analyze::VariantDecl;
use fankor_codec::analyze::analyze_declaration;
use fankor_codec::analyze::resolve_account;
use fankor_codec::codec::deserialize_payload;
use fankor_codec::directives::AttrArgs;
use fankor_codec::directives::Attribute;
use fankor_codec::directives::CodegenError;
use fankor_codec::directives::MetaEntry;
use fankor_codec::directives::contains_initialize_with;
use fankor_codec::directives::contains_skip;
use fankor_codec::directives::resolve_enum_directives;
use fankor_codec::registry::CodeEntry;
use fankor_codec::registry::CompanionEnum;
use fankor_codec::registry::Registry;
use fankor_codec::registry::RegistryEntry;
use fankor_codec::schema::FieldType;
use fankor_codec::schema::SchemaKind;
use fankor_codec::schema::TagMode;
use fankor_codec::schema::TypeRef;
use fankor_codec::value::Record;
use fankor_codec::value::Value;

fn plain_attr(name: &str) -> Attribute {
    Attribute { name: name.to_owned(), args: AttrArgs::Plain }
}

fn list_attr(name: &str, entries: Vec<MetaEntry>) -> Attribute {
    Attribute { name: name.to_owned(), args: AttrArgs::List(entries) }
}

fn bare(name: &str) -> MetaEntry {
    MetaEntry { name: name.to_owned(), value: None }
}

fn with_value(name: &str, value: &str) -> MetaEntry {
    MetaEntry { name: name.to_owned(), value: Some(value.to_owned()) }
}

fn registry(entries: Vec<(&str, Vec<u8>)>) -> Registry {
    Registry {
        entries: entries
            .into_iter()
            .map(|(n, d)| RegistryEntry { name: n.to_owned(), discriminator: d })
            .collect(),
    }
}

#[test]
fn skip_marker_is_recognized() {
    assert!(contains_skip(&vec![plain_attr("other"), plain_attr("borsh_skip")]));
    assert!(!contains_skip(&vec![plain_attr("other")]));
    // The marker must be bare, not an entry list.
    assert!(!contains_skip(&vec![list_attr("borsh_skip", vec![])]));
}

#[test]
fn init_directive_names_its_method() {
    let r = contains_initialize_with(&vec![list_attr("borsh_init", vec![bare("prime")])]);
    assert_eq!(r.unwrap(), Some("prime".to_owned()));

    let none = contains_initialize_with(&vec![plain_attr("borsh_init")]);
    assert_eq!(none.unwrap(), None);
}

#[test]
fn init_directive_requires_exactly_one_method() {
    let r = contains_initialize_with(&vec![
        list_attr("borsh_init", vec![bare("a"), bare("b")]),
    ]);
    assert_eq!(r.unwrap_err(), CodegenError::InvalidInitDirective);

    // A single entry that is not a bare path is passed over.
    let r2 = contains_initialize_with(&vec![
        list_attr("borsh_init", vec![with_value("a", "b")]),
        list_attr("borsh_init", vec![bare("late")]),
    ]);
    assert_eq!(r2.unwrap(), Some("late".to_owned()));
}

#[test]
fn directive_set_defaults_to_standard() {
    let d = resolve_enum_directives(&vec![plain_attr("derive")]).unwrap();
    assert_eq!(d.account_ref, None);
    assert!(!d.aggregate);
}

#[test]
fn directive_set_recognizes_each_mode() {
    let d = resolve_enum_directives(&vec![
        list_attr("fankor", vec![with_value("account", "LpiAccountDiscriminant")]),
    ])
    .unwrap();
    assert_eq!(d.account_ref, Some("LpiAccountDiscriminant".to_owned()));
    assert!(!d.aggregate);

    let d2 = resolve_enum_directives(&vec![list_attr("fankor", vec![bare("accounts")])])
        .unwrap();
    assert_eq!(d2.account_ref, None);
    assert!(d2.aggregate);
}

#[test]
fn conflicting_modes_are_rejected() {
    let e = resolve_enum_directives(&vec![
        list_attr("fankor", vec![with_value("account", "X"), bare("accounts")]),
    ])
    .unwrap_err();
    assert_eq!(e, CodegenError::ConflictingDirectives);
}

#[test]
fn duplicated_unknown_and_malformed_directives_are_rejected() {
    let dup = resolve_enum_directives(&vec![
        list_attr("fankor", vec![bare("accounts"), bare("accounts")]),
    ])
    .unwrap_err();
    assert_eq!(dup, CodegenError::DuplicatedDirective { name: "accounts".to_owned() });

    let unknown = resolve_enum_directives(&vec![
        list_attr("fankor", vec![bare("mystery")]),
    ])
    .unwrap_err();
    assert_eq!(unknown, CodegenError::UnknownDirective { name: "mystery".to_owned() });

    let bare_account = resolve_enum_directives(&vec![
        list_attr("fankor", vec![bare("account")]),
    ])
    .unwrap_err();
    assert_eq!(bare_account, CodegenError::MalformedDirective { name: "account".to_owned() });

    let shaped = resolve_enum_directives(&vec![plain_attr("fankor")]).unwrap_err();
    assert_eq!(shaped, CodegenError::InvalidAttributeShape);

    let valued_accounts = resolve_enum_directives(&vec![
        list_attr("fankor", vec![with_value("accounts", "X")]),
    ])
    .unwrap_err();
    assert_eq!(valued_accounts, CodegenError::MalformedDirective { name: "accounts".to_owned() });
}

#[test]
fn more_variants_than_a_tag_byte_is_an_error() {
    let mut variants = Vec::new();
    for i in 0..257 {
        variants.push(VariantDecl { name: format!("V{}", i), fields: vec![] });
    }
    let decl = TypeDeclaration {
        name: "Huge".to_owned(),
        generics: vec![],
        attrs: vec![],
        base_obligations: vec![],
        body: DeclBody::Enum(variants),
    };
    let e = analyze_declaration(&decl, &registry(vec![]), &vec![]).unwrap_err();
    assert_eq!(e, CodegenError::TooManyVariants);
}

#[test]
fn registry_lookup_resolves_or_fails() {
    let reg = registry(vec![("EnumAccountData", vec![0xAB, 0xCD])]);
    let d = reg.get_discriminator(&"EnumAccountData".to_owned()).unwrap();
    assert_eq!(d, vec![0xAB, 0xCD]);

    let e = reg.get_discriminator(&"Missing".to_owned()).unwrap_err();
    assert_eq!(e, CodegenError::UnknownAccountName { name: "Missing".to_owned() });
}

#[test]
fn companion_codes_resolve_or_fail() {
    let c = ZeroCopyEnumWithoutValues::companion();
    assert_eq!(c.code_for(&"B".to_owned()).unwrap(), 1);
    assert_eq!(ZeroCopyEnumWithoutValues::B.code(), 1);
    let e = c.code_for(&"D".to_owned()).unwrap_err();
    assert_eq!(e, CodegenError::UnknownDiscriminantCode { name: "D".to_owned() });
}

#[test]
fn analyzer_orders_variants_and_collects_obligations() {
    let decl = EnumAccountData::declaration();
    let reg = registry(vec![]);
    let a = analyze_declaration(&decl, &reg, &vec![]).unwrap();
    assert_eq!(a.schema.kind, SchemaKind::Enum(TagMode::Standard));
    assert_eq!(a.schema.variants.len(), 3);
    assert_eq!(a.schema.variants[0].name, "A");
    assert_eq!(a.schema.variants[1].name, "B");
    assert_eq!(a.schema.variants[2].name, "C");
    assert_eq!(a.schema.variants[2].fields.len(), 2);
    assert!(!a.schema.variants[2].fields[1].skip);
    assert_eq!(
        a.obligations,
        vec![
            TypeRef::Concrete(FieldType::U32),
            TypeRef::Concrete(FieldType::U32),
            TypeRef::Concrete(FieldType::Str),
        ]
    );
    assert_eq!(a.init_hook, None);
}

#[test]
fn skip_fields_impose_no_obligation() {
    let decl = TypeDeclaration {
        name: "S".to_owned(),
        generics: vec![],
        attrs: vec![],
        base_obligations: vec![TypeRef::Named("T".to_owned())],
        body: DeclBody::Struct(vec![
            FieldDecl {
                name: Some("kept".to_owned()),
                ty: TypeRef::Concrete(FieldType::U64),
                attrs: vec![],
            },
            FieldDecl {
                name: Some("dropped".to_owned()),
                ty: TypeRef::Concrete(FieldType::U32),
                attrs: vec![plain_attr("borsh_skip")],
            },
        ]),
    };
    let a = analyze_declaration(&decl, &registry(vec![]), &vec![]).unwrap();
    // Declaration-level constraints come first and are kept.
    assert_eq!(
        a.obligations,
        vec![TypeRef::Named("T".to_owned()), TypeRef::Concrete(FieldType::U64)]
    );
    assert!(a.schema.variants[0].fields[1].skip);
}

#[test]
fn discriminant_checked_pipeline_gates_on_the_companion_code() {
    let decl = TypeDeclaration {
        name: "B".to_owned(),
        generics: vec![],
        attrs: vec![list_attr(
            "fankor",
            vec![with_value("account", "ZeroCopyEnumWithoutValues")],
        )],
        base_obligations: vec![],
        body: DeclBody::Enum(vec![VariantDecl { name: "Only".to_owned(), fields: vec![] }]),
    };
    let comps = vec![ZeroCopyEnumWithoutValues::companion()];
    let a = analyze_declaration(&decl, &registry(vec![]), &comps).unwrap();
    assert_eq!(a.schema.kind, SchemaKind::Enum(TagMode::DiscriminantChecked(1)));

    let ok: Vec<u8> = vec![1, 0];
    let mut pos: usize = 0;
    let r = deserialize_payload(&a.schema, &ok, &mut pos).unwrap();
    assert_eq!(r.variant, 0);

    let bad: Vec<u8> = vec![0, 0];
    let mut pos2: usize = 0;
    let e = deserialize_payload(&a.schema, &bad, &mut pos2).unwrap_err();
    assert!(matches!(e, fankor_codec::codec::CodecError::DiscriminantMismatch { .. }));
}

#[test]
fn unknown_companion_fails_resolution() {
    let decl = TypeDeclaration {
        name: "B".to_owned(),
        generics: vec![],
        attrs: vec![list_attr("fankor", vec![with_value("account", "Ghostly")])],
        base_obligations: vec![],
        body: DeclBody::Enum(vec![]),
    };
    let e = analyze_declaration(&decl, &registry(vec![]), &vec![]).unwrap_err();
    assert_eq!(e, CodegenError::UnknownCompanionEnum { name: "Ghostly".to_owned() });
}

#[test]
fn aggregate_pipeline_resolves_each_variant_discriminator() {
    let decl = TypeDeclaration {
        name: "Wrapper".to_owned(),
        generics: vec![],
        attrs: vec![list_attr("fankor", vec![bare("accounts")])],
        base_obligations: vec![],
        body: DeclBody::Enum(vec![
            VariantDecl { name: "First".to_owned(), fields: vec![] },
            VariantDecl { name: "Second".to_owned(), fields: vec![] },
        ]),
    };
    let reg = registry(vec![("First", vec![0x00, 0xaa]), ("Second", vec![0x01, 0xbb])]);
    let a = analyze_declaration(&decl, &reg, &vec![]).unwrap();
    assert_eq!(a.schema.kind, SchemaKind::Enum(TagMode::Aggregate));
    assert_eq!(a.schema.variants[0].discriminator, vec![0x00, 0xaa]);
    assert_eq!(a.schema.variants[1].discriminator, vec![0x01, 0xbb]);

    // A discriminator that does not begin with the variant's tag byte.
    let bad_reg = registry(vec![("First", vec![0x07]), ("Second", vec![0x01])]);
    let e = analyze_declaration(&decl, &bad_reg, &vec![]).unwrap_err();
    assert_eq!(e, CodegenError::InvalidVariantDiscriminator { name: "First".to_owned() });

    // A variant the registry does not know.
    let partial = registry(vec![("First", vec![0x00])]);
    let e2 = analyze_declaration(&decl, &partial, &vec![]).unwrap_err();
    assert_eq!(e2, CodegenError::UnknownAccountName { name: "Second".to_owned() });
}

#[test]
fn account_wrapper_takes_no_arguments() {
    let decl = EnumAccountData::declaration();
    let reg = registry(vec![("EnumAccountData", vec![0xAB])]);
    let e = resolve_account(&vec![bare("stray")], &decl, &reg, &vec![]).unwrap_err();
    assert_eq!(e, CodegenError::UnexpectedArguments);
}

#[test]
fn account_pipeline_round_trips_the_example_account() {
    let decl = EnumAccountData::declaration();
    let reg = registry(vec![("EnumAccountData", vec![0xAB, 0xCD])]);
    let codec = resolve_account(&vec![], &decl, &reg, &vec![]).unwrap();
    assert_eq!(codec.discriminator, vec![0xAB, 0xCD]);

    let value = EnumAccountData::B(7);
    let record = value.to_record();
    let bytes = codec.try_serialize(&record);
    assert_eq!(bytes, vec![0xAB, 0xCD, 0x01, 7, 0, 0, 0]);

    let mut pos: usize = 0;
    let back = codec.try_deserialize(&bytes, &mut pos).unwrap();
    assert_eq!(back, record);
    assert_eq!(pos, bytes.len());
}

#[test]
fn account_pipeline_fails_without_a_registry_entry() {
    let decl = EnumAccountData::declaration();
    let e = resolve_account(&vec![], &decl, &registry(vec![]), &vec![]).unwrap_err();
    assert_eq!(e, CodegenError::UnknownAccountName { name: "EnumAccountData".to_owned() });
}

#[test]
fn example_string_variant_becomes_its_bytes() {
    let v = EnumAccountData::C { value1: 3, value2_snake: "hi".to_owned() };
    let r = v.to_record();
    assert_eq!(
        r,
        Record { variant: 2, fields: vec![Value::U32(3), Value::Str(vec![b'h', b'i'])] }
    );
}
