//! Example account declarations: a standard-mode enum account carrying
//! payloads, and a payload-free enum whose ordinal codes make it a
//! companion-enum candidate. Their `TypeDeclaration` values feed the
//! analyzer exactly as the annotated source declarations would.

use vstd::prelude::*;
use vstd::utf8::encode_utf8;

use crate::analyze::DeclBody;
use crate::analyze::FieldDecl;
use crate::analyze::TypeDeclaration;
use crate::analyze::VariantDecl;
use crate::registry::CodeEntry;
use crate::registry::CompanionEnum;
use crate::schema::FieldType;
use crate::schema::TypeRef;
use crate::schema::TypeRefModel;
use crate::value::Record;
use crate::value::RecordModel;
use crate::value::Value;
use crate::value::ValueModel;

verus! {

/// An account data enum in the standard mode: a unit variant, a
/// positional variant, and a named-field variant with a string payload.
pub enum EnumAccountData {
    A,
    B(u32),
    C { value1: u32, value2_snake: String },
}

/// A payload-free enum; its variants' ordinal codes serve as
/// discriminant codes.
pub enum ZeroCopyEnumWithoutValues {
    A,
    B,
    C,
}

impl EnumAccountData {
    /// The record this value stands for: the variant's ordinal tag and
    /// its field values, a string as its length-prefixed bytes.
    pub open spec fn spec_record(self) -> RecordModel {
        match self {
            EnumAccountData::A => RecordModel { variant: 0, fields: Seq::empty() },
            EnumAccountData::B(x) => RecordModel { variant: 1, fields: seq![ValueModel::U32(x)] },
            EnumAccountData::C { value1, value2_snake } => RecordModel {
                variant: 2,
                fields: seq![ValueModel::U32(value1), ValueModel::Str(encode_utf8(value2_snake@))],
            },
        }
    }

    /// Builds the record form that the codec consumes.
    pub fn to_record(&self) -> (r: Record)
        ensures
            r@ == self.spec_record(),
    {
        match self {
            EnumAccountData::A => {
                let r = Record { variant: 0, fields: Vec::new() };
                proof {
                    assert(r@.fields =~= Seq::<ValueModel>::empty());
                }
                r
            },
            EnumAccountData::B(x) => {
                let mut f: Vec<Value> = Vec::new();
                f.push(Value::U32(*x));
                let r = Record { variant: 1, fields: f };
                proof {
                    assert(r@.fields =~= seq![ValueModel::U32(*x)]);
                }
                r
            },
            EnumAccountData::C { value1, value2_snake } => {
                let mut f: Vec<Value> = Vec::new();
                f.push(Value::U32(*value1));
                let bytes = value2_snake.as_str().as_bytes_vec();
                f.push(Value::Str(bytes));
                let r = Record { variant: 2, fields: f };
                proof {
                    assert(r@.fields =~= seq![
                        ValueModel::U32(*value1),
                        ValueModel::Str(encode_utf8(value2_snake@)),
                    ]);
                }
                r
            },
        }
    }

    /// The raw declaration of this type, as the analyzer reads it: three
    /// variants in order, no directives, no generics.
    pub fn declaration() -> (d: TypeDeclaration)
        ensures
            d.name@ == "EnumAccountData"@,
            d.generics@.len() == 0,
            d.attrs@.len() == 0,
            d.base_obligations@.len() == 0,
            d.body matches DeclBody::Enum(vs) && vs@.len() == 3 && vs@[0].name@ == "A"@
                && vs@[0].fields@.len() == 0 && vs@[1].name@ == "B"@ && vs@[1].fields@.len() == 1
                && vs@[1].fields@[0].name is None && vs@[1].fields@[0].ty@
                == TypeRefModel::Concrete(FieldType::U32) && vs@[1].fields@[0].attrs@.len() == 0
                && vs@[2].name@ == "C"@ && vs@[2].fields@.len() == 2 && (vs@[2].fields@[0].name
                matches Option::Some(n1) && n1@ == "value1"@) && vs@[2].fields@[0].ty@
                == TypeRefModel::Concrete(FieldType::U32) && vs@[2].fields@[0].attrs@.len() == 0
                && (vs@[2].fields@[1].name matches Option::Some(n2) && n2@ == "value2_snake"@)
                && vs@[2].fields@[1].ty@ == TypeRefModel::Concrete(FieldType::Str)
                && vs@[2].fields@[1].attrs@.len() == 0,
    {
        let mut b_fields: Vec<FieldDecl> = Vec::new();
        b_fields.push(
            FieldDecl {
                name: Option::None,
                ty: TypeRef::Concrete(FieldType::U32),
                attrs: Vec::new(),
            },
        );
        let mut c_fields: Vec<FieldDecl> = Vec::new();
        c_fields.push(
            FieldDecl {
                name: Option::Some("value1".to_owned()),
                ty: TypeRef::Concrete(FieldType::U32),
                attrs: Vec::new(),
            },
        );
        c_fields.push(
            FieldDecl {
                name: Option::Some("value2_snake".to_owned()),
                ty: TypeRef::Concrete(FieldType::Str),
                attrs: Vec::new(),
            },
        );
        let mut variants: Vec<VariantDecl> = Vec::new();
        variants.push(VariantDecl { name: "A".to_owned(), fields: Vec::new() });
        variants.push(VariantDecl { name: "B".to_owned(), fields: b_fields });
        variants.push(VariantDecl { name: "C".to_owned(), fields: c_fields });
        TypeDeclaration {
            name: "EnumAccountData".to_owned(),
            generics: Vec::new(),
            attrs: Vec::new(),
            base_obligations: Vec::new(),
            body: DeclBody::Enum(variants),
        }
    }
}

impl ZeroCopyEnumWithoutValues {
    /// The ordinal code of the variant, as a companion enum exposes it.
    pub fn code(&self) -> (r: u8)
        ensures
            r == (match self {
                ZeroCopyEnumWithoutValues::A => 0u8,
                ZeroCopyEnumWithoutValues::B => 1u8,
                ZeroCopyEnumWithoutValues::C => 2u8,
            }),
    {
        match self {
            ZeroCopyEnumWithoutValues::A => 0,
            ZeroCopyEnumWithoutValues::B => 1,
            ZeroCopyEnumWithoutValues::C => 2,
        }
    }

    /// This type as a companion enum: each variant name bound to its
    /// ordinal code.
    pub fn companion() -> (c: CompanionEnum)
        ensures
            c.name@ == "ZeroCopyEnumWithoutValues"@,
            c.codes@.len() == 3,
            c.codes@[0].name@ == "A"@ && c.codes@[0].code == 0,
            c.codes@[1].name@ == "B"@ && c.codes@[1].code == 1,
            c.codes@[2].name@ == "C"@ && c.codes@[2].code == 2,
    {
        let mut codes: Vec<CodeEntry> = Vec::new();
        codes.push(CodeEntry { name: "A".to_owned(), code: 0 });
        codes.push(CodeEntry { name: "B".to_owned(), code: 1 });
        codes.push(CodeEntry { name: "C".to_owned(), code: 2 });
        CompanionEnum { name: "ZeroCopyEnumWithoutValues".to_owned(), codes }
    }
}

} // verus!
