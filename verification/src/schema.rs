//! The schema model: the validated shape of one annotated type declaration,
//! as the codec consumes it. A struct is a single implicit variant; an enum
//! is an ordered list of variants, each variant's tag being its zero-based
//! position in the declaration.

use vstd::prelude::*;

verus! {

/// The types the field-level binary codec knows how to read and write.
#[derive(Debug, Clone, Copy, PartialEq, Eq, Structural)]
pub enum FieldType {
    U8,
    U32,
    U64,
    Str,
}

/// A declared field type: either one the field-level codec interprets
/// directly, or a named type (for instance a generic parameter), which the
/// emitted code may mention but which no concrete codec exists for until it
/// is instantiated.
#[derive(Debug, PartialEq, Eq)]
pub enum TypeRef {
    Concrete(FieldType),
    Named(String),
}

/// Spec-level image of a `TypeRef`.
pub enum TypeRefModel {
    Concrete(FieldType),
    Named(Seq<char>),
}

impl View for TypeRef {
    type V = TypeRefModel;

    open spec fn view(&self) -> TypeRefModel {
        match self {
            TypeRef::Concrete(ft) => TypeRefModel::Concrete(*ft),
            TypeRef::Named(s) => TypeRefModel::Named(s@),
        }
    }
}

/// One field of a variant: its name (positional fields have none), its
/// declared type, and whether it is excluded from the wire format.
#[derive(Debug)]
pub struct FieldSchema {
    pub name: Option<String>,
    pub ty: TypeRef,
    pub skip: bool,
}

/// Spec-level image of a `FieldSchema`.
pub struct FieldSchemaModel {
    pub name: Option<Seq<char>>,
    pub ty: TypeRefModel,
    pub skip: bool,
}

impl View for FieldSchema {
    type V = FieldSchemaModel;

    open spec fn view(&self) -> FieldSchemaModel {
        FieldSchemaModel {
            name: match self.name {
                Option::Some(s) => Option::Some(s@),
                Option::None => Option::None,
            },
            ty: self.ty@,
            skip: self.skip,
        }
    }
}

/// One variant of the schema. Its tag is its position in `Schema::variants`.
/// `discriminator` is meaningful only under the aggregate-accounts mode,
/// where it is the variant's own account discriminator.
#[derive(Debug)]
pub struct VariantSchema {
    pub name: String,
    pub discriminator: Vec<u8>,
    pub fields: Vec<FieldSchema>,
}

/// Spec-level image of a `VariantSchema`.
pub struct VariantSchemaModel {
    pub name: Seq<char>,
    pub discriminator: Seq<u8>,
    pub fields: Seq<FieldSchemaModel>,
}

impl View for VariantSchema {
    type V = VariantSchemaModel;

    open spec fn view(&self) -> VariantSchemaModel {
        VariantSchemaModel {
            name: self.name@,
            discriminator: self.discriminator@,
            fields: self.fields@.map_values(|f: FieldSchema| f@),
        }
    }
}

/// How an enum payload carries its variant selector.
#[derive(Debug, Clone, Copy, PartialEq, Eq, Structural)]
pub enum TagMode {
    /// One leading tag byte, consumed before the variant's fields.
    Standard,
    /// One leading discriminant byte, validated against the companion enum's
    /// code for the declaring type, then the tag byte, then the fields.
    DiscriminantChecked(u8),
    /// The tag byte is inspected without being consumed; the selected
    /// variant's own account record (discriminator plus fields) follows.
    Aggregate,
}

/// Whether the declaration is a struct (one implicit variant, no tag byte)
/// or a tagged union with one of the three tag strategies.
#[derive(Debug, Clone, Copy, PartialEq, Eq, Structural)]
pub enum SchemaKind {
    Struct,
    Enum(TagMode),
}

/// The schema model of one declaration, as the codec consumes it.
#[derive(Debug)]
pub struct Schema {
    pub name: String,
    pub kind: SchemaKind,
    pub variants: Vec<VariantSchema>,
}

/// Spec-level image of a `Schema`.
pub struct SchemaModel {
    pub name: Seq<char>,
    pub kind: SchemaKind,
    pub variants: Seq<VariantSchemaModel>,
}

impl View for Schema {
    type V = SchemaModel;

    open spec fn view(&self) -> SchemaModel {
        SchemaModel {
            name: self.name@,
            kind: self.kind,
            variants: self.variants@.map_values(|v: VariantSchema| v@),
        }
    }
}

/// The aggregate-accounts convention: a variant's discriminator starts with
/// the variant's own tag byte, so that the peeked selector and the leading
/// discriminator byte coincide.
pub open spec fn variant_disc_wf(v: VariantSchema, i: int) -> bool {
    &&& v.discriminator@.len() >= 1
    &&& v.discriminator@[0] == i as u8
}

/// Structural well-formedness of a schema: the tag fits one byte, a struct
/// has exactly its single implicit variant, and under the aggregate mode
/// every variant's discriminator obeys the selector convention. An enum with
/// zero variants is well formed: it degenerates to an always-failing decoder.
pub open spec fn schema_wf(s: Schema) -> bool {
    &&& s.variants@.len() <= 256
    &&& (s.kind is Struct ==> s.variants@.len() == 1)
    &&& (s.kind == SchemaKind::Enum(TagMode::Aggregate) ==> forall|i: int|
        0 <= i < s.variants@.len() ==> variant_disc_wf(#[trigger] s.variants@[i], i))
}

/// Every field type of the variant is one the field-level codec interprets.
pub open spec fn variant_fields_concrete(v: VariantSchema) -> bool {
    forall|j: int| 0 <= j < v.fields@.len() ==> (#[trigger] v.fields@[j].ty) is Concrete
}

/// A schema the codec can interpret: well formed, with every field type
/// concrete (a generic declaration must be instantiated first).
pub open spec fn codec_ready(s: Schema) -> bool {
    &&& schema_wf(s)
    &&& forall|i: int| 0 <= i < s.variants@.len() ==> variant_fields_concrete(
        #[trigger] s.variants@[i],
    )
}

} // verus!
