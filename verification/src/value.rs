//! Runtime values of the types the field-level binary codec interprets, and
//! the records (one chosen variant plus its field values) that the
//! serializer consumes and the deserializer produces.

use vstd::prelude::*;

use crate::schema::FieldSchema;
use crate::schema::FieldType;
use crate::schema::Schema;
use crate::schema::TypeRef;

verus! {

/// One field value. A string travels on the wire as its length-prefixed
/// byte content, so it is held here as those bytes.
#[derive(Debug, PartialEq, Eq)]
pub enum Value {
    U8(u8),
    U32(u32),
    U64(u64),
    Str(Vec<u8>),
}

/// Spec-level image of a `Value`.
pub enum ValueModel {
    U8(u8),
    U32(u32),
    U64(u64),
    Str(Seq<u8>),
}

impl View for Value {
    type V = ValueModel;

    open spec fn view(&self) -> ValueModel {
        match self {
            Value::U8(x) => ValueModel::U8(*x),
            Value::U32(x) => ValueModel::U32(*x),
            Value::U64(x) => ValueModel::U64(*x),
            Value::Str(b) => ValueModel::Str(b@),
        }
    }
}

/// One decoded or to-be-encoded instance: the chosen variant (always 0 for
/// a struct) and the field values of that variant, in declaration order.
#[derive(Debug, PartialEq, Eq)]
pub struct Record {
    pub variant: u8,
    pub fields: Vec<Value>,
}

/// Spec-level image of a `Record`.
pub struct RecordModel {
    pub variant: u8,
    pub fields: Seq<ValueModel>,
}

impl View for Record {
    type V = RecordModel;

    open spec fn view(&self) -> RecordModel {
        RecordModel { variant: self.variant, fields: self.fields@.map_values(|v: Value| v@) }
    }
}

/// The value a skip field is reconstructed with on decode: the type's
/// default.
pub open spec fn spec_default(ft: FieldType) -> ValueModel {
    match ft {
        FieldType::U8 => ValueModel::U8(0),
        FieldType::U32 => ValueModel::U32(0),
        FieldType::U64 => ValueModel::U64(0),
        FieldType::Str => ValueModel::Str(Seq::empty()),
    }
}

/// The default for a declared field type; meaningful only when the type is
/// concrete, which `codec_ready` guarantees wherever the codec runs.
pub open spec fn spec_field_default(f: FieldSchema) -> ValueModel {
    match f.ty {
        TypeRef::Concrete(ft) => spec_default(ft),
        TypeRef::Named(_) => ValueModel::U8(0),
    }
}

/// A value of the field's declared type. A string must fit its four-byte
/// length prefix.
pub open spec fn value_conforms(v: ValueModel, ft: FieldType) -> bool {
    match (ft, v) {
        (FieldType::U8, ValueModel::U8(_)) => true,
        (FieldType::U32, ValueModel::U32(_)) => true,
        (FieldType::U64, ValueModel::U64(_)) => true,
        (FieldType::Str, ValueModel::Str(b)) => b.len() <= u32::MAX,
        _ => false,
    }
}

/// The value fits the field: the field's type is concrete and the value is
/// of that type.
pub open spec fn field_conforms(v: ValueModel, f: FieldSchema) -> bool {
    match f.ty {
        TypeRef::Concrete(ft) => value_conforms(v, ft),
        TypeRef::Named(_) => false,
    }
}

/// The field values fit the variant's field list, position by position.
pub open spec fn fields_conform(vals: Seq<ValueModel>, fs: Seq<FieldSchema>) -> bool {
    &&& vals.len() == fs.len()
    &&& forall|j: int| 0 <= j < fs.len() ==> field_conforms(#[trigger] vals[j], fs[j])
}

/// The record fits the schema: its variant exists (a struct's single
/// implicit variant is 0) and its fields fit that variant.
pub open spec fn record_conforms(r: RecordModel, s: Schema) -> bool {
    &&& (r.variant as int) < s.variants@.len()
    &&& (s.kind is Struct ==> r.variant == 0)
    &&& fields_conform(r.fields, s.variants@[r.variant as int].fields@)
}

/// The record with every skip field replaced by its default: what decoding
/// an encoding of the record returns, since skip fields never reach the
/// wire.
pub open spec fn spec_normalize_fields(vals: Seq<ValueModel>, fs: Seq<FieldSchema>) -> Seq<
    ValueModel,
> {
    Seq::new(fs.len(), |j: int| if fs[j].skip {
        spec_field_default(fs[j])
    } else {
        vals[j]
    })
}

/// `spec_normalize_fields`, lifted to a whole record against its schema.
pub open spec fn spec_normalize(r: RecordModel, s: Schema) -> RecordModel {
    RecordModel {
        variant: r.variant,
        fields: spec_normalize_fields(r.fields, s.variants@[r.variant as int].fields@),
    }
}

/// Builds the default value of a concrete field type.
pub fn default_value(ft: FieldType) -> (r: Value)
    ensures
        r@ == spec_default(ft),
{
    match ft {
        FieldType::U8 => Value::U8(0),
        FieldType::U32 => Value::U32(0),
        FieldType::U64 => Value::U64(0),
        FieldType::Str => Value::Str(Vec::new()),
    }
}

/// Copies a byte vector.
pub fn clone_bytes(b: &Vec<u8>) -> (r: Vec<u8>)
    ensures
        r@ == b@,
{
    let mut out: Vec<u8> = Vec::new();
    let mut i: usize = 0;
    while i < b.len()
        invariant
            i <= b@.len(),
            out@ == b@.subrange(0, i as int),
        decreases b@.len() - i,
    {
        out.push(b[i]);
        i = i + 1;
        proof {
            assert(out@ =~= b@.subrange(0, i as int));
        }
    }
    proof {
        assert(b@.subrange(0, b@.len() as int) =~= b@);
    }
    out
}

/// Copies a value.
pub fn clone_value(v: &Value) -> (r: Value)
    ensures
        r@ == v@,
{
    match v {
        Value::U8(x) => Value::U8(*x),
        Value::U32(x) => Value::U32(*x),
        Value::U64(x) => Value::U64(*x),
        Value::Str(b) => Value::Str(clone_bytes(b)),
    }
}

} // verus!
