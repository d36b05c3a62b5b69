//! The account codec and the tagged-union codec: the serializer and
//! deserializer that a schema describes. The spec-level functions here are
//! the wire format's definition; the executable functions are proved to
//! follow them exactly, error for error.

use vstd::prelude::*;
use vstd::pervasive::unreached;

use crate::schema::FieldSchema;
use crate::schema::Schema;
use crate::schema::SchemaKind;
use crate::schema::TagMode;
use crate::schema::TypeRef;
use crate::schema::codec_ready;
use crate::value::Record;
use crate::value::RecordModel;
use crate::value::Value;
use crate::value::ValueModel;
use crate::value::default_value;
use crate::value::field_conforms;
use crate::value::fields_conform;
use crate::value::record_conforms;
use crate::value::spec_field_default;
use crate::wire::read_value;
use crate::wire::spec_encode_value;
use crate::wire::spec_read_value;
use crate::wire::write_value;
use crate::value::clone_bytes;

verus! {

/// The decode- and encode-time errors the codecs return. Codegen-time
/// failures are a separate stratum (`CodegenError`).
#[derive(Debug, PartialEq, Eq)]
pub enum CodecError {
    /// The buffer is shorter than the account's discriminator.
    AccountDiscriminatorNotFound { account: String },
    /// The leading bytes are not the account's discriminator.
    AccountDiscriminatorMismatch { account: String, expected: Vec<u8>, actual: Vec<u8> },
    /// The field payload of the account could not be read.
    AccountDidNotDeserialize { account: String },
    /// The variant tag selects no variant of the enum.
    UnexpectedVariant { tag: u8 },
    /// Under the discriminant-checked mode, the leading discriminant byte
    /// is not the companion enum's code for the declaring type.
    DiscriminantMismatch { account: String },
    /// The buffer ended inside a field's encoding.
    UnexpectedEndOfInput,
    /// Fewer records remain than the bounded reader's minimum.
    NotEnoughAccountKeys,
    /// Fewer records decoded than the bounded reader's minimum.
    NotEnoughValidAccountForVec,
}

/// Spec-level image of a decode failure.
pub enum DecodeErr {
    Eof,
    UnexpectedVariant(u8),
    DiscriminantMismatch { account: Seq<char> },
    DiscriminatorNotFound { account: Seq<char> },
    DiscriminatorMismatch { account: Seq<char>, expected: Seq<u8>, actual: Seq<u8> },
    DidNotDeserialize { account: Seq<char> },
}

/// The executable error carries exactly what the spec-level failure says.
pub open spec fn err_matches(e: CodecError, k: DecodeErr) -> bool {
    match k {
        DecodeErr::Eof => e is UnexpectedEndOfInput,
        DecodeErr::UnexpectedVariant(t) => e matches CodecError::UnexpectedVariant { tag }
            && tag == t,
        DecodeErr::DiscriminantMismatch { account } => e matches CodecError::DiscriminantMismatch {
            account: a,
        } && a@ == account,
        DecodeErr::DiscriminatorNotFound { account } => e
            matches CodecError::AccountDiscriminatorNotFound { account: a } && a@ == account,
        DecodeErr::DiscriminatorMismatch { account, expected, actual } => e
            matches CodecError::AccountDiscriminatorMismatch { account: a, expected: ex, actual: ac }
            && a@ == account && ex@ == expected && ac@ == actual,
        DecodeErr::DidNotDeserialize { account } => e
            matches CodecError::AccountDidNotDeserialize { account: a } && a@ == account,
    }
}

/// The encoding of the fields `fs[j..]`, each non-skip field's value in
/// order; skip fields contribute nothing to the wire.
pub open spec fn spec_encode_fields(fs: Seq<FieldSchema>, vals: Seq<ValueModel>, j: int) -> Seq<u8>
    decreases fs.len() - j,
{
    if j < 0 || j >= fs.len() {
        Seq::empty()
    } else {
        let head = if fs[j].skip {
            Seq::empty()
        } else {
            match fs[j].ty {
                TypeRef::Concrete(ft) => spec_encode_value(ft, vals[j]),
                TypeRef::Named(_) => Seq::empty(),
            }
        };
        head + spec_encode_fields(fs, vals, j + 1)
    }
}

/// Decoding the fields `fs[j..]` at `pos`: skip fields are reconstructed
/// from their defaults without touching the buffer; each other field is
/// read by the field-level codec. `None` is a field-codec failure.
pub open spec fn spec_decode_fields(fs: Seq<FieldSchema>, bytes: Seq<u8>, j: int, pos: int) -> Option<
    (Seq<ValueModel>, int),
>
    decreases fs.len() - j,
{
    if j < 0 || j >= fs.len() {
        Option::Some((Seq::empty(), pos))
    } else if fs[j].skip {
        match spec_decode_fields(fs, bytes, j + 1, pos) {
            Option::Some((vs, p)) => Option::Some((seq![spec_field_default(fs[j])] + vs, p)),
            Option::None => Option::None,
        }
    } else {
        match fs[j].ty {
            TypeRef::Concrete(ft) => match spec_read_value(ft, bytes, pos) {
                Option::Some((v, p)) => match spec_decode_fields(fs, bytes, j + 1, p) {
                    Option::Some((vs, p2)) => Option::Some((seq![v] + vs, p2)),
                    Option::None => Option::None,
                },
                Option::None => Option::None,
            },
            TypeRef::Named(_) => Option::None,
        }
    }
}

/// One account record read in place: the discriminator `disc`, validated
/// byte for byte, then the fields; failures carry `name`. This is both the
/// account codec's read (after the registry resolved `disc`) and, under the
/// aggregate mode, the selected variant's own record read.
pub open spec fn spec_decode_record(
    name: Seq<char>,
    disc: Seq<u8>,
    fs: Seq<FieldSchema>,
    variant: u8,
    bytes: Seq<u8>,
    pos: int,
) -> Result<(RecordModel, int), DecodeErr> {
    if bytes.len() - pos < disc.len() {
        Result::Err(DecodeErr::DiscriminatorNotFound { account: name })
    } else if bytes.subrange(pos, pos + disc.len()) != disc {
        Result::Err(DecodeErr::DiscriminatorMismatch {
            account: name,
            expected: disc,
            actual: bytes.subrange(pos, pos + disc.len()),
        })
    } else {
        match spec_decode_fields(fs, bytes, 0, pos + disc.len()) {
            Option::Some((vs, p)) => Result::Ok((RecordModel { variant, fields: vs }, p)),
            Option::None => Result::Err(DecodeErr::DidNotDeserialize { account: name }),
        }
    }
}

/// The tag-then-fields read shared by the standard mode and (after its
/// discriminant byte) the discriminant-checked mode.
pub open spec fn spec_decode_tagged(s: Schema, bytes: Seq<u8>, pos: int) -> Result<
    (RecordModel, int),
    DecodeErr,
> {
    if pos >= bytes.len() {
        Result::Err(DecodeErr::Eof)
    } else {
        let tag = bytes[pos];
        if tag as int >= s.variants@.len() {
            Result::Err(DecodeErr::UnexpectedVariant(tag))
        } else {
            match spec_decode_fields(s.variants@[tag as int].fields@, bytes, 0, pos + 1) {
                Option::Some((vs, p)) => Result::Ok((RecordModel { variant: tag, fields: vs }, p)),
                Option::None => Result::Err(DecodeErr::Eof),
            }
        }
    }
}

/// Decoding one payload at `pos`: a struct's fields, or an enum under its
/// tag strategy. Under the aggregate mode the tag byte is only inspected;
/// the selected variant's own record read consumes it as the first byte of
/// that variant's discriminator.
pub open spec fn spec_decode_payload(s: Schema, bytes: Seq<u8>, pos: int) -> Result<
    (RecordModel, int),
    DecodeErr,
> {
    match s.kind {
        SchemaKind::Struct => match spec_decode_fields(s.variants@[0].fields@, bytes, 0, pos) {
            Option::Some((vs, p)) => Result::Ok((RecordModel { variant: 0, fields: vs }, p)),
            Option::None => Result::Err(DecodeErr::Eof),
        },
        SchemaKind::Enum(TagMode::Standard) => spec_decode_tagged(s, bytes, pos),
        SchemaKind::Enum(TagMode::DiscriminantChecked(code)) => if pos >= bytes.len() {
            Result::Err(DecodeErr::Eof)
        } else if bytes[pos] != code {
            Result::Err(DecodeErr::DiscriminantMismatch { account: s.name@ })
        } else {
            spec_decode_tagged(s, bytes, pos + 1)
        },
        SchemaKind::Enum(TagMode::Aggregate) => if pos >= bytes.len() {
            Result::Err(DecodeErr::Eof)
        } else {
            let tag = bytes[pos];
            if tag as int >= s.variants@.len() {
                Result::Err(DecodeErr::UnexpectedVariant(tag))
            } else {
                let v = s.variants@[tag as int];
                spec_decode_record(v.name@, v.discriminator@, v.fields@, tag, bytes, pos)
            }
        },
    }
}

/// The payload read with every failure folded into the account's "did not
/// deserialize" error: the unchecked entry point's behaviour.
pub open spec fn spec_decode_unchecked(s: Schema, bytes: Seq<u8>, pos: int) -> Result<
    (RecordModel, int),
    DecodeErr,
> {
    match spec_decode_payload(s, bytes, pos) {
        Result::Ok(v) => Result::Ok(v),
        Result::Err(_) => Result::Err(DecodeErr::DidNotDeserialize { account: s.name@ }),
    }
}

/// The checked account read: discriminator length check, byte-for-byte
/// comparison, then the unchecked read past it.
pub open spec fn spec_decode_account(s: Schema, disc: Seq<u8>, bytes: Seq<u8>, pos: int) -> Result<
    (RecordModel, int),
    DecodeErr,
> {
    if bytes.len() - pos < disc.len() {
        Result::Err(DecodeErr::DiscriminatorNotFound { account: s.name@ })
    } else if bytes.subrange(pos, pos + disc.len()) != disc {
        Result::Err(DecodeErr::DiscriminatorMismatch {
            account: s.name@,
            expected: disc,
            actual: bytes.subrange(pos, pos + disc.len()),
        })
    } else {
        spec_decode_unchecked(s, bytes, pos + disc.len())
    }
}

/// The encoding of one payload: a struct's fields bare; an enum's tag byte
/// (and, in its modes, the discriminant byte or the variant's own
/// discriminator) then the variant's fields. Write and read are symmetric:
/// the tag is an ordinary leading byte, not a second discriminator.
pub open spec fn spec_encode_payload(s: Schema, r: RecordModel) -> Seq<u8> {
    match s.kind {
        SchemaKind::Struct => spec_encode_fields(s.variants@[0].fields@, r.fields, 0),
        SchemaKind::Enum(TagMode::Standard) => seq![r.variant] + spec_encode_fields(
            s.variants@[r.variant as int].fields@,
            r.fields,
            0,
        ),
        SchemaKind::Enum(TagMode::DiscriminantChecked(code)) => seq![code, r.variant]
            + spec_encode_fields(s.variants@[r.variant as int].fields@, r.fields, 0),
        SchemaKind::Enum(TagMode::Aggregate) => s.variants@[r.variant as int].discriminator@
            + spec_encode_fields(s.variants@[r.variant as int].fields@, r.fields, 0),
    }
}

/// The encoding of one account record: the discriminator, then the payload.
pub open spec fn spec_encode_account(s: Schema, disc: Seq<u8>, r: RecordModel) -> Seq<u8> {
    disc + spec_encode_payload(s, r)
}

/// Joins an already-decoded prefix with the rest of a field decode.
pub open spec fn decode_join(prefix: Seq<ValueModel>, rest: Option<(Seq<ValueModel>, int)>) -> Option<
    (Seq<ValueModel>, int),
> {
    match rest {
        Option::Some((vs, p)) => Option::Some((prefix + vs, p)),
        Option::None => Option::None,
    }
}

/// Appends a copy of `b`.
pub fn write_bytes(out: &mut Vec<u8>, b: &Vec<u8>)
    ensures
        final(out)@ == old(out)@ + b@,
{
    let mut i: usize = 0;
    while i < b.len()
        invariant
            i <= b@.len(),
            out@ == old(out)@ + b@.subrange(0, i as int),
        decreases b@.len() - i,
    {
        out.push(b[i]);
        i = i + 1;
        proof {
            assert(out@ =~= old(out)@ + b@.subrange(0, i as int));
        }
    }
    proof {
        assert(old(out)@ + b@.subrange(0, b@.len() as int) =~= old(out)@ + b@);
    }
}

/// Whether `buf[pos..]` starts with `pat`.
pub fn bytes_match(buf: &Vec<u8>, pos: usize, pat: &Vec<u8>) -> (r: bool)
    requires
        pos + pat@.len() <= buf@.len(),
    ensures
        r == (buf@.subrange(pos as int, pos as int + pat@.len() as int) == pat@),
{
    let blen: usize = buf.len();
    let mut i: usize = 0;
    while i < pat.len()
        invariant
            i <= pat@.len(),
            pos + pat@.len() <= buf@.len(),
            buf@.len() == blen,
            forall|k: int| 0 <= k < i ==> buf@[pos + k] == pat@[k],
        decreases pat@.len() - i,
    {
        if buf[pos + i] != pat[i] {
            proof {
                assert(buf@.subrange(pos as int, pos as int + pat@.len() as int)[i as int]
                    != pat@[i as int]);
            }
            return false;
        }
        i = i + 1;
    }
    proof {
        assert(buf@.subrange(pos as int, pos as int + pat@.len() as int) =~= pat@);
    }
    true
}

/// Copies `buf[pos..pos + n]`.
pub fn copy_range(buf: &Vec<u8>, pos: usize, n: usize) -> (r: Vec<u8>)
    requires
        pos + n <= buf@.len(),
    ensures
        r@ == buf@.subrange(pos as int, pos as int + n as int),
{
    let blen: usize = buf.len();
    let mut out: Vec<u8> = Vec::new();
    let mut i: usize = 0;
    while i < n
        invariant
            i <= n,
            pos + n <= buf@.len(),
            buf@.len() == blen,
            out@ == buf@.subrange(pos as int, pos as int + i as int),
        decreases n - i,
    {
        out.push(buf[pos + i]);
        i = i + 1;
        proof {
            assert(out@ =~= buf@.subrange(pos as int, pos as int + i as int));
        }
    }
    out
}

/// Writes the non-skip fields of one variant in declaration order.
pub fn write_fields(out: &mut Vec<u8>, fields: &Vec<FieldSchema>, vals: &Vec<Value>)
    requires
        fields_conform(vals@.map_values(|v: Value| v@), fields@),
    ensures
        final(out)@ == old(out)@ + spec_encode_fields(
            fields@,
            vals@.map_values(|v: Value| v@),
            0,
        ),
{
    let ghost vm = vals@.map_values(|v: Value| v@);
    let mut j: usize = 0;
    while j < fields.len()
        invariant
            j <= fields@.len(),
            fields_conform(vm, fields@),
            vm == vals@.map_values(|v: Value| v@),
            out@ + spec_encode_fields(fields@, vm, j as int) == old(out)@ + spec_encode_fields(
                fields@,
                vm,
                0,
            ),
        decreases fields@.len() - j,
    {
        let ghost out_before = out@;
        if !fields[j].skip {
            match &fields[j].ty {
                TypeRef::Concrete(ft) => {
                    proof {
                        assert(vm[j as int] == vals@[j as int]@);
                    }
                    write_value(out, *ft, &vals[j]);
                },
                TypeRef::Named(_) => {
                    proof {
                        assert(field_conforms(vm[j as int], fields@[j as int]));
                        assert(false);
                    }
                },
            }
        }
        proof {
            assert((out_before + (spec_encode_value_of(fields@[j as int], vm[j as int])
                + spec_encode_fields(fields@, vm, j + 1))) =~= ((out_before
                + spec_encode_value_of(fields@[j as int], vm[j as int])) + spec_encode_fields(
                fields@,
                vm,
                j + 1,
            )));
            assert(spec_encode_fields(fields@, vm, j as int) == spec_encode_value_of(
                fields@[j as int],
                vm[j as int],
            ) + spec_encode_fields(fields@, vm, j + 1));
        }
        j = j + 1;
    }
    proof {
        assert(spec_encode_fields(fields@, vm, fields@.len() as int) =~= Seq::<u8>::empty());
        assert(out@ + Seq::<u8>::empty() =~= out@);
    }
}

/// The bytes one field contributes: nothing for a skip field, its value's
/// encoding otherwise.
pub open spec fn spec_encode_value_of(f: FieldSchema, v: ValueModel) -> Seq<u8> {
    if f.skip {
        Seq::empty()
    } else {
        match f.ty {
            TypeRef::Concrete(ft) => spec_encode_value(ft, v),
            TypeRef::Named(_) => Seq::empty(),
        }
    }
}

/// Reads one variant's fields in declaration order, reconstructing skip
/// fields from their defaults.
pub fn read_fields(fields: &Vec<FieldSchema>, buf: &Vec<u8>, pos: &mut usize) -> (r: Result<
    Vec<Value>,
    CodecError,
>)
    requires
        *old(pos) <= buf@.len(),
        forall|k: int| 0 <= k < fields@.len() ==> (#[trigger] fields@[k].ty) is Concrete,
    ensures
        *final(pos) <= buf@.len(),
        match spec_decode_fields(fields@, buf@, 0, *old(pos) as int) {
            Option::Some((vs, p)) => r matches Result::Ok(out) && out@.map_values(|v: Value| v@)
                == vs && *final(pos) == p,
            Option::None => r matches Result::Err(e) && e is UnexpectedEndOfInput,
        },
{
    let ghost pos0 = *pos;
    let mut acc: Vec<Value> = Vec::new();
    let mut j: usize = 0;
    while j < fields.len()
        invariant
            j <= fields@.len(),
            *pos <= buf@.len(),
            forall|k: int| 0 <= k < fields@.len() ==> (#[trigger] fields@[k].ty) is Concrete,
            acc@.len() == j,
            pos0 == *old(pos),
            spec_decode_fields(fields@, buf@, 0, pos0 as int) == decode_join(
                acc@.map_values(|v: Value| v@),
                spec_decode_fields(fields@, buf@, j as int, *pos as int),
            ),
        decreases fields@.len() - j,
    {
        let ghost acc_before = acc@.map_values(|v: Value| v@);
        let ghost pos_before = *pos;
        let f = &fields[j];
        let v: Value;
        if f.skip {
            match &f.ty {
                TypeRef::Concrete(ft) => {
                    v = default_value(*ft);
                },
                TypeRef::Named(_) => {
                    proof {
                        assert(false);
                    }
                    v = unreached();
                },
            }
        } else {
            match &f.ty {
                TypeRef::Concrete(ft) => {
                    match read_value(buf, pos, *ft) {
                        Option::Some(rv) => {
                            v = rv;
                        },
                        Option::None => {
                            proof {
                                assert(spec_decode_fields(
                                    fields@,
                                    buf@,
                                    j as int,
                                    *pos as int,
                                ) is None);
                            }
                            return Result::Err(CodecError::UnexpectedEndOfInput);
                        },
                    }
                },
                TypeRef::Named(_) => {
                    proof {
                        assert(false);
                    }
                    v = unreached();
                },
            }
        }
        let ghost vmj = v@;
        acc.push(v);
        proof {
            assert(acc@.map_values(|v: Value| v@) =~= acc_before + seq![vmj]);
            let rest = spec_decode_fields(fields@, buf@, j + 1, *pos as int);
            assert(spec_decode_fields(fields@, buf@, j as int, pos_before as int) == decode_join(
                seq![vmj],
                rest,
            ));
            if let Option::Some((vs2, p2)) = rest {
                assert((acc_before + (seq![vmj] + vs2)) =~= ((acc_before + seq![vmj]) + vs2));
            }
        }
        j = j + 1;
    }
    proof {
        assert(spec_decode_fields(fields@, buf@, fields@.len() as int, *pos as int)
            == Option::Some((Seq::<ValueModel>::empty(), *pos as int)));
        assert(acc@.map_values(|v: Value| v@) + Seq::<ValueModel>::empty() =~= acc@.map_values(
            |v: Value| v@,
        ));
    }
    Result::Ok(acc)
}

/// Writes one payload: a struct's bare fields, or the enum's leading
/// byte(s) then the chosen variant's fields, as the schema's tag strategy
/// prescribes.
pub fn serialize_payload(s: &Schema, r: &Record, out: &mut Vec<u8>)
    requires
        codec_ready(*s),
        record_conforms(r@, *s),
    ensures
        final(out)@ == old(out)@ + spec_encode_payload(*s, r@),
{
    proof {
        assert(r@.fields == r.fields@.map_values(|v: Value| v@));
    }
    match s.kind {
        SchemaKind::Struct => {
            write_fields(out, &s.variants[0].fields, &r.fields);
        },
        SchemaKind::Enum(TagMode::Standard) => {
            out.push(r.variant);
            let ghost mid = out@;
            write_fields(out, &s.variants[r.variant as usize].fields, &r.fields);
            proof {
                assert(out@ =~= old(out)@ + spec_encode_payload(*s, r@));
            }
        },
        SchemaKind::Enum(TagMode::DiscriminantChecked(code)) => {
            out.push(code);
            out.push(r.variant);
            write_fields(out, &s.variants[r.variant as usize].fields, &r.fields);
            proof {
                assert(out@ =~= old(out)@ + spec_encode_payload(*s, r@));
            }
        },
        SchemaKind::Enum(TagMode::Aggregate) => {
            write_bytes(out, &s.variants[r.variant as usize].discriminator);
            write_fields(out, &s.variants[r.variant as usize].fields, &r.fields);
            proof {
                assert(out@ =~= old(out)@ + spec_encode_payload(*s, r@));
            }
        },
    }
}

/// Reads one account record in place: `disc` validated byte for byte, the
/// fields after it; failures carry `name`.
fn deserialize_record(
    name: &String,
    disc: &Vec<u8>,
    fields: &Vec<FieldSchema>,
    variant: u8,
    buf: &Vec<u8>,
    pos: &mut usize,
) -> (r: Result<Record, CodecError>)
    requires
        *old(pos) <= buf@.len(),
        forall|k: int| 0 <= k < fields@.len() ==> (#[trigger] fields@[k].ty) is Concrete,
    ensures
        *final(pos) <= buf@.len(),
        match spec_decode_record(name@, disc@, fields@, variant, buf@, *old(pos) as int) {
            Result::Ok((m, p)) => r matches Result::Ok(rec) && rec@ == m && *final(pos) == p,
            Result::Err(k) => r matches Result::Err(e) && err_matches(e, k),
        },
{
    if buf.len() - *pos < disc.len() {
        return Result::Err(CodecError::AccountDiscriminatorNotFound { account: name.clone() });
    }
    if !bytes_match(buf, *pos, disc) {
        let actual = copy_range(buf, *pos, disc.len());
        return Result::Err(CodecError::AccountDiscriminatorMismatch {
            account: name.clone(),
            expected: clone_bytes(disc),
            actual,
        });
    }
    *pos = *pos + disc.len();
    match read_fields(fields, buf, pos) {
        Result::Ok(vals) => Result::Ok(Record { variant, fields: vals }),
        Result::Err(_) => Result::Err(CodecError::AccountDidNotDeserialize {
            account: name.clone(),
        }),
    }
}

/// Reads the tag byte, then the selected variant's fields.
fn deserialize_tagged(s: &Schema, buf: &Vec<u8>, pos: &mut usize) -> (r: Result<
    Record,
    CodecError,
>)
    requires
        codec_ready(*s),
        *old(pos) <= buf@.len(),
    ensures
        *final(pos) <= buf@.len(),
        match spec_decode_tagged(*s, buf@, *old(pos) as int) {
            Result::Ok((m, p)) => r matches Result::Ok(rec) && rec@ == m && *final(pos) == p,
            Result::Err(k) => r matches Result::Err(e) && err_matches(e, k),
        },
{
    if *pos >= buf.len() {
        return Result::Err(CodecError::UnexpectedEndOfInput);
    }
    let tag = buf[*pos];
    if (tag as usize) >= s.variants.len() {
        return Result::Err(CodecError::UnexpectedVariant { tag });
    }
    *pos = *pos + 1;
    proof {
        assert(crate::schema::variant_fields_concrete(s.variants@[tag as int]));
    }
    let vref = &s.variants[tag as usize];
    match read_fields(&vref.fields, buf, pos) {
        Result::Ok(vals) => Result::Ok(Record { variant: tag, fields: vals }),
        Result::Err(_) => Result::Err(CodecError::UnexpectedEndOfInput),
    }
}

/// Reads one payload under the schema's tag strategy. On success the
/// cursor has advanced by exactly the bytes consumed; on failure its
/// position is unspecified and the buffer must not be reused.
pub fn deserialize_payload(s: &Schema, buf: &Vec<u8>, pos: &mut usize) -> (r: Result<
    Record,
    CodecError,
>)
    requires
        codec_ready(*s),
        *old(pos) <= buf@.len(),
    ensures
        *final(pos) <= buf@.len(),
        match spec_decode_payload(*s, buf@, *old(pos) as int) {
            Result::Ok((m, p)) => r matches Result::Ok(rec) && rec@ == m && *final(pos) == p,
            Result::Err(k) => r matches Result::Err(e) && err_matches(e, k),
        },
{
    match s.kind {
        SchemaKind::Struct => {
            proof {
                assert(crate::schema::variant_fields_concrete(s.variants@[0]));
            }
            let vref = &s.variants[0];
            match read_fields(&vref.fields, buf, pos) {
                Result::Ok(vals) => Result::Ok(Record { variant: 0, fields: vals }),
                Result::Err(_) => Result::Err(CodecError::UnexpectedEndOfInput),
            }
        },
        SchemaKind::Enum(TagMode::Standard) => deserialize_tagged(s, buf, pos),
        SchemaKind::Enum(TagMode::DiscriminantChecked(code)) => {
            if *pos >= buf.len() {
                return Result::Err(CodecError::UnexpectedEndOfInput);
            }
            let d = buf[*pos];
            if d != code {
                return Result::Err(CodecError::DiscriminantMismatch {
                    account: s.name.clone(),
                });
            }
            *pos = *pos + 1;
            deserialize_tagged(s, buf, pos)
        },
        SchemaKind::Enum(TagMode::Aggregate) => {
            if *pos >= buf.len() {
                return Result::Err(CodecError::UnexpectedEndOfInput);
            }
            let tag = buf[*pos];
            if (tag as usize) >= s.variants.len() {
                return Result::Err(CodecError::UnexpectedVariant { tag });
            }
            proof {
                assert(crate::schema::variant_fields_concrete(s.variants@[tag as int]));
            }
            let vref = &s.variants[tag as usize];
            deserialize_record(&vref.name, &vref.discriminator, &vref.fields, tag, buf, pos)
        },
    }
}

/// The generated codec of one account type: its schema model and its
/// registry-resolved discriminator. It owns no runtime state; each call is
/// a pure transform over an in-memory buffer.
#[derive(Debug)]
pub struct AccountCodec {
    pub schema: Schema,
    pub discriminator: Vec<u8>,
}

impl AccountCodec {
    /// Writes the account record: the discriminator bytes, then each
    /// non-skip field's payload in declaration order. Writing into a fresh
    /// buffer cannot fail; a caller that streams the returned bytes into a
    /// fallible sink reports `AccountDidNotSerialize` itself.
    pub fn try_serialize(&self, value: &Record) -> (out: Vec<u8>)
        requires
            codec_ready(self.schema),
            record_conforms(value@, self.schema),
        ensures
            out@ == spec_encode_account(self.schema, self.discriminator@, value@),
    {
        let mut out: Vec<u8> = Vec::new();
        write_bytes(&mut out, &self.discriminator);
        serialize_payload(&self.schema, value, &mut out);
        proof {
            assert(out@ =~= spec_encode_account(self.schema, self.discriminator@, value@));
        }
        out
    }

    /// The checked read: fails with `AccountDiscriminatorNotFound` when the
    /// buffer is shorter than the discriminator, with
    /// `AccountDiscriminatorMismatch` (expected and actual bytes) when the
    /// leading bytes differ, and otherwise advances past the discriminator
    /// and delegates to the unchecked read.
    pub fn try_deserialize(&self, buf: &Vec<u8>, pos: &mut usize) -> (r: Result<
        Record,
        CodecError,
    >)
        requires
            codec_ready(self.schema),
            *old(pos) <= buf@.len(),
        ensures
            *final(pos) <= buf@.len(),
            match spec_decode_account(self.schema, self.discriminator@, buf@, *old(pos) as int) {
                Result::Ok((m, p)) => r matches Result::Ok(rec) && rec@ == m && *final(pos) == p,
                Result::Err(k) => r matches Result::Err(e) && err_matches(e, k),
            },
    {
        if buf.len() - *pos < self.discriminator.len() {
            return Result::Err(CodecError::AccountDiscriminatorNotFound {
                account: self.schema.name.clone(),
            });
        }
        if !bytes_match(buf, *pos, &self.discriminator) {
            let actual = copy_range(buf, *pos, self.discriminator.len());
            return Result::Err(CodecError::AccountDiscriminatorMismatch {
                account: self.schema.name.clone(),
                expected: clone_bytes(&self.discriminator),
                actual,
            });
        }
        *pos = *pos + self.discriminator.len();
        self.try_deserialize_unchecked(buf, pos)
    }

    /// The unchecked read: the field payload only, with no discriminator
    /// check or consumption. The caller is responsible for having validated
    /// or stripped the leading discriminator bytes, if any, before calling
    /// this; the codec does not re-establish that precondition.
    pub fn try_deserialize_unchecked(&self, buf: &Vec<u8>, pos: &mut usize) -> (r: Result<
        Record,
        CodecError,
    >)
        requires
            codec_ready(self.schema),
            *old(pos) <= buf@.len(),
        ensures
            *final(pos) <= buf@.len(),
            match spec_decode_unchecked(self.schema, buf@, *old(pos) as int) {
                Result::Ok((m, p)) => r matches Result::Ok(rec) && rec@ == m && *final(pos) == p,
                Result::Err(k) => r matches Result::Err(e) && err_matches(e, k),
            },
    {
        match deserialize_payload(&self.schema, buf, pos) {
            Result::Ok(rec) => Result::Ok(rec),
            Result::Err(_) => Result::Err(CodecError::AccountDidNotDeserialize {
                account: self.schema.name.clone(),
            }),
        }
    }
}

} // verus!
