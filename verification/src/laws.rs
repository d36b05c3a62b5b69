//! The codec's laws: encoding then decoding returns the value (skip fields
//! replaced by their defaults), rejection of foreign discriminators, the
//! variant-tag bound, the discriminant-checked gate, and the aggregate
//! mode's exact pass-through of the inner account codec.

use vstd::prelude::*;

use crate::codec::DecodeErr;
use crate::codec::spec_decode_account;
use crate::codec::spec_decode_fields;
use crate::codec::spec_decode_payload;
use crate::codec::spec_decode_tagged;
use crate::codec::spec_encode_account;
use crate::codec::spec_encode_fields;
use crate::codec::spec_encode_payload;
use crate::schema::FieldSchema;
use crate::schema::Schema;
use crate::schema::SchemaKind;
use crate::schema::TagMode;
use crate::schema::TypeRef;
use crate::schema::codec_ready;
use crate::schema::variant_disc_wf;
use crate::value::RecordModel;
use crate::value::ValueModel;
use crate::value::field_conforms;
use crate::value::record_conforms;
use crate::value::spec_normalize;
use crate::value::spec_normalize_fields;
use crate::wire::lemma_value_round_trip;
use crate::wire::spec_encode_value;

verus! {

/// `content` sits in `bytes` starting at `pos`.
pub open spec fn bytes_at(bytes: Seq<u8>, pos: int, content: Seq<u8>) -> bool {
    &&& 0 <= pos
    &&& pos + content.len() <= bytes.len()
    &&& bytes.subrange(pos, pos + content.len()) == content
}

/// A concatenation sitting at `pos` splits into its parts in place.
pub proof fn lemma_bytes_at_concat(bytes: Seq<u8>, pos: int, a: Seq<u8>, b: Seq<u8>)
    requires
        bytes_at(bytes, pos, a + b),
    ensures
        bytes_at(bytes, pos, a),
        bytes_at(bytes, pos + a.len(), b),
{
    let ab = a + b;
    assert forall|k: int| 0 <= k < ab.len() implies bytes[pos + k] == #[trigger] ab[k] by {
        assert(bytes.subrange(pos, pos + ab.len())[k] == ab[k]);
    }
    assert(bytes.subrange(pos, pos + a.len() as int) =~= a) by {
        assert forall|k: int| 0 <= k < a.len() implies bytes.subrange(pos, pos + a.len() as int)[k]
            == a[k] by {
            assert(ab[k] == a[k]);
        }
    }
    assert(bytes.subrange(pos + a.len(), pos + a.len() + b.len()) =~= b) by {
        assert forall|k: int| 0 <= k < b.len() implies bytes.subrange(
            pos + a.len(),
            pos + a.len() + b.len(),
        )[k] == b[k] by {
            assert(ab[a.len() + k] == b[k]);
        }
    }
}

/// Round trip of a field list: decoding the encoding of `vals[j..]`
/// returns the values with every skip field replaced by its default, and
/// consumes exactly the encoding.
pub proof fn lemma_fields_round_trip(
    fs: Seq<FieldSchema>,
    vals: Seq<ValueModel>,
    bytes: Seq<u8>,
    j: int,
    pos: int,
)
    requires
        0 <= j <= fs.len(),
        vals.len() == fs.len(),
        forall|k: int| 0 <= k < fs.len() ==> field_conforms(#[trigger] vals[k], fs[k]),
        bytes_at(bytes, pos, spec_encode_fields(fs, vals, j)),
    ensures
        spec_decode_fields(fs, bytes, j, pos) == Option::Some(
            (
                spec_normalize_fields(vals, fs).subrange(j, fs.len() as int),
                pos + spec_encode_fields(fs, vals, j).len(),
            ),
        ),
    decreases fs.len() - j,
{
    let enc = spec_encode_fields(fs, vals, j);
    let norm = spec_normalize_fields(vals, fs);
    if j == fs.len() {
        assert(norm.subrange(j, fs.len() as int) =~= Seq::<ValueModel>::empty());
    } else {
        assert(field_conforms(vals[j], fs[j]));
        let rest = spec_encode_fields(fs, vals, j + 1);
        if fs[j].skip {
            assert(enc == Seq::<u8>::empty() + rest);
            lemma_bytes_at_concat(bytes, pos, Seq::empty(), rest);
            lemma_fields_round_trip(fs, vals, bytes, j + 1, pos);
            assert(seq![crate::value::spec_field_default(fs[j])] + norm.subrange(
                j + 1,
                fs.len() as int,
            ) =~= norm.subrange(j, fs.len() as int));
        } else {
            match fs[j].ty {
                TypeRef::Concrete(ft) => {
                    let ev = spec_encode_value(ft, vals[j]);
                    assert(enc == ev + rest);
                    lemma_bytes_at_concat(bytes, pos, ev, rest);
                    lemma_value_round_trip(ft, vals[j], bytes, pos);
                    lemma_fields_round_trip(fs, vals, bytes, j + 1, pos + ev.len());
                    assert(seq![vals[j]] + norm.subrange(j + 1, fs.len() as int) =~= norm.subrange(
                        j,
                        fs.len() as int,
                    ));
                },
                TypeRef::Named(_) => {
                    assert(false);
                },
            }
        }
    }
}

/// Round trip of one payload: under every tag strategy, decoding the
/// encoding of a conforming record returns the record (skip fields
/// defaulted) and consumes exactly the encoding, whatever bytes follow.
pub proof fn lemma_payload_round_trip(s: Schema, r: RecordModel, bytes: Seq<u8>, pos: int)
    requires
        codec_ready(s),
        record_conforms(r, s),
        bytes_at(bytes, pos, spec_encode_payload(s, r)),
    ensures
        spec_decode_payload(s, bytes, pos) == Result::Ok::<(RecordModel, int), DecodeErr>(
            (spec_normalize(r, s), pos + spec_encode_payload(s, r).len()),
        ),
{
    let enc = spec_encode_payload(s, r);
    let v = s.variants@[r.variant as int];
    let fs = v.fields@;
    let fenc = spec_encode_fields(fs, r.fields, 0);
    match s.kind {
        SchemaKind::Struct => {
            lemma_fields_round_trip(fs, r.fields, bytes, 0, pos);
            assert(spec_normalize_fields(r.fields, fs).subrange(0, fs.len() as int)
                =~= spec_normalize_fields(r.fields, fs));
        },
        SchemaKind::Enum(TagMode::Standard) => {
            assert(enc == seq![r.variant] + fenc);
            lemma_bytes_at_concat(bytes, pos, seq![r.variant], fenc);
            assert(bytes[pos] == bytes.subrange(pos, pos + 1)[0]);
            assert(bytes[pos] == r.variant);
            lemma_fields_round_trip(fs, r.fields, bytes, 0, pos + 1);
            assert(spec_normalize_fields(r.fields, fs).subrange(0, fs.len() as int)
                =~= spec_normalize_fields(r.fields, fs));
        },
        SchemaKind::Enum(TagMode::DiscriminantChecked(code)) => {
            assert(enc == seq![code, r.variant] + fenc);
            lemma_bytes_at_concat(bytes, pos, seq![code, r.variant], fenc);
            assert(bytes[pos] == bytes.subrange(pos, pos + 2)[0]);
            assert(bytes[pos + 1] == bytes.subrange(pos, pos + 2)[1]);
            assert(bytes[pos] == code);
            assert(bytes[pos + 1] == r.variant);
            lemma_fields_round_trip(fs, r.fields, bytes, 0, pos + 2);
            assert(spec_normalize_fields(r.fields, fs).subrange(0, fs.len() as int)
                =~= spec_normalize_fields(r.fields, fs));
        },
        SchemaKind::Enum(TagMode::Aggregate) => {
            let disc = v.discriminator@;
            assert(variant_disc_wf(s.variants@[r.variant as int], r.variant as int));
            assert(enc == disc + fenc);
            lemma_bytes_at_concat(bytes, pos, disc, fenc);
            assert(bytes[pos] == bytes.subrange(pos, pos + disc.len())[0]);
            assert(bytes[pos] == r.variant);
            lemma_fields_round_trip(fs, r.fields, bytes, 0, pos + disc.len());
            assert(spec_normalize_fields(r.fields, fs).subrange(0, fs.len() as int)
                =~= spec_normalize_fields(r.fields, fs));
        },
    }
}

/// Round trip of one account record: the resolved discriminator, then the
/// payload; decoding gives the record back and consumes discriminator plus
/// payload exactly.
pub proof fn lemma_account_round_trip(
    s: Schema,
    disc: Seq<u8>,
    r: RecordModel,
    bytes: Seq<u8>,
    pos: int,
)
    requires
        codec_ready(s),
        record_conforms(r, s),
        bytes_at(bytes, pos, spec_encode_account(s, disc, r)),
    ensures
        spec_decode_account(s, disc, bytes, pos) == Result::Ok::<(RecordModel, int), DecodeErr>(
            (spec_normalize(r, s), pos + spec_encode_account(s, disc, r).len()),
        ),
{
    let payload = spec_encode_payload(s, r);
    lemma_bytes_at_concat(bytes, pos, disc, payload);
    lemma_payload_round_trip(s, r, bytes, pos + disc.len());
}

/// The round trip in its plainest form: decoding exactly the bytes that
/// encoding a conforming record produced returns the record, with every
/// skip field replaced by its default, and consumes the whole buffer.
pub proof fn lemma_round_trip(s: Schema, disc: Seq<u8>, r: RecordModel)
    requires
        codec_ready(s),
        record_conforms(r, s),
    ensures
        spec_decode_account(s, disc, spec_encode_account(s, disc, r), 0) == Result::Ok::<
            (RecordModel, int),
            DecodeErr,
        >((spec_normalize(r, s), spec_encode_account(s, disc, r).len() as int)),
{
    let enc = spec_encode_account(s, disc, r);
    assert(enc.subrange(0, enc.len() as int) =~= enc);
    lemma_account_round_trip(s, disc, r, enc, 0);
}

/// Discriminator rejection: a buffer shorter than the discriminator fails
/// as "not found", never as a mismatch; a long-enough buffer whose leading
/// bytes differ fails as a mismatch naming both the expected and the
/// actual bytes.
pub proof fn lemma_discriminator_rejection(s: Schema, disc: Seq<u8>, bytes: Seq<u8>, pos: int)
    requires
        0 <= pos <= bytes.len(),
    ensures
        bytes.len() - pos < disc.len() ==> spec_decode_account(s, disc, bytes, pos) == Result::Err::<
            (RecordModel, int),
            DecodeErr,
        >(DecodeErr::DiscriminatorNotFound { account: s.name@ }),
        bytes.len() - pos >= disc.len() && bytes.subrange(pos, pos + disc.len()) != disc
            ==> spec_decode_account(s, disc, bytes, pos) == Result::Err::<
            (RecordModel, int),
            DecodeErr,
        >(
            DecodeErr::DiscriminatorMismatch {
                account: s.name@,
                expected: disc,
                actual: bytes.subrange(pos, pos + disc.len()),
            },
        ),
{
}

/// Variant tag bound under the standard mode: a tag at or past the variant
/// count fails as that unexpected tag; a tag below it selects exactly the
/// correspondingly-ordered variant (or fails inside the fields, never with
/// an unexpected-variant error).
pub proof fn lemma_variant_tag_bound(s: Schema, bytes: Seq<u8>, pos: int)
    requires
        s.kind == SchemaKind::Enum(TagMode::Standard),
        0 <= pos < bytes.len(),
    ensures
        bytes[pos] as int >= s.variants@.len() ==> spec_decode_payload(s, bytes, pos)
            == Result::Err::<(RecordModel, int), DecodeErr>(
            DecodeErr::UnexpectedVariant(bytes[pos]),
        ),
        (bytes[pos] as int) < s.variants@.len() ==> (match spec_decode_payload(s, bytes, pos) {
            Result::Ok((m, _)) => m.variant == bytes[pos],
            Result::Err(k) => k == DecodeErr::Eof,
        }),
{
}

/// The same bound at the tag-then-fields read shared by the standard and
/// discriminant-checked modes: a tag at or past the variant count fails as
/// that unexpected tag, and a successful read selects exactly the
/// correspondingly-ordered variant.
pub proof fn lemma_variant_tag_bound_tagged(s: Schema, bytes: Seq<u8>, pos: int)
    requires
        0 <= pos < bytes.len(),
    ensures
        bytes[pos] as int >= s.variants@.len() ==> spec_decode_tagged(s, bytes, pos)
            == Result::Err::<(RecordModel, int), DecodeErr>(
            DecodeErr::UnexpectedVariant(bytes[pos]),
        ),
        (match spec_decode_tagged(s, bytes, pos) {
            Result::Ok((m, _)) => m.variant == bytes[pos],
            Result::Err(_) => true,
        }),
{
}

/// The same bound under the aggregate mode: the peeked selector byte must
/// name a variant, and a successful read records exactly that variant.
pub proof fn lemma_variant_tag_bound_aggregate(s: Schema, bytes: Seq<u8>, pos: int)
    requires
        s.kind == SchemaKind::Enum(TagMode::Aggregate),
        0 <= pos < bytes.len(),
    ensures
        bytes[pos] as int >= s.variants@.len() ==> spec_decode_payload(s, bytes, pos)
            == Result::Err::<(RecordModel, int), DecodeErr>(
            DecodeErr::UnexpectedVariant(bytes[pos]),
        ),
        (match spec_decode_payload(s, bytes, pos) {
            Result::Ok((m, _)) => m.variant == bytes[pos],
            Result::Err(_) => true,
        }),
{
}

/// The discriminant-checked gate: the read fails with the discriminant
/// mismatch exactly when the byte before the tag is not the companion
/// code, and succeeds only when it is; with the code in place, the rest is
/// precisely the standard tag-then-fields read after that byte.
pub proof fn lemma_discriminant_checked(s: Schema, code: u8, bytes: Seq<u8>, pos: int)
    requires
        s.kind == SchemaKind::Enum(TagMode::DiscriminantChecked(code)),
        0 <= pos < bytes.len(),
    ensures
        (bytes[pos] != code) <==> spec_decode_payload(s, bytes, pos) == Result::Err::<
            (RecordModel, int),
            DecodeErr,
        >(DecodeErr::DiscriminantMismatch { account: s.name@ }),
        bytes[pos] == code ==> spec_decode_payload(s, bytes, pos) == spec_decode_tagged(
            s,
            bytes,
            pos + 1,
        ),
        spec_decode_payload(s, bytes, pos) is Ok ==> bytes[pos] == code,
{
    if bytes[pos] == code {
        let rest = spec_decode_tagged(s, bytes, pos + 1);
        if pos + 1 >= bytes.len() {
            assert(rest == Result::Err::<(RecordModel, int), DecodeErr>(DecodeErr::Eof));
        } else {
            let tag = bytes[pos + 1];
            if tag as int >= s.variants@.len() {
                assert(rest == Result::Err::<(RecordModel, int), DecodeErr>(
                    DecodeErr::UnexpectedVariant(tag),
                ));
            } else {
                match spec_decode_fields(s.variants@[tag as int].fields@, bytes, 0, pos + 2) {
                    Option::Some(_) => {},
                    Option::None => {},
                }
            }
        }
    }
}

/// Aggregate pass-through: for the variant the peeked tag selects, the
/// outer enum decode is exactly the variant's own account-record decode —
/// the same success, the same error, the same count of consumed bytes —
/// with only the variant index recorded around it. `t` is any struct
/// account schema with that variant's name and fields.
pub proof fn lemma_aggregate_passthrough(s: Schema, t: Schema, bytes: Seq<u8>, pos: int)
    requires
        s.kind == SchemaKind::Enum(TagMode::Aggregate),
        0 <= pos < bytes.len(),
        (bytes[pos] as int) < s.variants@.len(),
        t.kind is Struct,
        t.variants@.len() == 1,
        t.name@ == s.variants@[bytes[pos] as int].name@,
        t.variants@[0].fields@ == s.variants@[bytes[pos] as int].fields@,
    ensures
        spec_decode_payload(s, bytes, pos) == (match spec_decode_account(
            t,
            s.variants@[bytes[pos] as int].discriminator@,
            bytes,
            pos,
        ) {
            Result::Ok((m, p)) => Result::Ok::<(RecordModel, int), DecodeErr>(
                (RecordModel { variant: bytes[pos], fields: m.fields }, p),
            ),
            Result::Err(k) => Result::Err(k),
        }),
{
    let tag = bytes[pos];
    let v = s.variants@[tag as int];
    let disc = v.discriminator@;
    if bytes.len() - pos < disc.len() {
    } else if bytes.subrange(pos, pos + disc.len()) != disc {
    } else {
        match spec_decode_fields(v.fields@, bytes, 0, pos + disc.len()) {
            Option::Some(_) => {},
            Option::None => {},
        }
    }
}

} // verus!
