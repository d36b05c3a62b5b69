//! The byte level of the wire format: little-endian integers, the
//! length-prefixed string, and the single-value codec over them. Every
//! reader takes the buffer with a cursor and advances it by exactly what it
//! consumed on success.

use vstd::prelude::*;

use crate::schema::FieldType;
use crate::value::Value;
use crate::value::ValueModel;
use crate::value::value_conforms;

verus! {

/// The four little-endian bytes of a `u32`.
pub open spec fn spec_u32_bytes(x: u32) -> Seq<u8> {
    seq![
        (x & 0xff) as u8,
        ((x >> 8) & 0xff) as u8,
        ((x >> 16) & 0xff) as u8,
        ((x >> 24) & 0xff) as u8,
    ]
}

/// The eight little-endian bytes of a `u64`.
pub open spec fn spec_u64_bytes(x: u64) -> Seq<u8> {
    seq![
        (x & 0xff) as u8,
        ((x >> 8) & 0xff) as u8,
        ((x >> 16) & 0xff) as u8,
        ((x >> 24) & 0xff) as u8,
        ((x >> 32) & 0xff) as u8,
        ((x >> 40) & 0xff) as u8,
        ((x >> 48) & 0xff) as u8,
        ((x >> 56) & 0xff) as u8,
    ]
}

/// A `u32` recomposed from its four little-endian bytes.
pub open spec fn spec_u32_from(b0: u8, b1: u8, b2: u8, b3: u8) -> u32 {
    (b0 as u32) | ((b1 as u32) << 8) | ((b2 as u32) << 16) | ((b3 as u32) << 24)
}

/// A `u64` recomposed from its eight little-endian bytes.
pub open spec fn spec_u64_from(b0: u8, b1: u8, b2: u8, b3: u8, b4: u8, b5: u8, b6: u8, b7: u8) -> u64 {
    (b0 as u64) | ((b1 as u64) << 8) | ((b2 as u64) << 16) | ((b3 as u64) << 24) | ((b4 as u64)
        << 32) | ((b5 as u64) << 40) | ((b6 as u64) << 48) | ((b7 as u64) << 56)
}

/// Recomposing the four bytes of `x` gives back `x`.
pub proof fn lemma_u32_round_trip(x: u32)
    ensures
        spec_u32_from(
            (x & 0xff) as u8,
            ((x >> 8) & 0xff) as u8,
            ((x >> 16) & 0xff) as u8,
            ((x >> 24) & 0xff) as u8,
        ) == x,
{
    assert((((x & 0xff) as u8) as u32) | ((((x >> 8) & 0xff) as u8 as u32) << 8) | ((((x >> 16)
        & 0xff) as u8 as u32) << 16) | ((((x >> 24) & 0xff) as u8 as u32) << 24) == x)
        by (bit_vector);
}

/// Recomposing the eight bytes of `x` gives back `x`.
pub proof fn lemma_u64_round_trip(x: u64)
    ensures
        spec_u64_from(
            (x & 0xff) as u8,
            ((x >> 8) & 0xff) as u8,
            ((x >> 16) & 0xff) as u8,
            ((x >> 24) & 0xff) as u8,
            ((x >> 32) & 0xff) as u8,
            ((x >> 40) & 0xff) as u8,
            ((x >> 48) & 0xff) as u8,
            ((x >> 56) & 0xff) as u8,
        ) == x,
{
    assert((((x & 0xff) as u8) as u64) | ((((x >> 8) & 0xff) as u8 as u64) << 8) | ((((x >> 16)
        & 0xff) as u8 as u64) << 16) | ((((x >> 24) & 0xff) as u8 as u64) << 24) | ((((x >> 32)
        & 0xff) as u8 as u64) << 32) | ((((x >> 40) & 0xff) as u8 as u64) << 40) | ((((x >> 48)
        & 0xff) as u8 as u64) << 48) | ((((x >> 56) & 0xff) as u8 as u64) << 56) == x)
        by (bit_vector);
}

/// Appends the little-endian bytes of `x`.
pub fn write_u32(out: &mut Vec<u8>, x: u32)
    ensures
        final(out)@ == old(out)@ + spec_u32_bytes(x),
{
    assert((x & 0xff) < 256 && ((x >> 8) & 0xff) < 256 && ((x >> 16) & 0xff) < 256 && ((x >> 24)
        & 0xff) < 256) by (bit_vector);
    out.push((x & 0xff) as u8);
    out.push(((x >> 8) & 0xff) as u8);
    out.push(((x >> 16) & 0xff) as u8);
    out.push(((x >> 24) & 0xff) as u8);
    proof {
        assert(out@ =~= old(out)@ + spec_u32_bytes(x));
    }
}

/// Appends the little-endian bytes of `x`.
pub fn write_u64(out: &mut Vec<u8>, x: u64)
    ensures
        final(out)@ == old(out)@ + spec_u64_bytes(x),
{
    assert((x & 0xff) < 256 && ((x >> 8) & 0xff) < 256 && ((x >> 16) & 0xff) < 256 && ((x >> 24)
        & 0xff) < 256 && ((x >> 32) & 0xff) < 256 && ((x >> 40) & 0xff) < 256 && ((x >> 48) & 0xff)
        < 256 && ((x >> 56) & 0xff) < 256) by (bit_vector);
    out.push((x & 0xff) as u8);
    out.push(((x >> 8) & 0xff) as u8);
    out.push(((x >> 16) & 0xff) as u8);
    out.push(((x >> 24) & 0xff) as u8);
    out.push(((x >> 32) & 0xff) as u8);
    out.push(((x >> 40) & 0xff) as u8);
    out.push(((x >> 48) & 0xff) as u8);
    out.push(((x >> 56) & 0xff) as u8);
    proof {
        assert(out@ =~= old(out)@ + spec_u64_bytes(x));
    }
}

/// Reading one byte at `pos`: the byte and the advanced cursor, or nothing
/// if the buffer is exhausted.
pub open spec fn spec_read_u8(bytes: Seq<u8>, pos: int) -> Option<(u8, int)> {
    if pos < bytes.len() {
        Option::Some((bytes[pos], pos + 1))
    } else {
        Option::None
    }
}

/// Reading a little-endian `u32` at `pos`.
pub open spec fn spec_read_u32(bytes: Seq<u8>, pos: int) -> Option<(u32, int)> {
    if pos + 4 <= bytes.len() {
        Option::Some((spec_u32_from(bytes[pos], bytes[pos + 1], bytes[pos + 2], bytes[pos + 3]),
        pos + 4))
    } else {
        Option::None
    }
}

/// Reading a little-endian `u64` at `pos`.
pub open spec fn spec_read_u64(bytes: Seq<u8>, pos: int) -> Option<(u64, int)> {
    if pos + 8 <= bytes.len() {
        Option::Some((spec_u64_from(
            bytes[pos],
            bytes[pos + 1],
            bytes[pos + 2],
            bytes[pos + 3],
            bytes[pos + 4],
            bytes[pos + 5],
            bytes[pos + 6],
            bytes[pos + 7],
        ), pos + 8))
    } else {
        Option::None
    }
}

/// Reading a length-prefixed string at `pos`: the four-byte length, then
/// that many content bytes.
pub open spec fn spec_read_str(bytes: Seq<u8>, pos: int) -> Option<(Seq<u8>, int)> {
    match spec_read_u32(bytes, pos) {
        Option::Some((n, p)) => if p + n <= bytes.len() {
            Option::Some((bytes.subrange(p, p + n), p + n))
        } else {
            Option::None
        },
        Option::None => Option::None,
    }
}

/// The wire bytes of one value of a concrete field type.
pub open spec fn spec_encode_value(ft: FieldType, v: ValueModel) -> Seq<u8> {
    match (ft, v) {
        (FieldType::U8, ValueModel::U8(x)) => seq![x],
        (FieldType::U32, ValueModel::U32(x)) => spec_u32_bytes(x),
        (FieldType::U64, ValueModel::U64(x)) => spec_u64_bytes(x),
        (FieldType::Str, ValueModel::Str(b)) => spec_u32_bytes(b.len() as u32) + b,
        _ => Seq::empty(),
    }
}

/// Reading one value of a concrete field type at `pos`.
pub open spec fn spec_read_value(ft: FieldType, bytes: Seq<u8>, pos: int) -> Option<
    (ValueModel, int),
> {
    match ft {
        FieldType::U8 => match spec_read_u8(bytes, pos) {
            Option::Some((x, p)) => Option::Some((ValueModel::U8(x), p)),
            Option::None => Option::None,
        },
        FieldType::U32 => match spec_read_u32(bytes, pos) {
            Option::Some((x, p)) => Option::Some((ValueModel::U32(x), p)),
            Option::None => Option::None,
        },
        FieldType::U64 => match spec_read_u64(bytes, pos) {
            Option::Some((x, p)) => Option::Some((ValueModel::U64(x), p)),
            Option::None => Option::None,
        },
        FieldType::Str => match spec_read_str(bytes, pos) {
            Option::Some((b, p)) => Option::Some((ValueModel::Str(b), p)),
            Option::None => Option::None,
        },
    }
}

/// Appends the wire bytes of `v`.
pub fn write_value(out: &mut Vec<u8>, ft: FieldType, v: &Value)
    requires
        value_conforms(v@, ft),
    ensures
        final(out)@ == old(out)@ + spec_encode_value(ft, v@),
{
    match v {
        Value::U8(x) => {
            out.push(*x);
            proof {
                assert(out@ =~= old(out)@ + spec_encode_value(ft, v@));
            }
        },
        Value::U32(x) => {
            write_u32(out, *x);
        },
        Value::U64(x) => {
            write_u64(out, *x);
        },
        Value::Str(b) => {
            write_u32(out, b.len() as u32);
            let ghost mid = out@;
            let mut i: usize = 0;
            while i < b.len()
                invariant
                    i <= b@.len(),
                    out@ == mid + b@.subrange(0, i as int),
                decreases b@.len() - i,
            {
                out.push(b[i]);
                i = i + 1;
                proof {
                    assert(out@ =~= mid + b@.subrange(0, i as int));
                }
            }
            proof {
                assert(b@.subrange(0, b@.len() as int) =~= b@);
                assert(out@ =~= old(out)@ + spec_encode_value(ft, v@));
            }
        },
    }
}

/// Reads one value of a concrete field type, advancing the cursor on
/// success; on failure the cursor is unchanged and the buffer was too
/// short.
pub fn read_value(buf: &Vec<u8>, pos: &mut usize, ft: FieldType) -> (r: Option<Value>)
    requires
        *old(pos) <= buf@.len(),
    ensures
        *final(pos) <= buf@.len(),
        match spec_read_value(ft, buf@, *old(pos) as int) {
            Option::Some((v, p)) => r matches Option::Some(rv) && rv@ == v && *final(pos) == p,
            Option::None => r is None && *final(pos) == *old(pos),
        },
{
    match ft {
        FieldType::U8 => {
            if buf.len() - *pos >= 1 {
                let x = buf[*pos];
                *pos = *pos + 1;
                Option::Some(Value::U8(x))
            } else {
                Option::None
            }
        },
        FieldType::U32 => {
            if buf.len() - *pos >= 4 {
                let b0 = buf[*pos];
                let b1 = buf[*pos + 1];
                let b2 = buf[*pos + 2];
                let b3 = buf[*pos + 3];
                *pos = *pos + 4;
                Option::Some(Value::U32(
                    (b0 as u32) | ((b1 as u32) << 8) | ((b2 as u32) << 16) | ((b3 as u32) << 24),
                ))
            } else {
                Option::None
            }
        },
        FieldType::U64 => {
            if buf.len() - *pos >= 8 {
                let b0 = buf[*pos];
                let b1 = buf[*pos + 1];
                let b2 = buf[*pos + 2];
                let b3 = buf[*pos + 3];
                let b4 = buf[*pos + 4];
                let b5 = buf[*pos + 5];
                let b6 = buf[*pos + 6];
                let b7 = buf[*pos + 7];
                *pos = *pos + 8;
                Option::Some(Value::U64(
                    (b0 as u64) | ((b1 as u64) << 8) | ((b2 as u64) << 16) | ((b3 as u64) << 24) | (
                    (b4 as u64) << 32) | ((b5 as u64) << 40) | ((b6 as u64) << 48) | ((b7 as u64)
                        << 56),
                ))
            } else {
                Option::None
            }
        },
        FieldType::Str => {
            if buf.len() - *pos >= 4 {
                let b0 = buf[*pos];
                let b1 = buf[*pos + 1];
                let b2 = buf[*pos + 2];
                let b3 = buf[*pos + 3];
                let n: u32 = (b0 as u32) | ((b1 as u32) << 8) | ((b2 as u32) << 16) | ((b3 as u32)
                    << 24);
                let start = *pos + 4;
                let n_usize: usize = n as usize;
                if buf.len() - start >= n_usize {
                    let end: usize = start + n_usize;
                    let mut content: Vec<u8> = Vec::new();
                    let mut i: usize = 0;
                    while i < n_usize
                        invariant
                            i <= n_usize,
                            end == start + n_usize,
                            end <= buf@.len(),
                            content@ == buf@.subrange(start as int, start + i as int),
                        decreases n_usize - i,
                    {
                        content.push(buf[start + i]);
                        i = i + 1;
                        proof {
                            assert(content@ =~= buf@.subrange(start as int, start + i as int));
                        }
                    }
                    *pos = start + n_usize;
                    Option::Some(Value::Str(content))
                } else {
                    Option::None
                }
            } else {
                Option::None
            }
        },
    }
}

/// Encoding then reading one value gives the value back, and consumes
/// exactly the encoding, whatever bytes precede or follow it.
pub proof fn lemma_value_round_trip(ft: FieldType, v: ValueModel, bytes: Seq<u8>, pos: int)
    requires
        value_conforms(v, ft),
        0 <= pos,
        pos + spec_encode_value(ft, v).len() <= bytes.len(),
        bytes.subrange(pos, pos + spec_encode_value(ft, v).len()) == spec_encode_value(ft, v),
    ensures
        spec_read_value(ft, bytes, pos) == Option::Some(
            (v, pos + spec_encode_value(ft, v).len()),
        ),
{
    let enc = spec_encode_value(ft, v);
    assert forall|k: int| 0 <= k < enc.len() implies bytes[pos + k] == enc[k] by {
        assert(bytes.subrange(pos, pos + enc.len())[k] == enc[k]);
    }
    match (ft, v) {
        (FieldType::U8, ValueModel::U8(x)) => {
            assert(bytes[pos + 0] == enc[0]);
        },
        (FieldType::U32, ValueModel::U32(x)) => {
            lemma_u32_round_trip(x);
            assert(bytes[pos + 0] == enc[0] && bytes[pos + 1] == enc[1] && bytes[pos + 2] == enc[2]
                && bytes[pos + 3] == enc[3]);
        },
        (FieldType::U64, ValueModel::U64(x)) => {
            lemma_u64_round_trip(x);
            assert(bytes[pos + 0] == enc[0] && bytes[pos + 1] == enc[1] && bytes[pos + 2] == enc[2]
                && bytes[pos + 3] == enc[3] && bytes[pos + 4] == enc[4] && bytes[pos + 5] == enc[5]
                && bytes[pos + 6] == enc[6] && bytes[pos + 7] == enc[7]);
        },
        (FieldType::Str, ValueModel::Str(b)) => {
            let n: u32 = b.len() as u32;
            lemma_u32_round_trip(n);
            assert(bytes[pos + 0] == enc[0] && bytes[pos + 1] == enc[1] && bytes[pos + 2] == enc[2]
                && bytes[pos + 3] == enc[3]);
            assert(spec_read_u32(bytes, pos) == Option::Some((n, pos + 4)));
            assert(n as int == b.len());
            assert(bytes.subrange(pos + 4, pos + 4 + n) =~= b) by {
                assert forall|k: int| 0 <= k < b.len() implies bytes.subrange(
                    pos + 4,
                    pos + 4 + n as int,
                )[k] == b[k] by {
                    assert(bytes.subrange(pos, pos + enc.len())[4 + k] == enc[4 + k]);
                    assert(enc[4 + k] == b[k]);
                }
            }
        },
        _ => {},
    }
}

} // verus!
