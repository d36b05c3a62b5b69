//! The bounded-sequence reader: decodes consecutive account records from a
//! list of raw buffers, stopping at the first record that does not decode
//! (not fatal to what was read), and holding the count to the caller's
//! bounds.

use vstd::prelude::*;
use vstd::pervasive::arbitrary;

use crate::codec::AccountCodec;
use crate::codec::CodecError;
use crate::codec::spec_decode_account;
use crate::schema::codec_ready;
use crate::value::Record;
use crate::value::RecordModel;

verus! {

/// Whether one account's bytes decode as the codec's account record.
pub open spec fn spec_account_ok(c: AccountCodec, data: Seq<u8>) -> bool {
    spec_decode_account(c.schema, c.discriminator@, data, 0) is Ok
}

/// The record one account's bytes decode to, where they decode at all.
pub open spec fn spec_decoded(c: AccountCodec, data: Seq<u8>) -> RecordModel {
    match spec_decode_account(c.schema, c.discriminator@, data, 0) {
        Result::Ok((m, _)) => m,
        Result::Err(_) => arbitrary(),
    }
}

/// How many consecutive accounts from `start` decode, capped at `max`.
pub open spec fn spec_greedy(c: AccountCodec, accounts: Seq<Vec<u8>>, start: int, max: int) -> int
    decreases accounts.len() - start,
{
    if start < 0 || start >= accounts.len() || max <= 0 || !spec_account_ok(c, accounts[start]@) {
        0
    } else {
        1 + spec_greedy(c, accounts, start + 1, max - 1)
    }
}

/// Decodes up to `max` consecutive account records starting at the
/// cursor: fails with `NotEnoughAccountKeys` when fewer than `min`
/// accounts remain at all, accumulates greedily until a record fails to
/// decode or `max` is reached, fails with `NotEnoughValidAccountForVec`
/// when fewer than `min` decoded, and otherwise advances the cursor past
/// exactly the consumed accounts.
#[verifier::loop_isolation(false)]
pub fn try_from_vec_accounts_with_bounds(
    codec: &AccountCodec,
    accounts: &Vec<Vec<u8>>,
    cursor: &mut usize,
    min: usize,
    max: usize,
) -> (r: Result<Vec<Record>, CodecError>)
    requires
        codec_ready(codec.schema),
        *old(cursor) <= accounts@.len(),
    ensures
        accounts@.len() - *old(cursor) < min ==> (r matches Result::Err(e)
            && e is NotEnoughAccountKeys && *final(cursor) == *old(cursor)),
        accounts@.len() - *old(cursor) >= min ==> ({
            let k = spec_greedy(*codec, accounts@, *old(cursor) as int, max as int);
            if k < min {
                &&& r matches Result::Err(e) && e is NotEnoughValidAccountForVec
                &&& *final(cursor) == *old(cursor)
            } else {
                &&& r matches Result::Ok(v) && v@.len() == k && (forall|j: int|
                    0 <= j < k ==> (#[trigger] v@[j])@ == spec_decoded(
                        *codec,
                        accounts@[*old(cursor) + j]@,
                    ))
                &&& *final(cursor) == *old(cursor) + k
            }
        }),
{
    if accounts.len() - *cursor < min {
        return Result::Err(CodecError::NotEnoughAccountKeys);
    }
    let mut result: Vec<Record> = Vec::new();
    let mut i: usize = *cursor;
    while result.len() < max
        invariant
            *cursor <= i <= accounts@.len(),
            result@.len() == i - *cursor,
            result@.len() <= max,
            *cursor == *old(cursor),
            forall|j: int| 0 <= j < result@.len() ==> (#[trigger] result@[j])@ == spec_decoded(
                *codec,
                accounts@[*cursor + j]@,
            ),
            spec_greedy(*codec, accounts@, *cursor as int, max as int) == result@.len()
                + spec_greedy(*codec, accounts@, i as int, max - result@.len()),
        decreases max - result@.len(),
    {
        if i == accounts.len() {
            break;
        }
        let data = &accounts[i];
        let mut p: usize = 0;
        match codec.try_deserialize(data, &mut p) {
            Result::Ok(rec) => {
                result.push(rec);
                i = i + 1;
            },
            Result::Err(_) => {
                proof {
                    assert(!spec_account_ok(*codec, accounts@[i as int]@));
                }
                break;
            },
        }
    }
    if result.len() < min {
        return Result::Err(CodecError::NotEnoughValidAccountForVec);
    }
    *cursor = i;
    Result::Ok(result)
}

} // verus!
