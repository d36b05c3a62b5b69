//! The post-init hook: a mutating, no-argument transformation invoked on a
//! freshly decoded record before it is returned. The declaration names the
//! method; its body is the user's. Here a hook is any implementation of
//! `PostInitHook`, whose executable effect is proved to match its own
//! specification, so decode contracts can speak of it exactly.

use vstd::prelude::*;

use crate::codec::AccountCodec;
use crate::codec::CodecError;
use crate::codec::deserialize_payload;
use crate::codec::err_matches;
use crate::codec::spec_decode_account;
use crate::codec::spec_decode_payload;
use crate::schema::Schema;
use crate::schema::codec_ready;
use crate::value::Record;
use crate::value::RecordModel;
use crate::value::Value;
use crate::value::clone_value;

verus! {

/// A no-argument mutating method run on the fresh value after full
/// construction, before it reaches the caller.
pub trait PostInitHook {
    /// What the hook does to a freshly decoded record.
    spec fn hook_spec(&self, r: RecordModel) -> RecordModel;

    /// Runs the hook on the fresh record.
    fn apply(&self, r: &mut Record)
        ensures
            final(r)@ == self.hook_spec(old(r)@),
    ;
}

/// The hook that leaves the record as decoded.
pub struct NoopHook;

impl PostInitHook for NoopHook {
    open spec fn hook_spec(&self, r: RecordModel) -> RecordModel {
        r
    }

    fn apply(&self, r: &mut Record) {
    }
}

/// A hook that overwrites one field of the fresh record with a fixed
/// value, and touches nothing else; out of range it has no effect.
pub struct SetFieldHook {
    pub index: usize,
    pub value: Value,
}

impl PostInitHook for SetFieldHook {
    open spec fn hook_spec(&self, r: RecordModel) -> RecordModel {
        if (self.index as int) < r.fields.len() {
            RecordModel {
                variant: r.variant,
                fields: r.fields.update(self.index as int, self.value@),
            }
        } else {
            r
        }
    }

    fn apply(&self, r: &mut Record) {
        if self.index < r.fields.len() {
            let v = clone_value(&self.value);
            r.fields.set(self.index, v);
            proof {
                assert(r@.fields =~= self.hook_spec(old(r)@).fields);
            }
        }
    }
}

/// Decodes one payload and, as a post-init directive asks, invokes the
/// hook on the fresh value before returning it; errors are exactly those
/// of the plain decode.
pub fn deserialize_payload_with_hook<H: PostInitHook>(
    s: &Schema,
    hook: &H,
    buf: &Vec<u8>,
    pos: &mut usize,
) -> (r: Result<Record, CodecError>)
    requires
        codec_ready(*s),
        *old(pos) <= buf@.len(),
    ensures
        *final(pos) <= buf@.len(),
        match spec_decode_payload(*s, buf@, *old(pos) as int) {
            Result::Ok((m, p)) => r matches Result::Ok(rec) && rec@ == hook.hook_spec(m)
                && *final(pos) == p,
            Result::Err(k) => r matches Result::Err(e) && err_matches(e, k),
        },
{
    match deserialize_payload(s, buf, pos) {
        Result::Ok(mut rec) => {
            hook.apply(&mut rec);
            Result::Ok(rec)
        },
        Result::Err(e) => Result::Err(e),
    }
}

impl AccountCodec {
    /// The checked account read followed by the type's post-init hook on
    /// the fresh value.
    pub fn try_deserialize_with_hook<H: PostInitHook>(
        &self,
        hook: &H,
        buf: &Vec<u8>,
        pos: &mut usize,
    ) -> (r: Result<Record, CodecError>)
        requires
            codec_ready(self.schema),
            *old(pos) <= buf@.len(),
        ensures
            *final(pos) <= buf@.len(),
            match spec_decode_account(self.schema, self.discriminator@, buf@, *old(pos) as int) {
                Result::Ok((m, p)) => r matches Result::Ok(rec) && rec@ == hook.hook_spec(m)
                    && *final(pos) == p,
                Result::Err(k) => r matches Result::Err(e) && err_matches(e, k),
            },
    {
        match self.try_deserialize(buf, pos) {
            Result::Ok(mut rec) => {
                hook.apply(&mut rec);
                Result::Ok(rec)
            },
            Result::Err(e) => Result::Err(e),
        }
    }
}

/// A hookless decode is unaffected by the hook step: the no-effect hook
/// returns every record unchanged, so composing it with the plain decode
/// is the plain decode.
pub proof fn lemma_noop_hook(h: NoopHook, r: RecordModel)
    ensures
        h.hook_spec(r) == r,
{
}

/// The hook's effect is local: under `SetFieldHook` the decoded-then-hooked
/// value differs from the plain decoded value at most in the one field the
/// hook is documented to mutate.
pub proof fn lemma_hook_localized(h: SetFieldHook, r: RecordModel)
    ensures
        h.hook_spec(r).variant == r.variant,
        h.hook_spec(r).fields.len() == r.fields.len(),
        forall|j: int| 0 <= j < r.fields.len() && j != h.index as int ==> #[trigger] h.hook_spec(
            r,
        ).fields[j] == r.fields[j],
{
}

} // verus!
