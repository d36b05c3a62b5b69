//! The discriminator resolver: the registry that binds a type name to its
//! fixed-length discriminator byte sequence, and the companion enums of
//! numeric codes used by the discriminant-checked mode. A missing entry is
//! a codegen-time failure, caught before any code is generated.

use vstd::prelude::*;

use crate::directives::CgErr;
use crate::directives::CodegenError;
use crate::directives::cg_err_matches;
use crate::value::clone_bytes;

verus! {

/// One registry binding: a type name and its discriminator bytes.
pub struct RegistryEntry {
    pub name: String,
    pub discriminator: Vec<u8>,
}

/// The external configuration registry, read once and immutable after.
pub struct Registry {
    pub entries: Vec<RegistryEntry>,
}

/// The first binding of `name` at or past `i`, if any.
pub open spec fn spec_lookup_discriminator(
    entries: Seq<RegistryEntry>,
    name: Seq<char>,
    i: int,
) -> Option<Seq<u8>>
    decreases entries.len() - i,
{
    if i < 0 || i >= entries.len() {
        Option::None
    } else if entries[i].name@ == name {
        Option::Some(entries[i].discriminator@)
    } else {
        spec_lookup_discriminator(entries, name, i + 1)
    }
}

impl Registry {
    /// The discriminator bound to `name`; a name without a binding fails
    /// resolution, and with it code generation for that type.
    pub fn get_discriminator(&self, name: &String) -> (r: Result<Vec<u8>, CodegenError>)
        ensures
            match spec_lookup_discriminator(self.entries@, name@, 0) {
                Option::Some(d) => r matches Result::Ok(v) && v@ == d,
                Option::None => r matches Result::Err(e) && cg_err_matches(
                    e,
                    CgErr::UnknownAccountName { name: name@ },
                ),
            },
    {
        let mut i: usize = 0;
        while i < self.entries.len()
            invariant
                i <= self.entries@.len(),
                spec_lookup_discriminator(self.entries@, name@, 0) == spec_lookup_discriminator(
                    self.entries@,
                    name@,
                    i as int,
                ),
            decreases self.entries@.len() - i,
        {
            if self.entries[i].name == *name {
                return Result::Ok(clone_bytes(&self.entries[i].discriminator));
            }
            i = i + 1;
        }
        Result::Err(CodegenError::UnknownAccountName { name: name.clone() })
    }
}

/// One companion-enum binding: a name and its one-byte numeric code.
pub struct CodeEntry {
    pub name: String,
    pub code: u8,
}

/// A companion enum: a separately declared enumeration of numeric codes,
/// consulted by the discriminant-checked mode.
pub struct CompanionEnum {
    pub name: String,
    pub codes: Vec<CodeEntry>,
}

/// The first code bound to `name` at or past `i`, if any.
pub open spec fn spec_lookup_code(codes: Seq<CodeEntry>, name: Seq<char>, i: int) -> Option<u8>
    decreases codes.len() - i,
{
    if i < 0 || i >= codes.len() {
        Option::None
    } else if codes[i].name@ == name {
        Option::Some(codes[i].code)
    } else {
        spec_lookup_code(codes, name, i + 1)
    }
}

impl CompanionEnum {
    /// The numeric code this companion enum binds to `name`.
    pub fn code_for(&self, name: &String) -> (r: Result<u8, CodegenError>)
        ensures
            match spec_lookup_code(self.codes@, name@, 0) {
                Option::Some(c) => r matches Result::Ok(x) && x == c,
                Option::None => r matches Result::Err(e) && cg_err_matches(
                    e,
                    CgErr::UnknownDiscriminantCode { name: name@ },
                ),
            },
    {
        let mut i: usize = 0;
        while i < self.codes.len()
            invariant
                i <= self.codes@.len(),
                spec_lookup_code(self.codes@, name@, 0) == spec_lookup_code(
                    self.codes@,
                    name@,
                    i as int,
                ),
            decreases self.codes@.len() - i,
        {
            if self.codes[i].name == *name {
                return Result::Ok(self.codes[i].code);
            }
            i = i + 1;
        }
        Result::Err(CodegenError::UnknownDiscriminantCode { name: name.clone() })
    }
}

/// The first companion enum with the given name at or past `i`, if any.
pub open spec fn spec_find_companion(cs: Seq<CompanionEnum>, name: Seq<char>, i: int) -> Option<int>
    decreases cs.len() - i,
{
    if i < 0 || i >= cs.len() {
        Option::None
    } else if cs[i].name@ == name {
        Option::Some(i)
    } else {
        spec_find_companion(cs, name, i + 1)
    }
}

/// Finds the companion enum a directive path names.
pub fn find_companion(cs: &Vec<CompanionEnum>, name: &String) -> (r: Option<usize>)
    ensures
        match spec_find_companion(cs@, name@, 0) {
            Option::Some(idx) => r matches Option::Some(u) && u as int == idx && idx < cs@.len(),
            Option::None => r is None,
        },
{
    let mut i: usize = 0;
    while i < cs.len()
        invariant
            i <= cs@.len(),
            spec_find_companion(cs@, name@, 0) == spec_find_companion(cs@, name@, i as int),
        decreases cs@.len() - i,
    {
        if cs[i].name == *name {
            return Option::Some(i);
        }
        i = i + 1;
    }
    Option::None
}

} // verus!
