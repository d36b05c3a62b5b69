//! The attribute resolver: the directive lists attached to a declaration,
//! a variant or a field, validated into a closed set of recognized options.
//! The grammar is a parenthesized, comma-separated list of named entries;
//! an entry is a bare flag or a flag holding exactly one nested path.

use vstd::prelude::*;

verus! {

/// One entry of a directive list: a bare flag (`value` absent) or a flag
/// holding one nested identifier or path.
pub struct MetaEntry {
    pub name: String,
    pub value: Option<String>,
}

/// The shape of one attribute: a bare marker, or a parenthesized entry
/// list.
pub enum AttrArgs {
    Plain,
    List(Vec<MetaEntry>),
}

/// One attribute attached to a declaration, variant or field.
pub struct Attribute {
    pub name: String,
    pub args: AttrArgs,
}

/// The codegen-time errors: malformed, duplicated, conflicting or unknown
/// directives, and unresolved registry or companion lookups. They abort
/// generation for the offending type.
#[derive(Debug, PartialEq, Eq)]
pub enum CodegenError {
    /// The account attribute takes no arguments.
    UnexpectedArguments,
    /// The directive attribute is not a parenthesized entry list.
    InvalidAttributeShape,
    /// The same directive appears twice in one list.
    DuplicatedDirective { name: String },
    /// Both mutually exclusive enum-mode directives are present.
    ConflictingDirectives,
    /// A directive outside the recognized set.
    UnknownDirective { name: String },
    /// A recognized directive with the wrong shape (a missing or an extra
    /// nested value).
    MalformedDirective { name: String },
    /// The post-init directive must hold exactly one method name.
    InvalidInitDirective,
    /// The registry holds no discriminator for the name.
    UnknownAccountName { name: String },
    /// No companion enum of that name was supplied.
    UnknownCompanionEnum { name: String },
    /// The companion enum holds no code for the name.
    UnknownDiscriminantCode { name: String },
    /// Under the aggregate mode, a variant's registry discriminator does
    /// not begin with the variant's tag byte.
    InvalidVariantDiscriminator { name: String },
    /// More variants than one tag byte can select.
    TooManyVariants,
}

/// Spec-level image of a codegen failure.
pub enum CgErr {
    UnexpectedArguments,
    InvalidAttributeShape,
    DuplicatedDirective { name: Seq<char> },
    ConflictingDirectives,
    UnknownDirective { name: Seq<char> },
    MalformedDirective { name: Seq<char> },
    InvalidInitDirective,
    UnknownAccountName { name: Seq<char> },
    UnknownCompanionEnum { name: Seq<char> },
    UnknownDiscriminantCode { name: Seq<char> },
    InvalidVariantDiscriminator { name: Seq<char> },
    TooManyVariants,
}

/// The executable error carries exactly what the spec-level failure says.
pub open spec fn cg_err_matches(e: CodegenError, k: CgErr) -> bool {
    match k {
        CgErr::UnexpectedArguments => e is UnexpectedArguments,
        CgErr::InvalidAttributeShape => e is InvalidAttributeShape,
        CgErr::DuplicatedDirective { name } => e matches CodegenError::DuplicatedDirective {
            name: n,
        } && n@ == name,
        CgErr::ConflictingDirectives => e is ConflictingDirectives,
        CgErr::UnknownDirective { name } => e matches CodegenError::UnknownDirective { name: n }
            && n@ == name,
        CgErr::MalformedDirective { name } => e matches CodegenError::MalformedDirective {
            name: n,
        } && n@ == name,
        CgErr::InvalidInitDirective => e is InvalidInitDirective,
        CgErr::UnknownAccountName { name } => e matches CodegenError::UnknownAccountName {
            name: n,
        } && n@ == name,
        CgErr::UnknownCompanionEnum { name } => e matches CodegenError::UnknownCompanionEnum {
            name: n,
        } && n@ == name,
        CgErr::UnknownDiscriminantCode { name } => e matches CodegenError::UnknownDiscriminantCode {
            name: n,
        } && n@ == name,
        CgErr::InvalidVariantDiscriminator { name } => e
            matches CodegenError::InvalidVariantDiscriminator { name: n } && n@ == name,
        CgErr::TooManyVariants => e is TooManyVariants,
    }
}

/// An optional name carries exactly an optional spec-level name.
pub open spec fn opt_str_matches(o: Option<String>, m: Option<Seq<char>>) -> bool {
    match (o, m) {
        (Option::Some(s), Option::Some(n)) => s@ == n,
        (Option::None, Option::None) => true,
        _ => false,
    }
}

/// The validated enum-level directive set: at most one of the two
/// mutually exclusive modes.
#[derive(Debug)]
pub struct EnumDirectives {
    /// The companion enum path of `account(..)`: decoding must first
    /// validate a leading discriminant byte against its codes.
    pub account_ref: Option<String>,
    /// The `accounts` flag: the enum wraps heterogeneous account types.
    pub aggregate: bool,
}

/// The field-level skip directive is present: the field never reaches the
/// wire and is reconstructed from its type's default.
pub open spec fn spec_contains_skip(attrs: Seq<Attribute>) -> bool {
    exists|i: int| 0 <= i < attrs.len() && (#[trigger] attrs[i]).name@ == "borsh_skip"@
        && attrs[i].args is Plain
}

/// Whether the attribute list carries the bare skip marker.
pub fn contains_skip(attrs: &Vec<Attribute>) -> (r: bool)
    ensures
        r == spec_contains_skip(attrs@),
{
    let key: String = "borsh_skip".to_owned();
    let mut i: usize = 0;
    while i < attrs.len()
        invariant
            i <= attrs@.len(),
            key@ == "borsh_skip"@,
            forall|k: int| 0 <= k < i ==> !((#[trigger] attrs@[k]).name@ == "borsh_skip"@
                && attrs@[k].args is Plain),
        decreases attrs@.len() - i,
    {
        let a = &attrs[i];
        let plain = match &a.args {
            AttrArgs::Plain => true,
            AttrArgs::List(_) => false,
        };
        if plain && a.name == key {
            return true;
        }
        i = i + 1;
    }
    false
}

/// The first init directive, scanned in attribute order: the first entry
/// list named for initialization decides; one with other than exactly one
/// entry is an error; one whose single entry is not a bare path is passed
/// over and the scan continues.
pub open spec fn spec_find_init(attrs: Seq<Attribute>, i: int) -> Result<Option<Seq<char>>, CgErr>
    decreases attrs.len() - i,
{
    if i < 0 || i >= attrs.len() {
        Result::Ok(Option::None)
    } else {
        match attrs[i].args {
            AttrArgs::List(es) => if attrs[i].name@ == "borsh_init"@ {
                if es@.len() != 1 {
                    Result::Err(CgErr::InvalidInitDirective)
                } else if es@[0].value is None {
                    Result::Ok(Option::Some(es@[0].name@))
                } else {
                    spec_find_init(attrs, i + 1)
                }
            } else {
                spec_find_init(attrs, i + 1)
            },
            AttrArgs::Plain => spec_find_init(attrs, i + 1),
        }
    }
}

/// The post-init hook method named by the attribute list, if any.
pub fn contains_initialize_with(attrs: &Vec<Attribute>) -> (r: Result<
    Option<String>,
    CodegenError,
>)
    ensures
        match spec_find_init(attrs@, 0) {
            Result::Ok(m) => r matches Result::Ok(o) && opt_str_matches(o, m),
            Result::Err(k) => r matches Result::Err(e) && cg_err_matches(e, k),
        },
{
    let key: String = "borsh_init".to_owned();
    let mut i: usize = 0;
    while i < attrs.len()
        invariant
            i <= attrs@.len(),
            key@ == "borsh_init"@,
            spec_find_init(attrs@, 0) == spec_find_init(attrs@, i as int),
        decreases attrs@.len() - i,
    {
        let a = &attrs[i];
        match &a.args {
            AttrArgs::List(es) => {
                if a.name == key {
                    if es.len() != 1 {
                        return Result::Err(CodegenError::InvalidInitDirective);
                    }
                    let first = &es[0];
                    match &first.value {
                        Option::None => {
                            return Result::Ok(Option::Some(first.name.clone()));
                        },
                        Option::Some(_) => {},
                    }
                }
            },
            AttrArgs::Plain => {},
        }
        i = i + 1;
    }
    Result::Ok(Option::None)
}

/// The first index at or past `i` of an attribute with the given name.
pub open spec fn spec_find_attr(attrs: Seq<Attribute>, name: Seq<char>, i: int) -> Option<int>
    decreases attrs.len() - i,
{
    if i < 0 || i >= attrs.len() {
        Option::None
    } else if attrs[i].name@ == name {
        Option::Some(i)
    } else {
        spec_find_attr(attrs, name, i + 1)
    }
}

/// Finds the first attribute with the given name.
pub fn find_attr(attrs: &Vec<Attribute>, key: &String) -> (r: Option<usize>)
    ensures
        match spec_find_attr(attrs@, key@, 0) {
            Option::Some(idx) => r matches Option::Some(u) && u as int == idx && idx
                < attrs@.len(),
            Option::None => r is None,
        },
{
    let mut i: usize = 0;
    while i < attrs.len()
        invariant
            i <= attrs@.len(),
            spec_find_attr(attrs@, key@, 0) == spec_find_attr(attrs@, key@, i as int),
        decreases attrs@.len() - i,
    {
        if attrs[i].name == *key {
            return Option::Some(i);
        }
        i = i + 1;
    }
    Option::None
}

/// The first index at or past `i` of an entry with the given name.
pub open spec fn spec_find_entry(es: Seq<MetaEntry>, name: Seq<char>, i: int) -> Option<int>
    decreases es.len() - i,
{
    if i < 0 || i >= es.len() {
        Option::None
    } else if es[i].name@ == name {
        Option::Some(i)
    } else {
        spec_find_entry(es, name, i + 1)
    }
}

/// Finds the first entry with the given name.
pub fn find_entry(es: &Vec<MetaEntry>, key: &String) -> (r: Option<usize>)
    ensures
        match spec_find_entry(es@, key@, 0) {
            Option::Some(idx) => r matches Option::Some(u) && u as int == idx && idx < es@.len(),
            Option::None => r is None,
        },
{
    let mut i: usize = 0;
    while i < es.len()
        invariant
            i <= es@.len(),
            spec_find_entry(es@, key@, 0) == spec_find_entry(es@, key@, i as int),
        decreases es@.len() - i,
    {
        if es[i].name == *key {
            return Option::Some(i);
        }
        i = i + 1;
    }
    Option::None
}

/// The name of the first entry, in scan order, that a later entry
/// repeats.
pub open spec fn spec_first_dup(es: Seq<MetaEntry>, i: int) -> Option<Seq<char>>
    decreases es.len() - i,
{
    if i < 0 || i >= es.len() {
        Option::None
    } else if exists|j: int| i < j < es.len() && (#[trigger] es[j]).name@ == es[i].name@ {
        Option::Some(es[i].name@)
    } else {
        spec_first_dup(es, i + 1)
    }
}

/// Finds a directive name that occurs twice.
pub fn first_duplicate(es: &Vec<MetaEntry>) -> (r: Option<String>)
    ensures
        match spec_first_dup(es@, 0) {
            Option::Some(n) => r matches Option::Some(s) && s@ == n,
            Option::None => r is None,
        },
{
    let mut i: usize = 0;
    while i < es.len()
        invariant
            i <= es@.len(),
            spec_first_dup(es@, 0) == spec_first_dup(es@, i as int),
        decreases es@.len() - i,
    {
        let mut j: usize = i + 1;
        while j < es.len()
            invariant
                i < es@.len(),
                i < j <= es@.len(),
                spec_first_dup(es@, 0) == spec_first_dup(es@, i as int),
                forall|k: int| i < k < j ==> (#[trigger] es@[k]).name@ != es@[i as int].name@,
            decreases es@.len() - j,
        {
            if es[j].name == es[i].name {
                proof {
                    assert((es@[j as int]).name@ == es@[i as int].name@);
                }
                return Option::Some(es[i].name.clone());
            }
            j = j + 1;
        }
        proof {
            assert(!(exists|k: int| i < k < es@.len() && (#[trigger] es@[k]).name@
                == es@[i as int].name@));
        }
        i = i + 1;
    }
    Option::None
}

/// The name of the first entry outside the recognized directive set.
pub open spec fn spec_first_unknown(es: Seq<MetaEntry>, i: int) -> Option<Seq<char>>
    decreases es.len() - i,
{
    if i < 0 || i >= es.len() {
        Option::None
    } else if es[i].name@ != "account"@ && es[i].name@ != "accounts"@ {
        Option::Some(es[i].name@)
    } else {
        spec_first_unknown(es, i + 1)
    }
}

/// Finds the first unrecognized directive name.
pub fn first_unknown(es: &Vec<MetaEntry>) -> (r: Option<String>)
    ensures
        match spec_first_unknown(es@, 0) {
            Option::Some(n) => r matches Option::Some(s) && s@ == n,
            Option::None => r is None,
        },
{
    let account_key: String = "account".to_owned();
    let accounts_key: String = "accounts".to_owned();
    let mut i: usize = 0;
    while i < es.len()
        invariant
            i <= es@.len(),
            account_key@ == "account"@,
            accounts_key@ == "accounts"@,
            spec_first_unknown(es@, 0) == spec_first_unknown(es@, i as int),
        decreases es@.len() - i,
    {
        let known = es[i].name == account_key || es[i].name == accounts_key;
        if !known {
            return Option::Some(es[i].name.clone());
        }
        i = i + 1;
    }
    Option::None
}

/// The validated entry list of the enum-mode attribute: duplicates, then
/// each recognized directive's shape, then the exclusive pair, then
/// anything unrecognized; what remains is the directive set.
pub open spec fn spec_resolve_entries(es: Seq<MetaEntry>) -> Result<
    (Option<Seq<char>>, bool),
    CgErr,
> {
    match spec_first_dup(es, 0) {
        Option::Some(n) => Result::Err(CgErr::DuplicatedDirective { name: n }),
        Option::None => match spec_find_entry(es, "account"@, 0) {
            Option::Some(ai) => match es[ai].value {
                Option::None => Result::Err(CgErr::MalformedDirective { name: "account"@ }),
                Option::Some(path) => match spec_find_entry(es, "accounts"@, 0) {
                    Option::Some(gi) => if es[gi].value is Some {
                        Result::Err(CgErr::MalformedDirective { name: "accounts"@ })
                    } else {
                        Result::Err(CgErr::ConflictingDirectives)
                    },
                    Option::None => match spec_first_unknown(es, 0) {
                        Option::Some(u) => Result::Err(CgErr::UnknownDirective { name: u }),
                        Option::None => Result::Ok((Option::Some(path@), false)),
                    },
                },
            },
            Option::None => match spec_find_entry(es, "accounts"@, 0) {
                Option::Some(gi) => if es[gi].value is Some {
                    Result::Err(CgErr::MalformedDirective { name: "accounts"@ })
                } else {
                    match spec_first_unknown(es, 0) {
                        Option::Some(u) => Result::Err(CgErr::UnknownDirective { name: u }),
                        Option::None => Result::Ok((Option::None, true)),
                    }
                },
                Option::None => match spec_first_unknown(es, 0) {
                    Option::Some(u) => Result::Err(CgErr::UnknownDirective { name: u }),
                    Option::None => Result::Ok((Option::None, false)),
                },
            },
        },
    }
}

/// The enum-level directive set of an attribute list: the first enum-mode
/// attribute decides; no such attribute means the standard mode.
pub open spec fn spec_resolve_directives(attrs: Seq<Attribute>) -> Result<
    (Option<Seq<char>>, bool),
    CgErr,
> {
    match spec_find_attr(attrs, "fankor"@, 0) {
        Option::None => Result::Ok((Option::None, false)),
        Option::Some(fi) => match attrs[fi].args {
            AttrArgs::Plain => Result::Err(CgErr::InvalidAttributeShape),
            AttrArgs::List(es) => spec_resolve_entries(es@),
        },
    }
}

/// Validates the enum-level directives: detects duplicated, malformed,
/// conflicting and unknown directives, and returns the validated set.
pub fn resolve_enum_directives(attrs: &Vec<Attribute>) -> (r: Result<EnumDirectives, CodegenError>)
    ensures
        match spec_resolve_directives(attrs@) {
            Result::Ok((acc, agg)) => r matches Result::Ok(d) && opt_str_matches(d.account_ref, acc)
                && d.aggregate == agg,
            Result::Err(k) => r matches Result::Err(e) && cg_err_matches(e, k),
        },
{
    let fankor_key: String = "fankor".to_owned();
    let fi = match find_attr(attrs, &fankor_key) {
        Option::None => {
            return Result::Ok(EnumDirectives { account_ref: Option::None, aggregate: false });
        },
        Option::Some(fi) => fi,
    };
    let es: &Vec<MetaEntry> = match &attrs[fi].args {
        AttrArgs::Plain => {
            return Result::Err(CodegenError::InvalidAttributeShape);
        },
        AttrArgs::List(es) => es,
    };
    match first_duplicate(es) {
        Option::Some(n) => {
            return Result::Err(CodegenError::DuplicatedDirective { name: n });
        },
        Option::None => {},
    }
    let account_key: String = "account".to_owned();
    let accounts_key: String = "accounts".to_owned();
    let acc_idx = find_entry(es, &account_key);
    let agg_idx = find_entry(es, &accounts_key);
    match acc_idx {
        Option::Some(ai) => {
            match &es[ai].value {
                Option::None => Result::Err(CodegenError::MalformedDirective {
                    name: account_key,
                }),
                Option::Some(path) => {
                    match agg_idx {
                        Option::Some(gi) => {
                            let plain = match &es[gi].value {
                                Option::None => true,
                                Option::Some(_) => false,
                            };
                            if !plain {
                                Result::Err(CodegenError::MalformedDirective {
                                    name: accounts_key,
                                })
                            } else {
                                Result::Err(CodegenError::ConflictingDirectives)
                            }
                        },
                        Option::None => {
                            match first_unknown(es) {
                                Option::Some(u) => Result::Err(CodegenError::UnknownDirective {
                                    name: u,
                                }),
                                Option::None => Result::Ok(EnumDirectives {
                                    account_ref: Option::Some(path.clone()),
                                    aggregate: false,
                                }),
                            }
                        },
                    }
                },
            }
        },
        Option::None => {
            match agg_idx {
                Option::Some(gi) => {
                    let plain = match &es[gi].value {
                        Option::None => true,
                        Option::Some(_) => false,
                    };
                    if !plain {
                        Result::Err(CodegenError::MalformedDirective { name: accounts_key })
                    } else {
                        match first_unknown(es) {
                            Option::Some(u) => Result::Err(CodegenError::UnknownDirective {
                                name: u,
                            }),
                            Option::None => Result::Ok(EnumDirectives {
                                account_ref: Option::None,
                                aggregate: true,
                            }),
                        }
                    }
                },
                Option::None => {
                    match first_unknown(es) {
                        Option::Some(u) => Result::Err(CodegenError::UnknownDirective { name: u }),
                        Option::None => Result::Ok(EnumDirectives {
                            account_ref: Option::None,
                            aggregate: false,
                        }),
                    }
                },
            }
        },
    }
}

} // verus!
