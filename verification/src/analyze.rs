//! The schema analyzer and the codegen pipeline: from an annotated type
//! declaration (plus the registry and the companion enums) to the schema
//! model, the codec-capability obligations of its non-skip field types,
//! and the post-init hook, or to the codegen-time error that aborts
//! generation for that type.

use vstd::prelude::*;

use crate::codec::AccountCodec;
use crate::directives::Attribute;
use crate::directives::CgErr;
use crate::directives::CodegenError;
use crate::directives::MetaEntry;
use crate::directives::cg_err_matches;
use crate::directives::contains_initialize_with;
use crate::directives::contains_skip;
use crate::directives::opt_str_matches;
use crate::directives::resolve_enum_directives;
use crate::directives::spec_contains_skip;
use crate::directives::spec_find_init;
use crate::directives::spec_resolve_directives;
use crate::registry::CompanionEnum;
use crate::registry::Registry;
use crate::registry::RegistryEntry;
use crate::registry::find_companion;
use crate::registry::spec_find_companion;
use crate::registry::spec_lookup_code;
use crate::registry::spec_lookup_discriminator;
use crate::schema::FieldSchema;
use crate::schema::FieldSchemaModel;
use crate::schema::Schema;
use crate::schema::SchemaKind;
use crate::schema::SchemaModel;
use crate::schema::TagMode;
use crate::schema::TypeRef;
use crate::schema::TypeRefModel;
use crate::schema::VariantSchema;
use crate::schema::VariantSchemaModel;

verus! {

/// One field of the raw declaration: its name (positional fields have
/// none), its declared type, and its attributes.
pub struct FieldDecl {
    pub name: Option<String>,
    pub ty: TypeRef,
    pub attrs: Vec<Attribute>,
}

/// One variant of the raw enum declaration.
pub struct VariantDecl {
    pub name: String,
    pub fields: Vec<FieldDecl>,
}

/// The body of the raw declaration: a struct's fields, or an enum's
/// variants in declaration order.
pub enum DeclBody {
    Struct(Vec<FieldDecl>),
    Enum(Vec<VariantDecl>),
}

/// The raw annotated declaration, read once per codegen invocation.
pub struct TypeDeclaration {
    pub name: String,
    pub generics: Vec<String>,
    pub attrs: Vec<Attribute>,
    /// The declaration-level constraints, which field obligations are
    /// merged into, never replacing them.
    pub base_obligations: Vec<TypeRef>,
    pub body: DeclBody,
}

/// What the analyzer produces for one declaration: the schema model, the
/// codec-capability obligations (declaration-level constraints first, then
/// one per non-skip field in order), and the post-init hook, if declared.
#[derive(Debug)]
pub struct Analysis {
    pub schema: Schema,
    pub obligations: Vec<TypeRef>,
    pub init_hook: Option<String>,
}

/// Every declared field type of the list is one the codec interprets.
pub open spec fn fields_decl_concrete(fs: Seq<FieldDecl>) -> bool {
    forall|j: int| 0 <= j < fs.len() ==> (#[trigger] fs[j].ty) is Concrete
}

/// Every declared field type of the declaration is concrete: the codec
/// can interpret the analyzed schema directly.
pub open spec fn decl_concrete(decl: TypeDeclaration) -> bool {
    match decl.body {
        DeclBody::Struct(fs) => fields_decl_concrete(fs@),
        DeclBody::Enum(vs) => forall|i: int|
            0 <= i < vs@.len() ==> fields_decl_concrete((#[trigger] vs@[i]).fields@),
    }
}

/// Spec-level images of a type-reference list.
pub open spec fn tref_models(ts: Seq<TypeRef>) -> Seq<TypeRefModel> {
    ts.map_values(|t: TypeRef| t@)
}

/// The schema image of one declared field: skip exactly when its
/// attributes carry the skip directive.
pub open spec fn spec_field_model(f: FieldDecl) -> FieldSchemaModel {
    FieldSchemaModel {
        name: match f.name {
            Option::Some(s) => Option::Some(s@),
            Option::None => Option::None,
        },
        ty: f.ty@,
        skip: spec_contains_skip(f.attrs@),
    }
}

/// The schema images of a declared field list, in declaration order.
pub open spec fn spec_fields_model(fs: Seq<FieldDecl>) -> Seq<FieldSchemaModel> {
    fs.map_values(|f: FieldDecl| spec_field_model(f))
}

/// The codec-capability obligations of `fs[i..]`: each non-skip field's
/// declared type, in order; skip fields impose none.
pub open spec fn spec_obls(fs: Seq<FieldDecl>, i: int) -> Seq<TypeRefModel>
    decreases fs.len() - i,
{
    if i < 0 || i >= fs.len() {
        Seq::empty()
    } else {
        let head = if spec_contains_skip(fs[i].attrs@) {
            Seq::empty()
        } else {
            seq![fs[i].ty@]
        };
        head + spec_obls(fs, i + 1)
    }
}

/// The obligations of the variants `vs[i..]`, variant by variant.
pub open spec fn spec_variant_obls(vs: Seq<VariantDecl>, i: int) -> Seq<TypeRefModel>
    decreases vs.len() - i,
{
    if i < 0 || i >= vs.len() {
        Seq::empty()
    } else {
        spec_obls(vs[i].fields@, 0) + spec_variant_obls(vs, i + 1)
    }
}

/// The schema images of the variants `vs[i..]`. Under the aggregate mode
/// each variant's discriminator is resolved from the registry and must
/// begin with the variant's tag byte; otherwise it is empty and unused.
pub open spec fn spec_build_variants(
    vs: Seq<VariantDecl>,
    aggregate: bool,
    reg: Seq<RegistryEntry>,
    i: int,
) -> Result<Seq<VariantSchemaModel>, CgErr>
    decreases vs.len() - i,
{
    if i < 0 || i >= vs.len() {
        Result::Ok(Seq::empty())
    } else {
        let disc_r: Result<Seq<u8>, CgErr> = if aggregate {
            match spec_lookup_discriminator(reg, vs[i].name@, 0) {
                Option::Some(d) => if d.len() >= 1 && d[0] == i as u8 {
                    Result::Ok(d)
                } else {
                    Result::Err(CgErr::InvalidVariantDiscriminator { name: vs[i].name@ })
                },
                Option::None => Result::Err(CgErr::UnknownAccountName { name: vs[i].name@ }),
            }
        } else {
            Result::Ok(Seq::empty())
        };
        match disc_r {
            Result::Err(e) => Result::Err(e),
            Result::Ok(d) => match spec_build_variants(vs, aggregate, reg, i + 1) {
                Result::Err(e) => Result::Err(e),
                Result::Ok(rest) => Result::Ok(
                    seq![
                        VariantSchemaModel {
                            name: vs[i].name@,
                            discriminator: d,
                            fields: spec_fields_model(vs[i].fields@),
                        },
                    ] + rest,
                ),
            },
        }
    }
}

/// Joins already-built variants with the rest of the build.
pub open spec fn variants_join(
    prefix: Seq<VariantSchemaModel>,
    rest: Result<Seq<VariantSchemaModel>, CgErr>,
) -> Result<Seq<VariantSchemaModel>, CgErr> {
    match rest {
        Result::Ok(vms) => Result::Ok(prefix + vms),
        Result::Err(e) => Result::Err(e),
    }
}

/// Variants the analyzer built are one per declared variant and, under
/// the aggregate mode, each one's discriminator begins with its own tag
/// byte.
pub proof fn lemma_built_variants_wf(
    vs: Seq<VariantDecl>,
    aggregate: bool,
    reg: Seq<RegistryEntry>,
    i: int,
    vms: Seq<VariantSchemaModel>,
)
    requires
        0 <= i <= vs.len(),
        spec_build_variants(vs, aggregate, reg, i) == Result::Ok::<Seq<VariantSchemaModel>, CgErr>(
            vms,
        ),
    ensures
        vms.len() == vs.len() - i,
        aggregate ==> forall|k: int|
            0 <= k < vms.len() ==> (#[trigger] vms[k]).discriminator.len() >= 1
                && vms[k].discriminator[0] == ((i + k) as u8),
        forall|k: int| 0 <= k < vms.len() ==> (#[trigger] vms[k]).fields == spec_fields_model(
            vs[i + k].fields@,
        ),
    decreases vs.len() - i,
{
    if i < vs.len() {
        match spec_build_variants(vs, aggregate, reg, i + 1) {
            Result::Ok(rest) => {
                lemma_built_variants_wf(vs, aggregate, reg, i + 1, rest);
                assert forall|k: int|
                    aggregate && 0 <= k < vms.len() implies (#[trigger] vms[k]).discriminator.len()
                    >= 1 && vms[k].discriminator[0] == ((i + k) as u8) by {
                    if k > 0 {
                        assert(vms[k] == rest[k - 1]);
                        assert(rest[k - 1].discriminator.len() >= 1 && rest[k - 1].discriminator[0]
                            == ((i + 1 + (k - 1)) as u8));
                    }
                }
                assert forall|k: int| 0 <= k < vms.len() implies (#[trigger] vms[k]).fields
                    == spec_fields_model(vs[i + k].fields@) by {
                    if k > 0 {
                        assert(vms[k] == rest[k - 1]);
                        assert(rest[k - 1].fields == spec_fields_model(vs[i + 1 + (k - 1)].fields@));
                    }
                }
            },
            Result::Err(_) => {
                assert(false);
            },
        }
    }
}

/// Fields whose images are all of concrete type are themselves all of
/// concrete type.
pub proof fn lemma_fields_concrete_transfer(ev: VariantSchema, fs: Seq<FieldDecl>)
    requires
        ev@.fields == spec_fields_model(fs),
        fields_decl_concrete(fs),
    ensures
        crate::schema::variant_fields_concrete(ev),
{
    assert(ev@.fields.len() == ev.fields@.len());
    assert(spec_fields_model(fs).len() == fs.len());
    assert forall|j: int| 0 <= j < ev.fields@.len() implies (#[trigger] ev.fields@[j].ty)
        is Concrete by {
        assert(ev@.fields[j] == ev.fields@[j]@);
        assert(spec_fields_model(fs)[j] == spec_field_model(fs[j]));
        assert(ev@.fields[j] == spec_field_model(fs[j]));
        assert(fs[j].ty is Concrete);
        if ev.fields@[j].ty is Named {
            assert(ev.fields@[j]@.ty is Named);
            assert(false);
        }
    }
}

/// The tag strategy the directives select: a companion reference gives the
/// discriminant-checked mode with that companion's code for the declaring
/// type; the aggregate flag gives the aggregate mode; neither gives the
/// standard mode.
pub open spec fn spec_resolve_mode(
    name: Seq<char>,
    acc: Option<Seq<char>>,
    agg: bool,
    comps: Seq<CompanionEnum>,
) -> Result<TagMode, CgErr> {
    match acc {
        Option::Some(path) => match spec_find_companion(comps, path, 0) {
            Option::None => Result::Err(CgErr::UnknownCompanionEnum { name: path }),
            Option::Some(ci) => match spec_lookup_code(comps[ci].codes@, name, 0) {
                Option::None => Result::Err(CgErr::UnknownDiscriminantCode { name: name }),
                Option::Some(c) => Result::Ok(TagMode::DiscriminantChecked(c)),
            },
        },
        Option::None => if agg {
            Result::Ok(TagMode::Aggregate)
        } else {
            Result::Ok(TagMode::Standard)
        },
    }
}

/// The last step of the enum analysis: the variants built against the
/// chosen mode, assembled with the obligations and the hook.
pub open spec fn spec_assemble(
    decl: TypeDeclaration,
    vs: Seq<VariantDecl>,
    mode: TagMode,
    hook: Option<Seq<char>>,
    reg: Seq<RegistryEntry>,
) -> Result<(SchemaModel, Seq<TypeRefModel>, Option<Seq<char>>), CgErr> {
    match spec_build_variants(vs, mode is Aggregate, reg, 0) {
        Result::Err(e) => Result::Err(e),
        Result::Ok(vms) => Result::Ok(
            (
                SchemaModel { name: decl.name@, kind: SchemaKind::Enum(mode), variants: vms },
                tref_models(decl.base_obligations@) + spec_variant_obls(vs, 0),
                hook,
            ),
        ),
    }
}

/// The whole analysis of one declaration: a struct is its single implicit
/// variant; an enum resolves its directives, its mode and its hook, needs
/// its variant count to fit the one-byte tag, and builds its variants in
/// declaration order, each tag its zero-based position.
pub open spec fn spec_analyze(
    decl: TypeDeclaration,
    reg: Seq<RegistryEntry>,
    comps: Seq<CompanionEnum>,
) -> Result<(SchemaModel, Seq<TypeRefModel>, Option<Seq<char>>), CgErr> {
    match decl.body {
        DeclBody::Struct(fs) => match spec_find_init(decl.attrs@, 0) {
            Result::Err(e) => Result::Err(e),
            Result::Ok(hook) => Result::Ok(
                (
                    SchemaModel {
                        name: decl.name@,
                        kind: SchemaKind::Struct,
                        variants: seq![
                            VariantSchemaModel {
                                name: decl.name@,
                                discriminator: Seq::empty(),
                                fields: spec_fields_model(fs@),
                            },
                        ],
                    },
                    tref_models(decl.base_obligations@) + spec_obls(fs@, 0),
                    hook,
                ),
            ),
        },
        DeclBody::Enum(vs) => match spec_resolve_directives(decl.attrs@) {
            Result::Err(e) => Result::Err(e),
            Result::Ok((acc, agg)) => match spec_resolve_mode(decl.name@, acc, agg, comps) {
                Result::Err(e) => Result::Err(e),
                Result::Ok(mode) => match spec_find_init(decl.attrs@, 0) {
                    Result::Err(e) => Result::Err(e),
                    Result::Ok(hook) => if vs@.len() > 256 {
                        Result::Err(CgErr::TooManyVariants)
                    } else {
                        spec_assemble(decl, vs@, mode, hook, reg)
                    },
                },
            },
        },
    }
}

/// Copies a declared type reference.
pub fn clone_typeref(t: &TypeRef) -> (r: TypeRef)
    ensures
        r@ == t@,
{
    match t {
        TypeRef::Concrete(ft) => TypeRef::Concrete(*ft),
        TypeRef::Named(s) => TypeRef::Named(s.clone()),
    }
}

/// Copies an optional field name.
pub fn clone_opt_string(o: &Option<String>) -> (r: Option<String>)
    ensures
        match (r, o) {
            (Option::Some(a), Option::Some(b)) => a@ == b@,
            (Option::None, Option::None) => true,
            _ => false,
        },
{
    match o {
        Option::Some(s) => Option::Some(s.clone()),
        Option::None => Option::None,
    }
}

/// Copies a type-reference list.
#[verifier::loop_isolation(false)]
pub fn clone_typerefs(ts: &Vec<TypeRef>) -> (r: Vec<TypeRef>)
    ensures
        tref_models(r@) == tref_models(ts@),
{
    let mut out: Vec<TypeRef> = Vec::new();
    let mut i: usize = 0;
    while i < ts.len()
        invariant
            i <= ts@.len(),
            tref_models(out@) == tref_models(ts@).subrange(0, i as int),
        decreases ts@.len() - i,
    {
        out.push(clone_typeref(&ts[i]));
        i = i + 1;
        proof {
            assert(tref_models(out@) =~= tref_models(ts@).subrange(0, i as int));
        }
    }
    proof {
        assert(tref_models(ts@).subrange(0, ts@.len() as int) =~= tref_models(ts@));
    }
    out
}

/// Builds one variant's field schemas, appending each non-skip field's
/// declared type to the obligation list.
#[verifier::loop_isolation(false)]
pub fn build_fields(fs: &Vec<FieldDecl>, obls: &mut Vec<TypeRef>) -> (r: Vec<FieldSchema>)
    ensures
        r@.map_values(|f: FieldSchema| f@) == spec_fields_model(fs@),
        tref_models(final(obls)@) == tref_models(old(obls)@) + spec_obls(fs@, 0),
{
    let mut out: Vec<FieldSchema> = Vec::new();
    let mut j: usize = 0;
    while j < fs.len()
        invariant
            j <= fs@.len(),
            out@.map_values(|f: FieldSchema| f@) == spec_fields_model(fs@).subrange(0, j as int),
            tref_models(obls@) + spec_obls(fs@, j as int) == tref_models(old(obls)@) + spec_obls(
                fs@,
                0,
            ),
        decreases fs@.len() - j,
    {
        let f = &fs[j];
        let skip = contains_skip(&f.attrs);
        if !skip {
            let ghost before = tref_models(obls@);
            obls.push(clone_typeref(&f.ty));
            proof {
                assert(tref_models(obls@) =~= before + seq![fs@[j as int].ty@]);
                assert((before + seq![fs@[j as int].ty@]) + spec_obls(fs@, j + 1) =~= before + (
                seq![fs@[j as int].ty@] + spec_obls(fs@, j + 1)));
            }
        } else {
            proof {
                assert(Seq::<TypeRefModel>::empty() + spec_obls(fs@, j + 1) =~= spec_obls(
                    fs@,
                    j + 1,
                ));
            }
        }
        let fse = FieldSchema { name: clone_opt_string(&f.name), ty: clone_typeref(&f.ty), skip };
        out.push(fse);
        j = j + 1;
        proof {
            assert(out@.map_values(|f: FieldSchema| f@) =~= spec_fields_model(fs@).subrange(
                0,
                j as int,
            ));
        }
    }
    proof {
        assert(spec_fields_model(fs@).subrange(0, fs@.len() as int) =~= spec_fields_model(fs@));
        assert(spec_obls(fs@, fs@.len() as int) =~= Seq::<TypeRefModel>::empty());
        assert(tref_models(obls@) + Seq::<TypeRefModel>::empty() =~= tref_models(obls@));
    }
    out
}

/// Analyzes one declaration into its schema model, obligations and hook,
/// or fails with the codegen error the declaration earns.
#[verifier::loop_isolation(false)]
pub fn analyze_declaration(
    decl: &TypeDeclaration,
    registry: &Registry,
    companions: &Vec<CompanionEnum>,
) -> (r: Result<Analysis, CodegenError>)
    ensures
        match spec_analyze(*decl, registry.entries@, companions@) {
            Result::Ok(out) => r matches Result::Ok(a) && a.schema@ == out.0 && tref_models(
                a.obligations@,
            ) == out.1 && opt_str_matches(a.init_hook, out.2) && crate::schema::schema_wf(a.schema) && (
            decl_concrete(*decl) ==> crate::schema::codec_ready(a.schema)),
            Result::Err(k) => r matches Result::Err(e) && cg_err_matches(e, k),
        },
{
    match &decl.body {
        DeclBody::Struct(fs) => {
            let hook = match contains_initialize_with(&decl.attrs) {
                Result::Ok(h) => h,
                Result::Err(e) => {
                    return Result::Err(e);
                },
            };
            let mut obls: Vec<TypeRef> = clone_typerefs(&decl.base_obligations);
            let fields = build_fields(fs, &mut obls);
            let mut variants: Vec<VariantSchema> = Vec::new();
            variants.push(
                VariantSchema { name: decl.name.clone(), discriminator: Vec::new(), fields },
            );
            let schema = Schema {
                name: decl.name.clone(),
                kind: SchemaKind::Struct,
                variants,
            };
            proof {
                assert(schema@.variants =~= seq![
                    VariantSchemaModel {
                        name: decl.name@,
                        discriminator: Seq::empty(),
                        fields: spec_fields_model(fs@),
                    },
                ]);
                if decl_concrete(*decl) {
                    assert(schema.variants@[0]@ == schema@.variants[0]);
                    lemma_fields_concrete_transfer(schema.variants@[0], fs@);
                    assert(crate::schema::codec_ready(schema));
                }
            }
            Result::Ok(Analysis { schema, obligations: obls, init_hook: hook })
        },
        DeclBody::Enum(vs) => {
            let dirs = match resolve_enum_directives(&decl.attrs) {
                Result::Ok(d) => d,
                Result::Err(e) => {
                    return Result::Err(e);
                },
            };
            let mode: TagMode = match &dirs.account_ref {
                Option::Some(path) => {
                    match find_companion(companions, path) {
                        Option::None => {
                            return Result::Err(CodegenError::UnknownCompanionEnum {
                                name: path.clone(),
                            });
                        },
                        Option::Some(ci) => {
                            match companions[ci].code_for(&decl.name) {
                                Result::Ok(c) => TagMode::DiscriminantChecked(c),
                                Result::Err(e) => {
                                    return Result::Err(e);
                                },
                            }
                        },
                    }
                },
                Option::None => if dirs.aggregate {
                    TagMode::Aggregate
                } else {
                    TagMode::Standard
                },
            };
            let hook = match contains_initialize_with(&decl.attrs) {
                Result::Ok(h) => h,
                Result::Err(e) => {
                    return Result::Err(e);
                },
            };
            if vs.len() > 256 {
                return Result::Err(CodegenError::TooManyVariants);
            }
            let aggregate = match mode {
                TagMode::Aggregate => true,
                _ => false,
            };
            let mut obls: Vec<TypeRef> = clone_typerefs(&decl.base_obligations);
            let mut variants: Vec<VariantSchema> = Vec::new();
            let mut i: usize = 0;
            while i < vs.len()
                invariant
                    i <= vs@.len(),
                    variants@.len() == i,
                    spec_build_variants(vs@, aggregate, registry.entries@, 0) == variants_join(
                        variants@.map_values(|v: VariantSchema| v@),
                        spec_build_variants(vs@, aggregate, registry.entries@, i as int),
                    ),
                    tref_models(obls@) + spec_variant_obls(vs@, i as int) == tref_models(
                        decl.base_obligations@,
                    ) + spec_variant_obls(vs@, 0),
                decreases vs@.len() - i,
            {
                let v = &vs[i];
                let disc: Vec<u8> = if aggregate {
                    match registry.get_discriminator(&v.name) {
                        Result::Err(e) => {
                            return Result::Err(e);
                        },
                        Result::Ok(d) => {
                            if d.len() < 1 || d[0] != (i as u8) {
                                return Result::Err(CodegenError::InvalidVariantDiscriminator {
                                    name: v.name.clone(),
                                });
                            }
                            d
                        },
                    }
                } else {
                    Vec::new()
                };
                let ghost discm = disc@;
                let ghost obls_before = tref_models(obls@);
                let fields = build_fields(&v.fields, &mut obls);
                let ghost prefix = variants@.map_values(|v: VariantSchema| v@);
                variants.push(VariantSchema { name: v.name.clone(), discriminator: disc, fields });
                i = i + 1;
                proof {
                    let vm = VariantSchemaModel {
                        name: vs@[i - 1].name@,
                        discriminator: discm,
                        fields: spec_fields_model(vs@[i - 1].fields@),
                    };
                    assert(variants@.map_values(|v: VariantSchema| v@) =~= prefix + seq![vm]);
                    match spec_build_variants(vs@, aggregate, registry.entries@, i as int) {
                        Result::Ok(rest) => {
                            assert((prefix + (seq![vm] + rest)) =~= ((prefix + seq![vm]) + rest));
                        },
                        Result::Err(_) => {},
                    }
                    assert((obls_before + (spec_obls(vs@[i - 1].fields@, 0) + spec_variant_obls(
                        vs@,
                        i as int,
                    ))) =~= ((obls_before + spec_obls(vs@[i - 1].fields@, 0)) + spec_variant_obls(
                        vs@,
                        i as int,
                    )));
                }
            }
            let schema = Schema {
                name: decl.name.clone(),
                kind: SchemaKind::Enum(mode),
                variants,
            };
            proof {
                assert(spec_build_variants(vs@, aggregate, registry.entries@, vs@.len() as int)
                    == Result::Ok::<Seq<VariantSchemaModel>, CgErr>(Seq::empty()));
                assert(schema@.variants =~= schema.variants@.map_values(|v: VariantSchema| v@)
                    + Seq::<VariantSchemaModel>::empty());
                assert(spec_variant_obls(vs@, vs@.len() as int) =~= Seq::<TypeRefModel>::empty());
                assert(tref_models(obls@) + Seq::<TypeRefModel>::empty() =~= tref_models(obls@));
                match spec_build_variants(vs@, aggregate, registry.entries@, 0) {
                    Result::Ok(vms) => {
                        lemma_built_variants_wf(vs@, aggregate, registry.entries@, 0, vms);
                        assert(schema@.variants == vms);
                        if aggregate {
                            assert forall|ii: int|
                                0 <= ii < schema.variants@.len() implies crate::schema::variant_disc_wf(
                                #[trigger] schema.variants@[ii],
                                ii,
                            ) by {
                                assert(schema@.variants[ii] == schema.variants@[ii]@);
                                assert(vms[ii].discriminator.len() >= 1 && vms[ii].discriminator[0]
                                    == ((0 + ii) as u8));
                            }
                        }
                        if decl_concrete(*decl) {
                            assert forall|ii: int|
                                0 <= ii < schema.variants@.len() implies crate::schema::variant_fields_concrete(
                                #[trigger] schema.variants@[ii],
                            ) by {
                                assert(schema@.variants[ii] == schema.variants@[ii]@);
                                assert(vms[ii].fields == spec_fields_model(vs@[0 + ii].fields@));
                                assert(fields_decl_concrete(vs@[ii].fields@));
                                lemma_fields_concrete_transfer(schema.variants@[ii], vs@[ii].fields@);
                            }
                        }
                    },
                    Result::Err(_) => {
                        assert(false);
                    },
                }
                assert(crate::schema::schema_wf(schema));
                if decl_concrete(*decl) {
                    assert(crate::schema::codec_ready(schema));
                }
            }
            Result::Ok(Analysis { schema, obligations: obls, init_hook: hook })
        },
    }
}

/// What the account wrapper produces for one declaration: the analyzed
/// schema bound to its registry discriminator; the wrapper itself takes no
/// arguments.
pub open spec fn spec_resolve_account(
    args: Seq<MetaEntry>,
    decl: TypeDeclaration,
    reg: Seq<RegistryEntry>,
    comps: Seq<CompanionEnum>,
) -> Result<(SchemaModel, Seq<u8>), CgErr> {
    if args.len() != 0 {
        Result::Err(CgErr::UnexpectedArguments)
    } else {
        match spec_analyze(decl, reg, comps) {
            Result::Err(e) => Result::Err(e),
            Result::Ok(out) => match spec_lookup_discriminator(reg, decl.name@, 0) {
                Option::None => Result::Err(CgErr::UnknownAccountName { name: decl.name@ }),
                Option::Some(d) => Result::Ok((out.0, d)),
            },
        }
    }
}

/// The whole pipeline for one account type: validate the (empty) argument
/// list, analyze the declaration, resolve its discriminator from the
/// registry, and bind the two into the account codec.
pub fn resolve_account(
    args: &Vec<MetaEntry>,
    decl: &TypeDeclaration,
    registry: &Registry,
    companions: &Vec<CompanionEnum>,
) -> (r: Result<AccountCodec, CodegenError>)
    ensures
        match spec_resolve_account(args@, *decl, registry.entries@, companions@) {
            Result::Ok((sm, d)) => r matches Result::Ok(c) && c.schema@ == sm && c.discriminator@
                == d && crate::schema::schema_wf(c.schema) && (decl_concrete(*decl)
                ==> crate::schema::codec_ready(c.schema)),
            Result::Err(k) => r matches Result::Err(e) && cg_err_matches(e, k),
        },
{
    if args.len() != 0 {
        return Result::Err(CodegenError::UnexpectedArguments);
    }
    let analysis = match analyze_declaration(decl, registry, companions) {
        Result::Ok(a) => a,
        Result::Err(e) => {
            return Result::Err(e);
        },
    };
    let disc = match registry.get_discriminator(&decl.name) {
        Result::Ok(d) => d,
        Result::Err(e) => {
            return Result::Err(e);
        },
    };
    Result::Ok(AccountCodec { schema: analysis.schema, discriminator: disc })
}

} // verus!
