use vstd::prelude::*;

use crate::capability::{
    is_copy, is_dependant, lemma_guard_excludes_interior_mut, spec_is_copy, spec_is_dependant,
    spec_no_interior_mut, spec_no_override, Shape,
};

verus! {

/// Which capability check a field must pass before its type may be stored:
/// a `Copy` bound, or the default dependant bound.
#[derive(Clone, Copy, Debug, PartialEq, Eq, Structural)]
pub enum CheckKind {
    /// The field's type must be `Copy`.
    Copy,
    /// The field's type must carry the dependant capability.
    Default,
}

/// Why the generator rejects a candidate type.
#[derive(Clone, Copy, Debug, PartialEq, Eq, Structural)]
pub enum DeriveError {
    /// The type declares this many lifetime parameters, where at most one
    /// is valid on a dependant.
    TooManyLifetimes { count: usize },
    /// The type is a union.
    UnionNotSupported,
    /// An attribute holds something other than the two known options.
    UnknownOptions,
}

/// An attribute as written on a type or one of its fields: the name of its
/// path and the text of its tokens.
pub struct Attr {
    /// The attribute's path, as bytes.
    pub path: Vec<u8>,
    /// The attribute's token text, parentheses included, as bytes.
    pub tokens: Vec<u8>,
}

/// One field of a candidate type: the shape of its type and the attributes
/// written on it.
pub struct Field {
    /// The shape of the field's type.
    pub shape: Shape,
    /// The attributes written on the field.
    pub attrs: Vec<Attr>,
}

/// One variant of a candidate enum.
pub struct Variant {
    /// The variant's fields.
    pub fields: Vec<Field>,
}

/// The data of a candidate type.
pub enum Data {
    /// A struct with the given fields.
    Struct(Vec<Field>),
    /// An enum with the given variants.
    Enum(Vec<Variant>),
    /// A union, which the generator always rejects.
    Union,
}

/// A candidate type handed to the generator.
pub struct DeriveInput {
    /// The type's name, as bytes.
    pub name: Vec<u8>,
    /// How many lifetime parameters the type declares.
    pub lifetime_count: usize,
    /// The attributes written on the type itself.
    pub attrs: Vec<Attr>,
    /// The type's data.
    pub data: Data,
}

/// The options parsed from a type's own attributes.
pub struct DeriveOpts {
    /// The check every field gets unless its own attributes say otherwise.
    pub check: CheckKind,
}

/// The options parsed for one field.
pub struct FieldOpts {
    /// The check this field gets.
    pub guard: CheckKind,
}

/// One capability check the generated implementation contains: the named
/// check applied to the shape of one field's type.
#[derive(Debug, PartialEq, Eq)]
pub struct FieldCheck {
    /// Which check is applied.
    pub guard: CheckKind,
    /// The shape it is applied to.
    pub shape: Shape,
}

/// What the generator emits for an accepted type: whether the
/// implementation introduces a fresh lifetime (the type declared none) or
/// erases the type's single declared lifetime, and the capability check of
/// each field.
#[derive(Debug, PartialEq, Eq)]
pub struct DeriveOutput {
    /// True when the type declared no lifetime and one is introduced.
    pub fresh_lifetime: bool,
    /// The capability checks of the fields, in field order.
    pub checks: Vec<FieldCheck>,
}

/// The attribute path that the generator reads: `zc`.
pub open spec fn zc_path() -> Seq<u8> {
    seq![122u8, 99u8]
}

/// The token text selecting the `Copy` check: `(check = "Copy")`.
pub open spec fn copy_option_tokens() -> Seq<u8> {
    seq![
        40u8,
        99u8,
        104u8,
        101u8,
        99u8,
        107u8,
        32u8,
        61u8,
        32u8,
        34u8,
        67u8,
        111u8,
        112u8,
        121u8,
        34u8,
        41u8,
    ]
}

/// The token text selecting the default check: `(guard = "Default")`.
pub open spec fn default_option_tokens() -> Seq<u8> {
    seq![
        40u8,
        103u8,
        117u8,
        97u8,
        114u8,
        100u8,
        32u8,
        61u8,
        32u8,
        34u8,
        68u8,
        101u8,
        102u8,
        97u8,
        117u8,
        108u8,
        116u8,
        34u8,
        41u8,
    ]
}

fn zc_path_bytes() -> (r: Vec<u8>)
    ensures
        r@ == zc_path(),
{
    let v = vec![122u8, 99u8];
    proof {
        assert(v@ =~= zc_path());
    }
    v
}

fn copy_option_bytes() -> (r: Vec<u8>)
    ensures
        r@ == copy_option_tokens(),
{
    let v = vec![
        40u8,
        99u8,
        104u8,
        101u8,
        99u8,
        107u8,
        32u8,
        61u8,
        32u8,
        34u8,
        67u8,
        111u8,
        112u8,
        121u8,
        34u8,
        41u8,
    ];
    proof {
        assert(v@ =~= copy_option_tokens());
    }
    v
}

fn default_option_bytes() -> (r: Vec<u8>)
    ensures
        r@ == default_option_tokens(),
{
    let v = vec![
        40u8,
        103u8,
        117u8,
        97u8,
        114u8,
        100u8,
        32u8,
        61u8,
        32u8,
        34u8,
        68u8,
        101u8,
        102u8,
        97u8,
        117u8,
        108u8,
        116u8,
        34u8,
        41u8,
    ];
    proof {
        assert(v@ =~= default_option_tokens());
    }
    v
}

/// Which check, if any, an attribute's token text selects.
pub open spec fn spec_guard_type(tokens: Seq<u8>) -> Result<CheckKind, DeriveError> {
    if tokens == copy_option_tokens() {
        Ok(CheckKind::Copy)
    } else if tokens == default_option_tokens() {
        Ok(CheckKind::Default)
    } else {
        Err(DeriveError::UnknownOptions)
    }
}

/// Parses the token text of one attribute into the check it selects.
pub fn parse_guard_type(attr_value: &[u8]) -> (r: Result<CheckKind, DeriveError>)
    ensures
        r == spec_guard_type(attr_value@),
{
    let copy_tokens = copy_option_bytes();
    if crate::bytes_eq(attr_value, copy_tokens.as_slice()) {
        return Ok(CheckKind::Copy);
    }
    let default_tokens = default_option_bytes();
    if crate::bytes_eq(attr_value, default_tokens.as_slice()) {
        return Ok(CheckKind::Default);
    }
    Err(DeriveError::UnknownOptions)
}

/// The check left standing after reading a run of attributes, starting
/// from `cur`: each attribute on the `zc` path replaces the check with the
/// one its tokens select, and an unknown option stops everything.
pub open spec fn spec_fold_guard(attrs: Seq<Attr>, cur: CheckKind) -> Result<
    CheckKind,
    DeriveError,
>
    decreases attrs.len(),
{
    if attrs.len() == 0 {
        Ok(cur)
    } else if attrs[0].path@ == zc_path() {
        match spec_guard_type(attrs[0].tokens@) {
            Ok(k) => spec_fold_guard(attrs.skip(1), k),
            Err(e) => Err(e),
        }
    } else {
        spec_fold_guard(attrs.skip(1), cur)
    }
}

/// Reads a run of attributes as [`spec_fold_guard`] says.
fn fold_guard(attrs: &Vec<Attr>, start: CheckKind) -> (r: Result<CheckKind, DeriveError>)
    ensures
        r == spec_fold_guard(attrs@, start),
{
    let zc_bytes = zc_path_bytes();
    let mut cur = start;
    let mut i: usize = 0;
    proof {
        assert(attrs@.skip(0) =~= attrs@);
    }
    while i < attrs.len()
        invariant
            0 <= i <= attrs@.len(),
            zc_bytes@ == zc_path(),
            spec_fold_guard(attrs@, start) == spec_fold_guard(attrs@.skip(i as int), cur),
        decreases attrs@.len() - i,
    {
        proof {
            assert(attrs@.skip(i as int)[0] == attrs@[i as int]);
            assert(attrs@.skip(i as int).skip(1) =~= attrs@.skip(i as int + 1));
        }
        let a = &attrs[i];
        if crate::bytes_eq(a.path.as_slice(), zc_bytes.as_slice()) {
            match parse_guard_type(a.tokens.as_slice()) {
                Ok(k) => {
                    cur = k;
                },
                Err(e) => {
                    return Err(e);
                },
            }
        }
        i += 1;
    }
    proof {
        assert(attrs@.skip(i as int) =~= Seq::<Attr>::empty());
    }
    Ok(cur)
}

/// Parses a type's own attributes into the options governing its fields.
pub fn parse_derive_attrs(input: &DeriveInput) -> (r: Result<DeriveOpts, DeriveError>)
    ensures
        r is Ok ==> spec_fold_guard(input.attrs@, CheckKind::Default) == Ok::<
            CheckKind,
            DeriveError,
        >(r->Ok_0.check),
        r is Err ==> spec_fold_guard(input.attrs@, CheckKind::Default) == Err::<
            CheckKind,
            DeriveError,
        >(r->Err_0),
{
    match fold_guard(&input.attrs, CheckKind::Default) {
        Ok(check) => Ok(DeriveOpts { check }),
        Err(e) => Err(e),
    }
}

/// Parses one field's attributes into the check it gets, starting from the
/// type-level options.
pub fn parse_field_attrs(opts: &DeriveOpts, field: &Field) -> (r: Result<FieldOpts, DeriveError>)
    ensures
        r is Ok ==> spec_fold_guard(field.attrs@, opts.check) == Ok::<CheckKind, DeriveError>(
            r->Ok_0.guard,
        ),
        r is Err ==> spec_fold_guard(field.attrs@, opts.check) == Err::<CheckKind, DeriveError>(
            r->Err_0,
        ),
{
    match fold_guard(&field.attrs, opts.check) {
        Ok(guard) => Ok(FieldOpts { guard }),
        Err(e) => Err(e),
    }
}

/// The capability checks emitted for a run of fields, or the first error
/// among their attributes.
pub open spec fn spec_field_checks(opts: DeriveOpts, fields: Seq<Field>) -> Result<
    Seq<FieldCheck>,
    DeriveError,
>
    decreases fields.len(),
{
    if fields.len() == 0 {
        Ok(Seq::empty())
    } else {
        match spec_fold_guard(fields[0].attrs@, opts.check) {
            Ok(guard) => match spec_field_checks(opts, fields.skip(1)) {
                Ok(rest) => Ok(seq![FieldCheck { guard, shape: fields[0].shape }] + rest),
                Err(e) => Err(e),
            },
            Err(e) => Err(e),
        }
    }
}

/// Prepends already-emitted checks to the outcome for the fields left.
pub open spec fn spec_prepend_checks(
    done: Seq<FieldCheck>,
    rest: Result<Seq<FieldCheck>, DeriveError>,
) -> Result<Seq<FieldCheck>, DeriveError> {
    match rest {
        Ok(s) => Ok(done + s),
        Err(e) => Err(e),
    }
}

/// Emits one capability check per field, as [`spec_field_checks`] says:
/// each field gets the type-level check unless its own attributes replace
/// it, and the first unknown option stops everything.
#[verifier::loop_isolation(false)]
pub fn field_checks(opts: &DeriveOpts, fields: Vec<Field>) -> (r: Result<
    Vec<FieldCheck>,
    DeriveError,
>)
    ensures
        r is Ok ==> spec_field_checks(*opts, fields@) == Ok::<Seq<FieldCheck>, DeriveError>(
            r->Ok_0@,
        ),
        r is Err ==> spec_field_checks(*opts, fields@) == Err::<Seq<FieldCheck>, DeriveError>(
            r->Err_0,
        ),
{
    let ghost orig = fields@;
    let mut fields = fields;
    let mut out: Vec<FieldCheck> = Vec::new();
    while fields.len() > 0
        invariant
            spec_field_checks(*opts, orig) == spec_prepend_checks(
                out@,
                spec_field_checks(*opts, fields@),
            ),
        decreases fields@.len(),
    {
        let ghost before = fields@;
        let field = fields.remove(0);
        proof {
            assert(fields@ =~= before.skip(1));
        }
        match parse_field_attrs(opts, &field) {
            Ok(field_opts) => {
                let ghost done = out@;
                let check = FieldCheck { guard: field_opts.guard, shape: field.shape };
                let ghost check_g = check;
                out.push(check);
                proof {
                    assert(out@ =~= done + seq![check_g]);
                    if spec_field_checks(*opts, fields@) is Ok {
                        assert(out@ + spec_field_checks(*opts, fields@)->Ok_0 =~= done + (seq![
                            check_g,
                        ] + spec_field_checks(*opts, fields@)->Ok_0));
                    }
                }
            },
            Err(e) => {
                proof {
                    assert(spec_field_checks(*opts, before) == Err::<Seq<FieldCheck>, DeriveError>(
                        e,
                    ));
                }
                return Err(e);
            },
        }
    }
    proof {
        assert(fields@ =~= Seq::<Field>::empty());
        assert(out@ + Seq::<FieldCheck>::empty() =~= out@);
    }
    Ok(out)
}

/// The checks emitted for an enum: those of every variant's fields, in
/// variant order, or the first error among them.
pub open spec fn spec_enum_checks(opts: DeriveOpts, variants: Seq<Variant>) -> Result<
    Seq<FieldCheck>,
    DeriveError,
>
    decreases variants.len(),
{
    if variants.len() == 0 {
        Ok(Seq::empty())
    } else {
        match spec_field_checks(opts, variants[0].fields@) {
            Ok(head) => match spec_enum_checks(opts, variants.skip(1)) {
                Ok(rest) => Ok(head + rest),
                Err(e) => Err(e),
            },
            Err(e) => Err(e),
        }
    }
}

/// The checks emitted for a candidate type's data: its fields' checks for
/// a struct, every variant's for an enum, and a rejection for a union.
pub open spec fn spec_impl_field_checks(opts: DeriveOpts, data: Data) -> Result<
    Seq<FieldCheck>,
    DeriveError,
> {
    match data {
        Data::Struct(fields) => spec_field_checks(opts, fields@),
        Data::Enum(variants) => spec_enum_checks(opts, variants@),
        Data::Union => Err(DeriveError::UnionNotSupported),
    }
}

/// Emits the capability checks for a candidate type's data, as
/// [`spec_impl_field_checks`] says.
#[verifier::loop_isolation(false)]
pub fn impl_field_checks(data: Data, opts: &DeriveOpts) -> (r: Result<Vec<FieldCheck>, DeriveError>)
    ensures
        r is Ok ==> spec_impl_field_checks(*opts, data) == Ok::<Seq<FieldCheck>, DeriveError>(
            r->Ok_0@,
        ),
        r is Err ==> spec_impl_field_checks(*opts, data) == Err::<Seq<FieldCheck>, DeriveError>(
            r->Err_0,
        ),
{
    match data {
        Data::Struct(fields) => field_checks(opts, fields),
        Data::Enum(variants) => {
            let ghost orig = variants@;
            let mut variants = variants;
            let mut out: Vec<FieldCheck> = Vec::new();
            while variants.len() > 0
                invariant
                    spec_enum_checks(*opts, orig) == spec_prepend_checks(
                        out@,
                        spec_enum_checks(*opts, variants@),
                    ),
                decreases variants@.len(),
            {
                let ghost before = variants@;
                let variant = variants.remove(0);
                proof {
                    assert(variants@ =~= before.skip(1));
                }
                match field_checks(opts, variant.fields) {
                    Ok(mut head) => {
                        let ghost done = out@;
                        let ghost head_view = head@;
                        out.append(&mut head);
                        proof {
                            if spec_enum_checks(*opts, variants@) is Ok {
                                assert(out@ + spec_enum_checks(*opts, variants@)->Ok_0 =~= done + (
                                head_view + spec_enum_checks(*opts, variants@)->Ok_0));
                            }
                        }
                    },
                    Err(e) => {
                        proof {
                            assert(spec_enum_checks(*opts, before) == Err::<
                                Seq<FieldCheck>,
                                DeriveError,
                            >(e));
                        }
                        return Err(e);
                    },
                }
            }
            proof {
                assert(variants@ =~= Seq::<Variant>::empty());
                assert(out@ + Seq::<FieldCheck>::empty() =~= out@);
            }
            Ok(out)
        },
        Data::Union => Err(DeriveError::UnionNotSupported),
    }
}

/// What the generator decides for a candidate type: the fresh-lifetime
/// flag and the field checks of an accepted type, or the rejection.  A
/// type is examined in this order: its own attributes, then its lifetime
/// count, then its fields.
pub open spec fn spec_derive_dependant(input: DeriveInput) -> Result<
    (bool, Seq<FieldCheck>),
    DeriveError,
> {
    match spec_fold_guard(input.attrs@, CheckKind::Default) {
        Err(e) => Err(e),
        Ok(check) => if input.lifetime_count >= 2 {
            Err(DeriveError::TooManyLifetimes { count: input.lifetime_count })
        } else {
            match spec_impl_field_checks(DeriveOpts { check }, input.data) {
                Ok(checks) => Ok((input.lifetime_count == 0, checks)),
                Err(e) => Err(e),
            }
        },
    }
}

/// Decides for a candidate type, as [`spec_derive_dependant`] says: a type
/// with unknown attribute options, with two or more lifetime parameters,
/// with a union body, or with a field whose attributes hold unknown
/// options is rejected; any other type yields an implementation
/// description, with one capability check per field.
pub fn derive_dependant(input: DeriveInput) -> (r: Result<DeriveOutput, DeriveError>)
    ensures
        r is Ok ==> spec_derive_dependant(input) is Ok && r->Ok_0.fresh_lifetime
            == spec_derive_dependant(input)->Ok_0.0 && r->Ok_0.checks@ == spec_derive_dependant(
            input,
        )->Ok_0.1,
        r is Err ==> spec_derive_dependant(input) == Err::<(bool, Seq<FieldCheck>), DeriveError>(
            r->Err_0,
        ),
{
    let opts = match parse_derive_attrs(&input) {
        Ok(opts) => opts,
        Err(e) => {
            return Err(e);
        },
    };
    if input.lifetime_count >= 2 {
        return Err(DeriveError::TooManyLifetimes { count: input.lifetime_count });
    }
    let fresh_lifetime = input.lifetime_count == 0;
    let DeriveInput { data, .. } = input;
    match impl_field_checks(data, &opts) {
        Ok(checks) => Ok(DeriveOutput { fresh_lifetime, checks }),
        Err(e) => Err(e),
    }
}

/// Whether one emitted check passes: a `Copy` check passes when the shape
/// is `Copy`, the default check when the shape carries the dependant
/// capability.
pub open spec fn spec_check_passes(c: FieldCheck) -> bool {
    match c.guard {
        CheckKind::Copy => spec_is_copy(c.shape),
        CheckKind::Default => spec_is_dependant(c.shape),
    }
}

/// Decides [`spec_check_passes`].
pub fn check_passes(c: &FieldCheck) -> (r: bool)
    ensures
        r == spec_check_passes(*c),
{
    match c.guard {
        CheckKind::Copy => is_copy(&c.shape),
        CheckKind::Default => is_dependant(&c.shape),
    }
}

/// Whether a candidate type is accepted outright: the generator emits an
/// implementation for it and every emitted capability check passes.
pub open spec fn spec_generator_accepts(input: DeriveInput) -> bool {
    match spec_derive_dependant(input) {
        Ok(out) => forall|i: int| 0 <= i < out.1.len() ==> spec_check_passes(#[trigger] out.1[i]),
        Err(_) => false,
    }
}

/// Decides [`spec_generator_accepts`].
#[verifier::loop_isolation(false)]
pub fn generator_accepts(input: DeriveInput) -> (r: bool)
    ensures
        r == spec_generator_accepts(input),
{
    match derive_dependant(input) {
        Ok(out) => {
            let checks = out.checks;
            let mut i: usize = 0;
            let mut good = true;
            while i < checks.len()
                invariant
                    0 <= i <= checks@.len(),
                    good == forall|j: int| 0 <= j < i ==> spec_check_passes(#[trigger] checks@[j]),
                decreases checks@.len() - i,
            {
                let here = check_passes(&checks[i]);
                good = good && here;
                i += 1;
            }
            good
        },
        Err(_) => false,
    }
}

/// A type declaring two or more lifetime parameters is rejected, with the
/// error carrying that count, whenever its own attributes parse at all.
pub proof fn lemma_multi_lifetime_rejected(input: DeriveInput)
    requires
        input.lifetime_count >= 2,
        spec_fold_guard(input.attrs@, CheckKind::Default) is Ok,
    ensures
        spec_derive_dependant(input) == Err::<(bool, Seq<FieldCheck>), DeriveError>(
            DeriveError::TooManyLifetimes { count: input.lifetime_count },
        ),
{
}

/// A field checked by the default guard whose type keeps data behind
/// interior mutability fails its capability check, unless some type in it
/// was unsafely granted the capability by hand.
pub proof fn lemma_guard_rejects_interior_mut(c: FieldCheck)
    requires
        c.guard == CheckKind::Default,
        spec_no_override(c.shape),
        !spec_no_interior_mut(c.shape),
    ensures
        !spec_check_passes(c),
{
    lemma_guard_excludes_interior_mut(c.shape);
}

} // verus!
