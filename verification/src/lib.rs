//! Self-referential containers: an owner and a value depending on the
//! owner's data, packaged as one movable unit.
//!
//! An [`Owner`]'s data is wrapped into a [`Storage`] with a stable,
//! aliasable address, a [`Dependant`] is built over a borrow of that data,
//! and [`Zc`] holds the two together.  The dependant records the places it
//! uses as plain indices ([`ByteSpan`], [`CharSpan`]), so access, moving,
//! and decomposition are all safe and carry exact contracts.
//!
//! Beside the container stand the rules a code generator follows when it
//! emits a `Dependant` implementation for a user type ([`derive_dependant`],
//! [`Shape`]): which types may be stored at all, and which are rejected.

use vstd::prelude::*;

mod capability;
mod construct;
mod container;
mod dependant;
mod generate;
mod option;
mod result;
mod storage;

pub use aliasable;

pub use capability::{
    is_copy, is_dependant, lemma_guard_excludes_interior_mut, no_interior_mut, spec_is_copy,
    spec_is_dependant, spec_no_interior_mut, spec_no_override, Shape,
};
pub use construct::{Construct, TryConstruct};
pub use container::{lemma_get_idempotent, moved, Zc};
pub use dependant::{ByteSpan, CharSpan, Dependant};
pub use generate::{
    check_passes, copy_option_tokens, default_option_tokens, derive_dependant, field_checks,
    generator_accepts, impl_field_checks, lemma_guard_rejects_interior_mut,
    lemma_multi_lifetime_rejected, parse_derive_attrs, parse_field_attrs, parse_guard_type,
    spec_check_passes, spec_derive_dependant, spec_enum_checks, spec_field_checks, spec_fold_guard,
    spec_generator_accepts, spec_guard_type, spec_impl_field_checks, spec_prepend_checks, zc_path,
    Attr, CheckKind, Data, DeriveError, DeriveInput, DeriveOpts, DeriveOutput, Field, FieldCheck,
    FieldOpts, Variant,
};
pub use option::Option;
pub use result::Result;
pub use storage::{abox_byte, astring_chars, avec_bytes, owner_round_trip, Owner, Storage};

verus! {

/// Compares two byte slices for content equality.
pub fn bytes_eq(a: &[u8], b: &[u8]) -> (r: bool)
    ensures
        r == (a@ == b@),
{
    if a.len() != b.len() {
        assert(a@.len() != b@.len());
        return false;
    }
    let mut i: usize = 0;
    while i < a.len()
        invariant
            0 <= i <= a@.len(),
            a@.len() == b@.len(),
            forall|j: int| 0 <= j < i ==> a@[j] == b@[j],
        decreases a@.len() - i,
    {
        if a[i] != b[i] {
            assert(a@[i as int] != b@[i as int]);
            assert(a@ != b@);
            return false;
        }
        i += 1;
    }
    assert(a@ =~= b@);
    true
}

} // verus!
