use vstd::prelude::*;

use aliasable::boxed::AliasableBox;
use aliasable::string::AliasableString;
use aliasable::vec::AliasableVec;

verus! {

// The aliasable wrapper types keep their contents at a stable, aliasable
// address for as long as the wrapper lives.  Verus sees them as opaque
// values; the spec functions below name what each one holds.

#[verifier::external_type_specification]
#[verifier::external_body]
pub struct ExAliasableString(AliasableString);

#[verifier::external_type_specification]
#[verifier::external_body]
#[verifier::reject_recursive_types(T)]
pub struct ExAliasableVec<T>(AliasableVec<T>);

#[verifier::external_type_specification]
#[verifier::external_body]
#[verifier::reject_recursive_types(T)]
pub struct ExAliasableBox<T: ?Sized>(AliasableBox<T>);

/// The characters held by an aliasable string.
pub uninterp spec fn astring_chars(s: AliasableString) -> Seq<char>;

/// The bytes held by an aliasable byte vector.
pub uninterp spec fn avec_bytes(v: AliasableVec<u8>) -> Seq<u8>;

/// The byte held by an aliasable box of one byte.
pub uninterp spec fn abox_byte(b: AliasableBox<u8>) -> u8;

/// Relies on aliasable::string::AliasableString::from_unique: it wraps the
/// string's own buffer, without copying or changing its contents.
#[verifier::external_body]
fn astring_from_unique(s: String) -> (r: AliasableString)
    ensures
        astring_chars(r) == s@,
{
    AliasableString::from_unique(s)
}

/// Relies on aliasable::string::AliasableString::into_unique: it hands the
/// same buffer back as an ordinary string, contents unchanged.
#[verifier::external_body]
fn astring_into_unique(s: AliasableString) -> (r: String)
    ensures
        r@ == astring_chars(s),
{
    AliasableString::into_unique(s)
}

/// Relies on <AliasableString as Deref>::deref: it returns the held string
/// slice.
#[verifier::external_body]
fn astring_as_str(s: &AliasableString) -> (r: &str)
    ensures
        r@ == astring_chars(*s),
{
    &**s
}

/// Relies on aliasable::vec::AliasableVec::from_unique: it takes over the
/// vector's own buffer, without copying or changing its contents.
#[verifier::external_body]
fn avec_from_unique(v: Vec<u8>) -> (r: AliasableVec<u8>)
    ensures
        avec_bytes(r) == v@,
{
    AliasableVec::from_unique(v)
}

/// Relies on aliasable::vec::AliasableVec::into_unique: it hands the same
/// buffer back as an ordinary vector, contents unchanged.
#[verifier::external_body]
fn avec_into_unique(v: AliasableVec<u8>) -> (r: Vec<u8>)
    ensures
        r@ == avec_bytes(v),
{
    AliasableVec::into_unique(v)
}

/// Relies on <AliasableVec as Deref>::deref: it returns the held slice.
#[verifier::external_body]
fn avec_as_slice(v: &AliasableVec<u8>) -> (r: &[u8])
    ensures
        r@ == avec_bytes(*v),
{
    &**v
}

/// Relies on <AliasableBox as Deref>::deref: it returns a reference to the
/// boxed value.
#[verifier::external_body]
fn abox_as_ref(b: &AliasableBox<u8>) -> (r: &u8)
    ensures
        *r == abox_byte(*b),
{
    &**b
}

/// A type that can provide a stable, aliasable reference to data it owns.
///
/// The target's address does not change while the storage value lives, and
/// the address may be aliased: both facts are supplied by the wrapped
/// aliasable type and are what make a self-referential container sound.
/// Within these contracts only the target's contents are spoken of, through
/// [`Storage::contents`].
pub trait Storage: Sized {
    /// The borrowed form of the stored data.
    type Target: ?Sized;

    /// The mathematical contents of the stored data.
    type V;

    /// What this storage holds.
    spec fn contents(&self) -> Self::V;

    /// What a borrowed target holds.
    spec fn target_view(t: &Self::Target) -> Self::V;

    /// Borrows the stored data.
    fn borrow_target(&self) -> (r: &Self::Target)
        ensures
            Self::target_view(r) == self.contents(),
    ;
}

impl Storage for AliasableString {
    type Target = str;

    type V = Seq<char>;

    open spec fn contents(&self) -> Seq<char> {
        astring_chars(*self)
    }

    open spec fn target_view(t: &str) -> Seq<char> {
        t@
    }

    fn borrow_target(&self) -> (r: &str) {
        astring_as_str(self)
    }
}

impl Storage for AliasableVec<u8> {
    type Target = [u8];

    type V = Seq<u8>;

    open spec fn contents(&self) -> Seq<u8> {
        avec_bytes(*self)
    }

    open spec fn target_view(t: &[u8]) -> Seq<u8> {
        t@
    }

    fn borrow_target(&self) -> (r: &[u8]) {
        avec_as_slice(self)
    }
}

impl Storage for AliasableBox<u8> {
    type Target = u8;

    type V = u8;

    open spec fn contents(&self) -> u8 {
        abox_byte(*self)
    }

    open spec fn target_view(t: &u8) -> u8 {
        *t
    }

    fn borrow_target(&self) -> (r: &u8) {
        abox_as_ref(self)
    }
}

/// The owner of data, tied to the [`Storage`] form that keeps the same data
/// at a stable, aliasable address.
///
/// Both conversions preserve the data's contents exactly; nothing is copied
/// but the wrapper itself.
pub trait Owner: Sized {
    /// The storage form of this owner.
    type Storage: Storage;

    /// The mathematical contents of this owner.
    spec fn owner_view(&self) -> <Self::Storage as Storage>::V;

    /// Consumes the owner into its storage form.
    fn into_storage(self) -> (r: Self::Storage)
        ensures
            r.contents() == self.owner_view(),
    ;

    /// Consumes the storage form back into the owner.
    fn from_storage(storage: Self::Storage) -> (r: Self)
        ensures
            r.owner_view() == storage.contents(),
    ;
}

/// A storage type is trivially its own owner.
impl<T: Storage> Owner for T {
    type Storage = T;

    open spec fn owner_view(&self) -> T::V {
        self.contents()
    }

    fn into_storage(self) -> (r: T) {
        self
    }

    fn from_storage(storage: T) -> (r: T) {
        storage
    }
}

impl Owner for String {
    type Storage = AliasableString;

    open spec fn owner_view(&self) -> Seq<char> {
        self@
    }

    fn into_storage(self) -> (r: AliasableString) {
        astring_from_unique(self)
    }

    fn from_storage(storage: AliasableString) -> (r: String) {
        astring_into_unique(storage)
    }
}

impl Owner for Vec<u8> {
    type Storage = AliasableVec<u8>;

    open spec fn owner_view(&self) -> Seq<u8> {
        self@
    }

    fn into_storage(self) -> (r: AliasableVec<u8>) {
        avec_from_unique(self)
    }

    fn from_storage(storage: AliasableVec<u8>) -> (r: Vec<u8>) {
        avec_into_unique(storage)
    }
}

/// Converting an owner into its storage form and back yields an owner with
/// the same contents, whatever the owner's value.
pub fn owner_round_trip<O: Owner>(owner: O) -> (r: O)
    ensures
        r.owner_view() == owner.owner_view(),
{
    O::from_storage(owner.into_storage())
}

} // verus!
