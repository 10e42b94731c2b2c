use vstd::prelude::*;

use crate::construct::{Construct, TryConstruct};
use crate::dependant::Dependant;
use crate::storage::{Owner, Storage};

verus! {

/// A self-referential pair of an [`Owner`]'s storage and a [`Dependant`]
/// built over that storage's target.
///
/// The dependant field is declared before the storage field, so that it is
/// dropped first and can never observe freed storage.  The storage is never
/// replaced or mutated while the container lives: every operation below
/// leaves its contents exactly as construction found them.
pub struct Zc<O: Owner, D> {
    value: D,
    storage: O::Storage,
}

impl<O: Owner, D> Zc<O, D> {
    /// The dependant value this container holds.
    pub closed spec fn dep(&self) -> D {
        self.value
    }

    /// The contents of the storage this container holds.
    pub closed spec fn contents(&self) -> <O::Storage as Storage>::V {
        self.storage.contents()
    }
}

impl<O: Owner, D: Dependant> Zc<O, D> {
    /// Constructs a container from an [`Owner`] and a function building the
    /// [`Dependant`] from a borrow of the owner's data.
    ///
    /// The constructor sees the data only through a borrow whose scope ends
    /// before the container exists, and its result holds no part of that
    /// borrow, so packaging the result beside the storage is sound.
    pub fn new<C>(owner: O, constructor: C) -> (r: Self) where
        C: Construct<<O::Storage as Storage>::Target, Dependant = D>,

        requires
            forall|t: &<O::Storage as Storage>::Target|
                <O::Storage as Storage>::target_view(t) == owner.owner_view()
                    ==> #[trigger] constructor.req(t),
        ensures
            r.contents() == owner.owner_view(),
            exists|t: &<O::Storage as Storage>::Target|
                <O::Storage as Storage>::target_view(t) == owner.owner_view()
                    && #[trigger] constructor.ens(t, r.dep()),
    {
        let storage = owner.into_storage();
        let target = storage.borrow_target();
        let ghost constructor_g = constructor;
        let value = constructor.construct(target);
        proof {
            assert(<O::Storage as Storage>::target_view(target) == owner.owner_view()
                && constructor_g.ens(target, value));
        }
        let zc = Zc { value, storage };
        proof {
            assert(zc.dep() == value);
        }
        zc
    }

    /// Constructs a container as [`Zc::new`] does, from a constructor that
    /// may fail.
    ///
    /// On failure the storage is converted back and the owner is returned
    /// beside the error, contents unchanged, so the caller loses nothing.
    pub fn try_new<C, E>(owner: O, constructor: C) -> (r: Result<Self, (E, O)>) where
        C: TryConstruct<<O::Storage as Storage>::Target, Dependant = D, Error = E>,

        requires
            forall|t: &<O::Storage as Storage>::Target|
                <O::Storage as Storage>::target_view(t) == owner.owner_view()
                    ==> #[trigger] constructor.req(t),
        ensures
            r is Ok ==> r->Ok_0.contents() == owner.owner_view(),
            r is Ok ==> exists|t: &<O::Storage as Storage>::Target|
                <O::Storage as Storage>::target_view(t) == owner.owner_view()
                    && #[trigger] constructor.ens(t, Ok(r->Ok_0.dep())),
            r is Err ==> r->Err_0.1.owner_view() == owner.owner_view(),
            r is Err ==> exists|t: &<O::Storage as Storage>::Target|
                <O::Storage as Storage>::target_view(t) == owner.owner_view()
                    && #[trigger] constructor.ens(t, Err(r->Err_0.0)),
    {
        let storage = owner.into_storage();
        let target = storage.borrow_target();
        let ghost constructor_g = constructor;
        let built = constructor.try_construct(target);
        proof {
            assert(<O::Storage as Storage>::target_view(target) == owner.owner_view()
                && constructor_g.ens(target, built));
        }
        let ghost gtarget = target;
        let out: Result<Self, (E, O)> = match built {
            Ok(value) => Ok(Zc { value, storage }),
            Err(err) => Err((err, Owner::from_storage(storage))),
        };
        proof {
            if out is Ok {
                assert(constructor_g.ens(gtarget, Ok::<D, E>(out->Ok_0.dep())));
                assert(exists|t: &<O::Storage as Storage>::Target|
                    <O::Storage as Storage>::target_view(t) == owner.owner_view()
                        && #[trigger] constructor_g.ens(t, Ok(out->Ok_0.dep())));
            } else {
                assert(constructor_g.ens(gtarget, Err::<D, E>(out->Err_0.0)));
                assert(exists|t: &<O::Storage as Storage>::Target|
                    <O::Storage as Storage>::target_view(t) == owner.owner_view()
                        && #[trigger] constructor_g.ens(t, Err(out->Err_0.0)));
            }
        }
        out
    }
}

impl<O: Owner, D> Zc<O, D> {
    /// Returns a reference to the [`Dependant`].
    ///
    /// The reference lives no longer than the borrow of the container used
    /// to obtain it, and every call returns the same value.
    pub fn get(&self) -> (r: &D)
        ensures
            *r == self.dep(),
    {
        &self.value
    }

    /// Returns a reference to the data the [`Owner`] provides.
    pub fn as_owned(&self) -> (r: &<O::Storage as Storage>::Target)
        ensures
            <O::Storage as Storage>::target_view(r) == self.contents(),
    {
        self.storage.borrow_target()
    }

    /// Consumes `self` into the [`Owner`], discarding the dependant.
    ///
    /// Sound because every borrow of the dependant has ended once the
    /// container is consumed.
    pub fn into_owner(self) -> (r: O)
        ensures
            r.owner_view() == self.contents(),
    {
        Owner::from_storage(self.storage)
    }

    /// Maps the stored [`Dependant`] to another, over the same storage.
    pub fn map_unchecked<F, U>(self, f: F) -> (r: Zc<O, U>) where F: FnOnce(D) -> U,
        requires
            call_requires(f, (self.dep(),)),
        ensures
            r.contents() == self.contents(),
            call_ensures(f, (self.dep(),), r.dep()),
    {
        let Zc { value, storage } = self;
        let value = f(value);
        Zc { value, storage }
    }

    /// Maps the stored [`Dependant`] to another, over the same storage, with
    /// a function that may fail.
    ///
    /// On failure only the error is returned and the storage is dropped.
    pub fn try_map_unchecked<F, U, E>(self, f: F) -> (r: Result<Zc<O, U>, E>) where
        F: FnOnce(D) -> Result<U, E>,

        requires
            call_requires(f, (self.dep(),)),
        ensures
            match r {
                Ok(zc) => {
                    &&& zc.contents() == self.contents()
                    &&& call_ensures(f, (self.dep(),), Ok(zc.dep()))
                },
                Err(e) => call_ensures(f, (self.dep(),), Err(e)),
            },
    {
        let Zc { value, storage } = self;
        match f(value) {
            Ok(value) => Ok(Zc { value, storage }),
            Err(e) => Err(e),
        }
    }
}

impl<O: Owner, T> Zc<O, Option<T>> {
    /// Decomposes `self` into an option: a container of the present value,
    /// or nothing, the owner being dropped with it.
    pub fn into_option(self) -> (r: Option<Zc<O, T>>)
        ensures
            match r {
                Some(zc) => {
                    &&& self.dep() is Some
                    &&& zc.dep() == self.dep()->0
                    &&& zc.contents() == self.contents()
                },
                None => self.dep() is None,
            },
    {
        let Zc { value, storage } = self;
        match value {
            Some(value) => Some(Zc { value, storage }),
            None => None,
        }
    }
}

impl<O: Owner, T, E> Zc<O, Result<T, E>> {
    /// Decomposes `self` into a result: a container of the ok value, or a
    /// container of the err value, each over the same storage.
    pub fn into_result(self) -> (r: Result<Zc<O, T>, Zc<O, E>>)
        ensures
            match r {
                Ok(zc) => {
                    &&& self.dep() is Ok
                    &&& zc.dep() == self.dep()->Ok_0
                    &&& zc.contents() == self.contents()
                },
                Err(zc) => {
                    &&& self.dep() is Err
                    &&& zc.dep() == self.dep()->Err_0
                    &&& zc.contents() == self.contents()
                },
            },
    {
        let Zc { value, storage } = self;
        match value {
            Ok(value) => Ok(Zc { value, storage }),
            Err(value) => Err(Zc { value, storage }),
        }
    }
}

/// Reading the dependant is idempotent: any two values that [`Zc::get`]
/// may return for one container are equal, since each equals the stored
/// dependant.
pub proof fn lemma_get_idempotent<O: Owner, D>(zc: &Zc<O, D>, r1: &D, r2: &D)
    requires
        *r1 == zc.dep(),
        *r2 == zc.dep(),
    ensures
        *r1 == *r2,
{
}

/// Moving a container is invisible to its dependant: the container that
/// arrives holds the same dependant over the same storage contents as the
/// one that was moved, whatever the pair of values.
pub fn moved<O: Owner, D>(zc: Zc<O, D>) -> (r: Zc<O, D>)
    ensures
        r.dep() == zc.dep(),
        r.contents() == zc.contents(),
{
    zc
}

} // verus!
