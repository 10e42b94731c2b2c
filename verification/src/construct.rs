use vstd::prelude::*;

verus! {

/// A constructor of a dependant from a borrow of an owner's data.
///
/// Implemented for every function and closure from a target borrow to a
/// dependant, so a constructor is usually just written as a closure.  The
/// two spec functions carry the constructor's own contract through to
/// [`Zc::new`](crate::Zc::new).
pub trait Construct<T: ?Sized>: Sized {
    /// The dependant this constructor builds.
    type Dependant;

    /// Whether the constructor may be applied to the given target.
    spec fn req(&self, target: &T) -> bool;

    /// Whether applying the constructor to the target may yield the given
    /// dependant.
    spec fn ens(&self, target: &T, dep: Self::Dependant) -> bool;

    /// Builds the dependant from a borrow of the owner's data.
    fn construct(self, target: &T) -> (r: Self::Dependant)
        requires
            self.req(target),
        ensures
            self.ens(target, r),
    ;
}

impl<T: ?Sized, D, F: FnOnce(&T) -> D> Construct<T> for F {
    type Dependant = D;

    open spec fn req(&self, target: &T) -> bool {
        call_requires(*self, (target,))
    }

    open spec fn ens(&self, target: &T, dep: D) -> bool {
        call_ensures(*self, (target,), dep)
    }

    fn construct(self, target: &T) -> (r: D) {
        self(target)
    }
}

/// A constructor of a dependant that may fail instead, handing ownership
/// back to the caller.
///
/// Implemented for every function and closure from a target borrow to a
/// result of a dependant or an error.
pub trait TryConstruct<T: ?Sized>: Sized {
    /// The dependant this constructor builds.
    type Dependant;

    /// The error it may fail with.
    type Error;

    /// Whether the constructor may be applied to the given target.
    spec fn req(&self, target: &T) -> bool;

    /// Whether applying the constructor to the target may yield the given
    /// outcome.
    spec fn ens(&self, target: &T, out: Result<Self::Dependant, Self::Error>) -> bool;

    /// Tries to build the dependant from a borrow of the owner's data.
    fn try_construct(self, target: &T) -> (r: Result<Self::Dependant, Self::Error>)
        requires
            self.req(target),
        ensures
            self.ens(target, r),
    ;
}

impl<T: ?Sized, D, E, F: FnOnce(&T) -> Result<D, E>> TryConstruct<T> for F {
    type Dependant = D;

    type Error = E;

    open spec fn req(&self, target: &T) -> bool {
        call_requires(*self, (target,))
    }

    open spec fn ens(&self, target: &T, out: Result<D, E>) -> bool {
        call_ensures(*self, (target,), out)
    }

    fn try_construct(self, target: &T) -> (r: Result<D, E>) {
        self(target)
    }
}

} // verus!
