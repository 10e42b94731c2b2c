use vstd::prelude::*;

use core::option::Option as StdOption;
use core::result::Result as StdResult;

use crate::container::Zc;
use crate::storage::Owner;

verus! {

/// A container whose dependant is a fallible value.
pub struct Result<O, T, E>(Zc<O, StdResult<T, E>>) where O: Owner;

impl<O, T, E> From<Zc<O, StdResult<T, E>>> for Result<O, T, E> where O: Owner {
    fn from(zc: Zc<O, StdResult<T, E>>) -> (r: Self)
        ensures
            r.inner() == zc,
    {
        Result(zc)
    }
}

impl<O, T, E> vstd::std_specs::convert::FromSpecImpl<Zc<O, StdResult<T, E>>> for Result<O, T, E> where O: Owner {
    open spec fn obeys_from_spec() -> bool {
        true
    }

    closed spec fn from_spec(zc: Zc<O, StdResult<T, E>>) -> Self {
        Result(zc)
    }
}

impl<O, T, E> Result<O, T, E> where O: Owner {
    /// The wrapped container.
    pub closed spec fn inner(&self) -> Zc<O, StdResult<T, E>> {
        self.0
    }

    /// Returns `true` if the dependant is an ok value.
    pub fn is_ok(&self) -> (r: bool)
        ensures
            r == (self.inner().dep() is Ok),
    {
        self.0.get().is_ok()
    }

    /// Returns `true` if the dependant is an err value.
    pub fn is_err(&self) -> (r: bool)
        ensures
            r == (self.inner().dep() is Err),
    {
        self.0.get().is_err()
    }

    /// Consumes `self` into a container of the ok value, discarding the
    /// error, and the owner with it, if there is one.
    pub fn ok(self) -> (r: StdOption<Zc<O, T>>)
        ensures
            self.inner().dep() is Ok ==> r is Some && r->0.dep() == self.inner().dep()->Ok_0
                && r->0.contents() == self.inner().contents(),
            self.inner().dep() is Err ==> r is None,
    {
        match self.0.into_result() {
            StdResult::Ok(zc) => StdOption::Some(zc),
            StdResult::Err(_) => StdOption::None,
        }
    }

    /// Consumes `self` into a container of the err value, discarding the ok
    /// value, and the owner with it, if there is one.
    pub fn err(self) -> (r: StdOption<Zc<O, E>>)
        ensures
            self.inner().dep() is Err ==> r is Some && r->0.dep() == self.inner().dep()->Err_0
                && r->0.contents() == self.inner().contents(),
            self.inner().dep() is Ok ==> r is None,
    {
        match self.0.into_result() {
            StdResult::Ok(_) => StdOption::None,
            StdResult::Err(zc) => StdOption::Some(zc),
        }
    }

    /// Consumes `self` into a container of the ok value.
    pub fn unwrap(self) -> (r: Zc<O, T>)
        requires
            self.inner().dep() is Ok,
        ensures
            r.dep() == self.inner().dep()->Ok_0,
            r.contents() == self.inner().contents(),
    {
        match self.0.into_result() {
            StdResult::Ok(zc) => zc,
            StdResult::Err(_) => unreached(),
        }
    }

    /// Consumes `self` into a result of a container of the ok value, the
    /// error being mapped through the given function.
    pub fn unwrap_map_err<F, E2>(self, f: F) -> (r: StdResult<Zc<O, T>, E2>) where
        F: FnOnce(&E) -> E2,

        requires
            self.inner().dep() is Err ==> call_requires(f, (&self.inner().dep()->Err_0,)),
        ensures
            self.inner().dep() is Ok ==> r is Ok && r->Ok_0.dep() == self.inner().dep()->Ok_0
                && r->Ok_0.contents() == self.inner().contents(),
            self.inner().dep() is Err ==> r is Err && call_ensures(
                f,
                (&self.inner().dep()->Err_0,),
                r->Err_0,
            ),
    {
        match self.0.into_result() {
            StdResult::Ok(zc) => StdResult::Ok(zc),
            StdResult::Err(zc) => {
                let mapped = f(zc.get());
                StdResult::Err(mapped)
            },
        }
    }

    /// Consumes `self` into a container of the err value.
    pub fn unwrap_err(self) -> (r: Zc<O, E>)
        requires
            self.inner().dep() is Err,
        ensures
            r.dep() == self.inner().dep()->Err_0,
            r.contents() == self.inner().contents(),
    {
        match self.0.into_result() {
            StdResult::Ok(_) => unreached(),
            StdResult::Err(zc) => zc,
        }
    }

    /// Borrows the wrapped container.
    pub fn as_inner(&self) -> (r: &Zc<O, StdResult<T, E>>)
        ensures
            *r == self.inner(),
    {
        &self.0
    }

    /// Consumes `self` into the wrapped container.
    pub fn into_inner(self) -> (r: Zc<O, StdResult<T, E>>)
        ensures
            r == self.inner(),
    {
        self.0
    }
}

} // verus!
