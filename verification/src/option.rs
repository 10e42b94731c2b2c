use vstd::prelude::*;

use core::option::Option as StdOption;

use crate::container::Zc;
use crate::storage::Owner;

verus! {

/// A container whose dependant is an optional value.
pub struct Option<O, T>(Zc<O, StdOption<T>>) where O: Owner;

impl<O, T> From<Zc<O, StdOption<T>>> for Option<O, T> where O: Owner {
    fn from(zc: Zc<O, StdOption<T>>) -> (r: Self)
        ensures
            r.inner() == zc,
    {
        Option(zc)
    }
}

impl<O, T> vstd::std_specs::convert::FromSpecImpl<Zc<O, StdOption<T>>> for Option<O, T> where O: Owner {
    open spec fn obeys_from_spec() -> bool {
        true
    }

    closed spec fn from_spec(zc: Zc<O, StdOption<T>>) -> Self {
        Option(zc)
    }
}

impl<O, T> Option<O, T> where O: Owner {
    /// The wrapped container.
    pub closed spec fn inner(&self) -> Zc<O, StdOption<T>> {
        self.0
    }

    /// Returns `true` if the dependant is present.
    pub fn is_some(&self) -> (r: bool)
        ensures
            r == (self.inner().dep() is Some),
    {
        self.0.get().is_some()
    }

    /// Returns `true` if the dependant is absent.
    pub fn is_none(&self) -> (r: bool)
        ensures
            r == (self.inner().dep() is None),
    {
        self.0.get().is_none()
    }

    /// Consumes `self` into a container of the present value.
    pub fn unwrap(self) -> (r: Zc<O, T>)
        requires
            self.inner().dep() is Some,
        ensures
            r.dep() == self.inner().dep()->0,
            r.contents() == self.inner().contents(),
    {
        match self.0.into_option() {
            StdOption::Some(zc) => zc,
            StdOption::None => unreached(),
        }
    }

    /// Borrows the wrapped container.
    pub fn as_inner(&self) -> (r: &Zc<O, StdOption<T>>)
        ensures
            *r == self.inner(),
    {
        &self.0
    }

    /// Consumes `self` into the wrapped container.
    pub fn into_inner(self) -> (r: Zc<O, StdOption<T>>)
        ensures
            r == self.inner(),
    {
        self.0
    }
}

} // verus!
