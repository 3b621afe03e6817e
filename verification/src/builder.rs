//! Staged-construction helper.
//!
//! A `BuilderProduct` holds the value a builder is assembling. Taking the
//! value before it was set is a programming error, so `unwrap` demands that
//! a value is present.

use vstd::prelude::*;

verus! {

/// The product slot of a staged builder: empty until the builder's final
/// step stores the finished value.
#[derive(Debug)]
pub struct BuilderProduct<T> {
    pub value: Option<T>,
}

impl<T> BuilderProduct<T> {
    /// Whether a value has been stored.
    pub open spec fn is_set(&self) -> bool {
        self.value is Some
    }

    /// The stored value.
    pub open spec fn spec_value(&self) -> T
        recommends
            self.is_set(),
    {
        self.value->0
    }

    pub fn none() -> (r: Self)
        ensures
            !r.is_set(),
    {
        BuilderProduct { value: None }
    }

    pub fn set(&mut self, owned: T)
        ensures
            final(self).is_set(),
            final(self).spec_value() == owned,
    {
        self.value = Some(owned);
    }

    pub fn unwrap(self) -> (r: T)
        requires
            self.is_set(),
        ensures
            r == self.spec_value(),
    {
        self.value.unwrap()
    }
}

impl<T> Default for BuilderProduct<T> {
    fn default() -> (r: Self)
        ensures
            !r.is_set(),
    {
        BuilderProduct { value: None }
    }
}

} // verus!
