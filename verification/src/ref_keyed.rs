use core::cmp::Ordering;
use core::hash::{Hash, Hasher};
use vstd::prelude::*;
use vstd::std_specs::cmp::{OrdSpec, PartialEqSpec, PartialEqSpecImpl, PartialOrdSpec, PartialOrdSpecImpl};

verus! {

/// Capability to extract a key that is a reference to data held inside a
/// data structure, avoiding a copy of the key.
///
/// `spec_key` names the key a value carries, and `key` must return a
/// reference to exactly that key.  Extraction is thereby a deterministic
/// function of the value: two calls on an unmodified value yield
/// references to the same key.
pub trait RefKey {
    /// Type of the key.
    type Output;

    /// The key this value carries.  Implementations written in verified
    /// code override this; the default stands for no key in particular,
    /// and `key` can then promise nothing.
    open spec fn spec_key(&self) -> Self::Output {
        arbitrary()
    }

    /// Extract a reference to the key from the data structure.
    fn key(&self) -> (k: &Self::Output)
        ensures
            *k == self.spec_key(),
    ;
}

/// A wrapper for data structures that implement the [`RefKey`] trait.
///
/// Equality and ordering on the wrapper are decided by the referenced keys
/// of the two wrapped values alone; any other content is ignored.
#[derive(Clone, Copy, Debug, Default)]
pub struct RefKeyed<T>(pub T);

impl<T> From<T> for RefKeyed<T> {
    fn from(value: T) -> (r: Self)
        ensures
            r == RefKeyed(value),
    {
        RefKeyed(value)
    }
}

impl<T> vstd::std_specs::convert::FromSpecImpl<T> for RefKeyed<T> {
    open spec fn obeys_from_spec() -> bool {
        true
    }

    open spec fn from_spec(value: T) -> Self {
        RefKeyed(value)
    }
}

impl<T: RefKey> PartialEq for RefKeyed<T> where T::Output: PartialEq {
    fn eq(&self, other: &Self) -> (r: bool)
        ensures
            <T::Output as PartialEqSpec>::obeys_eq_spec() ==> r == self.0.spec_key().eq_spec(
                &other.0.spec_key(),
            ),
    {
        self.0.key().eq(other.0.key())
    }

    fn ne(&self, other: &Self) -> (r: bool)
        ensures
            <T::Output as PartialEqSpec>::obeys_eq_spec() ==> r == !self.0.spec_key().eq_spec(
                &other.0.spec_key(),
            ),
    {
        self.0.key().ne(other.0.key())
    }
}

impl<T: RefKey> PartialEqSpecImpl for RefKeyed<T> where T::Output: PartialEq {
    open spec fn obeys_eq_spec() -> bool {
        <T::Output as PartialEqSpec>::obeys_eq_spec()
    }

    open spec fn eq_spec(&self, other: &Self) -> bool {
        self.0.spec_key().eq_spec(&other.0.spec_key())
    }
}

impl<T: RefKey> Eq for RefKeyed<T> where T::Output: Eq {}

impl<T: RefKey> PartialOrd for RefKeyed<T> where T::Output: PartialOrd {
    fn partial_cmp(&self, other: &Self) -> (r: Option<Ordering>)
        ensures
            <T::Output as PartialOrdSpec>::obeys_partial_cmp_spec() ==> r
                == self.0.spec_key().partial_cmp_spec(&other.0.spec_key()),
    {
        self.0.key().partial_cmp(other.0.key())
    }

    fn lt(&self, other: &Self) -> (r: bool)
        ensures
            <T::Output as PartialOrdSpec>::obeys_partial_cmp_spec() ==> (r
                <==> self.0.spec_key().partial_cmp_spec(&other.0.spec_key()) == Some(Ordering::Less)),
    {
        self.0.key().lt(other.0.key())
    }

    fn le(&self, other: &Self) -> (r: bool)
        ensures
            <T::Output as PartialOrdSpec>::obeys_partial_cmp_spec() ==> (r
                <==> self.0.spec_key().partial_cmp_spec(&other.0.spec_key()) matches Some(
                Ordering::Less | Ordering::Equal,
            )),
    {
        self.0.key().le(other.0.key())
    }

    fn gt(&self, other: &Self) -> (r: bool)
        ensures
            <T::Output as PartialOrdSpec>::obeys_partial_cmp_spec() ==> (r
                <==> self.0.spec_key().partial_cmp_spec(&other.0.spec_key()) == Some(Ordering::Greater)),
    {
        self.0.key().gt(other.0.key())
    }

    fn ge(&self, other: &Self) -> (r: bool)
        ensures
            <T::Output as PartialOrdSpec>::obeys_partial_cmp_spec() ==> (r
                <==> self.0.spec_key().partial_cmp_spec(&other.0.spec_key()) matches Some(
                Ordering::Greater | Ordering::Equal,
            )),
    {
        self.0.key().ge(other.0.key())
    }
}

impl<T: RefKey> PartialOrdSpecImpl for RefKeyed<T> where T::Output: PartialOrd {
    open spec fn obeys_partial_cmp_spec() -> bool {
        <T::Output as PartialOrdSpec>::obeys_partial_cmp_spec()
    }

    open spec fn partial_cmp_spec(&self, other: &Self) -> Option<Ordering> {
        self.0.spec_key().partial_cmp_spec(&other.0.spec_key())
    }
}

impl<T: RefKey> RefKeyed<T> {
    /// Three-way comparison under a total order on the key type, for
    /// sorting and ordered containers.  The result is the ordering of the
    /// two referenced keys; the rest of the wrapped values plays no part.
    pub fn cmp(&self, other: &Self) -> (r: Ordering) where T::Output: Ord
        ensures
            <T::Output as OrdSpec>::obeys_cmp_spec() ==> r == self.0.spec_key().cmp_spec(
                &other.0.spec_key(),
            ),
    {
        self.0.key().cmp(other.0.key())
    }

    /// Hashing by the referenced key: the key, and only the key, is fed
    /// into the caller's hash accumulator, so the wrapper contributes to
    /// `state` exactly what hashing the bare key would.
    pub fn hash<H: Hasher>(&self, state: &mut H) where T::Output: Hash {
        let k = self.0.key();
        crate::hashing::write_hash(k, state);
    }
}

} // verus!
