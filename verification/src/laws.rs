use crate::keyed::{Key, Keyed};
use crate::ref_keyed::{RefKey, RefKeyed};
use core::cmp::Ordering;
use vstd::prelude::*;
use vstd::std_specs::cmp::{OrdSpec, PartialEqSpec, PartialOrdSpec};

verus! {

/// Equality of wrappers reduces to equality of the extracted keys: two
/// `Keyed` values are equal exactly when their keys are, whatever else
/// the wrapped values hold.
pub proof fn lemma_keyed_eq_by_key<T: Key>(a: Keyed<T>, b: Keyed<T>) where T::Output: PartialEq
    ensures
        a.eq_spec(&b) == a.0.spec_key().eq_spec(&b.0.spec_key()),
{
}

/// Equality of wrappers reduces to equality of the referenced keys.
pub proof fn lemma_ref_keyed_eq_by_key<T: RefKey>(a: RefKeyed<T>, b: RefKeyed<T>) where
    T::Output: PartialEq,

    ensures
        a.eq_spec(&b) == a.0.spec_key().eq_spec(&b.0.spec_key()),
{
}

/// Ordering of wrappers reduces to ordering of the extracted keys: the
/// three-way partial comparison of two `Keyed` values is exactly the
/// partial comparison of their keys.
pub proof fn lemma_keyed_ordering_by_key<T: Key>(a: Keyed<T>, b: Keyed<T>) where
    T::Output: PartialOrd,

    ensures
        a.partial_cmp_spec(&b) == a.0.spec_key().partial_cmp_spec(&b.0.spec_key()),
{
}

/// Ordering of wrappers reduces to ordering of the referenced keys.
pub proof fn lemma_ref_keyed_ordering_by_key<T: RefKey>(a: RefKeyed<T>, b: RefKeyed<T>) where
    T::Output: PartialOrd,

    ensures
        a.partial_cmp_spec(&b) == a.0.spec_key().partial_cmp_spec(&b.0.spec_key()),
{
}

/// Incomparability is passed through, not coerced to a total order: where
/// the key type's own partial order relates the two keys of two `Keyed`
/// values to no ordering at all, the wrappers are incomparable too.
pub proof fn lemma_keyed_incomparable<T: Key>(a: Keyed<T>, b: Keyed<T>) where
    T::Output: PartialOrd,

    requires
        a.0.spec_key().partial_cmp_spec(&b.0.spec_key()) is None,
    ensures
        a.partial_cmp_spec(&b) is None,
{
}

/// Incomparability is passed through by the reference variant as well.
pub proof fn lemma_ref_keyed_incomparable<T: RefKey>(a: RefKeyed<T>, b: RefKeyed<T>) where
    T::Output: PartialOrd,

    requires
        a.0.spec_key().partial_cmp_spec(&b.0.spec_key()) is None,
    ensures
        a.partial_cmp_spec(&b) is None,
{
}

/// The reference variant agrees with the owned variant: wrappers over the
/// same logical data, that is over values carrying pairwise equal keys,
/// compare equal or unequal together and order the same way.
pub proof fn lemma_variants_agree<T: Key, U: RefKey<Output = T::Output>>(
    a: Keyed<T>,
    b: Keyed<T>,
    c: RefKeyed<U>,
    d: RefKeyed<U>,
) where T::Output: PartialOrd
    requires
        a.0.spec_key() == c.0.spec_key(),
        b.0.spec_key() == d.0.spec_key(),
    ensures
        a.eq_spec(&b) == c.eq_spec(&d),
        a.partial_cmp_spec(&b) == c.partial_cmp_spec(&d),
{
}

/// The reference variant agrees with the owned variant under a total
/// order on the key type as well: the three-way comparisons that the two
/// `cmp` methods are held to coincide on the same logical data.
pub proof fn lemma_variants_agree_total<T: Key, U: RefKey<Output = T::Output>>(
    a: Keyed<T>,
    b: Keyed<T>,
    c: RefKeyed<U>,
    d: RefKeyed<U>,
) where T::Output: Ord
    requires
        a.0.spec_key() == c.0.spec_key(),
        b.0.spec_key() == d.0.spec_key(),
    ensures
        a.0.spec_key().cmp_spec(&b.0.spec_key()) == c.0.spec_key().cmp_spec(&d.0.spec_key()),
{
}

/// Round-trip: a wrapper is a transparent container, so the value taken
/// out of a freshly built wrapper is the value that was put in, key and
/// payload alike.
pub proof fn lemma_round_trip<T>(v: T)
    ensures
        (Keyed(v)).0 == v,
        (RefKeyed(v)).0 == v,
{
}

/// No payload leakage: which way two `Keyed` values compare is settled by
/// their keys alone, so replacing the wrapped values by any others that
/// carry the same keys changes no comparison.
pub proof fn lemma_keyed_payload_ignored<T: Key>(
    a: Keyed<T>,
    b: Keyed<T>,
    x: Keyed<T>,
    y: Keyed<T>,
) where T::Output: PartialOrd
    requires
        a.0.spec_key() == x.0.spec_key(),
        b.0.spec_key() == y.0.spec_key(),
    ensures
        a.eq_spec(&b) == x.eq_spec(&y),
        a.partial_cmp_spec(&b) == x.partial_cmp_spec(&y),
{
}

/// No payload leakage for the reference variant.
pub proof fn lemma_ref_keyed_payload_ignored<T: RefKey>(
    a: RefKeyed<T>,
    b: RefKeyed<T>,
    x: RefKeyed<T>,
    y: RefKeyed<T>,
) where T::Output: PartialOrd
    requires
        a.0.spec_key() == x.0.spec_key(),
        b.0.spec_key() == y.0.spec_key(),
    ensures
        a.eq_spec(&b) == x.eq_spec(&y),
        a.partial_cmp_spec(&b) == x.partial_cmp_spec(&y),
{
}

/// Wrappers whose keys compare equal under the key type's own equality
/// compare equal themselves, whatever their payloads.
pub proof fn lemma_keyed_equal_keys<T: Key>(a: Keyed<T>, b: Keyed<T>) where
    T::Output: PartialEq,

    requires
        a.0.spec_key().eq_spec(&b.0.spec_key()),
    ensures
        a.eq_spec(&b),
{
}

/// Wrappers whose referenced keys compare equal compare equal themselves.
pub proof fn lemma_ref_keyed_equal_keys<T: RefKey>(a: RefKeyed<T>, b: RefKeyed<T>) where
    T::Output: PartialEq,

    requires
        a.0.spec_key().eq_spec(&b.0.spec_key()),
    ensures
        a.eq_spec(&b),
{
}

} // verus!
