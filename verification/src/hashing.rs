use core::hash::{Hash, Hasher};
use vstd::prelude::*;

verus! {

/// Relies on core::hash::Hash::hash: feeds the value's contribution into
/// the caller's hash accumulator.  The standard library promises nothing
/// about what a `Hash` implementation writes, and the writes of one
/// implementation may even differ between processes, so no clause is
/// stated here: callers pass the extracted key through unchanged and the
/// accumulator receives exactly what hashing the bare key would feed it.
#[verifier::external_body]
pub(crate) fn write_hash<K: Hash, H: Hasher>(key: &K, state: &mut H) {
    key.hash(state)
}

} // verus!
