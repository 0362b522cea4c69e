//! Key-based comparison made easy: implement a key-extraction trait for a
//! type, wrap values of it in a wrapper structure, and the wrapper's
//! equality, ordering and hashing all go by the extracted key alone,
//! ignoring the rest of the value.
//!
//! Two parallel variants are provided: [`Key`] with [`Keyed`] extract the
//! key by value, while [`RefKey`] with [`RefKeyed`] hand out a reference
//! to a key held inside the value.

mod hashing;
mod keyed;
pub mod laws;
mod ref_keyed;

pub use crate::keyed::Key;
pub use crate::keyed::Keyed;
pub use crate::ref_keyed::RefKey;
pub use crate::ref_keyed::RefKeyed;
