//! Runtime identities used as lookup keys.
//!
//! A [`TypeKey`] names one concrete type for the lifetime of the process; a
//! [`CapabilityKey`] names one behavioural interface. Both are opaque tokens:
//! they are only ever compared for equality, never interpreted structurally.

use vstd::prelude::*;

verus! {

/// A stable token naming one concrete type.
///
/// Two keys are equal exactly when they denote the same concrete type; a key
/// is assigned per type declaration, never derived from a value's data.
#[derive(Clone, Copy, PartialEq, Eq, Structural, Debug, Hash)]
pub struct TypeKey {
    pub id: u64,
}

/// A stable token naming one capability (a behavioural interface).
#[derive(Clone, Copy, PartialEq, Eq, Structural, Debug, Hash)]
pub struct CapabilityKey {
    pub id: u64,
}

} // verus!
