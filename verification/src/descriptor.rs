//! Capability descriptors: the record that binds one concrete type to one
//! capability.
//!
//! A descriptor is built once per (capability, concrete type) pairing and is
//! plain, freely copyable data. Its two extractors take an erased reference
//! and, after the key check, hand back the stored value narrowed to the
//! capability's interface; on a key mismatch they fail closed. A `tag`
//! distinguishes successive builds of the same binding, as when a binding is
//! replaced during hot reload.

use vstd::prelude::*;

use crate::erased::Erased;
use crate::keys::TypeKey;
use crate::values::Value;
use crate::values::CIRCLE_KEY;
use crate::values::POINT_KEY;

verus! {

/// The record registered under one (capability, concrete type) pairing.
#[derive(Clone, Copy, PartialEq, Eq, Structural, Debug)]
pub struct Descriptor {
    /// The key of the concrete type this descriptor was built for; its
    /// extractors succeed exactly on erased values carrying this key.
    pub target: TypeKey,
    /// Distinguishes successive builds of the same binding.
    pub tag: u64,
}

impl Descriptor {
    /// What the immutable extractor returns: the stored value, exactly when
    /// the erased key equals the descriptor's target.
    pub open spec fn spec_get(self, e: Erased) -> Option<Value> {
        if e.spec_type_key() == self.target {
            Some(e.spec_payload())
        } else {
            None
        }
    }

    /// Builds the descriptor for a concrete type named by `target`.
    ///
    /// This is the registration-time constructor: it only records the
    /// target key, so construction cannot fail and has no side effect.
    pub fn new(target: TypeKey, tag: u64) -> (d: Descriptor)
        ensures
            d == (Descriptor { target, tag }),
    {
        Descriptor { target, tag }
    }

    /// Builds the descriptor binding [`crate::values::Point`] to a capability.
    pub fn for_point(tag: u64) -> (d: Descriptor)
        ensures
            d == (Descriptor { target: TypeKey { id: POINT_KEY }, tag }),
    {
        Descriptor { target: TypeKey { id: POINT_KEY }, tag }
    }

    /// Builds the descriptor binding [`crate::values::Circle`] to a capability.
    pub fn for_circle(tag: u64) -> (d: Descriptor)
        ensures
            d == (Descriptor { target: TypeKey { id: CIRCLE_KEY }, tag }),
    {
        Descriptor { target: TypeKey { id: CIRCLE_KEY }, tag }
    }

    /// The immutable extractor: borrows the stored value as a capability
    /// reference, exactly when the erased key matches the target key.
    pub fn get<'a>(&self, value: &'a Erased) -> (r: Option<&'a Value>)
        ensures
            r is Some <==> self.spec_get(*value) is Some,
            r matches Some(v) ==> self.spec_get(*value) == Some(*v),
    {
        if value.type_key() == self.target {
            Some(value.payload_ref())
        } else {
            None
        }
    }

    /// The mutable extractor: mutably borrows the stored value, exactly
    /// when the erased key matches the target key.
    ///
    /// The stored key is untouched, so the final erased value is well-formed
    /// exactly when what the caller leaves behind keeps the same concrete
    /// type — which holds whenever the caller narrows further through the
    /// checked reinterpretations of [`Erased`].
    pub fn get_mut<'a>(&self, value: &'a mut Erased) -> (r: Option<&'a mut Value>)
        ensures
            r is Some <==> old(value).spec_type_key() == self.target,
            r is None ==> *final(value) == *old(value),
            r matches Some(v) ==> *v == old(value).spec_payload()
                && final(value).spec_type_key() == old(value).spec_type_key()
                && final(value).spec_payload() == *final(v),
    {
        if value.type_key() == self.target {
            Some(value.payload_mut())
        } else {
            None
        }
    }
}

} // verus!
