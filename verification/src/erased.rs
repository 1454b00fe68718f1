//! Type-erased references: a stored value together with the key of its
//! true concrete type.
//!
//! An [`Erased`] value is the uniform representation the registry works on.
//! Its invariant is the safety boundary of the whole crate: the stored key
//! always names the stored value's true concrete type, and every
//! reinterpretation back to a concrete type compares keys before narrowing,
//! failing closed on a mismatch.

use vstd::prelude::*;

use crate::keys::TypeKey;
use crate::values::Circle;
use crate::values::Point;
use crate::values::Value;
use crate::values::CIRCLE_KEY;
use crate::values::POINT_KEY;

verus! {

/// A value behind the uniform, erased representation.
pub struct Erased {
    key: TypeKey,
    val: Value,
}

impl Erased {
    /// The key stored alongside the value.
    pub closed spec fn spec_type_key(self) -> TypeKey {
        self.key
    }

    /// The stored value itself.
    pub closed spec fn spec_payload(self) -> Value {
        self.val
    }

    /// Well-formedness: the stored key names the stored value's true type.
    pub open spec fn wf(self) -> bool {
        self.spec_type_key() == self.spec_payload().spec_type_key()
    }

    /// Erases a value, recording the key of its concrete type.
    pub fn new(val: Value) -> (e: Erased)
        ensures
            e.wf(),
            e.spec_payload() == val,
            e.spec_type_key() == val.spec_type_key(),
    {
        let key = val.type_key();
        Erased { key, val }
    }

    /// Reads the stored type key.
    pub fn type_key(&self) -> (k: TypeKey)
        ensures
            k == self.spec_type_key(),
    {
        self.key
    }

    /// Borrows the stored value without any key check.
    ///
    /// Only the registry and the descriptors use this, and only after the
    /// key comparison that makes the narrowing safe.
    pub(crate) fn payload_ref<'a>(&'a self) -> (r: &'a Value)
        ensures
            *r == self.spec_payload(),
    {
        &self.val
    }

    /// Mutably borrows the stored value without any key check.
    pub(crate) fn payload_mut<'a>(&'a mut self) -> (r: &'a mut Value)
        ensures
            *r == old(self).spec_payload(),
            final(self).spec_type_key() == old(self).spec_type_key(),
            final(self).spec_payload() == *final(r),
    {
        &mut self.val
    }

    /// Checked reinterpretation as a [`Point`].
    ///
    /// Succeeds exactly when the stored key is the point key and the stored
    /// value really is a point; on any mismatch it returns nothing rather
    /// than narrow wrongly.
    pub fn try_as_point<'a>(&'a self) -> (r: Option<&'a Point>)
        ensures
            r is Some <==> (self.spec_type_key() == (TypeKey { id: POINT_KEY })
                && self.spec_payload() is Point),
            r matches Some(p) ==> self.spec_payload() == Value::Point(*p),
    {
        if self.key.id == POINT_KEY {
            match &self.val {
                Value::Point(p) => Some(p),
                _ => None,
            }
        } else {
            None
        }
    }

    /// Checked reinterpretation as a [`Circle`].
    pub fn try_as_circle<'a>(&'a self) -> (r: Option<&'a Circle>)
        ensures
            r is Some <==> (self.spec_type_key() == (TypeKey { id: CIRCLE_KEY })
                && self.spec_payload() is Circle),
            r matches Some(c) ==> self.spec_payload() == Value::Circle(*c),
    {
        if self.key.id == CIRCLE_KEY {
            match &self.val {
                Value::Circle(c) => Some(c),
                _ => None,
            }
        } else {
            None
        }
    }

    /// Checked mutable reinterpretation as a [`Point`].
    ///
    /// On success the caller may mutate the point in place; the stored key
    /// is untouched and the value stays a point, so well-formedness is kept.
    pub fn try_as_point_mut<'a>(&'a mut self) -> (r: Option<&'a mut Point>)
        ensures
            r is Some <==> (old(self).spec_type_key() == (TypeKey { id: POINT_KEY })
                && old(self).spec_payload() is Point),
            r is None ==> *final(self) == *old(self),
            r matches Some(p) ==> old(self).spec_payload() == Value::Point(*p)
                && final(self).spec_type_key() == old(self).spec_type_key()
                && final(self).spec_payload() == Value::Point(*final(p)),
    {
        if self.key.id == POINT_KEY {
            match &mut self.val {
                Value::Point(p) => Some(p),
                _ => None,
            }
        } else {
            None
        }
    }

    /// Checked mutable reinterpretation as a [`Circle`].
    pub fn try_as_circle_mut<'a>(&'a mut self) -> (r: Option<&'a mut Circle>)
        ensures
            r is Some <==> (old(self).spec_type_key() == (TypeKey { id: CIRCLE_KEY })
                && old(self).spec_payload() is Circle),
            r is None ==> *final(self) == *old(self),
            r matches Some(c) ==> old(self).spec_payload() == Value::Circle(*c)
                && final(self).spec_type_key() == old(self).spec_type_key()
                && final(self).spec_payload() == Value::Circle(*final(c)),
    {
        if self.key.id == CIRCLE_KEY {
            match &mut self.val {
                Value::Circle(c) => Some(c),
                _ => None,
            }
        } else {
            None
        }
    }
}

} // verus!
