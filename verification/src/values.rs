//! The closed world of concrete types that can stand behind an erased value.
//!
//! The registry itself is agnostic to what a value is; it only routes keys.
//! This module supplies the concrete side: a few plain data types, the
//! [`Value`] sum that an erased reference stores, and the [`TypeKey`]
//! assigned to each concrete type.

use vstd::prelude::*;

use crate::keys::TypeKey;

verus! {

/// The type key assigned to [`Point`].
pub const POINT_KEY: u64 = 1;

/// The type key assigned to [`Circle`].
pub const CIRCLE_KEY: u64 = 2;

/// A point with unsigned coordinates.
#[derive(Clone, Copy, PartialEq, Eq, Structural, Debug)]
pub struct Point {
    pub x: u64,
    pub y: u64,
}

/// A circle described by its radius.
#[derive(Clone, Copy, PartialEq, Eq, Structural, Debug)]
pub struct Circle {
    pub radius: u64,
}

/// A value of one of the concrete types, as stored behind an erased reference.
#[derive(Clone, Copy, PartialEq, Eq, Structural, Debug)]
pub enum Value {
    Point(Point),
    Circle(Circle),
}

impl Value {
    /// The key of the concrete type this value actually is.
    pub open spec fn spec_type_key(self) -> TypeKey {
        match self {
            Value::Point(_) => (TypeKey { id: POINT_KEY }),
            Value::Circle(_) => (TypeKey { id: CIRCLE_KEY }),
        }
    }

    /// Reads the key of the value's true concrete type.
    pub fn type_key(&self) -> (k: TypeKey)
        ensures
            k == self.spec_type_key(),
    {
        match self {
            Value::Point(_) => TypeKey { id: POINT_KEY },
            Value::Circle(_) => TypeKey { id: CIRCLE_KEY },
        }
    }
}

} // verus!
