//! A capability registry for type-erased values.
//!
//! A framework that keeps heterogeneous values behind a uniform, type-erased
//! representation still needs to invoke type-specific behaviour (rendering,
//! editing, comparison) through a shared interface. This crate provides the
//! bridge: each concrete type that opts into a capability registers a small
//! descriptor under the pair (capability key, type key); a consumer holding
//! an erased value asks the registry for a capability and receives either a
//! borrowed reference to the value, narrowed to that capability, or nothing.
//!
//! The safety story rests on a single check: an erased value carries the key
//! of its true concrete type, and every reinterpretation compares that key
//! before narrowing. The contracts here pin that check down: extraction
//! succeeds exactly when the keys agree, fails closed otherwise, and a lookup
//! is a pure function of the registry's contents.

pub mod descriptor;
pub mod erased;
pub mod keys;
pub mod laws;
pub mod registry;
pub mod render;
pub mod values;

pub use descriptor::Descriptor;
pub use erased::Erased;
pub use keys::CapabilityKey;
pub use keys::TypeKey;
pub use registry::CapabilityRegistry;
pub use values::Circle;
pub use values::Point;
pub use values::Value;
