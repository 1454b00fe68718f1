//! The laws of the capability mechanism, stated and proved once, over the
//! specification views that the executable contracts use.

use vstd::prelude::*;

use crate::descriptor::Descriptor;
use crate::erased::Erased;
use crate::keys::CapabilityKey;
use crate::keys::TypeKey;
use crate::registry::CapabilityRegistry;
use crate::render::spec_point_text;
use crate::render::spec_render;
use crate::values::Point;
use crate::values::Value;

verus! {

/// For a type registered for a capability, with the descriptor built for
/// that same type, `get_capability` on any erased value of the type succeeds
/// and hands back exactly the stored value.
pub proof fn lemma_registered_capability_present(
    reg: CapabilityRegistry,
    cap: CapabilityKey,
    value: Erased,
)
    requires
        reg@.contains_key((cap, value.spec_type_key())),
        reg@[(cap, value.spec_type_key())].target == value.spec_type_key(),
    ensures
        reg.spec_get_capability(value, cap) == Some(value.spec_payload()),
{
}

/// For a type never registered for a capability, `get_capability` on an
/// erased value of the type reports absence — a normal outcome, not a fault.
pub proof fn lemma_unregistered_capability_absent(
    reg: CapabilityRegistry,
    cap: CapabilityKey,
    value: Erased,
)
    requires
        !reg@.contains_key((cap, value.spec_type_key())),
    ensures
        reg.spec_get_capability(value, cap) is None,
{
}

/// An extractor invoked directly, bypassing the registry, on an erased value
/// of a type other than its descriptor's target fails closed.
pub proof fn lemma_extractor_fails_closed(d: Descriptor, value: Erased)
    requires
        value.spec_type_key() != d.target,
    ensures
        d.spec_get(value) is None,
{
}

/// Whatever is registered, a capability obtained for a well-formed erased
/// value is the stored value itself, of the very type the value's key
/// names: extraction never narrows to a wrong type.
pub proof fn lemma_extraction_is_type_sound(
    reg: CapabilityRegistry,
    cap: CapabilityKey,
    value: Erased,
)
    requires
        value.wf(),
    ensures
        reg.spec_get_capability(value, cap) matches Some(v) ==> v
            == value.spec_payload() && v.spec_type_key() == value.spec_type_key(),
{
}

/// Repeated lookups of one key pair on one registry agree: a lookup's result
/// is a function of the registry's contents alone, independent of call count.
pub proof fn lemma_lookup_idempotent(
    reg: CapabilityRegistry,
    cap: CapabilityKey,
    ty: TypeKey,
    r1: Option<Descriptor>,
    r2: Option<Descriptor>,
)
    requires
        r1 == reg.spec_lookup(cap, ty),
        r2 == reg.spec_lookup(cap, ty),
    ensures
        r1 == r2,
{
}

/// Descriptors that are equal as data extract alike on every erased value:
/// a looked-up descriptor's behaviour does not depend on which of the equal
/// copies a caller holds.
pub proof fn lemma_equal_descriptors_extract_alike(
    d1: Descriptor,
    d2: Descriptor,
    value: Erased,
)
    requires
        d1 == d2,
    ensures
        d1.spec_get(value) == d2.spec_get(value),
{
}

/// Registering a key pair twice leaves exactly the second descriptor: a
/// later lookup sees the second registration's behaviour, never a mix.
pub proof fn lemma_second_registration_wins(
    reg0: CapabilityRegistry,
    reg1: CapabilityRegistry,
    reg2: CapabilityRegistry,
    cap: CapabilityKey,
    ty: TypeKey,
    d1: Descriptor,
    d2: Descriptor,
)
    requires
        reg1@ == reg0@.insert((cap, ty), d1),
        reg2@ == reg1@.insert((cap, ty), d2),
    ensures
        reg2.spec_lookup(cap, ty) == Some(d2),
{
}

/// Registering one key pair touches no other: a lookup of a different key
/// pair sees exactly what it saw before.
pub proof fn lemma_registration_is_local(
    reg1: CapabilityRegistry,
    reg2: CapabilityRegistry,
    cap: CapabilityKey,
    ty: TypeKey,
    d: Descriptor,
    other_cap: CapabilityKey,
    other_ty: TypeKey,
)
    requires
        reg2@ == reg1@.insert((cap, ty), d),
        (other_cap, other_ty) != (cap, ty),
    ensures
        reg2.spec_lookup(other_cap, other_ty) == reg1.spec_lookup(other_cap, other_ty),
{
}

/// Obtaining the display capability through the registry and rendering it
/// gives the same text as rendering the concrete point directly.
pub proof fn lemma_display_via_registry_matches_direct(
    reg: CapabilityRegistry,
    cap: CapabilityKey,
    p: Point,
    value: Erased,
)
    requires
        value.spec_payload() == Value::Point(p),
        reg@.contains_key((cap, value.spec_type_key())),
        reg@[(cap, value.spec_type_key())].target == value.spec_type_key(),
    ensures
        reg.spec_get_capability(value, cap) == Some(Value::Point(p)),
        spec_render(Value::Point(p)) == spec_point_text(p),
{
}

} // verus!
