//! Scenario tests for the capability registry.

use reflect_caps::descriptor::Descriptor;
use reflect_caps::erased::Erased;
use reflect_caps::keys::CapabilityKey;
use reflect_caps::keys::TypeKey;
use reflect_caps::registry::CapabilityRegistry;
use reflect_caps::values::Circle;
use reflect_caps::values::Point;
use reflect_caps::values::Value;
use reflect_caps::values::CIRCLE_KEY;
use reflect_caps::values::POINT_KEY;

const DISPLAY: CapabilityKey = CapabilityKey { id: 1 };

fn point_registry(tag: u64) -> CapabilityRegistry {
    let mut reg = CapabilityRegistry::new();
    reg.register(DISPLAY, TypeKey { id: POINT_KEY }, Descriptor::for_point(tag));
    reg
}

#[test]
fn display_registered_for_point_is_found() {
    let reg = point_registry(0);
    let p = Point { x: 1, y: 2 };
    let erased = Erased::new(Value::Point(p));
    let cap = reg.get_capability(&erased, DISPLAY);
    let value = cap.expect("point registered for display");
    assert_eq!(value.render(), p.display_string());
    assert_eq!(value.render(), "Point(1, 2)");
}

#[test]
fn display_not_registered_for_circle() {
    let reg = point_registry(0);
    let erased = Erased::new(Value::Circle(Circle { radius: 3 }));
    assert!(reg.get_capability(&erased, DISPLAY).is_none());
}

#[test]
fn unknown_capability_is_absent() {
    let reg = point_registry(0);
    let erased = Erased::new(Value::Point(Point { x: 1, y: 2 }));
    let other = CapabilityKey { id: 2 };
    assert!(reg.get_capability(&erased, other).is_none());
}

#[test]
fn empty_registry_finds_nothing() {
    let reg = CapabilityRegistry::new();
    let erased = Erased::new(Value::Point(Point { x: 0, y: 0 }));
    assert!(reg.get_capability(&erased, DISPLAY).is_none());
    assert!(reg.lookup(DISPLAY, TypeKey { id: POINT_KEY }).is_none());
}

#[test]
fn second_registration_wins() {
    let mut reg = point_registry(1);
    reg.register(DISPLAY, TypeKey { id: POINT_KEY }, Descriptor::for_point(2));
    let d = reg
        .lookup(DISPLAY, TypeKey { id: POINT_KEY })
        .expect("point still registered");
    assert_eq!(d.tag, 2);
    assert_eq!(d.target, TypeKey { id: POINT_KEY });
}

#[test]
fn repeated_lookups_agree() {
    let reg = point_registry(4);
    let first = reg.lookup(DISPLAY, TypeKey { id: POINT_KEY });
    let second = reg.lookup(DISPLAY, TypeKey { id: POINT_KEY });
    assert_eq!(first, second);
    let erased = Erased::new(Value::Point(Point { x: 7, y: 8 }));
    let d1 = first.expect("registered");
    let d2 = second.expect("registered");
    assert_eq!(d1.get(&erased).is_some(), d2.get(&erased).is_some());
    assert_eq!(d1.get(&erased), d2.get(&erased));
}

#[test]
fn registration_leaves_other_keys_alone() {
    let mut reg = point_registry(1);
    reg.register(DISPLAY, TypeKey { id: CIRCLE_KEY }, Descriptor::for_circle(9));
    let d = reg
        .lookup(DISPLAY, TypeKey { id: POINT_KEY })
        .expect("point binding untouched");
    assert_eq!(d.tag, 1);
    let c = reg
        .lookup(DISPLAY, TypeKey { id: CIRCLE_KEY })
        .expect("circle binding present");
    assert_eq!(c.tag, 9);
}

#[test]
fn both_types_registered_both_found() {
    let mut reg = CapabilityRegistry::new();
    reg.register(DISPLAY, TypeKey { id: POINT_KEY }, Descriptor::for_point(0));
    reg.register(DISPLAY, TypeKey { id: CIRCLE_KEY }, Descriptor::for_circle(0));
    let p = Erased::new(Value::Point(Point { x: 10, y: 20 }));
    let c = Erased::new(Value::Circle(Circle { radius: 5 }));
    assert_eq!(
        reg.get_capability(&p, DISPLAY).expect("point").render(),
        "Point(10, 20)"
    );
    assert_eq!(
        reg.get_capability(&c, DISPLAY).expect("circle").render(),
        "Circle(5)"
    );
}

#[test]
fn mismatched_registration_fails_closed() {
    // Misuse: a descriptor built for points registered under the circle key.
    // The extractor still refuses the circle value instead of narrowing it.
    let mut reg = CapabilityRegistry::new();
    reg.register(DISPLAY, TypeKey { id: CIRCLE_KEY }, Descriptor::for_point(0));
    let erased = Erased::new(Value::Circle(Circle { radius: 1 }));
    assert!(reg.get_capability(&erased, DISPLAY).is_none());
}

#[test]
fn mutable_capability_edits_in_place() {
    let reg = point_registry(0);
    let mut erased = Erased::new(Value::Point(Point { x: 1, y: 2 }));
    {
        let value = reg
            .get_capability_mut(&mut erased, DISPLAY)
            .expect("point registered for display");
        *value = Value::Point(Point { x: 9, y: 9 });
    }
    let p = erased.try_as_point().expect("still a point");
    assert_eq!(*p, Point { x: 9, y: 9 });
}

#[test]
fn mutable_capability_absent_for_unregistered_type() {
    let reg = point_registry(0);
    let mut erased = Erased::new(Value::Circle(Circle { radius: 2 }));
    assert!(reg.get_capability_mut(&mut erased, DISPLAY).is_none());
    assert_eq!(*erased.try_as_circle().expect("unchanged"), Circle { radius: 2 });
}
