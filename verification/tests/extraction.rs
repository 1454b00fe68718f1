//! Tests of the erased representation and of direct extractor use.

use reflect_caps::descriptor::Descriptor;
use reflect_caps::erased::Erased;
use reflect_caps::keys::TypeKey;
use reflect_caps::values::Circle;
use reflect_caps::values::Point;
use reflect_caps::values::Value;
use reflect_caps::values::CIRCLE_KEY;
use reflect_caps::values::POINT_KEY;

#[test]
fn erased_value_keeps_its_type_key() {
    let p = Erased::new(Value::Point(Point { x: 3, y: 4 }));
    let c = Erased::new(Value::Circle(Circle { radius: 8 }));
    assert_eq!(p.type_key(), TypeKey { id: POINT_KEY });
    assert_eq!(c.type_key(), TypeKey { id: CIRCLE_KEY });
}

#[test]
fn checked_reinterpretation_succeeds_on_matching_type() {
    let p = Point { x: 3, y: 4 };
    let erased = Erased::new(Value::Point(p));
    assert_eq!(*erased.try_as_point().expect("same type"), p);
    assert!(erased.try_as_circle().is_none());
}

#[test]
fn direct_extractor_fails_closed_on_other_type() {
    let for_point = Descriptor::for_point(0);
    let circle = Erased::new(Value::Circle(Circle { radius: 1 }));
    assert!(for_point.get(&circle).is_none());
    let mut circle = circle;
    assert!(for_point.get_mut(&mut circle).is_none());
}

#[test]
fn direct_extractor_succeeds_on_its_own_type() {
    let for_point = Descriptor::for_point(0);
    let p = Point { x: 6, y: 7 };
    let erased = Erased::new(Value::Point(p));
    let value = for_point.get(&erased).expect("built for points");
    assert_eq!(*value, Value::Point(p));
}

#[test]
fn mutable_reinterpretation_edits_the_stored_value() {
    let mut erased = Erased::new(Value::Point(Point { x: 1, y: 1 }));
    {
        let p = erased.try_as_point_mut().expect("same type");
        p.x = 5;
    }
    assert_eq!(*erased.try_as_point().expect("still a point"), Point { x: 5, y: 1 });
    assert!(erased.try_as_circle_mut().is_none());
}

#[test]
fn descriptor_builders_record_their_target() {
    assert_eq!(Descriptor::for_point(3).target, TypeKey { id: POINT_KEY });
    assert_eq!(Descriptor::for_circle(4).target, TypeKey { id: CIRCLE_KEY });
    let d = Descriptor::new(TypeKey { id: 11 }, 5);
    assert_eq!(d.target, TypeKey { id: 11 });
    assert_eq!(d.tag, 5);
}
