//! Tests of the display capability's rendering.

use reflect_caps::values::Circle;
use reflect_caps::values::Point;
use reflect_caps::values::Value;
use reflect_caps::render::decimal_string;

#[test]
fn decimal_of_zero() {
    assert_eq!(decimal_string(0), "0");
}

#[test]
fn decimal_of_single_digit() {
    assert_eq!(decimal_string(7), "7");
}

#[test]
fn decimal_of_round_number() {
    assert_eq!(decimal_string(10), "10");
    assert_eq!(decimal_string(1000), "1000");
}

#[test]
fn decimal_of_every_digit() {
    assert_eq!(decimal_string(1234567890), "1234567890");
}

#[test]
fn decimal_of_largest_value() {
    assert_eq!(decimal_string(u64::MAX), "18446744073709551615");
}

#[test]
fn point_renders_its_coordinates() {
    let p = Point { x: 1, y: 2 };
    assert_eq!(p.display_string(), "Point(1, 2)");
    assert_eq!(Value::Point(p).render(), "Point(1, 2)");
}

#[test]
fn circle_renders_its_radius() {
    let c = Circle { radius: 42 };
    assert_eq!(c.display_string(), "Circle(42)");
    assert_eq!(Value::Circle(c).render(), "Circle(42)");
}
