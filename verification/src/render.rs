//! The display capability: rendering a concrete value as text.
//!
//! This is the behavioural interface that the tests and the surrounding
//! framework register under a capability key. Each concrete type implements
//! it directly; [`Value::render`] dispatches on the stored concrete type, so
//! that rendering an extracted capability reference agrees with rendering
//! the concrete value itself.

use vstd::prelude::*;

use crate::values::Circle;
use crate::values::Point;
use crate::values::Value;

verus! {

/// The decimal digit character for `d`, for `d < 10`.
pub open spec fn spec_digit_char(d: nat) -> char {
    if d == 0 {
        '0'
    } else if d == 1 {
        '1'
    } else if d == 2 {
        '2'
    } else if d == 3 {
        '3'
    } else if d == 4 {
        '4'
    } else if d == 5 {
        '5'
    } else if d == 6 {
        '6'
    } else if d == 7 {
        '7'
    } else if d == 8 {
        '8'
    } else {
        '9'
    }
}

/// The decimal rendering of `n`, most significant digit first, no sign and
/// no leading zeros (except for `n == 0`, rendered as one digit).
pub open spec fn spec_decimal(n: nat) -> Seq<char>
    decreases n,
{
    if n < 10 {
        seq![spec_digit_char(n)]
    } else {
        spec_decimal(n / 10).push(spec_digit_char(n % 10))
    }
}

/// The one-character string for the digit `d`.
fn digit_str(d: u64) -> (r: &'static str)
    requires
        d < 10,
    ensures
        r@ == seq![spec_digit_char(d as nat)],
{
    proof {
        reveal_strlit("0");
        reveal_strlit("1");
        reveal_strlit("2");
        reveal_strlit("3");
        reveal_strlit("4");
        reveal_strlit("5");
        reveal_strlit("6");
        reveal_strlit("7");
        reveal_strlit("8");
        reveal_strlit("9");
    }
    let r: &'static str = if d == 0 {
        "0"
    } else if d == 1 {
        "1"
    } else if d == 2 {
        "2"
    } else if d == 3 {
        "3"
    } else if d == 4 {
        "4"
    } else if d == 5 {
        "5"
    } else if d == 6 {
        "6"
    } else if d == 7 {
        "7"
    } else if d == 8 {
        "8"
    } else {
        "9"
    };
    proof {
        assert(r@ =~= seq![spec_digit_char(d as nat)]);
    }
    r
}

/// Renders `n` in decimal.
pub fn decimal_string(n: u64) -> (r: String)
    ensures
        r@ == spec_decimal(n as nat),
    decreases n,
{
    if n < 10 {
        String::from_str(digit_str(n))
    } else {
        let mut s = decimal_string(n / 10);
        s.append(digit_str(n % 10));
        proof {
            assert(s@ =~= spec_decimal(n as nat));
        }
        s
    }
}

/// The text that the display capability produces for a point.
pub open spec fn spec_point_text(p: Point) -> Seq<char> {
    "Point("@ + spec_decimal(p.x as nat) + ", "@ + spec_decimal(p.y as nat) + ")"@
}

/// The text that the display capability produces for a circle.
pub open spec fn spec_circle_text(c: Circle) -> Seq<char> {
    "Circle("@ + spec_decimal(c.radius as nat) + ")"@
}

/// The text that the display capability produces for a stored value.
pub open spec fn spec_render(v: Value) -> Seq<char> {
    match v {
        Value::Point(p) => spec_point_text(p),
        Value::Circle(c) => spec_circle_text(c),
    }
}

impl Point {
    /// The display capability, invoked directly on the concrete type.
    pub fn display_string(&self) -> (r: String)
        ensures
            r@ == spec_point_text(*self),
    {
        let mut s = String::from_str("Point(");
        s.append(decimal_string(self.x).as_str());
        s.append(", ");
        s.append(decimal_string(self.y).as_str());
        s.append(")");
        proof {
            assert(s@ =~= spec_point_text(*self));
        }
        s
    }
}

impl Circle {
    /// The display capability, invoked directly on the concrete type.
    pub fn display_string(&self) -> (r: String)
        ensures
            r@ == spec_circle_text(*self),
    {
        let mut s = String::from_str("Circle(");
        s.append(decimal_string(self.radius).as_str());
        s.append(")");
        proof {
            assert(s@ =~= spec_circle_text(*self));
        }
        s
    }
}

impl Value {
    /// The display capability, dispatched on the stored concrete type.
    ///
    /// Rendering through an erased reference therefore gives the same text
    /// as calling `display_string` on the concrete value directly.
    pub fn render(&self) -> (r: String)
        ensures
            r@ == spec_render(*self),
    {
        match self {
            Value::Point(p) => p.display_string(),
            Value::Circle(c) => c.display_string(),
        }
    }
}

} // verus!
