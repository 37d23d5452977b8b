//! Circles and squares over fixed-point coordinates.
//!
//! A coordinate is an `i64` counting steps of one billionth of a unit
//! (`SCALE` steps make one unit), so `2.5` units is `2_500_000_000`
//! steps. Areas come back in the same fixed-point steps, computed
//! against exact integer specifications: a circle's area is
//! `PI_NUM / PI_DEN` times the squared radius, a square's area is the
//! squared side, both divided down to the coordinate scale.

use vstd::arithmetic::div_mod::{lemma_div_is_ordered, lemma_div_plus_one, lemma_div_pos_is_pos};
use vstd::prelude::*;
use vstd::string::*;
use crate::text::{decimal_digits, decimal_string};

verus! {

/// Fixed-point steps per unit: nine fractional decimal digits.
pub const SCALE: i64 = 1_000_000_000;

/// Numerator of the fixed ratio approximating the circle constant.
pub const PI_NUM: i64 = 3_141_592_653_589_793;

/// Denominator of the fixed ratio approximating the circle constant.
pub const PI_DEN: i64 = 1_000_000_000_000_000;

/// Largest radius magnitude whose area computation stays in range.
pub const MAX_RADIUS: i64 = 300_000_000_000;

/// Largest side magnitude whose area computation stays in range.
pub const MAX_SIDE: i64 = 90_000_000_000_000;

/// The exact area of a circle of the given fixed-point radius:
/// pi times the squared radius, brought back to coordinate scale.
pub open spec fn circle_area_spec(radius: int) -> int {
    (PI_NUM * radius * radius) / (PI_DEN * SCALE)
}

/// The exact area of a square of the given fixed-point side.
pub open spec fn square_area_spec(side: int) -> int {
    (side * side) / (SCALE as int)
}

/// The line of text describing a shape of the given area.
pub open spec fn area_message(area: int) -> Seq<char> {
    "This shape has an area of "@ + decimal_digits(area)
}

/// The capability of having an area: any conforming shape reports a
/// non-negative fixed-point area equal to its own specification.
pub trait Shape: Sized {
    /// The shape's parameters are small enough for its area to be
    /// computed without overflow.
    spec fn wf(&self) -> bool;

    /// The shape's exact area, in fixed-point steps.
    spec fn area_spec(&self) -> int;

    /// Computes the area; the result is exactly `area_spec`.
    fn area(&self) -> (a: i64)
        requires
            self.wf(),
        ensures
            a == self.area_spec(),
            0 <= a,
    ;
}

/// A circle given by its center and radius, in fixed-point steps.
#[derive(Clone, Copy, PartialEq, Eq, Structural, Debug)]
pub struct Circle {
    pub center_x: i64,
    pub center_y: i64,
    pub radius: i64,
}

/// The circle a constructor call yields: exactly the given fields.
pub open spec fn circle_from(center_x: i64, center_y: i64, radius: i64) -> Circle {
    Circle { center_x, center_y, radius }
}

impl Circle {
    /// Pure construction: the fields are exactly the arguments.
    pub fn new(center_x: i64, center_y: i64, radius: i64) -> (c: Circle)
        ensures
            c == circle_from(center_x, center_y, radius),
    {
        Circle { center_x, center_y, radius }
    }

    /// A new circle with the radius enlarged by `increment`; the
    /// center is kept and `self` is untouched.
    pub fn grow(&self, increment: i64) -> (c: Circle)
        requires
            i64::MIN <= self.radius + increment <= i64::MAX,
        ensures
            c == circle_from(self.center_x, self.center_y, (self.radius + increment) as i64),
    {
        Circle { center_x: self.center_x, center_y: self.center_y, radius: self.radius + increment }
    }
}

impl Shape for Circle {
    open spec fn wf(&self) -> bool {
        -MAX_RADIUS <= self.radius <= MAX_RADIUS
    }

    open spec fn area_spec(&self) -> int {
        circle_area_spec(self.radius as int)
    }

    fn area(&self) -> (a: i64) {
        let r = self.radius as i128;
        proof {
            assert(0 <= r * r <= (MAX_RADIUS as int) * (MAX_RADIUS as int)) by (nonlinear_arith)
                requires
                    -(MAX_RADIUS as int) <= r as int <= MAX_RADIUS as int,
            ;
            assert((MAX_RADIUS as int) * (MAX_RADIUS as int)
                == 90_000_000_000_000_000_000_000int) by (nonlinear_arith);
        }
        let rr = (r * r) as u128;
        proof {
            assert((PI_NUM as int) * (rr as int)
                <= (PI_NUM as int) * 90_000_000_000_000_000_000_000int) by (nonlinear_arith)
                requires
                    0 <= rr as int <= 90_000_000_000_000_000_000_000int,
            ;
        }
        let num = (PI_NUM as u128) * rr;
        let den = (PI_DEN as u128) * (SCALE as u128);
        let q = num / den;
        proof {
            lemma_div_pos_is_pos(num as int, den as int);
            assert(q as int <= i64::MAX) by (nonlinear_arith)
                requires
                    q as int == num as int / den as int,
                    0 <= num as int <= (PI_NUM as int) * 90_000_000_000_000_000_000_000int,
                    den as int == (PI_DEN as int) * (SCALE as int),
            ;
            assert((PI_NUM as int) * ((self.radius as int) * (self.radius as int))
                == (PI_NUM as int) * (self.radius as int) * (self.radius as int))
                by (nonlinear_arith);
        }
        q as i64
    }
}

/// A square given by its side, in fixed-point steps.
#[derive(Clone, Copy, PartialEq, Eq, Structural, Debug)]
pub struct Square {
    pub side: i64,
}

impl Square {
    /// Pure construction: the side is exactly the argument.
    pub fn new(side: i64) -> (s: Square)
        ensures
            s == (Square { side }),
    {
        Square { side }
    }
}

impl Shape for Square {
    open spec fn wf(&self) -> bool {
        -MAX_SIDE <= self.side <= MAX_SIDE
    }

    open spec fn area_spec(&self) -> int {
        square_area_spec(self.side as int)
    }

    fn area(&self) -> (a: i64) {
        let s = self.side as i128;
        proof {
            assert(0 <= s * s <= (MAX_SIDE as int) * (MAX_SIDE as int)) by (nonlinear_arith)
                requires
                    -(MAX_SIDE as int) <= s as int <= MAX_SIDE as int,
            ;
            assert((MAX_SIDE as int) * (MAX_SIDE as int)
                == 8_100_000_000_000_000_000_000_000_000int) by (nonlinear_arith);
        }
        let ss = (s * s) as u128;
        let q = ss / (SCALE as u128);
        proof {
            lemma_div_pos_is_pos(ss as int, SCALE as int);
            lemma_div_is_ordered(
                ss as int,
                8_100_000_000_000_000_000_000_000_000int,
                SCALE as int,
            );
            assert(8_100_000_000_000_000_000_000_000_000int / (SCALE as int) <= i64::MAX)
                by (nonlinear_arith);
        }
        q as i64
    }
}

/// A shape whose concrete kind is chosen at run time: the closed
/// counterpart of handing a shape around behind the capability.
#[derive(Clone, Copy, PartialEq, Eq, Structural, Debug)]
pub enum AnyShape {
    Circle(Circle),
    Square(Square),
}

impl Shape for AnyShape {
    open spec fn wf(&self) -> bool {
        match self {
            AnyShape::Circle(c) => c.wf(),
            AnyShape::Square(s) => s.wf(),
        }
    }

    open spec fn area_spec(&self) -> int {
        match self {
            AnyShape::Circle(c) => c.area_spec(),
            AnyShape::Square(s) => s.area_spec(),
        }
    }

    fn area(&self) -> (a: i64) {
        match self {
            AnyShape::Circle(c) => c.area(),
            AnyShape::Square(s) => s.area(),
        }
    }
}

/// Statically dispatched description: the concrete shape type is fixed
/// at the call site, and the text is pinned by `area_message`.
pub fn describe<T: Shape>(shape: T) -> (r: String)
    requires
        shape.wf(),
    ensures
        r@ == area_message(shape.area_spec()),
{
    let a = shape.area();
    let digits = decimal_string(a as u64);
    let prefix = String::from_str("This shape has an area of ");
    let r = prefix.concat(digits.as_str());
    proof {
        assert(r@ =~= area_message(shape.area_spec()));
    }
    r
}

/// Dynamically dispatched description: the concrete kind inside
/// `AnyShape` is resolved at run time, yet the text is pinned by the
/// same `area_message` as the static path.
pub fn describe_dyn(shape: &AnyShape) -> (r: String)
    requires
        shape.wf(),
    ensures
        r@ == area_message(shape.area_spec()),
{
    describe(*shape)
}

/// Law: growing changes the area. Enlarging a non-negative radius by
/// at least one full unit strictly increases the exact area, so a
/// grown circle never reports the area of the one it came from. (An
/// increment below one unit can vanish in the fixed-point quotient:
/// from radius 0, one single step leaves the area at 0.)
pub proof fn lemma_grow_increases_area(radius: int, increment: int)
    requires
        0 <= radius,
        SCALE <= increment,
    ensures
        circle_area_spec(radius) < circle_area_spec(radius + increment),
{
    let d = (PI_DEN as int) * (SCALE as int);
    let a = (PI_NUM as int) * radius * radius;
    let b = (PI_NUM as int) * (radius + increment) * (radius + increment);
    assert(a + d <= b) by (nonlinear_arith)
        requires
            0 <= radius,
            1_000_000_000 <= increment,
            d == (PI_DEN as int) * (SCALE as int),
            a == (PI_NUM as int) * radius * radius,
            b == (PI_NUM as int) * (radius + increment) * (radius + increment),
            PI_DEN == 1_000_000_000_000_000i64,
            SCALE == 1_000_000_000i64,
            PI_NUM == 3_141_592_653_589_793i64,
    ;
    lemma_div_plus_one(a, d);
    lemma_div_is_ordered(a + d, b, d);
}

/// Law: construction is deterministic. Two circles built from the same
/// parameters are the same value, so they have the same area.
pub proof fn lemma_construction_deterministic(a: Circle, b: Circle, x: i64, y: i64, r: i64)
    requires
        a == circle_from(x, y, r),
        b == circle_from(x, y, r),
    ensures
        a == b,
        a.area_spec() == b.area_spec(),
{
}

/// Law: dispatch is equivalent. Wrapping a shape for the run-time
/// path changes neither its well-formedness nor its area, so the
/// descriptions promised by `describe` and `describe_dyn` are the same
/// text for the same underlying shape.
pub proof fn lemma_dispatch_equivalent(s: AnyShape)
    ensures
        match s {
            AnyShape::Circle(c) => s.wf() == c.wf() && area_message(s.area_spec())
                == area_message(c.area_spec()),
            AnyShape::Square(q) => s.wf() == q.wf() && area_message(s.area_spec())
                == area_message(q.area_spec()),
        },
{
}

} // verus!
