//! Incremental construction of a circle: a staging value whose
//! configuration calls chain by move and whose snapshot can be taken
//! any number of times.

use vstd::prelude::*;
use crate::shapes::{circle_from, Circle, SCALE};

verus! {

/// Staging fields for a circle: the same three parameters, defaulted
/// to the origin and a radius of one unit.
#[derive(Clone, Copy, PartialEq, Eq, Structural, Debug)]
pub struct CircleBuilder {
    pub x: i64,
    pub y: i64,
    pub radius: i64,
}

/// The builder's starting state.
pub open spec fn builder_default() -> CircleBuilder {
    CircleBuilder { x: 0, y: 0, radius: SCALE }
}

/// The builder after its center's first coordinate is set.
pub open spec fn with_x(b: CircleBuilder, coordinate: i64) -> CircleBuilder {
    CircleBuilder { x: coordinate, ..b }
}

/// The builder after its center's second coordinate is set.
pub open spec fn with_y(b: CircleBuilder, coordinate: i64) -> CircleBuilder {
    CircleBuilder { y: coordinate, ..b }
}

/// The builder after its radius is set.
pub open spec fn with_radius(b: CircleBuilder, radius: i64) -> CircleBuilder {
    CircleBuilder { radius, ..b }
}

impl CircleBuilder {
    /// A fresh builder holding the defaults: origin center, unit radius.
    pub fn new() -> (b: CircleBuilder)
        ensures
            b == builder_default(),
    {
        CircleBuilder { x: 0, y: 0, radius: SCALE }
    }

    /// Overwrites the center's first coordinate; the rest is kept.
    pub fn set_x(self, coordinate: i64) -> (b: CircleBuilder)
        ensures
            b == with_x(self, coordinate),
    {
        CircleBuilder { x: coordinate, ..self }
    }

    /// Overwrites the center's second coordinate; the rest is kept.
    pub fn set_y(self, coordinate: i64) -> (b: CircleBuilder)
        ensures
            b == with_y(self, coordinate),
    {
        CircleBuilder { y: coordinate, ..self }
    }

    /// Overwrites the radius; the rest is kept.
    pub fn set_radius(self, radius: i64) -> (b: CircleBuilder)
        ensures
            b == with_radius(self, radius),
    {
        CircleBuilder { radius, ..self }
    }

    /// Snapshots the current fields into an independent circle; the
    /// builder stays usable and may be finalized again.
    pub fn finalize(&self) -> (c: Circle)
        ensures
            c == circle_from(self.x, self.y, self.radius),
    {
        Circle { center_x: self.x, center_y: self.y, radius: self.radius }
    }
}

/// Law: configuration calls on disjoint fields commute. Setting any
/// two distinct fields in either order leaves the builder in the same
/// state, so the finalized circles agree.
pub proof fn lemma_setters_commute(b: CircleBuilder, first: i64, second: i64)
    ensures
        with_radius(with_x(b, first), second) == with_x(with_radius(b, second), first),
        with_radius(with_y(b, first), second) == with_y(with_radius(b, second), first),
        with_y(with_x(b, first), second) == with_x(with_y(b, second), first),
{
}

} // verus!
