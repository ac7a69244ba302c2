//! Two-dimensional integer vectors.

use vstd::prelude::*;

verus! {

/// A point or a displacement with whole-number coordinates.
///
/// A position, a size or an offset is held in screen units, a stick value in
/// millionths.
#[derive(Clone, Copy, Debug, PartialEq, Eq, Hash, Structural)]
pub struct Vec2 {
    pub x: i32,
    pub y: i32,
}

impl View for Vec2 {
    type V = (int, int);

    open spec fn view(&self) -> (int, int) {
        (self.x as int, self.y as int)
    }
}

impl Vec2 {
    /// The vector with the given coordinates.
    pub fn new(x: i32, y: i32) -> (v: Vec2)
        ensures
            v == (Vec2 { x, y }),
    {
        Vec2 { x, y }
    }

    /// The vector whose coordinates are both zero.
    pub open spec fn spec_zero() -> Vec2 {
        Vec2 { x: 0, y: 0 }
    }

    /// The vector whose coordinates are both zero.
    #[verifier::when_used_as_spec(spec_zero)]
    pub fn zero() -> (v: Vec2)
        ensures
            v == Vec2::zero(),
    {
        Vec2 { x: 0, y: 0 }
    }

    /// Whether both coordinates are zero.
    pub fn is_zero(&self) -> (z: bool)
        ensures
            z == (*self == Vec2::zero()),
    {
        self.x == 0 && self.y == 0
    }
}

} // verus!
