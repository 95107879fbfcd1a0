//! A position in world space.

use vstd::prelude::*;
use vstd::std_specs::convert::FromSpecImpl;

verus! {

/// Three world-space coordinates, each the bit pattern of a single-precision
/// number (see the module `single`). A plain value: copied freely, owned by
/// nobody.
#[derive(Debug, Copy, Clone)]
pub struct Point {
    pub x: u32,
    pub y: u32,
    pub z: u32,
}

impl Point {
    /// The point with the three given coordinates.
    pub fn new(p: (u32, u32, u32)) -> (point: Point)
        ensures
            point == (Point { x: p.0, y: p.1, z: p.2 }),
    {
        Point { x: p.0, y: p.1, z: p.2 }
    }

    /// The point whose three coordinates all hold `bits`.
    pub fn splat(bits: u32) -> (point: Point)
        ensures
            point == (Point { x: bits, y: bits, z: bits }),
    {
        Point { x: bits, y: bits, z: bits }
    }

    /// The coordinates in the order x, y, z.
    pub fn coordinates(&self) -> (c: (u32, u32, u32))
        ensures
            c == (self.x, self.y, self.z),
    {
        (self.x, self.y, self.z)
    }
}

impl Default for Point {
    /// The origin: three positive zeros.
    fn default() -> (point: Point)
        ensures
            point == (Point { x: 0, y: 0, z: 0 }),
    {
        Point { x: 0, y: 0, z: 0 }
    }
}

impl From<(u32, u32, u32)> for Point {
    fn from(p: (u32, u32, u32)) -> (point: Point) {
        Point::new(p)
    }
}

impl FromSpecImpl<(u32, u32, u32)> for Point {
    open spec fn obeys_from_spec() -> bool {
        true
    }

    open spec fn from_spec(p: (u32, u32, u32)) -> Point {
        Point { x: p.0, y: p.1, z: p.2 }
    }
}

} // verus!
