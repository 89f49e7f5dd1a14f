//! Points, directions, shapes and draw rectangles.
use vstd::prelude::*;

verus! {

/// A point in rendering space, in whole pixels (y grows downwards).
#[derive(Clone, Copy, Debug, PartialEq, Eq, Structural)]
pub struct Point {
    pub x: i32,
    pub y: i32,
}

/// A direction (or displacement) in rendering space. It is not scaled to
/// unit length: only its orientation matters to a ray.
#[derive(Clone, Copy, Debug, PartialEq, Eq, Structural)]
pub struct Direction {
    pub x: i64,
    pub y: i64,
}

/// Immutable collision geometry, centred on its body's position.
#[derive(Clone, Copy, Debug, PartialEq, Eq, Structural)]
pub enum Shape {
    Ball { radius: i32 },
    Cuboid { half_width: i32, half_height: i32 },
}

/// Why a shape was refused.
#[derive(Clone, Copy, Debug, PartialEq, Eq, Structural)]
pub enum GeometryError {
    /// A radius or half-extent was zero or negative.
    NonPositiveSize,
}

/// A filled, axis-aligned rectangle anchored at its top-left corner, as the
/// renderer takes it.
#[derive(Clone, Copy, Debug, PartialEq, Eq, Structural)]
pub struct Rect {
    pub x: i64,
    pub y: i64,
    pub width: i64,
    pub height: i64,
}

impl Shape {
    /// Every size dimension is strictly positive.
    pub open spec fn wf(self) -> bool {
        match self {
            Shape::Ball { radius } => radius > 0,
            Shape::Cuboid { half_width, half_height } => half_width > 0 && half_height > 0,
        }
    }

    /// Whether every size dimension is strictly positive.
    pub fn is_valid(&self) -> (r: bool)
        ensures
            r == self.wf(),
    {
        match *self {
            Shape::Ball { radius } => radius > 0,
            Shape::Cuboid { half_width, half_height } => half_width > 0 && half_height > 0,
        }
    }

    /// A ball of the given radius; a radius that is not positive is refused.
    pub fn ball(radius: i32) -> (r: Result<Shape, GeometryError>)
        ensures
            radius > 0 ==> r == Ok::<Shape, GeometryError>(Shape::Ball { radius }),
            radius <= 0 ==> r == Err::<Shape, GeometryError>(GeometryError::NonPositiveSize),
    {
        if radius > 0 {
            Ok(Shape::Ball { radius })
        } else {
            Err(GeometryError::NonPositiveSize)
        }
    }

    /// A box of the given half-extents; any half-extent that is not positive
    /// is refused.
    pub fn cuboid(half_width: i32, half_height: i32) -> (r: Result<Shape, GeometryError>)
        ensures
            half_width > 0 && half_height > 0 ==> r == Ok::<Shape, GeometryError>(
                Shape::Cuboid { half_width, half_height },
            ),
            half_width <= 0 || half_height <= 0 ==> r == Err::<Shape, GeometryError>(
                GeometryError::NonPositiveSize,
            ),
    {
        if half_width > 0 && half_height > 0 {
            Ok(Shape::Cuboid { half_width, half_height })
        } else {
            Err(GeometryError::NonPositiveSize)
        }
    }
}

/// The rectangle that the renderer draws for a box centred at `center`:
/// its top-left corner is the centre less the half-extents, and its size
/// twice the half-extents.
pub open spec fn cuboid_rect_spec(center: Point, half_width: int, half_height: int) -> Rect {
    Rect {
        x: (center.x - half_width) as i64,
        y: (center.y - half_height) as i64,
        width: (2 * half_width) as i64,
        height: (2 * half_height) as i64,
    }
}

/// Converts a centre-anchored box (physics convention) into a
/// corner-anchored rectangle (rendering convention).
pub fn cuboid_rect(center: Point, half_width: i32, half_height: i32) -> (r: Rect)
    ensures
        r.x == center.x - half_width,
        r.y == center.y - half_height,
        r.width == 2 * half_width,
        r.height == 2 * half_height,
        r == cuboid_rect_spec(center, half_width as int, half_height as int),
{
    Rect {
        x: center.x as i64 - half_width as i64,
        y: center.y as i64 - half_height as i64,
        width: 2 * half_width as i64,
        height: 2 * half_height as i64,
    }
}

} // verus!
