use crate::common::MAX_SPEED;
use vstd::prelude::*;

verus! {

/// The nearest value to `v` inside the coordinate range.
pub open spec fn clamp_coord(v: int) -> int {
    if v < i32::MIN {
        i32::MIN as int
    } else if v > i32::MAX {
        i32::MAX as int
    } else {
        v
    }
}

/// A point, an extent or a velocity of the plane, in sub-pixel units.
/// The y axis points down the screen.
#[derive(Clone, Copy, Debug, PartialEq, Eq, Structural)]
pub struct Vx2 {
    pub x: i32,
    pub y: i32,
}

impl Vx2 {
    /// The squared length.
    pub open spec fn length_sq(self) -> int {
        self.x * self.x + self.y * self.y
    }

    /// A vector may be a velocity when it is no longer than `MAX_SPEED`.
    pub open spec fn is_velocity(self) -> bool {
        self.length_sq() <= MAX_SPEED * MAX_SPEED
    }

    /// The point reached from `self` by one step of `v`; a step that would
    /// leave the coordinate range ends at its edge.
    pub open spec fn advanced(self, v: Vx2) -> Vx2 {
        Vx2 { x: clamp_coord(self.x + v.x) as i32, y: clamp_coord(self.y + v.y) as i32 }
    }

    pub open spec fn flipped_x(self) -> Vx2 {
        Vx2 { x: (-self.x) as i32, y: self.y }
    }

    pub open spec fn flipped_y(self) -> Vx2 {
        Vx2 { x: self.x, y: (-self.y) as i32 }
    }

    pub fn new(x: i32, y: i32) -> (v: Vx2)
        ensures
            v == (Vx2 { x, y }),
    {
        Vx2 { x, y }
    }

    /// The vector with both components zero.
    pub fn zero() -> (v: Vx2)
        ensures
            v == (Vx2 { x: 0, y: 0 }),
            v.is_velocity(),
    {
        Vx2 { x: 0, y: 0 }
    }

    /// Tells whether the vector is short enough to be a velocity.
    pub fn fits_velocity(&self) -> (b: bool)
        ensures
            b == self.is_velocity(),
    {
        let x: i64 = self.x as i64;
        let y: i64 = self.y as i64;
        let m: i64 = MAX_SPEED as i64;
        if x > m || x < -m || y > m || y < -m {
            proof {
                lemma_component_bound(*self);
            }
            false
        } else {
            assert(x * x <= m * m && y * y <= m * m && x * x >= 0 && y * y >= 0)
                by (nonlinear_arith)
                requires
                    -m <= x <= m,
                    -m <= y <= m,
            ;
            x * x + y * y <= m * m
        }
    }

    /// Moves a point by one step of `v`, see `advanced`.
    pub fn step(&self, v: &Vx2) -> (p: Vx2)
        ensures
            p == self.advanced(*v),
    {
        Vx2 { x: add_clamped(self.x, v.x), y: add_clamped(self.y, v.y) }
    }

    /// Reverses the horizontal direction of a velocity.
    pub fn flip_x(&self) -> (v: Vx2)
        requires
            self.is_velocity(),
        ensures
            v == self.flipped_x(),
            v.x == -self.x,
            v.is_velocity(),
    {
        proof {
            lemma_component_bound(*self);
            assert((-self.x) * (-self.x) == self.x * self.x) by (nonlinear_arith);
        }
        Vx2 { x: -self.x, y: self.y }
    }

    /// Reverses the vertical direction of a velocity.
    pub fn flip_y(&self) -> (v: Vx2)
        requires
            self.is_velocity(),
        ensures
            v == self.flipped_y(),
            v.y == -self.y,
            v.is_velocity(),
    {
        proof {
            lemma_component_bound(*self);
            assert((-self.y) * (-self.y) == self.y * self.y) by (nonlinear_arith);
        }
        Vx2 { x: self.x, y: -self.y }
    }
}

/// Each component of a velocity lies within `MAX_SPEED` of zero.
pub proof fn lemma_component_bound(v: Vx2)
    ensures
        v.is_velocity() ==> -MAX_SPEED <= v.x <= MAX_SPEED && -MAX_SPEED <= v.y <= MAX_SPEED,
{
    let m = MAX_SPEED as int;
    let x = v.x as int;
    let y = v.y as int;
    assert(x * x >= 0 && y * y >= 0) by (nonlinear_arith);
    if x > m || x < -m {
        assert(x * x > m * m) by (nonlinear_arith)
            requires
                x > m || x < -m,
                m >= 0,
        ;
    }
    if y > m || y < -m {
        assert(y * y > m * m) by (nonlinear_arith)
            requires
                y > m || y < -m,
                m >= 0,
        ;
    }
}

fn add_clamped(a: i32, b: i32) -> (r: i32)
    ensures
        r == clamp_coord(a + b),
{
    let s: i64 = a as i64 + b as i64;
    if s < i32::MIN as i64 {
        i32::MIN
    } else if s > i32::MAX as i64 {
        i32::MAX
    } else {
        s as i32
    }
}

/// An axis-aligned rectangle given by its centre and its extent.
#[derive(Clone, Copy, Debug, PartialEq, Eq, Structural)]
pub struct Rectangle {
    pub pos: Vx2,
    pub size: Vx2,
}

impl Rectangle {
    pub fn new(pos: Vx2, size: Vx2) -> (r: Rectangle)
        ensures
            r == (Rectangle { pos, size }),
    {
        Rectangle { pos, size }
    }
}

/// A disc given by its centre and radius.
#[derive(Clone, Copy, Debug, PartialEq, Eq, Structural)]
pub struct Circle {
    pub pos: Vx2,
    pub radius: i32,
}

impl Circle {
    pub fn new(pos: Vx2, radius: i32) -> (c: Circle)
        ensures
            c == (Circle { pos, radius }),
    {
        Circle { pos, radius }
    }
}

/// A line segment between two points.
#[derive(Clone, Copy, Debug, PartialEq, Eq, Structural)]
pub struct Line2d {
    pub start: Vx2,
    pub end: Vx2,
}

impl Line2d {
    pub fn new(start: Vx2, end: Vx2) -> (l: Line2d)
        ensures
            l == (Line2d { start, end }),
    {
        Line2d { start, end }
    }
}

/// The smallest difference between two coordinates that counts as one.
pub const CONTACT_EPSILON: i32 = 1;

/// The pair of nearest points that a collision query reports, one on each
/// shape: `contact_a` on the ball, `contact_b` on what it touched.
#[derive(Clone, Copy, Debug, PartialEq, Eq, Structural)]
pub struct Contacts {
    pub contact_a: Vx2,
    pub contact_b: Vx2,
}

impl Contacts {
    /// The contact is vertical-dominant when the ball's point does not lie
    /// below the other by `CONTACT_EPSILON` or more.
    pub open spec fn vertical(self) -> bool {
        self.contact_a.y - self.contact_b.y < CONTACT_EPSILON
    }

    pub fn new(contact_a: Vx2, contact_b: Vx2) -> (c: Contacts)
        ensures
            c == (Contacts { contact_a, contact_b }),
    {
        Contacts { contact_a, contact_b }
    }

    /// Classifies the contact by its dominant axis.
    pub fn is_vertical(&self) -> (b: bool)
        ensures
            b == self.vertical(),
    {
        (self.contact_a.y as i64) - (self.contact_b.y as i64) < CONTACT_EPSILON as i64
    }
}

} // verus!
