//! Points of the playfield, the size of the field, and distances between points.

use vstd::prelude::*;
use crate::direction::Direction;

verus! {

/// A point of the playfield, in whole units. `x` grows to the right and `y`
/// grows downwards, as on a screen.
#[derive(Clone, Copy, Debug, PartialEq, Eq, Structural)]
pub struct Position {
    pub x: i32,
    pub y: i32,
}

/// The size of the playfield, as the display reports it for the current frame.
#[derive(Clone, Copy, Debug, PartialEq, Eq, Structural)]
pub struct Bounds {
    pub width: u16,
    pub height: u16,
}

/// The square of the Euclidean distance between `a` and `b`.
pub open spec fn dist_sq(a: Position, b: Position) -> int {
    (a.x - b.x) * (a.x - b.x) + (a.y - b.y) * (a.y - b.y)
}

/// Whether `a` and `b` are less than `radius` apart.
pub open spec fn within(a: Position, b: Position, radius: int) -> bool {
    dist_sq(a, b) < radius * radius
}

/// How far the creature moves in one frame.
pub const STEP: i32 = 2;

impl Position {
    /// Whether a step in any direction stays within the numbers that a
    /// coordinate can hold.
    pub open spec fn can_step(self) -> bool {
        &&& i32::MIN + STEP <= self.x <= i32::MAX - STEP
        &&& i32::MIN + STEP <= self.y <= i32::MAX - STEP
    }

    /// The point one step from here in the direction `dir`; the point itself
    /// for `Direction::Idle`. Up is towards smaller `y`.
    pub open spec fn spec_stepped(self, dir: Direction) -> Position {
        match dir {
            Direction::Up => Position { x: self.x, y: (self.y - STEP) as i32 },
            Direction::Down => Position { x: self.x, y: (self.y + STEP) as i32 },
            Direction::Left => Position { x: (self.x - STEP) as i32, y: self.y },
            Direction::Right => Position { x: (self.x + STEP) as i32, y: self.y },
            Direction::Idle => self,
        }
    }

    /// Gives the point one step from here in the direction `dir`.
    pub fn stepped(self, dir: Direction) -> (next: Position)
        requires
            self.can_step(),
        ensures
            next == self.spec_stepped(dir),
    {
        match dir {
            Direction::Up => Position { x: self.x, y: self.y - STEP },
            Direction::Down => Position { x: self.x, y: self.y + STEP },
            Direction::Left => Position { x: self.x - STEP, y: self.y },
            Direction::Right => Position { x: self.x + STEP, y: self.y },
            Direction::Idle => self,
        }
    }
}

impl Bounds {
    /// The middle of the field, rounded down.
    pub open spec fn spec_center(self) -> Position {
        Position { x: (self.width / 2) as i32, y: (self.height / 2) as i32 }
    }

    /// The middle of the field, rounded down.
    pub fn center(&self) -> (c: Position)
        ensures
            c == self.spec_center(),
    {
        Position { x: (self.width / 2) as i32, y: (self.height / 2) as i32 }
    }
}

/// The square of one coordinate difference.
fn square_of_gap(p: i32, q: i32) -> (s: u128)
    ensures
        s == (p - q) * (p - q),
        s <= 0xffff_ffff * 0xffff_ffff,
{
    let gap: i64 = p as i64 - q as i64;
    let size: u128 = if gap < 0 { (-gap) as u128 } else { gap as u128 };
    assert(size * size == (p - q) * (p - q)) by (nonlinear_arith)
        requires
            size == p - q || size == -(p - q),
    ;
    assert(size * size <= 0xffff_ffff * 0xffff_ffff) by (nonlinear_arith)
        requires
            size <= 0xffff_ffff,
    ;
    size * size
}

/// Computes the square of the Euclidean distance between `a` and `b`. The
/// result is exact: two `i32` coordinates are at most `2^32 - 1` apart, so the
/// sum of two squares fits.
pub fn distance_squared(a: Position, b: Position) -> (d: u128)
    ensures
        d == dist_sq(a, b),
        d <= 2 * (0xffff_ffff * 0xffff_ffff),
{
    square_of_gap(a.x, b.x) + square_of_gap(a.y, b.y)
}

/// The largest whole number whose square is at most `n`, found by halving
/// the range in which it lies.
fn floor_sqrt(n: u128) -> (root: u64)
    requires
        n < 0x4_0000_0000_0000_0000,
    ensures
        root * root <= n < (root + 1) * (root + 1),
{
    let mut low: u128 = 0;
    let mut high: u128 = 0x2_0000_0000;
    assert(0x2_0000_0000 * 0x2_0000_0000 == 0x4_0000_0000_0000_0000) by (nonlinear_arith);
    while high - low > 1
        invariant
            low < high <= 0x2_0000_0000,
            low * low <= n < high * high,
        decreases high - low,
    {
        let mid: u128 = low + (high - low) / 2;
        assert(mid * mid <= 0x2_0000_0000 * 0x2_0000_0000) by (nonlinear_arith)
            requires
                mid <= 0x2_0000_0000,
        ;
        if mid * mid <= n {
            low = mid;
        } else {
            high = mid;
        }
    }
    low as u64
}

/// Computes the Euclidean distance between `a` and `b`, rounded down to a
/// whole number: the one `d` with `d * d <= dist_sq(a, b) < (d + 1) * (d + 1)`.
pub fn distance(a: Position, b: Position) -> (d: u64)
    ensures
        d * d <= dist_sq(a, b) < (d + 1) * (d + 1),
{
    assert(2 * (0xffff_ffff * 0xffff_ffff) < 0x4_0000_0000_0000_0000) by (nonlinear_arith);
    floor_sqrt(distance_squared(a, b))
}

/// Tells whether `a` and `b` are less than `radius` apart.
pub fn is_within(a: Position, b: Position, radius: u32) -> (near: bool)
    ensures
        near == within(a, b, radius as int),
{
    let reach: u128 = radius as u128;
    assert(reach * reach <= 0xffff_ffff * 0xffff_ffff) by (nonlinear_arith)
        requires
            reach <= 0xffff_ffff,
    ;
    distance_squared(a, b) < reach * reach
}

/// The rounded distance decides nearness as the exact one does: two points
/// are less than a whole `radius` apart exactly when their distance, rounded
/// down, is less than `radius`.
pub proof fn lemma_rounded_distance_decides(a: Position, b: Position, d: int, radius: int)
    requires
        0 <= d,
        0 <= radius,
        d * d <= dist_sq(a, b) < (d + 1) * (d + 1),
    ensures
        d < radius <==> within(a, b, radius),
{
    let sq = dist_sq(a, b);
    if d < radius {
        assert((d + 1) * (d + 1) <= radius * radius) by (nonlinear_arith)
            requires
                0 <= d + 1 <= radius,
        ;
    } else {
        assert(radius * radius <= d * d) by (nonlinear_arith)
            requires
                0 <= radius <= d,
        ;
    }
}

/// Only one whole number is the rounded distance between two points.
pub proof fn lemma_rounded_distance_unique(a: Position, b: Position, d: int, e: int)
    requires
        0 <= d,
        0 <= e,
        d * d <= dist_sq(a, b) < (d + 1) * (d + 1),
        e * e <= dist_sq(a, b) < (e + 1) * (e + 1),
    ensures
        d == e,
{
    if d < e {
        assert((d + 1) * (d + 1) <= e * e) by (nonlinear_arith)
            requires
                0 <= d + 1 <= e,
        ;
    } else if e < d {
        assert((e + 1) * (e + 1) <= d * d) by (nonlinear_arith)
            requires
                0 <= e + 1 <= d,
        ;
    }
}

/// Distance is symmetric.
pub proof fn lemma_dist_sq_symmetric(a: Position, b: Position)
    ensures
        dist_sq(a, b) == dist_sq(b, a),
{
    assert((a.x - b.x) * (a.x - b.x) == (b.x - a.x) * (b.x - a.x)) by (nonlinear_arith);
    assert((a.y - b.y) * (a.y - b.y) == (b.y - a.y) * (b.y - a.y)) by (nonlinear_arith);
}

/// A point is at distance zero from itself, and so within every positive radius.
pub proof fn lemma_dist_sq_self(a: Position)
    ensures
        dist_sq(a, a) == 0,
{
}

} // verus!
