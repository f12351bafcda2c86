//! Collectibles: where one lies, which picture it shows, and how a new place
//! and picture are drawn for it.

use vstd::prelude::*;
use crate::chance::draw_between;
use crate::geometry::{Bounds, Position};

verus! {

/// How far from the edge of the field a collectible is placed.
pub const SPAWN_MARGIN: i32 = 16;

/// How many pictures the host holds for collectibles. A collectible names its
/// picture by an index below this.
pub const VISUAL_COUNT: usize = 3;

/// Something to eat: a place on the field and the index of the picture that
/// the host draws there. Several collectibles may show the same picture.
#[derive(Clone, Copy, Debug, PartialEq, Eq, Structural)]
pub struct Collectible {
    pub pos: Position,
    pub visual: usize,
}

/// Whether `n` lies between `a` and `b`, both included, whichever is larger.
pub open spec fn between(n: int, a: int, b: int) -> bool {
    &&& a <= b ==> a <= n <= b
    &&& b <= a ==> b <= n <= a
}

/// Whether `pos` is a place where a collectible may be put on a field of the
/// given size: at least the margin away from every edge. On a field too small
/// to have such a place, the coordinate lies between the two margins instead.
pub open spec fn in_spawn_area(pos: Position, bounds: Bounds) -> bool {
    &&& between(pos.x as int, SPAWN_MARGIN as int, bounds.width - SPAWN_MARGIN)
    &&& between(pos.y as int, SPAWN_MARGIN as int, bounds.height - SPAWN_MARGIN)
}

impl Collectible {
    /// Whether this collectible could have been drawn for a field of the given
    /// size: it lies in the spawn area and names one of the pictures.
    pub open spec fn fits(self, bounds: Bounds) -> bool {
        &&& in_spawn_area(self.pos, bounds)
        &&& self.visual < VISUAL_COUNT
    }

    /// Draws a place in the spawn area of a field of the given size.
    pub fn random_position(bounds: Bounds) -> (pos: Position)
        ensures
            in_spawn_area(pos, bounds),
    {
        let x: i32 = draw_between(SPAWN_MARGIN, bounds.width as i32 - SPAWN_MARGIN);
        let y: i32 = draw_between(SPAWN_MARGIN, bounds.height as i32 - SPAWN_MARGIN);
        Position { x, y }
    }

    /// Draws one of the pictures.
    pub fn random_visual() -> (visual: usize)
        ensures
            visual < VISUAL_COUNT,
    {
        let drawn: i32 = draw_between(0, VISUAL_COUNT as i32);
        Collectible::visual_for(drawn)
    }

    /// The picture that stands for a number drawn from `0` to `VISUAL_COUNT`:
    /// the number itself, with the upper end folded onto the last picture.
    pub fn visual_for(drawn: i32) -> (visual: usize)
        requires
            0 <= drawn <= VISUAL_COUNT,
        ensures
            drawn < VISUAL_COUNT ==> visual == drawn,
            drawn == VISUAL_COUNT ==> visual == VISUAL_COUNT - 1,
    {
        if drawn < VISUAL_COUNT as i32 {
            drawn as usize
        } else {
            VISUAL_COUNT - 1
        }
    }

    /// Makes a collectible with a drawn place and a drawn picture.
    pub fn new(bounds: Bounds) -> (item: Collectible)
        ensures
            item.fits(bounds),
    {
        let pos = Collectible::random_position(bounds);
        let visual = Collectible::random_visual();
        Collectible { pos, visual }
    }

    /// Gives this collectible a newly drawn place and a newly drawn picture.
    pub fn respawn(&mut self, bounds: Bounds)
        ensures
            final(self).fits(bounds),
    {
        self.pos = Collectible::random_position(bounds);
        self.visual = Collectible::random_visual();
    }
}

/// Every field has a place in its spawn area, so a collectible that fits can
/// always be drawn.
pub proof fn lemma_spawn_area_inhabited(bounds: Bounds)
    ensures
        (Collectible { pos: Position { x: SPAWN_MARGIN, y: SPAWN_MARGIN }, visual: 0 }).fits(
            bounds,
        ),
{
}

/// On a field that is at least two margins wide and high, the spawn area is
/// the rectangle that keeps the margin from every edge.
pub proof fn lemma_spawn_area_on_regular_field(pos: Position, bounds: Bounds)
    requires
        bounds.width >= 2 * SPAWN_MARGIN,
        bounds.height >= 2 * SPAWN_MARGIN,
    ensures
        in_spawn_area(pos, bounds) <==> (SPAWN_MARGIN <= pos.x <= bounds.width - SPAWN_MARGIN
            && SPAWN_MARGIN <= pos.y <= bounds.height - SPAWN_MARGIN),
{
}

} // verus!
