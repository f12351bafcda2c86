//! The way the creature faces, and how held keys change it.

use vstd::prelude::*;

verus! {

/// The way the creature faces. A creature that has not been steered yet faces
/// nowhere and stays where it is.
#[derive(Clone, Copy, Debug, PartialEq, Eq, Structural)]
pub enum Direction {
    Up,
    Down,
    Left,
    Right,
    Idle,
}

/// Which of the four directional keys are held in this frame.
#[derive(Clone, Copy, Debug, PartialEq, Eq, Structural)]
pub struct Keys {
    pub up: bool,
    pub down: bool,
    pub left: bool,
    pub right: bool,
}

impl Direction {
    /// The direction that points the other way. Facing nowhere has no other way.
    pub open spec fn spec_opposite(self) -> Direction {
        match self {
            Direction::Up => Direction::Down,
            Direction::Down => Direction::Up,
            Direction::Left => Direction::Right,
            Direction::Right => Direction::Left,
            Direction::Idle => Direction::Idle,
        }
    }

    /// The direction after the player asks for `wanted`: the creature turns
    /// there, unless that is a reversal or no direction at all.
    pub open spec fn spec_turned(self, wanted: Direction) -> Direction {
        if wanted == Direction::Idle || wanted == self.spec_opposite() {
            self
        } else {
            wanted
        }
    }

    /// The direction after one frame's keys. The keys are taken in a fixed
    /// order (right, left, down, up) and each held key is one request, judged
    /// against the direction that the requests before it have left.
    pub open spec fn spec_steered(self, keys: Keys) -> Direction {
        let after_right = if keys.right { self.spec_turned(Direction::Right) } else { self };
        let after_left = if keys.left {
            after_right.spec_turned(Direction::Left)
        } else {
            after_right
        };
        let after_down = if keys.down {
            after_left.spec_turned(Direction::Down)
        } else {
            after_left
        };
        if keys.up {
            after_down.spec_turned(Direction::Up)
        } else {
            after_down
        }
    }

    /// Gives the direction that points the other way.
    pub fn opposite(self) -> (other: Direction)
        ensures
            other == self.spec_opposite(),
    {
        match self {
            Direction::Up => Direction::Down,
            Direction::Down => Direction::Up,
            Direction::Left => Direction::Right,
            Direction::Right => Direction::Left,
            Direction::Idle => Direction::Idle,
        }
    }

    /// Applies one request to turn. A request to reverse is ignored, so the
    /// creature cannot fold back onto its own neck.
    pub fn turned(self, wanted: Direction) -> (next: Direction)
        ensures
            next == self.spec_turned(wanted),
            wanted == self.spec_opposite() ==> next == self,
    {
        if wanted == Direction::Idle || wanted == self.opposite() {
            self
        } else {
            wanted
        }
    }

    /// Applies one frame's keys, in the order right, left, down, up.
    pub fn steered(self, keys: Keys) -> (next: Direction)
        ensures
            next == self.spec_steered(keys),
    {
        let mut facing = self;
        if keys.right {
            facing = facing.turned(Direction::Right);
        }
        if keys.left {
            facing = facing.turned(Direction::Left);
        }
        if keys.down {
            facing = facing.turned(Direction::Down);
        }
        if keys.up {
            facing = facing.turned(Direction::Up);
        }
        facing
    }
}

impl Keys {
    /// No key held.
    pub open spec fn spec_released() -> Keys {
        Keys { up: false, down: false, left: false, right: false }
    }

    /// Exactly the key for `wanted` held; none for `Direction::Idle`.
    pub open spec fn spec_only(wanted: Direction) -> Keys {
        Keys {
            up: wanted == Direction::Up,
            down: wanted == Direction::Down,
            left: wanted == Direction::Left,
            right: wanted == Direction::Right,
        }
    }

    /// Whether any key is held.
    pub open spec fn spec_any(self) -> bool {
        self.up || self.down || self.left || self.right
    }

    /// No key held.
    pub fn released() -> (keys: Keys)
        ensures
            keys == Keys::spec_released(),
    {
        Keys { up: false, down: false, left: false, right: false }
    }

    /// Exactly the key for `wanted` held; none for `Direction::Idle`.
    pub fn only(wanted: Direction) -> (keys: Keys)
        ensures
            keys == Keys::spec_only(wanted),
    {
        Keys {
            up: wanted == Direction::Up,
            down: wanted == Direction::Down,
            left: wanted == Direction::Left,
            right: wanted == Direction::Right,
        }
    }
}

/// Direction lock: a creature that faces somewhere keeps its direction when
/// the only key held is the one for the opposite direction.
pub proof fn lemma_reversal_ignored(facing: Direction)
    requires
        facing != Direction::Idle,
    ensures
        facing.spec_turned(facing.spec_opposite()) == facing,
        facing.spec_steered(Keys::spec_only(facing.spec_opposite())) == facing,
{
}

/// With no key held the direction stays as it is.
pub proof fn lemma_released_keeps_direction(facing: Direction)
    ensures
        facing.spec_steered(Keys::spec_released()) == facing,
{
}

/// A single held key that is no reversal turns the creature that way.
pub proof fn lemma_single_key_turns(facing: Direction, wanted: Direction)
    requires
        wanted != Direction::Idle,
        wanted != facing.spec_opposite(),
    ensures
        facing.spec_steered(Keys::spec_only(wanted)) == wanted,
{
}

/// Steering never makes a creature that faces somewhere face nowhere.
pub proof fn lemma_steering_keeps_moving(facing: Direction, keys: Keys)
    requires
        facing != Direction::Idle,
    ensures
        facing.spec_steered(keys) != Direction::Idle,
{
}

/// A creature that faces nowhere starts to move exactly when a key is held.
pub proof fn lemma_start_needs_key(keys: Keys)
    ensures
        Direction::Idle.spec_steered(keys) != Direction::Idle <==> keys.spec_any(),
{
}

} // verus!
