//! The creature: an ordered body of positions with the head in front, the
//! direction it faces, and the score it has made.

use vstd::prelude::*;
use crate::direction::{Direction, Keys};
use crate::geometry::{Bounds, Position};

verus! {

/// How many segments one meal adds, and how many a new creature gets on top of
/// its head.
pub const GROWTH: usize = 15;

/// The length of a creature that has just been spawned: the head and one
/// batch of growth.
pub const STARTING_LENGTH: usize = 16;

/// The player's creature. `body[0]` is the head and the last element is the
/// tail; the body is never empty.
#[derive(Clone, Debug)]
pub struct Creature {
    pub body: Vec<Position>,
    pub direction: Direction,
    pub score: usize,
}

/// What a creature is, apart from how it is stored.
pub ghost struct CreatureModel {
    pub body: Seq<Position>,
    pub direction: Direction,
    pub score: nat,
}

impl View for Creature {
    type V = CreatureModel;

    open spec fn view(&self) -> CreatureModel {
        CreatureModel { body: self.body@, direction: self.direction, score: self.score as nat }
    }
}

impl CreatureModel {
    /// A creature has a head.
    pub open spec fn wf(self) -> bool {
        self.body.len() > 0
    }

    pub open spec fn head(self) -> Position {
        self.body[0]
    }

    pub open spec fn tail(self) -> Position {
        self.body.last()
    }

    /// The creature at the start of a session and after every death: all its
    /// segments stacked on the middle of the field, facing nowhere, no score.
    pub open spec fn spawned(bounds: Bounds) -> CreatureModel {
        CreatureModel {
            body: Seq::new(STARTING_LENGTH as nat, |i: int| bounds.spec_center()),
            direction: Direction::Idle,
            score: 0,
        }
    }

    /// Where the head would be after one step in the direction `dir`.
    pub open spec fn next_head(self, dir: Direction) -> Position {
        self.head().spec_stepped(dir)
    }

    /// The creature with `n` more segments, each a copy of its tail.
    pub open spec fn grown(self, n: nat) -> CreatureModel {
        CreatureModel { body: self.body + Seq::new(n, |i: int| self.tail()), ..self }
    }

    /// The creature after its head has moved to `new_head`: every segment
    /// takes the place of the one before it, and the tail position is given
    /// up unless the creature grew in this frame.
    pub open spec fn advanced(self, new_head: Position, grew: bool) -> CreatureModel {
        CreatureModel {
            body: if grew {
                seq![new_head] + self.body
            } else {
                seq![new_head] + self.body.drop_last()
            },
            ..self
        }
    }

    /// The creature after one frame's keys.
    pub open spec fn steered(self, keys: Keys) -> CreatureModel {
        CreatureModel { direction: self.direction.spec_steered(keys), ..self }
    }

    /// The creature after a meal: one batch longer, one point richer.
    pub open spec fn fed(self) -> CreatureModel {
        CreatureModel { score: self.score + 1, ..self.grown(GROWTH as nat) }
    }
}

impl Creature {
    /// A creature has a head.
    pub open spec fn wf(&self) -> bool {
        self@.wf()
    }

    /// Spawns a creature on the middle of a field of the given size.
    pub fn new(bounds: Bounds) -> (creature: Creature)
        ensures
            creature@ == CreatureModel::spawned(bounds),
            creature.wf(),
    {
        let mut body: Vec<Position> = Vec::new();
        body.push(bounds.center());
        let mut creature = Creature { body, direction: Direction::Idle, score: 0 };
        creature.grow(GROWTH);
        proof {
            assert(creature@.body =~= CreatureModel::spawned(bounds).body);
        }
        creature
    }

    /// The position of the head.
    pub fn head(&self) -> (head: Position)
        requires
            self.wf(),
        ensures
            head == self@.head(),
    {
        self.body[0]
    }

    /// The position of the last segment.
    pub fn tail(&self) -> (tail: Position)
        requires
            self.wf(),
        ensures
            tail == self@.tail(),
    {
        self.body[self.body.len() - 1]
    }

    /// The number of segments, the head included.
    pub fn len(&self) -> (len: usize)
        ensures
            len == self@.body.len(),
    {
        self.body.len()
    }

    /// Where the head would be after one step in the direction `dir`. The
    /// creature is not changed.
    pub fn compute_next_head(&self, dir: Direction) -> (next: Position)
        requires
            self.wf(),
            self@.head().can_step(),
        ensures
            next == self@.next_head(dir),
    {
        self.body[0].stepped(dir)
    }

    /// Takes one frame's keys: each held key is a request to turn, and a
    /// request to reverse is ignored.
    pub fn steer(&mut self, keys: Keys)
        ensures
            final(self)@ == old(self)@.steered(keys),
    {
        self.direction = self.direction.steered(keys);
    }

    /// Appends `n` segments at the tail, each a copy of the tail as it was
    /// before the call.
    pub fn grow(&mut self, n: usize)
        requires
            old(self).wf(),
        ensures
            final(self)@ == old(self)@.grown(n as nat),
            final(self)@.body.len() == old(self)@.body.len() + n,
            forall|i: int|
                old(self)@.body.len() <= i < old(self)@.body.len() + n
                    ==> final(self)@.body[i] == old(self)@.tail(),
            forall|i: int|
                0 <= i < old(self)@.body.len() ==> final(self)@.body[i] == old(self)@.body[i],
            final(self).wf(),
    {
        let tail = self.tail();
        let mut added: usize = 0;
        while added < n
            invariant
                added <= n,
                self.body@ =~= old(self).body@ + Seq::new(added as nat, |i: int| tail),
                self.direction == old(self).direction,
                self.score == old(self).score,
            decreases n - added,
        {
            self.body.push(tail);
            added += 1;
        }
    }

    /// Moves the head to `new_head`. The new head goes in front of the body;
    /// unless the creature grew in this frame, the last segment is dropped, so
    /// that the length stays what it was.
    pub fn advance(&mut self, new_head: Position, grew: bool)
        requires
            old(self).wf(),
        ensures
            final(self)@ == old(self)@.advanced(new_head, grew),
            final(self)@.head() == new_head,
            !grew ==> final(self)@.body.len() == old(self)@.body.len(),
            grew ==> final(self)@.body.len() == old(self)@.body.len() + 1,
            final(self).wf(),
    {
        self.body.insert(0, new_head);
        if !grew {
            let last: usize = self.body.len() - 1;
            self.body.remove(last);
        }
        proof {
            assert(final(self)@.body =~= old(self)@.advanced(new_head, grew).body);
        }
    }

    /// Rewards a meal: one batch of growth and one point.
    pub fn feed(&mut self)
        requires
            old(self).wf(),
            old(self).score < usize::MAX,
        ensures
            final(self)@ == old(self)@.fed(),
            final(self)@.body.len() == old(self)@.body.len() + GROWTH,
            final(self).wf(),
    {
        self.grow(GROWTH);
        self.score = self.score + 1;
    }

    /// Puts the creature back to what a newly spawned one is.
    pub fn reset(&mut self, bounds: Bounds)
        ensures
            final(self)@ == CreatureModel::spawned(bounds),
            final(self).wf(),
    {
        *self = Creature::new(bounds);
    }
}

/// A newly spawned creature has its starting length, every segment on the
/// middle of the field.
pub proof fn lemma_spawned_shape(bounds: Bounds)
    ensures
        CreatureModel::spawned(bounds).wf(),
        CreatureModel::spawned(bounds).body.len() == STARTING_LENGTH,
        forall|i: int|
            0 <= i < STARTING_LENGTH ==> CreatureModel::spawned(bounds).body[i]
                == bounds.spec_center(),
        CreatureModel::spawned(bounds).head().can_step(),
{
}

/// Motion keeps the length: moving the head without growth leaves the body as
/// long as it was, for every body and every new head.
pub proof fn lemma_advance_keeps_length(creature: CreatureModel, new_head: Position)
    requires
        creature.wf(),
    ensures
        creature.advanced(new_head, false).body.len() == creature.body.len(),
        creature.advanced(new_head, false).head() == new_head,
        forall|i: int|
            1 <= i < creature.body.len() ==> creature.advanced(new_head, false).body[i]
                == creature.body[i - 1],
{
}

/// Growth by `n` makes the body `n` longer, keeps what was there, and fills
/// the new places with the tail as it was.
pub proof fn lemma_grown_shape(creature: CreatureModel, n: nat)
    requires
        creature.wf(),
    ensures
        creature.grown(n).body.len() == creature.body.len() + n,
        forall|i: int|
            0 <= i < creature.body.len() ==> creature.grown(n).body[i] == creature.body[i],
        forall|i: int|
            creature.body.len() <= i < creature.body.len() + n ==> creature.grown(n).body[i]
                == creature.tail(),
        creature.grown(n).tail() == creature.tail(),
{
}

} // verus!
