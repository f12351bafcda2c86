//! One game session: the creature, the collectibles on the field and the
//! phase of play, with the step that takes the session from one frame to the
//! next.
//!
//! A host runs a frame in two halves. [`Session::begin_frame`] takes the keys
//! and says which picture the frame shows; the host draws it from the session
//! as it then is. [`Session::update`] moves the world on. [`Session::tick`]
//! does both at once for a host that draws nothing.

use vstd::prelude::*;
use crate::collectible::{lemma_spawn_area_inhabited, Collectible, SPAWN_MARGIN};
use crate::creature::{Creature, CreatureModel, GROWTH};
use crate::direction::{Direction, Keys};
use crate::geometry::{Bounds, Position, STEP};
use crate::rules::{
    add_at_milestone, add_at_milestone_with, at_edge, collect_with, collected_with,
    first_in_reach, is_dead, lemma_first_in_reach, spec_is_dead, try_collect, with_milestone,
    MAX_COLLECTIBLES,
};

verus! {

/// Where a session stands between two frames.
#[derive(Clone, Copy, Debug, PartialEq, Eq, Structural)]
pub enum Phase {
    /// The creature is alive and the world moves.
    Playing,
    /// The creature has died and the player has not pressed a key since.
    AwaitingRestart,
}

/// Which picture a frame shows.
#[derive(Clone, Copy, Debug, PartialEq, Eq, Structural)]
pub enum Frame {
    /// The field with the creature, the collectibles and the score.
    World,
    /// The notice that the creature has died.
    DeathScreen,
}

/// The whole world of one game. A session owns its state; nothing of it lives
/// anywhere else.
#[derive(Clone, Debug)]
pub struct Session {
    pub creature: Creature,
    pub collectibles: Vec<Collectible>,
    pub phase: Phase,
}

/// What a session is, apart from how it is stored.
pub ghost struct SessionModel {
    pub creature: CreatureModel,
    pub collectibles: Seq<Collectible>,
    pub phase: Phase,
}

impl View for Session {
    type V = SessionModel;

    open spec fn view(&self) -> SessionModel {
        SessionModel {
            creature: self.creature@,
            collectibles: self.collectibles@,
            phase: self.phase,
        }
    }
}

impl SessionModel {
    /// What holds of a session between any two frames: the creature has a
    /// head, which can take a step; the score is smaller than the length of
    /// the body; and the field holds at least one collectible and no more than
    /// the cap.
    pub open spec fn wf(self) -> bool {
        &&& self.creature.wf()
        &&& self.creature.head().can_step()
        &&& self.creature.score < self.creature.body.len()
        &&& 1 <= self.collectibles.len() <= MAX_COLLECTIBLES
    }

    /// A session at its start, with `first` as the one collectible.
    pub open spec fn started(bounds: Bounds, first: Collectible) -> SessionModel {
        SessionModel {
            creature: CreatureModel::spawned(bounds),
            collectibles: seq![first],
            phase: Phase::Playing,
        }
    }

    /// Which picture the frame shows in which `keys` are held: the notice of
    /// death while the session waits for a restart and the keys leave the
    /// creature facing nowhere, the world otherwise.
    pub open spec fn frame(self, keys: Keys) -> Frame {
        if self.phase == Phase::AwaitingRestart && self.creature.direction.spec_steered(keys)
            == Direction::Idle {
            Frame::DeathScreen
        } else {
            Frame::World
        }
    }

    /// The session after the keys of a frame have been taken: the creature is
    /// steered, and a session that waits for a restart plays again as soon as
    /// the creature faces somewhere.
    pub open spec fn began(self, keys: Keys) -> SessionModel {
        SessionModel {
            creature: self.creature.steered(keys),
            phase: if self.frame(keys) == Frame::DeathScreen {
                Phase::AwaitingRestart
            } else {
                Phase::Playing
            },
            ..self
        }
    }

    /// Where the head goes in this frame.
    pub open spec fn next_head(self) -> Position {
        self.creature.next_head(self.creature.direction)
    }

    /// Whether the head reaches a collectible in this frame.
    pub open spec fn eats(self) -> bool {
        first_in_reach(self.next_head(), self.collectibles).is_some()
    }

    /// The session after the creature has moved and has had its chance to
    /// eat. Without a meal the body keeps its length. With a meal the creature
    /// keeps its tail, grows by one batch and scores; the collectible it ate
    /// becomes `fresh`; and `extra` joins the field if the new score is a
    /// milestone.
    pub open spec fn moved_with(self, fresh: Collectible, extra: Collectible) -> SessionModel {
        let new_head = self.next_head();
        if self.eats() {
            let creature = self.creature.advanced(new_head, true).fed();
            SessionModel {
                creature,
                collectibles: with_milestone(
                    collected_with(new_head, self.collectibles, fresh),
                    creature.score,
                    extra,
                ),
                ..self
            }
        } else {
            SessionModel { creature: self.creature.advanced(new_head, false), ..self }
        }
    }

    /// The session after death: a newly spawned creature, the first
    /// collectible alone on the field, and the wait for a restart.
    pub open spec fn killed(self, bounds: Bounds) -> SessionModel {
        SessionModel {
            creature: CreatureModel::spawned(bounds),
            collectibles: self.collectibles.subrange(0, 1),
            phase: Phase::AwaitingRestart,
        }
    }

    /// The session after the check for death: killed if the creature is dead,
    /// as it was if not.
    pub open spec fn settled(self, bounds: Bounds) -> SessionModel {
        if spec_is_dead(self.creature.body, bounds) {
            self.killed(bounds)
        } else {
            self
        }
    }

    /// The session after the world has moved on by one frame. A session that
    /// waits for a restart stays as it is.
    pub open spec fn updated_with(
        self,
        bounds: Bounds,
        fresh: Collectible,
        extra: Collectible,
    ) -> SessionModel {
        if self.phase == Phase::AwaitingRestart {
            self
        } else {
            self.moved_with(fresh, extra).settled(bounds)
        }
    }

    /// The session after one whole frame.
    pub open spec fn ticked_with(
        self,
        keys: Keys,
        bounds: Bounds,
        fresh: Collectible,
        extra: Collectible,
    ) -> SessionModel {
        self.began(keys).updated_with(bounds, fresh, extra)
    }
}

impl Session {
    /// What holds of a session between any two frames.
    pub open spec fn wf(&self) -> bool {
        self@.wf()
    }

    /// Tests whether the session is well formed. A session made by `new` or
    /// `with_collectible` and changed only by the methods here always is; a
    /// host that writes the fields itself can ask before it goes on.
    pub fn is_well_formed(&self) -> (ok: bool)
        ensures
            ok == self.wf(),
    {
        if self.creature.body.len() == 0 {
            return false;
        }
        let head = self.creature.body[0];
        head.x >= i32::MIN + STEP && head.x <= i32::MAX - STEP && head.y >= i32::MIN + STEP
            && head.y <= i32::MAX - STEP && self.creature.score < self.creature.body.len() && 1
            <= self.collectibles.len() && self.collectibles.len() <= MAX_COLLECTIBLES
    }

    /// Starts a session on a field of the given size, with `first` as the one
    /// collectible.
    pub fn with_collectible(bounds: Bounds, first: Collectible) -> (session: Session)
        ensures
            session@ == SessionModel::started(bounds, first),
            session.wf(),
    {
        let mut collectibles: Vec<Collectible> = Vec::new();
        collectibles.push(first);
        let session = Session {
            creature: Creature::new(bounds),
            collectibles,
            phase: Phase::Playing,
        };
        proof {
            assert(session@.collectibles =~= seq![first]);
        }
        session
    }

    /// Starts a session on a field of the given size, with one collectible at
    /// a drawn place.
    pub fn new(bounds: Bounds) -> (session: Session)
        ensures
            exists|first: Collectible|
                first.fits(bounds) && session@ == #[trigger] SessionModel::started(bounds, first),
            session.wf(),
    {
        let first = Collectible::new(bounds);
        Session::with_collectible(bounds, first)
    }

    /// Takes the keys of a frame and says which picture the frame shows.
    pub fn begin_frame(&mut self, keys: Keys) -> (frame: Frame)
        requires
            old(self).wf(),
        ensures
            frame == old(self)@.frame(keys),
            final(self)@ == old(self)@.began(keys),
            final(self).wf(),
    {
        self.creature.steer(keys);
        if self.phase == Phase::AwaitingRestart && self.creature.direction == Direction::Idle {
            Frame::DeathScreen
        } else {
            self.phase = Phase::Playing;
            Frame::World
        }
    }

    /// Ends the creature's life: a new creature is spawned, every collectible
    /// but the first leaves the field, and the session waits for a restart.
    pub fn kill(&mut self, bounds: Bounds)
        requires
            old(self)@.collectibles.len() >= 1,
        ensures
            final(self)@ == old(self)@.killed(bounds),
            final(self)@.collectibles.len() == 1,
            final(self).wf(),
    {
        self.creature.reset(bounds);
        self.collectibles.truncate(1);
        self.phase = Phase::AwaitingRestart;
    }

    /// Checks for death and kills the creature if it is dead. Tells whether
    /// it was.
    pub fn settle(&mut self, bounds: Bounds) -> (died: bool)
        requires
            old(self)@.creature.wf(),
            old(self)@.creature.score < old(self)@.creature.body.len(),
            1 <= old(self)@.collectibles.len() <= MAX_COLLECTIBLES,
        ensures
            died == spec_is_dead(old(self)@.creature.body, bounds),
            final(self)@ == old(self)@.settled(bounds),
            final(self).wf(),
    {
        if is_dead(&self.creature, bounds) {
            self.kill(bounds);
            true
        } else {
            false
        }
    }

    /// Moves the world on by one frame, with the outcome of chance given:
    /// `fresh` replaces a collectible that is eaten, and `extra` is the one
    /// that joins the field at a milestone.
    pub fn update_with(&mut self, bounds: Bounds, fresh: Collectible, extra: Collectible)
        requires
            old(self).wf(),
        ensures
            final(self)@ == old(self)@.updated_with(bounds, fresh, extra),
            final(self).wf(),
    {
        if self.phase == Phase::AwaitingRestart {
            return ;
        }
        let new_head = self.creature.compute_next_head(self.creature.direction);
        let collected = collect_with(new_head, &mut self.collectibles, fresh);
        self.creature.advance(new_head, collected);
        if collected {
            proof {
                lemma_first_in_reach(new_head, old(self)@.collectibles);
                assert(self.creature.body.len() <= usize::MAX);
            }
            self.creature.feed();
            add_at_milestone_with(&mut self.collectibles, self.creature.score, extra);
        }
        assert(self@ == old(self)@.moved_with(fresh, extra));
        self.settle(bounds);
    }

    /// Moves the world on by one frame. The creature takes a step; if its
    /// head reaches a collectible, it eats the first one in reach, which gets
    /// a newly drawn place and picture, and a milestone score brings one more
    /// collectible; then the creature is checked for death. What chance
    /// decides is a collectible that fits the field; all else is as
    /// `updated_with` says.
    pub fn update(&mut self, bounds: Bounds)
        requires
            old(self).wf(),
        ensures
            exists|fresh: Collectible, extra: Collectible|
                fresh.fits(bounds) && extra.fits(bounds) && final(self)@
                    == #[trigger] old(self)@.updated_with(bounds, fresh, extra),
            final(self).wf(),
    {
        let ghost any = Collectible {
            pos: Position { x: SPAWN_MARGIN, y: SPAWN_MARGIN },
            visual: 0,
        };
        proof {
            lemma_spawn_area_inhabited(bounds);
        }
        if self.phase == Phase::AwaitingRestart {
            assert(self@ == old(self)@.updated_with(bounds, any, any));
            return ;
        }
        let new_head = self.creature.compute_next_head(self.creature.direction);
        let collected = try_collect(new_head, &mut self.collectibles, bounds);
        let ghost fresh = choose|fresh: Collectible|
            fresh.fits(bounds) && self.collectibles@ == #[trigger] collected_with(
                new_head,
                old(self)@.collectibles,
                fresh,
            );
        let ghost eaten = self.collectibles@;
        let ghost mut extra = any;
        self.creature.advance(new_head, collected);
        if collected {
            proof {
                assert(self.creature.body.len() <= usize::MAX);
            }
            self.creature.feed();
            add_at_milestone(&mut self.collectibles, self.creature.score, bounds);
            proof {
                extra = choose|extra: Collectible|
                    extra.fits(bounds) && self.collectibles@ == #[trigger] with_milestone(
                        eaten,
                        self.creature.score as nat,
                        extra,
                    );
            }
        }
        assert(self@ == old(self)@.moved_with(fresh, extra));
        self.settle(bounds);
        assert(self@ == old(self)@.updated_with(bounds, fresh, extra));
    }

    /// Runs one whole frame with the outcome of chance given: takes the keys,
    /// moves the world on, and says which picture the frame shows.
    pub fn tick_with(
        &mut self,
        keys: Keys,
        bounds: Bounds,
        fresh: Collectible,
        extra: Collectible,
    ) -> (frame: Frame)
        requires
            old(self).wf(),
        ensures
            frame == old(self)@.frame(keys),
            final(self)@ == old(self)@.ticked_with(keys, bounds, fresh, extra),
            final(self).wf(),
    {
        let frame = self.begin_frame(keys);
        self.update_with(bounds, fresh, extra);
        frame
    }

    /// Runs one whole frame: takes the keys, moves the world on, and says
    /// which picture the frame shows.
    pub fn tick(&mut self, keys: Keys, bounds: Bounds) -> (frame: Frame)
        requires
            old(self).wf(),
        ensures
            frame == old(self)@.frame(keys),
            exists|fresh: Collectible, extra: Collectible|
                fresh.fits(bounds) && extra.fits(bounds) && final(self)@
                    == #[trigger] old(self)@.ticked_with(keys, bounds, fresh, extra),
            final(self).wf(),
    {
        let frame = self.begin_frame(keys);
        let ghost begun = self@;
        self.update(bounds);
        proof {
            let (fresh, extra) = choose|fresh: Collectible, extra: Collectible|
                fresh.fits(bounds) && extra.fits(bounds) && self@ == #[trigger] begun.updated_with(
                    bounds,
                    fresh,
                    extra,
                );
            assert(self@ == old(self)@.ticked_with(keys, bounds, fresh, extra));
        }
        frame
    }
}

/// A frame keeps a session well formed, whatever chance decides. In
/// particular the field never holds more collectibles than the cap, however
/// many milestones are reached.
pub proof fn lemma_tick_keeps_wf(
    session: SessionModel,
    keys: Keys,
    bounds: Bounds,
    fresh: Collectible,
    extra: Collectible,
)
    requires
        session.wf(),
    ensures
        session.began(keys).wf(),
        session.updated_with(bounds, fresh, extra).wf(),
        session.ticked_with(keys, bounds, fresh, extra).wf(),
        session.ticked_with(keys, bounds, fresh, extra).collectibles.len() <= MAX_COLLECTIBLES,
{
    lemma_update_keeps_wf(session, bounds, fresh, extra);
    lemma_update_keeps_wf(session.began(keys), bounds, fresh, extra);
}

/// The world's step keeps a session well formed.
proof fn lemma_update_keeps_wf(
    session: SessionModel,
    bounds: Bounds,
    fresh: Collectible,
    extra: Collectible,
)
    requires
        session.wf(),
    ensures
        session.updated_with(bounds, fresh, extra).wf(),
{
    lemma_first_in_reach(session.next_head(), session.collectibles);
}

/// Motion keeps the length: in a frame in which nothing is eaten, the body
/// is as long after the move as before, the head is where the step took it,
/// and score and collectibles are as they were.
pub proof fn lemma_no_meal_keeps_length(
    session: SessionModel,
    fresh: Collectible,
    extra: Collectible,
)
    requires
        session.wf(),
        !session.eats(),
    ensures
        session.moved_with(fresh, extra).creature.body.len() == session.creature.body.len(),
        session.moved_with(fresh, extra).creature.head() == session.next_head(),
        session.moved_with(fresh, extra).creature.score == session.creature.score,
        session.moved_with(fresh, extra).collectibles == session.collectibles,
{
}

/// A meal adds the new head and one batch of growth to the body, all of the
/// batch on the old tail, and one point to the score. The field keeps its
/// collectibles or gains one.
pub proof fn lemma_meal_grows(session: SessionModel, fresh: Collectible, extra: Collectible)
    requires
        session.wf(),
        session.eats(),
    ensures
        session.moved_with(fresh, extra).creature.body.len() == session.creature.body.len() + 1
            + GROWTH,
        session.moved_with(fresh, extra).creature.head() == session.next_head(),
        session.moved_with(fresh, extra).creature.score == session.creature.score + 1,
        forall|i: int|
            session.creature.body.len() <= i < session.creature.body.len() + 1 + GROWTH
                ==> session.moved_with(fresh, extra).creature.body[i] == session.creature.tail(),
        session.collectibles.len() <= session.moved_with(fresh, extra).collectibles.len()
            <= session.collectibles.len() + 1,
{
    lemma_first_in_reach(session.next_head(), session.collectibles);
}

/// Death resets: after the check has found the creature dead, the creature
/// is exactly a newly spawned one, the first collectible is alone on the
/// field, and the session waits for a restart.
pub proof fn lemma_death_resets(session: SessionModel, bounds: Bounds)
    requires
        session.collectibles.len() >= 1,
        spec_is_dead(session.creature.body, bounds),
    ensures
        session.settled(bounds).creature == CreatureModel::spawned(bounds),
        session.settled(bounds).collectibles == seq![session.collectibles[0]],
        session.settled(bounds).collectibles.len() == 1,
        session.settled(bounds).phase == Phase::AwaitingRestart,
{
    assert(session.collectibles.subrange(0, 1) =~= seq![session.collectibles[0]]);
}

/// A creature that survives the check is left alone.
pub proof fn lemma_survivor_untouched(session: SessionModel, bounds: Bounds)
    requires
        !spec_is_dead(session.creature.body, bounds),
    ensures
        session.settled(bounds) == session,
        !at_edge(session.creature.head(), bounds),
{
}

/// While a session waits for a restart and no key is held, a frame shows the
/// notice of death and changes nothing.
pub proof fn lemma_waits_for_key(
    session: SessionModel,
    bounds: Bounds,
    fresh: Collectible,
    extra: Collectible,
)
    requires
        session.phase == Phase::AwaitingRestart,
        session.creature.direction == Direction::Idle,
    ensures
        session.frame(Keys::spec_released()) == Frame::DeathScreen,
        session.ticked_with(Keys::spec_released(), bounds, fresh, extra) == session,
{
}

/// A key that is held ends the wait: the frame shows the world and the
/// session plays.
pub proof fn lemma_key_restarts(session: SessionModel, keys: Keys)
    requires
        session.phase == Phase::AwaitingRestart,
        session.creature.direction == Direction::Idle,
        keys.spec_any(),
    ensures
        session.frame(keys) == Frame::World,
        session.began(keys).phase == Phase::Playing,
        session.began(keys).creature.direction != Direction::Idle,
{
    crate::direction::lemma_start_needs_key(keys);
}

} // verus!
