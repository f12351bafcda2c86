//! What decides a frame: whether the head reaches a collectible, whether the
//! creature is dead, and whether a meal brings one more collectible onto the
//! field.

use vstd::prelude::*;
use crate::collectible::Collectible;
use crate::creature::Creature;
use crate::geometry::{is_within, within, Bounds, Position};

verus! {

/// A collectible closer to the head than this is eaten.
pub const PICKUP_RADIUS: u32 = 20;

/// A head closer to an edge of the field than this is dead.
pub const EDGE_MARGIN: i32 = 2;

/// The segments before this index are the neck. They follow the head so
/// closely that they are never counted as a collision.
pub const NECK_LENGTH: usize = 18;

/// A segment behind the neck that is closer to the head than this kills.
pub const BODY_RADIUS: u32 = 18;

/// The field never holds more collectibles than this.
pub const MAX_COLLECTIBLES: usize = 9;

/// Every score that is a multiple of this brings one more collectible.
pub const MILESTONE: usize = 5;

/// Whether the head at `head` reaches `item`.
pub open spec fn in_reach(head: Position, item: Collectible) -> bool {
    within(head, item.pos, PICKUP_RADIUS as int)
}

/// The index of the first collectible at or after `from` that the head
/// reaches, if there is one.
pub open spec fn first_in_reach_from(head: Position, items: Seq<Collectible>, from: int) -> Option<
    int,
>
    decreases items.len() - from,
{
    if from < 0 || from >= items.len() {
        None
    } else if in_reach(head, items[from]) {
        Some(from)
    } else {
        first_in_reach_from(head, items, from + 1)
    }
}

/// The index of the first collectible that the head reaches, if there is one.
pub open spec fn first_in_reach(head: Position, items: Seq<Collectible>) -> Option<int> {
    first_in_reach_from(head, items, 0)
}

/// The collectibles after the head at `head` has had its chance to eat: the
/// first one in reach is replaced by `fresh`, and nothing else changes.
pub open spec fn collected_with(head: Position, items: Seq<Collectible>, fresh: Collectible) -> Seq<
    Collectible,
> {
    match first_in_reach(head, items) {
        Some(k) => items.update(k, fresh),
        None => items,
    }
}

/// Whether the head lies in the margin along an edge of the field, or beyond.
pub open spec fn at_edge(head: Position, bounds: Bounds) -> bool {
    ||| head.x > bounds.width - EDGE_MARGIN
    ||| head.y > bounds.height - EDGE_MARGIN
    ||| head.x < EDGE_MARGIN
    ||| head.y < EDGE_MARGIN
}

/// Whether a segment behind the neck is too close to the head.
pub open spec fn hits_body(body: Seq<Position>) -> bool {
    exists|i: int|
        NECK_LENGTH <= i < body.len() && #[trigger] within(body[i], body[0], BODY_RADIUS as int)
}

/// Whether a creature with this body is dead on a field of the given size.
pub open spec fn spec_is_dead(body: Seq<Position>, bounds: Bounds) -> bool {
    at_edge(body[0], bounds) || hits_body(body)
}

/// Whether a meal that brings the score to `score`, on a field that holds
/// `count` collectibles, brings one more collectible.
pub open spec fn spec_milestone_reached(count: nat, score: nat) -> bool {
    count < MAX_COLLECTIBLES && score % (MILESTONE as nat) == 0
}

/// The collectibles after a meal that brought the score to `score`: `extra`
/// is appended if the milestone rule asks for one more.
pub open spec fn with_milestone(items: Seq<Collectible>, score: nat, extra: Collectible) -> Seq<
    Collectible,
> {
    if spec_milestone_reached(items.len(), score) {
        items.push(extra)
    } else {
        items
    }
}

/// What `first_in_reach_from` finds is in reach, and nothing between `from`
/// and it is; if it finds nothing, nothing from `from` on is in reach.
pub proof fn lemma_first_in_reach_from(head: Position, items: Seq<Collectible>, from: int)
    requires
        0 <= from,
    ensures
        match first_in_reach_from(head, items, from) {
            Some(k) => {
                &&& from <= k < items.len()
                &&& in_reach(head, items[k])
                &&& forall|j: int| from <= j < k ==> !in_reach(head, #[trigger] items[j])
            },
            None => forall|j: int| from <= j < items.len() ==> !in_reach(head, #[trigger] items[j]),
        },
    decreases items.len() - from,
{
    if from < items.len() && !in_reach(head, items[from]) {
        lemma_first_in_reach_from(head, items, from + 1);
    }
}

/// The first collectible in reach is the one with the least index among those
/// in reach; there is none exactly when no collectible is in reach.
pub proof fn lemma_first_in_reach(head: Position, items: Seq<Collectible>)
    ensures
        match first_in_reach(head, items) {
            Some(k) => {
                &&& 0 <= k < items.len()
                &&& in_reach(head, items[k])
                &&& forall|j: int| 0 <= j < k ==> !in_reach(head, #[trigger] items[j])
            },
            None => forall|j: int| 0 <= j < items.len() ==> !in_reach(head, #[trigger] items[j]),
        },
{
    lemma_first_in_reach_from(head, items, 0);
}

/// Finds the first collectible that the head at `head` reaches.
pub fn find_in_reach(head: Position, items: &Vec<Collectible>) -> (found: Option<usize>)
    ensures
        match found {
            Some(k) => first_in_reach(head, items@) == Some(k as int) && k < items@.len(),
            None => first_in_reach(head, items@) is None,
        },
{
    let mut i: usize = 0;
    while i < items.len()
        invariant
            i <= items@.len(),
            first_in_reach(head, items@) == first_in_reach_from(head, items@, i as int),
        decreases items@.len() - i,
    {
        if is_within(head, items[i].pos, PICKUP_RADIUS) {
            proof {
                lemma_first_in_reach_from(head, items@, i as int);
            }
            return Some(i);
        }
        i += 1;
    }
    None
}

/// Lets the head at `head` eat with the replacement given: the first
/// collectible in reach, if there is one, becomes `fresh`. Tells whether one
/// was eaten. At most one is eaten, however many are in reach.
pub fn collect_with(head: Position, items: &mut Vec<Collectible>, fresh: Collectible) -> (collected:
    bool)
    ensures
        collected == first_in_reach(head, old(items)@).is_some(),
        final(items)@ == collected_with(head, old(items)@, fresh),
{
    match find_in_reach(head, items) {
        Some(k) => {
            items.set(k, fresh);
            true
        },
        None => false,
    }
}

/// Lets the head at `head` eat: the first collectible in reach, if there is
/// one, gets a newly drawn place and picture on the spot. Tells whether one
/// was eaten. At most one is eaten, however many are in reach.
pub fn try_collect(head: Position, items: &mut Vec<Collectible>, bounds: Bounds) -> (collected:
    bool)
    ensures
        collected == first_in_reach(head, old(items)@).is_some(),
        exists|fresh: Collectible|
            fresh.fits(bounds) && final(items)@ == #[trigger] collected_with(
                head,
                old(items)@,
                fresh,
            ),
        final(items)@.len() == old(items)@.len(),
        forall|j: int|
            0 <= j < old(items)@.len() && first_in_reach(head, old(items)@) != Some(j)
                ==> final(items)@[j] == old(items)@[j],
        first_in_reach(head, old(items)@) matches Some(k) ==> final(items)@[k].fits(bounds),
{
    proof {
        lemma_first_in_reach(head, items@);
    }
    match find_in_reach(head, items) {
        Some(k) => {
            let mut item = items[k];
            item.respawn(bounds);
            items.set(k, item);
            proof {
                assert(final(items)@ == collected_with(head, old(items)@, item));
            }
            true
        },
        None => {
            proof {
                crate::collectible::lemma_spawn_area_inhabited(bounds);
                let any = Collectible {
                    pos: Position {
                        x: crate::collectible::SPAWN_MARGIN,
                        y: crate::collectible::SPAWN_MARGIN,
                    },
                    visual: 0,
                };
                assert(final(items)@ == collected_with(head, old(items)@, any));
            }
            false
        },
    }
}

/// Tells whether the head lies in the margin along an edge of the field, or
/// beyond.
pub fn is_at_edge(head: Position, bounds: Bounds) -> (edge: bool)
    ensures
        edge == at_edge(head, bounds),
{
    head.x > bounds.width as i32 - EDGE_MARGIN || head.y > bounds.height as i32 - EDGE_MARGIN
        || head.x < EDGE_MARGIN || head.y < EDGE_MARGIN
}

/// Tells whether the creature is dead on a field of the given size: its head
/// lies in the margin along an edge, or a segment behind the neck is too
/// close to the head.
pub fn is_dead(creature: &Creature, bounds: Bounds) -> (dead: bool)
    requires
        creature.wf(),
    ensures
        dead == spec_is_dead(creature@.body, bounds),
{
    let head = creature.head();
    if is_at_edge(head, bounds) {
        return true;
    }
    let mut i: usize = NECK_LENGTH;
    while i < creature.body.len()
        invariant
            NECK_LENGTH <= i,
            creature.wf(),
            head == creature@.body[0],
            forall|j: int|
                NECK_LENGTH <= j < i && j < creature@.body.len() ==> !within(
                    #[trigger] creature@.body[j],
                    head,
                    BODY_RADIUS as int,
                ),
        decreases creature@.body.len() - i,
    {
        if is_within(creature.body[i], head, BODY_RADIUS) {
            return true;
        }
        i += 1;
    }
    false
}

/// Tells whether a meal that brings the score to `score`, on a field that
/// holds `count` collectibles, brings one more collectible.
pub fn milestone_reached(count: usize, score: usize) -> (reached: bool)
    ensures
        reached == spec_milestone_reached(count as nat, score as nat),
{
    count < MAX_COLLECTIBLES && score % MILESTONE == 0
}

/// Applies the milestone rule with the extra collectible given: `extra` is
/// appended if the rule asks for one more.
pub fn add_at_milestone_with(
    items: &mut Vec<Collectible>,
    score: usize,
    extra: Collectible,
) -> (added: bool)
    ensures
        added == spec_milestone_reached(old(items)@.len(), score as nat),
        final(items)@ == with_milestone(old(items)@, score as nat, extra),
{
    if milestone_reached(items.len(), score) {
        items.push(extra);
        true
    } else {
        false
    }
}

/// Applies the milestone rule: a newly drawn collectible is appended if the
/// rule asks for one more.
pub fn add_at_milestone(items: &mut Vec<Collectible>, score: usize, bounds: Bounds) -> (added: bool)
    ensures
        added == spec_milestone_reached(old(items)@.len(), score as nat),
        exists|extra: Collectible|
            extra.fits(bounds) && final(items)@ == #[trigger] with_milestone(
                old(items)@,
                score as nat,
                extra,
            ),
        !added ==> final(items)@ == old(items)@,
        added ==> final(items)@.len() == old(items)@.len() + 1 && final(items)@.last().fits(bounds)
            && final(items)@.drop_last() == old(items)@,
{
    if milestone_reached(items.len(), score) {
        let extra = Collectible::new(bounds);
        items.push(extra);
        proof {
            assert(final(items)@ == with_milestone(old(items)@, score as nat, extra));
            assert(final(items)@.drop_last() =~= old(items)@);
        }
        true
    } else {
        proof {
            crate::collectible::lemma_spawn_area_inhabited(bounds);
            let any = Collectible {
                pos: Position {
                    x: crate::collectible::SPAWN_MARGIN,
                    y: crate::collectible::SPAWN_MARGIN,
                },
                visual: 0,
            };
            assert(final(items)@ == with_milestone(old(items)@, score as nat, any));
        }
        false
    }
}

/// Collection is exclusive: when two collectibles are in reach of the head,
/// only the first in order is replaced, and the other stays as it is.
pub proof fn lemma_only_first_collected(
    head: Position,
    items: Seq<Collectible>,
    fresh: Collectible,
    i: int,
    j: int,
)
    requires
        0 <= i < j < items.len(),
        in_reach(head, items[i]),
        in_reach(head, items[j]),
    ensures
        first_in_reach(head, items) matches Some(k) && k <= i,
        collected_with(head, items, fresh)[j] == items[j],
        collected_with(head, items, fresh).len() == items.len(),
        forall|m: int|
            0 <= m < items.len() && first_in_reach(head, items) != Some(m) ==> collected_with(
                head,
                items,
                fresh,
            )[m] == items[m],
{
    lemma_first_in_reach(head, items);
}

/// The milestone rule never takes the field beyond its cap.
pub proof fn lemma_milestone_cap(items: Seq<Collectible>, score: nat, extra: Collectible)
    requires
        items.len() <= MAX_COLLECTIBLES,
    ensures
        with_milestone(items, score, extra).len() <= MAX_COLLECTIBLES,
        with_milestone(items, score, extra).len() >= items.len(),
{
}

/// Death at the edge: a head closer than the margin to any edge of the
/// field, or beyond it, is dead whatever the body is.
pub proof fn lemma_edge_is_dead(body: Seq<Position>, bounds: Bounds)
    requires
        body.len() > 0,
        body[0].x < EDGE_MARGIN || body[0].y < EDGE_MARGIN || body[0].x > bounds.width
            - EDGE_MARGIN || body[0].y > bounds.height - EDGE_MARGIN,
    ensures
        spec_is_dead(body, bounds),
{
}

/// Life away from the edge: a head at least three units from every edge,
/// with no segment behind the neck too close to it, is alive.
pub proof fn lemma_clear_is_alive(body: Seq<Position>, bounds: Bounds)
    requires
        body.len() > 0,
        3 <= body[0].x <= bounds.width - 3,
        3 <= body[0].y <= bounds.height - 3,
        forall|i: int|
            NECK_LENGTH <= i < body.len() ==> !within(
                #[trigger] body[i],
                body[0],
                BODY_RADIUS as int,
            ),
    ensures
        !spec_is_dead(body, bounds),
{
}

/// A creature no longer than its neck cannot run into itself.
pub proof fn lemma_short_body_is_clear(body: Seq<Position>)
    requires
        body.len() <= NECK_LENGTH,
    ensures
        !hits_body(body),
{
}

} // verus!
