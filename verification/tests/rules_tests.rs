use snek::collectible::Collectible;
use snek::creature::Creature;
use snek::direction::Direction;
use snek::geometry::{Bounds, Position};
use snek::rules::{
    add_at_milestone, add_at_milestone_with, collect_with, find_in_reach, is_at_edge, is_dead,
    milestone_reached, try_collect, BODY_RADIUS, EDGE_MARGIN, MAX_COLLECTIBLES, MILESTONE,
    NECK_LENGTH, PICKUP_RADIUS,
};

fn screen() -> Bounds {
    Bounds { width: 800, height: 600 }
}

fn item(x: i32, y: i32, visual: usize) -> Collectible {
    Collectible { pos: Position { x, y }, visual }
}

/// A creature that lies in a straight line to the left of its head.
fn straight(head_x: i32, head_y: i32, len: usize) -> Creature {
    let mut body = Vec::new();
    for i in 0..len {
        body.push(Position { x: head_x - 2 * (i as i32), y: head_y });
    }
    Creature { body, direction: Direction::Right, score: 0 }
}

#[test]
fn constants_of_the_rules() {
    assert_eq!(PICKUP_RADIUS, 20);
    assert_eq!(EDGE_MARGIN, 2);
    assert_eq!(NECK_LENGTH, 18);
    assert_eq!(BODY_RADIUS, 18);
    assert_eq!(MAX_COLLECTIBLES, 9);
    assert_eq!(MILESTONE, 5);
}

#[test]
fn find_in_reach_gives_the_first_of_several() {
    let head = Position { x: 100, y: 100 };
    let items = vec![item(500, 500, 0), item(110, 100, 1), item(100, 105, 2)];
    assert_eq!(find_in_reach(head, &items), Some(1));
}

#[test]
fn find_in_reach_finds_nothing_out_of_reach() {
    let head = Position { x: 100, y: 100 };
    let items = vec![item(500, 500, 0), item(120, 100, 1), item(100, 80, 2)];
    assert_eq!(find_in_reach(head, &items), None);
    let none: Vec<Collectible> = Vec::new();
    assert_eq!(find_in_reach(head, &none), None);
}

#[test]
fn reach_is_strictly_less_than_twenty() {
    let head = Position { x: 100, y: 100 };
    assert_eq!(find_in_reach(head, &vec![item(120, 100, 0)]), None);
    assert_eq!(find_in_reach(head, &vec![item(119, 100, 0)]), Some(0));
    assert_eq!(find_in_reach(head, &vec![item(112, 116, 0)]), None);
    assert_eq!(find_in_reach(head, &vec![item(112, 115, 0)]), Some(0));
    assert_eq!(find_in_reach(head, &vec![item(100, 100, 0)]), Some(0));
}

#[test]
fn collect_with_replaces_only_the_first_in_reach() {
    let head = Position { x: 100, y: 100 };
    let mut items = vec![item(500, 500, 0), item(110, 100, 1), item(100, 105, 2)];
    let fresh = item(300, 200, 0);
    assert!(collect_with(head, &mut items, fresh));
    assert_eq!(items, vec![item(500, 500, 0), fresh, item(100, 105, 2)]);
}

#[test]
fn collect_with_leaves_all_when_none_in_reach() {
    let head = Position { x: 100, y: 100 };
    let mut items = vec![item(500, 500, 0), item(130, 100, 1)];
    assert!(!collect_with(head, &mut items, item(300, 200, 2)));
    assert_eq!(items, vec![item(500, 500, 0), item(130, 100, 1)]);
}

#[test]
fn try_collect_takes_exactly_one_of_two_in_reach() {
    let head = Position { x: 400, y: 300 };
    for _ in 0..50 {
        let mut items = vec![item(405, 300, 0), item(400, 305, 1), item(50, 50, 2)];
        assert!(try_collect(head, &mut items, screen()));
        assert_eq!(items.len(), 3);
        assert!(16 <= items[0].pos.x && items[0].pos.x <= 784);
        assert!(16 <= items[0].pos.y && items[0].pos.y <= 584);
        assert!(items[0].visual < 3);
        assert_eq!(items[1], item(400, 305, 1));
        assert_eq!(items[2], item(50, 50, 2));
    }
}

#[test]
fn try_collect_moves_the_eaten_one() {
    let head = Position { x: 400, y: 300 };
    let mut moved = false;
    for _ in 0..50 {
        let mut items = vec![item(16, 16, 0), item(400, 300, 0)];
        assert!(try_collect(head, &mut items, screen()));
        assert_eq!(items[0], item(16, 16, 0));
        moved = moved || items[1].pos != Position { x: 400, y: 300 };
    }
    assert!(moved);
}

#[test]
fn try_collect_without_reach_changes_nothing() {
    let head = Position { x: 400, y: 300 };
    let mut items = vec![item(420, 300, 0), item(50, 50, 2)];
    assert!(!try_collect(head, &mut items, screen()));
    assert_eq!(items, vec![item(420, 300, 0), item(50, 50, 2)]);
}

#[test]
fn head_in_the_left_margin_is_dead_whatever_the_body() {
    let lone = Creature {
        body: vec![Position { x: 1, y: 300 }],
        direction: Direction::Left,
        score: 0,
    };
    assert!(is_dead(&lone, screen()));
    let long = straight(1, 300, 40);
    assert!(is_dead(&long, screen()));
    let mut stacked = Creature::new(screen());
    stacked.advance(Position { x: 1, y: 300 }, false);
    assert!(is_dead(&stacked, screen()));
}

#[test]
fn edge_margin_is_strict() {
    let b = screen();
    assert!(is_at_edge(Position { x: 1, y: 300 }, b));
    assert!(!is_at_edge(Position { x: 2, y: 300 }, b));
    assert!(!is_at_edge(Position { x: 798, y: 300 }, b));
    assert!(is_at_edge(Position { x: 799, y: 300 }, b));
    assert!(is_at_edge(Position { x: 400, y: 1 }, b));
    assert!(!is_at_edge(Position { x: 400, y: 2 }, b));
    assert!(!is_at_edge(Position { x: 400, y: 598 }, b));
    assert!(is_at_edge(Position { x: 400, y: 599 }, b));
    assert!(is_at_edge(Position { x: -5, y: 300 }, b));
    assert!(is_at_edge(Position { x: 900, y: 300 }, b));
    assert!(!is_at_edge(Position { x: 3, y: 3 }, b));
    assert!(!is_at_edge(Position { x: 797, y: 597 }, b));
}

#[test]
fn every_head_is_at_the_edge_of_a_tiny_field() {
    let tiny = Bounds { width: 3, height: 3 };
    for x in -1..5 {
        for y in -1..5 {
            assert!(is_at_edge(Position { x, y }, tiny));
        }
    }
    let four = Bounds { width: 4, height: 4 };
    assert!(!is_at_edge(Position { x: 2, y: 2 }, four));
}

#[test]
fn straight_creature_away_from_the_edge_is_alive() {
    assert!(!is_dead(&straight(400, 300, 16), screen()));
    assert!(!is_dead(&straight(400, 300, 100), screen()));
    assert!(!is_dead(&Creature::new(screen()), screen()));
}

#[test]
fn stacked_creature_longer_than_the_neck_is_dead() {
    let mut c = Creature::new(screen());
    assert!(!is_dead(&c, screen()));
    c.grow(2);
    assert_eq!(c.body.len(), 18);
    assert!(!is_dead(&c, screen()));
    c.grow(1);
    assert_eq!(c.body.len(), 19);
    assert!(is_dead(&c, screen()));
}

#[test]
fn only_segments_behind_the_neck_kill() {
    let mut c = straight(400, 300, 30);
    c.body[17] = Position { x: 400, y: 300 };
    assert!(!is_dead(&c, screen()));
    c.body[18] = Position { x: 400, y: 300 };
    assert!(is_dead(&c, screen()));
}

#[test]
fn body_radius_is_strict() {
    let mut c = straight(400, 300, 30);
    c.body[25] = Position { x: 400, y: 318 };
    assert!(!is_dead(&c, screen()));
    c.body[25] = Position { x: 400, y: 317 };
    assert!(is_dead(&c, screen()));
    c.body[25] = Position { x: 400 - 13, y: 300 + 13 };
    assert!(!is_dead(&c, screen()));
    c.body[25] = Position { x: 400 - 12, y: 300 + 13 };
    assert!(is_dead(&c, screen()));
}

#[test]
fn last_segment_counts() {
    let mut c = straight(400, 300, 19);
    assert!(!is_dead(&c, screen()));
    c.body[18] = Position { x: 410, y: 300 };
    assert!(is_dead(&c, screen()));
}

#[test]
fn milestone_needs_a_multiple_of_five_and_room() {
    assert!(milestone_reached(1, 5));
    assert!(milestone_reached(1, 10));
    assert!(milestone_reached(8, 5));
    assert!(!milestone_reached(9, 5));
    assert!(!milestone_reached(10, 5));
    assert!(!milestone_reached(1, 4));
    assert!(!milestone_reached(1, 6));
    assert!(!milestone_reached(1, 1));
    assert!(milestone_reached(0, 0));
    assert!(milestone_reached(8, usize::MAX - usize::MAX % 5));
}

#[test]
fn add_at_milestone_with_appends_the_extra() {
    let mut items = vec![item(50, 50, 0)];
    assert!(add_at_milestone_with(&mut items, 5, item(60, 70, 2)));
    assert_eq!(items, vec![item(50, 50, 0), item(60, 70, 2)]);
    assert!(!add_at_milestone_with(&mut items, 6, item(1, 1, 1)));
    assert_eq!(items, vec![item(50, 50, 0), item(60, 70, 2)]);
}

#[test]
fn add_at_milestone_with_stops_at_the_cap() {
    let mut items = vec![item(50, 50, 0); 8];
    assert!(add_at_milestone_with(&mut items, 40, item(60, 70, 2)));
    assert_eq!(items.len(), 9);
    assert!(!add_at_milestone_with(&mut items, 45, item(60, 70, 2)));
    assert_eq!(items.len(), 9);
}

#[test]
fn add_at_milestone_draws_the_extra() {
    let mut items = vec![item(50, 50, 0)];
    assert!(add_at_milestone(&mut items, 5, screen()));
    assert_eq!(items.len(), 2);
    assert_eq!(items[0], item(50, 50, 0));
    assert!(16 <= items[1].pos.x && items[1].pos.x <= 784);
    assert!(16 <= items[1].pos.y && items[1].pos.y <= 584);
    assert!(items[1].visual < 3);
    assert!(!add_at_milestone(&mut items, 7, screen()));
    assert_eq!(items.len(), 2);
}
