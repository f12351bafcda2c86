use snek::direction::Direction;
use snek::geometry::{distance, distance_squared, is_within, Bounds, Position, STEP};

#[test]
fn distance_squared_of_three_four_is_twenty_five() {
    let a = Position { x: 0, y: 0 };
    let b = Position { x: 3, y: 4 };
    assert_eq!(distance_squared(a, b), 25);
    assert_eq!(distance_squared(b, a), 25);
}

#[test]
fn distance_squared_of_a_point_to_itself_is_zero() {
    let a = Position { x: -7, y: 123 };
    assert_eq!(distance_squared(a, a), 0);
}

#[test]
fn distance_squared_with_negative_coordinates() {
    let a = Position { x: -5, y: -5 };
    let b = Position { x: 5, y: 5 };
    assert_eq!(distance_squared(a, b), 200);
}

#[test]
fn distance_squared_across_the_whole_range_is_exact() {
    let a = Position { x: i32::MIN, y: i32::MIN };
    let b = Position { x: i32::MAX, y: i32::MAX };
    let gap: u128 = 4294967295;
    assert_eq!(distance_squared(a, b), 2 * gap * gap);
    assert_eq!(distance_squared(a, b), 36893488130239234050);
}

#[test]
fn is_within_is_strict_at_the_radius() {
    let origin = Position { x: 0, y: 0 };
    assert!(is_within(origin, Position { x: 19, y: 0 }, 20));
    assert!(!is_within(origin, Position { x: 20, y: 0 }, 20));
    assert!(!is_within(origin, Position { x: 12, y: 16 }, 20));
    assert!(is_within(origin, Position { x: 12, y: 15 }, 20));
    assert!(!is_within(origin, Position { x: 21, y: 0 }, 20));
}

#[test]
fn is_within_radius_zero_holds_of_nothing() {
    let origin = Position { x: 0, y: 0 };
    assert!(!is_within(origin, origin, 0));
    assert!(is_within(origin, origin, 1));
}

#[test]
fn is_within_with_the_largest_radius() {
    let a = Position { x: i32::MIN, y: 0 };
    let b = Position { x: i32::MAX, y: 0 };
    assert!(!is_within(a, b, u32::MAX));
    let c = Position { x: i32::MAX - 1, y: 0 };
    assert!(is_within(a, c, u32::MAX));
}

#[test]
fn center_of_even_and_odd_fields() {
    assert_eq!(Bounds { width: 800, height: 600 }.center(), Position { x: 400, y: 300 });
    assert_eq!(Bounds { width: 801, height: 601 }.center(), Position { x: 400, y: 300 });
    assert_eq!(Bounds { width: 0, height: 1 }.center(), Position { x: 0, y: 0 });
    assert_eq!(
        Bounds { width: 65535, height: 65535 }.center(),
        Position { x: 32767, y: 32767 }
    );
}

#[test]
fn stepped_moves_two_units_in_each_direction() {
    let p = Position { x: 400, y: 300 };
    assert_eq!(STEP, 2);
    assert_eq!(p.stepped(Direction::Right), Position { x: 402, y: 300 });
    assert_eq!(p.stepped(Direction::Left), Position { x: 398, y: 300 });
    assert_eq!(p.stepped(Direction::Up), Position { x: 400, y: 298 });
    assert_eq!(p.stepped(Direction::Down), Position { x: 400, y: 302 });
}

#[test]
fn stepped_nowhere_stays() {
    let p = Position { x: -3, y: 9 };
    assert_eq!(p.stepped(Direction::Idle), p);
}

#[test]
fn stepped_at_the_last_coordinates_that_can_step() {
    let p = Position { x: i32::MAX - 2, y: i32::MIN + 2 };
    assert_eq!(p.stepped(Direction::Right), Position { x: i32::MAX, y: i32::MIN + 2 });
    assert_eq!(p.stepped(Direction::Up), Position { x: i32::MAX - 2, y: i32::MIN });
}

#[test]
fn distance_is_the_euclidean_distance_rounded_down() {
    let origin = Position { x: 0, y: 0 };
    assert_eq!(distance(origin, Position { x: 3, y: 4 }), 5);
    assert_eq!(distance(origin, Position { x: 1, y: 1 }), 1);
    assert_eq!(distance(origin, Position { x: 10, y: 10 }), 14);
    assert_eq!(distance(origin, Position { x: 0, y: 20 }), 20);
    assert_eq!(distance(origin, Position { x: 12, y: 16 }), 20);
    assert_eq!(distance(origin, Position { x: 12, y: 15 }), 19);
    assert_eq!(distance(origin, origin), 0);
    assert_eq!(distance(Position { x: -3, y: 0 }, Position { x: 0, y: -4 }), 5);
}

#[test]
fn distance_across_the_whole_range() {
    let a = Position { x: i32::MIN, y: i32::MIN };
    let b = Position { x: i32::MAX, y: i32::MAX };
    assert_eq!(distance(a, b), 6074000998);
    let c = Position { x: i32::MAX, y: i32::MIN };
    assert_eq!(distance(a, c), 4294967295);
}

#[test]
fn distance_below_a_radius_is_nearness() {
    let origin = Position { x: 0, y: 0 };
    for x in 0..30 {
        for y in 0..30 {
            let p = Position { x, y };
            assert_eq!(distance(origin, p) < 20, is_within(origin, p, 20));
            assert_eq!(distance(origin, p) < 18, is_within(origin, p, 18));
        }
    }
}
