use snek::direction::{Direction, Keys};

fn all_directions() -> [Direction; 5] {
    [Direction::Up, Direction::Down, Direction::Left, Direction::Right, Direction::Idle]
}

#[test]
fn opposite_pairs() {
    assert_eq!(Direction::Up.opposite(), Direction::Down);
    assert_eq!(Direction::Down.opposite(), Direction::Up);
    assert_eq!(Direction::Left.opposite(), Direction::Right);
    assert_eq!(Direction::Right.opposite(), Direction::Left);
    assert_eq!(Direction::Idle.opposite(), Direction::Idle);
}

#[test]
fn opposite_twice_is_the_direction_itself() {
    for d in all_directions() {
        assert_eq!(d.opposite().opposite(), d);
    }
}

#[test]
fn reversal_is_ignored_for_every_direction() {
    for d in [Direction::Up, Direction::Down, Direction::Left, Direction::Right] {
        assert_eq!(d.turned(d.opposite()), d);
        assert_eq!(d.steered(Keys::only(d.opposite())), d);
    }
}

#[test]
fn turn_to_the_side_is_taken() {
    assert_eq!(Direction::Up.turned(Direction::Left), Direction::Left);
    assert_eq!(Direction::Up.turned(Direction::Right), Direction::Right);
    assert_eq!(Direction::Left.turned(Direction::Down), Direction::Down);
    assert_eq!(Direction::Right.turned(Direction::Right), Direction::Right);
}

#[test]
fn turn_from_rest_goes_anywhere() {
    for d in [Direction::Up, Direction::Down, Direction::Left, Direction::Right] {
        assert_eq!(Direction::Idle.turned(d), d);
        assert_eq!(Direction::Idle.steered(Keys::only(d)), d);
    }
}

#[test]
fn request_for_no_direction_changes_nothing() {
    for d in all_directions() {
        assert_eq!(d.turned(Direction::Idle), d);
        assert_eq!(d.steered(Keys::released()), d);
    }
}

#[test]
fn keys_only_holds_one_key() {
    assert_eq!(
        Keys::only(Direction::Up),
        Keys { up: true, down: false, left: false, right: false }
    );
    assert_eq!(
        Keys::only(Direction::Down),
        Keys { up: false, down: true, left: false, right: false }
    );
    assert_eq!(
        Keys::only(Direction::Left),
        Keys { up: false, down: false, left: true, right: false }
    );
    assert_eq!(
        Keys::only(Direction::Right),
        Keys { up: false, down: false, left: false, right: true }
    );
    assert_eq!(Keys::only(Direction::Idle), Keys::released());
    assert_eq!(
        Keys::released(),
        Keys { up: false, down: false, left: false, right: false }
    );
}

#[test]
fn several_keys_are_taken_in_order_right_left_down_up() {
    let right_and_left = Keys { up: false, down: false, left: true, right: true };
    assert_eq!(Direction::Up.steered(right_and_left), Direction::Right);
    assert_eq!(Direction::Idle.steered(right_and_left), Direction::Right);
    assert_eq!(Direction::Left.steered(right_and_left), Direction::Left);

    let down_and_up = Keys { up: true, down: true, left: false, right: false };
    assert_eq!(Direction::Left.steered(down_and_up), Direction::Down);
    assert_eq!(Direction::Up.steered(down_and_up), Direction::Up);

    let all = Keys { up: true, down: true, left: true, right: true };
    assert_eq!(Direction::Idle.steered(all), Direction::Down);
    assert_eq!(Direction::Left.steered(all), Direction::Down);
    assert_eq!(Direction::Up.steered(all), Direction::Down);
}

#[test]
fn two_keys_in_one_frame_can_turn_the_creature_round() {
    let right_and_down = Keys { up: false, down: true, left: false, right: true };
    assert_eq!(Direction::Up.steered(right_and_down), Direction::Down);
    let left_and_up = Keys { up: true, down: false, left: true, right: false };
    assert_eq!(Direction::Down.steered(left_and_up), Direction::Up);
}

#[test]
fn steering_never_stops_a_moving_creature() {
    for d in [Direction::Up, Direction::Down, Direction::Left, Direction::Right] {
        for bits in 0..16u8 {
            let keys = Keys {
                up: bits & 1 != 0,
                down: bits & 2 != 0,
                left: bits & 4 != 0,
                right: bits & 8 != 0,
            };
            assert_ne!(d.steered(keys), Direction::Idle);
        }
    }
}
