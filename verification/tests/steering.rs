use snake::{HeldKeys, Key, SnakeDirection};

const HEADINGS: [SnakeDirection; 4] = [
    SnakeDirection::UP,
    SnakeDirection::DOWN,
    SnakeDirection::LEFT,
    SnakeDirection::RIGHT,
];

const INPUTS: [Option<Key>; 6] = [
    None,
    Some(Key::Left),
    Some(Key::Right),
    Some(Key::Up),
    Some(Key::Down),
    Some(Key::Other),
];

fn reverse_of(heading: SnakeDirection) -> SnakeDirection {
    match heading {
        SnakeDirection::UP => SnakeDirection::DOWN,
        SnakeDirection::DOWN => SnakeDirection::UP,
        SnakeDirection::LEFT => SnakeDirection::RIGHT,
        SnakeDirection::RIGHT => SnakeDirection::LEFT,
    }
}

#[test]
fn left_is_obeyed_only_while_travelling_up_or_down() {
    assert_eq!(SnakeDirection::UP.turn(Some(Key::Left)), SnakeDirection::LEFT);
    assert_eq!(SnakeDirection::DOWN.turn(Some(Key::Left)), SnakeDirection::LEFT);
    assert_eq!(SnakeDirection::LEFT.turn(Some(Key::Left)), SnakeDirection::LEFT);
    assert_eq!(SnakeDirection::RIGHT.turn(Some(Key::Left)), SnakeDirection::RIGHT);
}

#[test]
fn right_is_obeyed_only_while_travelling_up_or_down() {
    assert_eq!(SnakeDirection::UP.turn(Some(Key::Right)), SnakeDirection::RIGHT);
    assert_eq!(SnakeDirection::DOWN.turn(Some(Key::Right)), SnakeDirection::RIGHT);
    assert_eq!(SnakeDirection::LEFT.turn(Some(Key::Right)), SnakeDirection::LEFT);
    assert_eq!(SnakeDirection::RIGHT.turn(Some(Key::Right)), SnakeDirection::RIGHT);
}

#[test]
fn up_is_obeyed_only_while_travelling_left_or_right() {
    assert_eq!(SnakeDirection::LEFT.turn(Some(Key::Up)), SnakeDirection::UP);
    assert_eq!(SnakeDirection::RIGHT.turn(Some(Key::Up)), SnakeDirection::UP);
    assert_eq!(SnakeDirection::UP.turn(Some(Key::Up)), SnakeDirection::UP);
    assert_eq!(SnakeDirection::DOWN.turn(Some(Key::Up)), SnakeDirection::DOWN);
}

#[test]
fn down_is_obeyed_only_while_travelling_left_or_right() {
    assert_eq!(SnakeDirection::LEFT.turn(Some(Key::Down)), SnakeDirection::DOWN);
    assert_eq!(SnakeDirection::RIGHT.turn(Some(Key::Down)), SnakeDirection::DOWN);
    assert_eq!(SnakeDirection::UP.turn(Some(Key::Down)), SnakeDirection::UP);
    assert_eq!(SnakeDirection::DOWN.turn(Some(Key::Down)), SnakeDirection::DOWN);
}

#[test]
fn no_key_and_other_keys_change_nothing() {
    for heading in HEADINGS {
        assert_eq!(heading.turn(None), heading);
        assert_eq!(heading.turn(Some(Key::Other)), heading);
    }
}

#[test]
fn no_input_reverses_any_heading() {
    for heading in HEADINGS {
        for input in INPUTS {
            assert_ne!(heading.turn(input), reverse_of(heading));
        }
    }
}

#[test]
fn left_then_right_stays_left() {
    let heading = SnakeDirection::UP;
    let heading = heading.turn(Some(Key::Left));
    assert_eq!(heading, SnakeDirection::LEFT);
    let heading = heading.turn(Some(Key::Right));
    assert_eq!(heading, SnakeDirection::LEFT);
}

#[test]
fn reversing_takes_two_quarter_turns() {
    let heading = SnakeDirection::UP.turn(Some(Key::Down));
    assert_eq!(heading, SnakeDirection::UP);
    let heading = heading.turn(Some(Key::Right)).turn(Some(Key::Down));
    assert_eq!(heading, SnakeDirection::DOWN);
}

#[test]
fn nothing_held_gives_no_key() {
    let held = HeldKeys { left: false, right: false, up: false, down: false };
    assert_eq!(held.first(), None);
}

#[test]
fn a_single_held_key_is_taken() {
    let none = HeldKeys { left: false, right: false, up: false, down: false };
    assert_eq!(HeldKeys { left: true, ..none }.first(), Some(Key::Left));
    assert_eq!(HeldKeys { right: true, ..none }.first(), Some(Key::Right));
    assert_eq!(HeldKeys { up: true, ..none }.first(), Some(Key::Up));
    assert_eq!(HeldKeys { down: true, ..none }.first(), Some(Key::Down));
}

#[test]
fn held_keys_are_taken_left_right_up_down() {
    let all = HeldKeys { left: true, right: true, up: true, down: true };
    assert_eq!(all.first(), Some(Key::Left));
    assert_eq!(HeldKeys { left: false, ..all }.first(), Some(Key::Right));
    assert_eq!(HeldKeys { left: false, right: false, ..all }.first(), Some(Key::Up));
    assert_eq!(
        HeldKeys { left: false, right: false, up: false, down: true }.first(),
        Some(Key::Down)
    );
}

#[test]
fn only_the_first_held_key_counts() {
    // Travelling left with left and up held: left goes first and is along
    // the current axis, so the heading stays, although up alone would turn.
    let held = HeldKeys { left: true, right: false, up: true, down: false };
    assert_eq!(SnakeDirection::LEFT.turn(held.first()), SnakeDirection::LEFT);
    let up_only = HeldKeys { left: false, right: false, up: true, down: false };
    assert_eq!(SnakeDirection::LEFT.turn(up_only.first()), SnakeDirection::UP);
}
