use doombox::input::{
    buttons_to_keys, directions_to_keys, push_edge, Button, Directions, KeyEvent, PadState, KEY_BACKSPACE, KEY_COMMA,
    KEY_CTRL, KEY_DOWN_ARROW, KEY_E, KEY_ENTER, KEY_ESCAPE, KEY_PAUSE, KEY_PERIOD, KEY_Q, KEY_SHIFT, KEY_SPACE,
    KEY_TAB, KEY_UP_ARROW, STICK_THRESHOLD,
};

fn pad(buttons: u16) -> PadState {
    PadState { buttons, left_stick_x: 0, left_stick_y: 0, right_stick_x: 0, right_stick_y: 0 }
}

fn stick(x: i16, y: i16) -> PadState {
    PadState { buttons: 0, left_stick_x: x, left_stick_y: y, right_stick_x: 0, right_stick_y: 0 }
}

fn down(key: i32) -> KeyEvent {
    KeyEvent { key, down: true }
}

fn up(key: i32) -> KeyEvent {
    KeyEvent { key, down: false }
}

const ALL_BUTTONS: [Button; 16] = [
    Button::A,
    Button::B,
    Button::X,
    Button::Y,
    Button::Up,
    Button::Down,
    Button::Left,
    Button::Right,
    Button::L1,
    Button::L2,
    Button::L3,
    Button::R1,
    Button::R2,
    Button::R3,
    Button::Select,
    Button::Start,
];

#[test]
fn key_codes() {
    assert_eq!(KEY_CTRL, 157);
    assert_eq!(KEY_SHIFT, 182);
    assert_eq!(KEY_E, 101);
    assert_eq!(KEY_Q, 113);
    assert_eq!(KEY_PAUSE, 255);
    assert_eq!(KEY_SPACE, 32);
    assert_eq!(KEY_ENTER, 13);
    assert_eq!(KEY_BACKSPACE, 127);
    assert_eq!(KEY_ESCAPE, 27);
    assert_eq!(KEY_TAB, 9);
    assert_eq!(KEY_COMMA, 44);
    assert_eq!(KEY_PERIOD, 46);
    assert_eq!(KEY_UP_ARROW, 173);
    assert_eq!(KEY_DOWN_ARROW, 175);
    assert_eq!(STICK_THRESHOLD, 1024);
}

#[test]
fn button_bits_are_consecutive() {
    for (index, button) in ALL_BUTTONS.iter().enumerate() {
        assert_eq!(button.bit(), 1u16 << index);
    }
}

#[test]
fn is_pressed_reads_one_bit() {
    for (index, button) in ALL_BUTTONS.iter().enumerate() {
        assert!(pad(1 << index).is_pressed(*button));
        assert!(!pad(!(1 << index)).is_pressed(*button));
        assert!(pad(0xffff).is_pressed(*button));
        assert!(!pad(0).is_pressed(*button));
    }
}

#[test]
fn idle_pad_is_all_zero() {
    assert_eq!(PadState::idle(), pad(0));
    assert_eq!(Directions::none(), Directions { left: false, right: false, up: false, down: false });
}

#[test]
fn edge_down_up_and_none() {
    let mut events = Vec::new();
    push_edge(&mut events, 5, false, true);
    push_edge(&mut events, 6, true, false);
    push_edge(&mut events, 7, true, true);
    push_edge(&mut events, 8, false, false);
    assert_eq!(events, vec![down(5), up(6)]);
}

#[test]
fn unchanged_pad_yields_no_events() {
    for buttons in [0u16, 0xffff, 0x1234, 0x8001] {
        assert_eq!(buttons_to_keys(&pad(buttons), &pad(buttons)), vec![]);
    }
}

#[test]
fn each_button_maps_to_its_key() {
    let table = [
        (Button::R2, vec![KEY_CTRL]),
        (Button::L2, vec![KEY_SHIFT]),
        (Button::R1, vec![KEY_E]),
        (Button::L1, vec![KEY_Q]),
        (Button::Start, vec![KEY_PAUSE]),
        (Button::A, vec![KEY_SPACE, KEY_ENTER]),
        (Button::B, vec![KEY_BACKSPACE]),
        (Button::X, vec![KEY_ESCAPE]),
        (Button::Select, vec![KEY_TAB]),
        (Button::Y, vec![]),
        (Button::L3, vec![]),
        (Button::R3, vec![]),
        (Button::Up, vec![]),
        (Button::Down, vec![]),
        (Button::Left, vec![]),
        (Button::Right, vec![]),
    ];
    for (button, keys) in table {
        let pressed: Vec<KeyEvent> = keys.iter().map(|&key| down(key)).collect();
        let released: Vec<KeyEvent> = keys.iter().map(|&key| up(key)).collect();
        assert_eq!(buttons_to_keys(&pad(0), &pad(button.bit())), pressed);
        assert_eq!(buttons_to_keys(&pad(button.bit()), &pad(0)), released);
    }
}

#[test]
fn all_buttons_pressed_at_once_come_in_order() {
    let expected = vec![
        down(157),
        down(182),
        down(101),
        down(113),
        down(255),
        down(32),
        down(13),
        down(127),
        down(27),
        down(9),
    ];
    assert_eq!(buttons_to_keys(&pad(0), &pad(0xffff)), expected);
    let released: Vec<KeyEvent> = expected.iter().map(|event| up(event.key)).collect();
    assert_eq!(buttons_to_keys(&pad(0xffff), &pad(0)), released);
}

#[test]
fn press_and_release_in_one_tick() {
    let before = pad(Button::A.bit() | Button::X.bit());
    let after = pad(Button::A.bit() | Button::B.bit());
    assert_eq!(buttons_to_keys(&before, &after), vec![down(127), up(27)]);
}

#[test]
fn directions_from_stick_thresholds() {
    let none = Directions::none();
    assert_eq!(stick(0, 0).held_directions(), none);
    assert_eq!(stick(1024, 1024).held_directions(), none);
    assert_eq!(stick(-1024, -1024).held_directions(), none);
    assert_eq!(stick(1025, 0).held_directions(), Directions { right: true, ..none });
    assert_eq!(stick(-1025, 0).held_directions(), Directions { left: true, ..none });
    assert_eq!(stick(0, 1025).held_directions(), Directions { up: true, ..none });
    assert_eq!(stick(0, -1025).held_directions(), Directions { down: true, ..none });
    assert_eq!(stick(i16::MIN, i16::MAX).held_directions(), Directions { left: true, up: true, ..none });
    assert_eq!(stick(i16::MAX, i16::MIN).held_directions(), Directions { right: true, down: true, ..none });
}

#[test]
fn directions_from_buttons() {
    let none = Directions::none();
    assert_eq!(pad(Button::Left.bit()).held_directions(), Directions { left: true, ..none });
    assert_eq!(pad(Button::Right.bit()).held_directions(), Directions { right: true, ..none });
    assert_eq!(pad(Button::Up.bit()).held_directions(), Directions { up: true, ..none });
    assert_eq!(pad(Button::Down.bit()).held_directions(), Directions { down: true, ..none });
    let both = PadState { buttons: Button::Left.bit(), left_stick_x: 2000, ..pad(0) };
    assert_eq!(both.held_directions(), Directions { left: true, right: true, ..none });
}

#[test]
fn direction_events_come_in_order() {
    let none = Directions::none();
    let all = Directions { left: true, right: true, up: true, down: true };
    assert_eq!(directions_to_keys(&none, &all), vec![down(44), down(46), down(173), down(175)]);
    assert_eq!(directions_to_keys(&all, &none), vec![up(44), up(46), up(173), up(175)]);
    assert_eq!(directions_to_keys(&all, &all), vec![]);
    assert_eq!(directions_to_keys(&none, &none), vec![]);
    let left = Directions { left: true, ..none };
    let right = Directions { right: true, ..none };
    assert_eq!(directions_to_keys(&left, &right), vec![up(44), down(46)]);
}
