//! Turning gamepad states into the engine's key events.
//!
//! The engine is driven by key-down and key-up events. Each tick the new
//! state of the pad is held against the previous one, and every button or
//! direction that changed yields the events of the key it stands for.

use vstd::prelude::*;

verus! {

pub const KEY_TAB: i32 = 9;

pub const KEY_ENTER: i32 = 13;

pub const KEY_ESCAPE: i32 = 27;

pub const KEY_SPACE: i32 = 32;

pub const KEY_COMMA: i32 = 44;

pub const KEY_PERIOD: i32 = 46;

pub const KEY_E: i32 = 101;

pub const KEY_Q: i32 = 113;

pub const KEY_BACKSPACE: i32 = 127;

pub const KEY_CTRL: i32 = 0x80 + 0x1d;

pub const KEY_SHIFT: i32 = 0x80 + 0x36;

pub const KEY_UP_ARROW: i32 = 0xad;

pub const KEY_DOWN_ARROW: i32 = 0xaf;

pub const KEY_PAUSE: i32 = 0xff;

/// How far a stick must leave its centre to count as a direction.
pub const STICK_THRESHOLD: i16 = 1024;

/// A button of the pad.
#[derive(Clone, Copy, PartialEq, Eq, Structural, Debug)]
pub enum Button {
    A,
    B,
    X,
    Y,
    Up,
    Down,
    Left,
    Right,
    L1,
    L2,
    L3,
    R1,
    R2,
    R3,
    Select,
    Start,
}

impl Button {
    /// The button's bit in a pad's button mask.
    pub open spec fn mask(self) -> u16 {
        match self {
            Button::A => 0x0001,
            Button::B => 0x0002,
            Button::X => 0x0004,
            Button::Y => 0x0008,
            Button::Up => 0x0010,
            Button::Down => 0x0020,
            Button::Left => 0x0040,
            Button::Right => 0x0080,
            Button::L1 => 0x0100,
            Button::L2 => 0x0200,
            Button::L3 => 0x0400,
            Button::R1 => 0x0800,
            Button::R2 => 0x1000,
            Button::R3 => 0x2000,
            Button::Select => 0x4000,
            Button::Start => 0x8000,
        }
    }

    /// The button's bit in a pad's button mask.
    pub fn bit(self) -> (bit: u16)
        ensures
            bit == self.mask(),
    {
        match self {
            Button::A => 0x0001,
            Button::B => 0x0002,
            Button::X => 0x0004,
            Button::Y => 0x0008,
            Button::Up => 0x0010,
            Button::Down => 0x0020,
            Button::Left => 0x0040,
            Button::Right => 0x0080,
            Button::L1 => 0x0100,
            Button::L2 => 0x0200,
            Button::L3 => 0x0400,
            Button::R1 => 0x0800,
            Button::R2 => 0x1000,
            Button::R3 => 0x2000,
            Button::Select => 0x4000,
            Button::Start => 0x8000,
        }
    }
}

/// One reading of the pad: the mask of pressed buttons and the positions of
/// both sticks.
#[derive(Clone, Copy, PartialEq, Eq, Structural, Debug)]
pub struct PadState {
    pub buttons: u16,
    pub left_stick_x: i16,
    pub left_stick_y: i16,
    pub right_stick_x: i16,
    pub right_stick_y: i16,
}

/// The four directions of movement, each held or not.
#[derive(Clone, Copy, PartialEq, Eq, Structural, Debug)]
pub struct Directions {
    pub left: bool,
    pub right: bool,
    pub up: bool,
    pub down: bool,
}

/// A key going down or up.
#[derive(Clone, Copy, PartialEq, Eq, Structural, Debug)]
pub struct KeyEvent {
    pub key: i32,
    pub down: bool,
}

/// The events of one key whose control was held or not `before` and is held
/// or not `after`: a key-down when it was pressed, a key-up when it was let
/// go, nothing when it did not change.
pub open spec fn edge(key: i32, before: bool, after: bool) -> Seq<KeyEvent> {
    if after && !before {
        seq![KeyEvent { key, down: true }]
    } else if !after && before {
        seq![KeyEvent { key, down: false }]
    } else {
        Seq::empty()
    }
}

/// The events of the button that stands for `key`, between two readings.
pub open spec fn button_edge(key: i32, button: Button, previous: PadState, current: PadState) -> Seq<KeyEvent> {
    edge(key, previous.pressed(button), current.pressed(button))
}

/// The events of all mapped buttons between two readings, in the order in
/// which the engine receives them. The A button stands for two keys.
pub open spec fn button_events(previous: PadState, current: PadState) -> Seq<KeyEvent> {
    button_edge(KEY_CTRL, Button::R2, previous, current)
        + button_edge(KEY_SHIFT, Button::L2, previous, current)
        + button_edge(KEY_E, Button::R1, previous, current)
        + button_edge(KEY_Q, Button::L1, previous, current)
        + button_edge(KEY_PAUSE, Button::Start, previous, current)
        + button_edge(KEY_SPACE, Button::A, previous, current)
        + button_edge(KEY_ENTER, Button::A, previous, current)
        + button_edge(KEY_BACKSPACE, Button::B, previous, current)
        + button_edge(KEY_ESCAPE, Button::X, previous, current)
        + button_edge(KEY_TAB, Button::Select, previous, current)
}

/// The events of the four directions between two ticks.
pub open spec fn direction_events(previous: Directions, current: Directions) -> Seq<KeyEvent> {
    edge(KEY_COMMA, previous.left, current.left)
        + edge(KEY_PERIOD, previous.right, current.right)
        + edge(KEY_UP_ARROW, previous.up, current.up)
        + edge(KEY_DOWN_ARROW, previous.down, current.down)
}

impl PadState {
    /// Whether `button` is pressed in this reading.
    pub open spec fn pressed(self, button: Button) -> bool {
        self.buttons & button.mask() == button.mask()
    }

    /// The directions this reading holds: the left stick beyond the
    /// threshold, or the directional button.
    pub open spec fn directions(self) -> Directions {
        Directions {
            left: self.left_stick_x < -STICK_THRESHOLD || self.pressed(Button::Left),
            right: self.left_stick_x > STICK_THRESHOLD || self.pressed(Button::Right),
            up: self.left_stick_y > STICK_THRESHOLD || self.pressed(Button::Up),
            down: self.left_stick_y < -STICK_THRESHOLD || self.pressed(Button::Down),
        }
    }

    /// A pad at rest: no button pressed, both sticks centred.
    pub fn idle() -> (pad: PadState)
        ensures
            pad == (PadState { buttons: 0, left_stick_x: 0, left_stick_y: 0, right_stick_x: 0, right_stick_y: 0 }),
    {
        PadState { buttons: 0, left_stick_x: 0, left_stick_y: 0, right_stick_x: 0, right_stick_y: 0 }
    }

    /// Whether `button` is pressed in this reading.
    pub fn is_pressed(&self, button: Button) -> (pressed: bool)
        ensures
            pressed == self.pressed(button),
    {
        let bit: u16 = button.bit();
        self.buttons & bit == bit
    }

    /// The directions this reading holds.
    pub fn held_directions(&self) -> (held: Directions)
        ensures
            held == self.directions(),
    {
        Directions {
            left: self.left_stick_x < -STICK_THRESHOLD || self.is_pressed(Button::Left),
            right: self.left_stick_x > STICK_THRESHOLD || self.is_pressed(Button::Right),
            up: self.left_stick_y > STICK_THRESHOLD || self.is_pressed(Button::Up),
            down: self.left_stick_y < -STICK_THRESHOLD || self.is_pressed(Button::Down),
        }
    }
}

impl Directions {
    /// No direction held.
    pub fn none() -> (held: Directions)
        ensures
            held == (Directions { left: false, right: false, up: false, down: false }),
    {
        Directions { left: false, right: false, up: false, down: false }
    }
}

/// Appends to `events` the events of one key whose control was held or not
/// `before` and is held or not `after`.
pub fn push_edge(events: &mut Vec<KeyEvent>, key: i32, before: bool, after: bool)
    ensures
        final(events)@ == old(events)@ + edge(key, before, after),
{
    if after && !before {
        events.push(KeyEvent { key, down: true });
    } else if !after && before {
        events.push(KeyEvent { key, down: false });
    }
    assert(events@ =~= old(events)@ + edge(key, before, after));
}

/// Appends to `events` the events of the button that stands for `key`.
fn push_button_edge(events: &mut Vec<KeyEvent>, key: i32, button: Button, previous: &PadState, current: &PadState)
    ensures
        final(events)@ == old(events)@ + button_edge(key, button, *previous, *current),
{
    push_edge(events, key, previous.is_pressed(button), current.is_pressed(button));
}

/// The key events of all mapped buttons between the readings `previous` and
/// `current`.
pub fn buttons_to_keys(previous: &PadState, current: &PadState) -> (events: Vec<KeyEvent>)
    ensures
        events@ == button_events(*previous, *current),
{
    let mut events: Vec<KeyEvent> = Vec::new();
    push_button_edge(&mut events, KEY_CTRL, Button::R2, previous, current);
    push_button_edge(&mut events, KEY_SHIFT, Button::L2, previous, current);
    push_button_edge(&mut events, KEY_E, Button::R1, previous, current);
    push_button_edge(&mut events, KEY_Q, Button::L1, previous, current);
    push_button_edge(&mut events, KEY_PAUSE, Button::Start, previous, current);
    push_button_edge(&mut events, KEY_SPACE, Button::A, previous, current);
    push_button_edge(&mut events, KEY_ENTER, Button::A, previous, current);
    push_button_edge(&mut events, KEY_BACKSPACE, Button::B, previous, current);
    push_button_edge(&mut events, KEY_ESCAPE, Button::X, previous, current);
    push_button_edge(&mut events, KEY_TAB, Button::Select, previous, current);
    assert(events@ =~= button_events(*previous, *current));
    events
}

/// The key events of the four directions between two ticks.
pub fn directions_to_keys(previous: &Directions, current: &Directions) -> (events: Vec<KeyEvent>)
    ensures
        events@ == direction_events(*previous, *current),
{
    let mut events: Vec<KeyEvent> = Vec::new();
    push_edge(&mut events, KEY_COMMA, previous.left, current.left);
    push_edge(&mut events, KEY_PERIOD, previous.right, current.right);
    push_edge(&mut events, KEY_UP_ARROW, previous.up, current.up);
    push_edge(&mut events, KEY_DOWN_ARROW, previous.down, current.down);
    assert(events@ =~= direction_events(*previous, *current));
    events
}

} // verus!
