use doombox::input::{Button, Directions, KeyEvent, PadState};
use doombox::runtime::{MyApp, FRAMES_PER_SECOND, MICROS_PER_SECOND};
use doombox::tick;
use doombox::timing::{CHUNK_TICKS, LOOKAHEAD_TICKS};

fn pad(buttons: u16) -> PadState {
    PadState { buttons, left_stick_x: 0, left_stick_y: 0, right_stick_x: 0, right_stick_y: 0 }
}

#[test]
fn new_app_is_at_rest() {
    let app = MyApp::new();
    assert_eq!(app.frames, 0);
    assert_eq!(app.prev_pad, PadState::idle());
    assert_eq!(app.prev_directions, Directions::none());
    assert_eq!(app.audio.schedule(), -44100);
    assert_eq!(app.audio.due(), None);
    assert_eq!(app.engine_time(), (0, 0));
}

#[test]
fn tick_counts_frames_and_remembers_the_pad() {
    let mut app = MyApp::new();
    let reading = PadState { buttons: Button::B.bit(), left_stick_x: 3000, left_stick_y: -5, right_stick_x: 9, right_stick_y: 1 };
    let frame = tick(&mut app, reading, 0);
    assert_eq!(app.frames, 1);
    assert_eq!(app.prev_pad, reading);
    assert_eq!(app.prev_directions, Directions { left: false, right: true, up: false, down: false });
    assert_eq!(frame.buttons, vec![KeyEvent { key: 127, down: true }]);
    assert_eq!(frame.directions, vec![KeyEvent { key: 46, down: true }]);
    assert!(frame.audio_due);
}

#[test]
fn tick_and_update_agree() {
    let mut a = MyApp::new();
    let mut b = MyApp::new();
    let readings = [pad(0), pad(1), pad(0x8001), pad(0x8001), pad(0x10), pad(0)];
    let mut now = 0;
    for reading in readings {
        let fa = tick(&mut a, reading, now);
        let fb = b.update(reading, now);
        assert_eq!(fa.buttons, fb.buttons);
        assert_eq!(fa.directions, fb.directions);
        assert_eq!(fa.audio_due, fb.audio_due);
        assert_eq!(a.audio.schedule(), b.audio.schedule());
        now += 735;
    }
}

#[test]
fn held_button_fires_once() {
    let mut app = MyApp::new();
    let first = app.update(pad(Button::R2.bit()), 0);
    assert_eq!(first.buttons, vec![KeyEvent { key: 157, down: true }]);
    let second = app.update(pad(Button::R2.bit()), 735);
    assert_eq!(second.buttons, vec![]);
    let third = app.update(pad(0), 1470);
    assert_eq!(third.buttons, vec![KeyEvent { key: 157, down: false }]);
}

#[test]
fn held_direction_fires_once() {
    let mut app = MyApp::new();
    let up = PadState { left_stick_y: 20000, ..pad(0) };
    assert_eq!(app.update(up, 0).directions, vec![KeyEvent { key: 173, down: true }]);
    assert_eq!(app.update(up, 735).directions, vec![]);
    // the button takes over from the stick without a gap
    assert_eq!(app.update(pad(Button::Up.bit()), 1470).directions, vec![]);
    assert_eq!(app.update(pad(0), 2205).directions, vec![KeyEvent { key: 173, down: false }]);
}

#[test]
fn update_polls_the_scheduler() {
    let mut app = MyApp::new();
    assert!(app.update(pad(0), 0).audio_due);
    assert_eq!(app.audio.due(), Some(LOOKAHEAD_TICKS));
    assert_eq!(app.audio.schedule(), CHUNK_TICKS);
    app.audio.submit(None);
    assert!(app.update(pad(0), 0).audio_due);
    app.audio.submit(None);
    assert!(!app.update(pad(0), 0).audio_due);
    assert_eq!(app.audio.schedule(), 2 * CHUNK_TICKS);
    assert_eq!(app.frames, 3);
}

#[test]
fn engine_time_advances_a_sixtieth_per_tick() {
    assert_eq!(FRAMES_PER_SECOND, 60);
    assert_eq!(MICROS_PER_SECOND, 1_000_000);
    let mut app = MyApp::new();
    let expected = [(0, 16_666), (0, 33_333), (0, 50_000), (0, 66_666)];
    for time in expected {
        app.update(pad(0), 0);
        assert_eq!(app.engine_time(), time);
    }
    for _ in 4..59 {
        app.update(pad(0), 0);
    }
    assert_eq!(app.engine_time(), (0, 983_333));
    app.update(pad(0), 0);
    assert_eq!(app.engine_time(), (1, 0));
    app.update(pad(0), 0);
    assert_eq!(app.engine_time(), (1, 16_666));
}

#[test]
fn engine_time_ignores_the_host_clock() {
    let mut a = MyApp::new();
    let mut b = MyApp::new();
    for k in 0..100 {
        a.update(pad(0), 0);
        b.update(pad(0), 1_000_000 * k);
        assert_eq!(a.engine_time(), b.engine_time());
    }
}

#[test]
fn engine_time_stops_at_the_largest_second() {
    let mut app = MyApp::new();
    app.frames = 60 * (i32::MAX as u64);
    assert_eq!(app.engine_time(), (i32::MAX, 0));
    app.frames = 60 * (i32::MAX as u64) + 61;
    assert_eq!(app.engine_time(), (i32::MAX, 16_666));
    app.frames = u64::MAX;
    assert_eq!(app.engine_time(), (i32::MAX, 250_000));
}

#[test]
fn frame_counter_saturates() {
    let mut app = MyApp::new();
    app.frames = u64::MAX - 1;
    app.update(pad(0), 0);
    assert_eq!(app.frames, u64::MAX);
    app.update(pad(0), 0);
    assert_eq!(app.frames, u64::MAX);
}
