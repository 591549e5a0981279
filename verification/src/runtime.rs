//! The state that lives from tick to tick.
//!
//! The runtime around this library owns one `MyApp`. Once per display
//! refresh it reads the pad and the mixer's clock and calls `update`, which
//! answers with the key events to pass to the engine and tells whether a
//! chunk of audio is due. The engine itself is told a simulated time that
//! advances by one sixtieth of a second per tick, whatever the real clock
//! does.

use vstd::prelude::*;
use crate::input::{button_events, direction_events, buttons_to_keys, directions_to_keys, Directions, KeyEvent, PadState};
use crate::scheduler::{Scheduler, SchedulerView};
use crate::timing::valid_time;

verus! {

/// Ticks of the simulation in one second of simulated time.
pub const FRAMES_PER_SECOND: u64 = 60;

/// Microseconds in a second.
pub const MICROS_PER_SECOND: u64 = 1_000_000;

/// The whole seconds of simulated time after `frames` ticks, as far as 32
/// bits hold them.
pub open spec fn simulated_seconds(frames: int) -> int {
    if frames / (FRAMES_PER_SECOND as int) > i32::MAX {
        i32::MAX as int
    } else {
        frames / (FRAMES_PER_SECOND as int)
    }
}

/// The microseconds of simulated time after `frames` ticks, beyond the
/// whole seconds.
pub open spec fn simulated_micros(frames: int) -> int {
    (frames % (FRAMES_PER_SECOND as int)) * MICROS_PER_SECOND / (FRAMES_PER_SECOND as int)
}

/// What an application state holds, as plain values.
pub struct MyAppView {
    /// Ticks since the start.
    pub frames: int,
    /// The pad as the previous tick read it.
    pub prev_pad: PadState,
    /// The directions held at the previous tick.
    pub prev_directions: Directions,
    pub audio: SchedulerView,
}

/// What one tick asks of the runtime, as plain values.
pub struct FrameView {
    pub buttons: Seq<KeyEvent>,
    pub directions: Seq<KeyEvent>,
    pub audio_due: bool,
}

impl MyAppView {
    /// The state before the first tick.
    pub open spec fn initial() -> MyAppView {
        MyAppView {
            frames: 0,
            prev_pad: PadState { buttons: 0, left_stick_x: 0, left_stick_y: 0, right_stick_x: 0, right_stick_y: 0 },
            prev_directions: Directions { left: false, right: false, up: false, down: false },
            audio: SchedulerView::initial(),
        }
    }

    /// The invariant of an application state.
    pub open spec fn wf(self) -> bool {
        &&& 0 <= self.frames <= u64::MAX
        &&& self.audio.wf()
    }

    /// The state after a tick that read `pad` at host time `now`. The tick
    /// counter stops at the largest number it can hold.
    pub open spec fn update(self, pad: PadState, now: int) -> MyAppView {
        MyAppView {
            frames: if self.frames < u64::MAX {
                self.frames + 1
            } else {
                self.frames
            },
            prev_pad: pad,
            prev_directions: pad.directions(),
            audio: self.audio.poll(now),
        }
    }

    /// What a tick that read `pad` at host time `now` asks of the runtime.
    pub open spec fn frame(self, pad: PadState, now: int) -> FrameView {
        FrameView {
            buttons: button_events(self.prev_pad, pad),
            directions: direction_events(self.prev_directions, pad.directions()),
            audio_due: self.audio.submits(now),
        }
    }
}

/// What one tick asks of the runtime: the key events of the buttons, then
/// those of the directions, and whether a chunk of audio is to be pulled
/// and submitted.
pub struct Frame {
    pub buttons: Vec<KeyEvent>,
    pub directions: Vec<KeyEvent>,
    pub audio_due: bool,
}

impl View for Frame {
    type V = FrameView;

    open spec fn view(&self) -> FrameView {
        FrameView { buttons: self.buttons@, directions: self.directions@, audio_due: self.audio_due }
    }
}

/// The application state.
pub struct MyApp {
    /// Ticks since the start.
    pub frames: u64,
    /// The pad as the previous tick read it.
    pub prev_pad: PadState,
    /// The directions held at the previous tick.
    pub prev_directions: Directions,
    /// The audio frame scheduler.
    pub audio: Scheduler,
}

impl View for MyApp {
    type V = MyAppView;

    open spec fn view(&self) -> MyAppView {
        MyAppView {
            frames: self.frames as int,
            prev_pad: self.prev_pad,
            prev_directions: self.prev_directions,
            audio: self.audio@,
        }
    }
}

impl MyApp {
    /// The state before the first tick.
    pub fn new() -> (app: MyApp)
        ensures
            app@ == MyAppView::initial(),
            app@.wf(),
    {
        MyApp {
            frames: 0,
            prev_pad: PadState::idle(),
            prev_directions: Directions::none(),
            audio: Scheduler::new(),
        }
    }

    /// One tick: takes in the reading `pad` and the host time `now`,
    /// advances the simulated time and the audio schedule, and answers with
    /// what the runtime is to do.
    pub fn update(&mut self, pad: PadState, now: i64) -> (frame: Frame)
        requires
            old(self)@.wf(),
            valid_time(now as int),
        ensures
            final(self)@ == old(self)@.update(pad, now as int),
            final(self)@.wf(),
            frame@ == old(self)@.frame(pad, now as int),
    {
        let held = pad.held_directions();
        let buttons = buttons_to_keys(&self.prev_pad, &pad);
        let directions = directions_to_keys(&self.prev_directions, &held);
        self.prev_pad = pad;
        self.prev_directions = held;
        if self.frames < u64::MAX {
            self.frames = self.frames + 1;
        }
        let audio_due = self.audio.poll(now);
        Frame { buttons, directions, audio_due }
    }

    /// The simulated time to tell the engine: whole seconds and
    /// microseconds.
    pub fn engine_time(&self) -> (time: (i32, i32))
        ensures
            time.0 == simulated_seconds(self@.frames),
            time.1 == simulated_micros(self@.frames),
    {
        let whole: u64 = self.frames / FRAMES_PER_SECOND;
        let seconds: i32 = if whole > 0x7fff_ffff {
            0x7fff_ffff
        } else {
            whole as i32
        };
        let micros: u64 = (self.frames % FRAMES_PER_SECOND) * MICROS_PER_SECOND / FRAMES_PER_SECOND;
        (seconds, micros as i32)
    }
}

/// The time told to the engine is the number of ticks in sixtieths of a
/// second, rounded down to the microsecond: as long as the seconds fit 32
/// bits, it is at most the exact time and less than a microsecond short of
/// it.
pub proof fn lemma_simulated_time(frames: int)
    requires
        0 <= frames,
        frames / (FRAMES_PER_SECOND as int) <= i32::MAX,
    ensures
        0 <= simulated_micros(frames) < MICROS_PER_SECOND,
        ({
            let told = simulated_seconds(frames) * MICROS_PER_SECOND + simulated_micros(frames);
            FRAMES_PER_SECOND * told <= frames * MICROS_PER_SECOND < FRAMES_PER_SECOND * (told + 1)
        }),
{
}

/// The simulated clock and the host clock are apart: what a tick does to
/// the simulated time depends on neither the host time nor the pad, and the
/// simulated time after a tick is one tick later, unless the counter is
/// full.
pub proof fn lemma_clocks_apart(s: MyAppView, pad: PadState, now: int, other_pad: PadState, other_now: int)
    requires
        s.wf(),
    ensures
        s.update(pad, now).frames == s.update(other_pad, other_now).frames,
        s.frames < u64::MAX ==> s.update(pad, now).frames == s.frames + 1,
        s.update(pad, now).frames >= s.frames,
{
}

} // verus!
