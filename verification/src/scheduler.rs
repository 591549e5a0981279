//! The audio frame scheduler.
//!
//! Once per simulation tick the surrounding runtime reads the mixer's clock
//! and asks the scheduler, with `poll`, whether the next chunk is due. If it
//! is, the runtime pulls a chunk from the engine and passes it to
//! `process_audio`, creates a mixer buffer from each sequence that comes
//! back, and reports the handles to `submit`, which files them in the
//! rotating pools and answers with the commands to enqueue and the buffers
//! to let go.

use vstd::prelude::*;
use crate::pool::{next_slot, stored, BufferPool, Retained};
use crate::stitch::{channel_of, deinterleave, rescale, stitch, stitch_output};
use crate::timing::{valid_time, CHUNK_FRAMES, CHUNK_SAMPLES, CHUNK_TICKS, LOOKAHEAD_TICKS, POOL_CAPACITY, TIME_LIMIT};
use crate::voice::{push_voice_program, voice_program, VoiceCommand};

verus! {

/// The voice that plays the left channel.
pub const LEFT_VOICE: i32 = 0;

/// The voice that plays the right channel.
pub const RIGHT_VOICE: i32 = 1;

/// Pan of the left channel: full left.
pub const LEFT_PAN: i32 = -1000;

/// Pan of the right channel: full right.
pub const RIGHT_PAN: i32 = 1000;

/// The schedule clock of a new scheduler: one second before the origin of
/// the mixer's clock, so that the first poll resynchronizes.
pub const INITIAL_SCHEDULE: i64 = -44_100;

/// The schedule clock after resynchronizing at host time `now`: a clock that
/// fell behind is set to the host time.
pub open spec fn resynced(schedule: int, now: int) -> int {
    if schedule < now {
        now
    } else {
        schedule
    }
}

/// The submission gate: a chunk is submitted at host time `now` once the
/// schedule clock is at most one look-ahead away.
pub open spec fn gate_open(schedule: int, now: int) -> bool {
    now >= schedule - LOOKAHEAD_TICKS
}

/// What a scheduler holds, as plain values.
pub struct SchedulerView {
    /// The schedule clock: when the next chunk is meant to start playing.
    pub schedule: int,
    /// The pool slot that the next submission writes.
    pub cursor: int,
    /// The start time of the chunk that `poll` found due and `submit` has
    /// not yet filed.
    pub due: Option<int>,
    pub pending_left: Option<Seq<i16>>,
    pub pending_right: Option<Seq<i16>>,
    pub pool_left: Seq<Option<Retained>>,
    pub pool_right: Seq<Option<Retained>>,
}

/// What one submission asks of the runtime, as plain values.
pub struct SubmissionView {
    pub commands: Seq<VoiceCommand>,
    pub released_left: Option<Retained>,
    pub released_right: Option<Retained>,
}

impl SchedulerView {
    /// The scheduler before its first tick.
    pub open spec fn initial() -> SchedulerView {
        SchedulerView {
            schedule: INITIAL_SCHEDULE as int,
            cursor: 0,
            due: None,
            pending_left: None,
            pending_right: None,
            pool_left: Seq::new(POOL_CAPACITY as nat, |i: int| None::<Retained>),
            pool_right: Seq::new(POOL_CAPACITY as nat, |i: int| None::<Retained>),
        }
    }

    /// The start time of the chunk that was last found due.
    pub open spec fn latest_start(self) -> int {
        self.schedule + LOOKAHEAD_TICKS - CHUNK_TICKS
    }

    /// How many submissions ago `slot` was last the one to write: one for
    /// the slot before the cursor, `POOL_CAPACITY` for the cursor's own.
    pub open spec fn rounds_since(self, slot: int) -> int {
        if next_slot(slot) == self.cursor {
            1
        } else if next_slot(next_slot(slot)) == self.cursor {
            2
        } else {
            3
        }
    }

    /// By how much the start time of a buffer in `slot` lies before
    /// `latest_start`, at the least: one chunk duration for each round that
    /// began a chunk after the buffer's own.
    pub open spec fn lead(self, slot: int) -> int {
        if self.due is Some {
            self.rounds_since(slot) * CHUNK_TICKS
        } else {
            (self.rounds_since(slot) - 1) * CHUNK_TICKS
        }
    }

    /// Whether every buffer in `pool` is as old as its slot says.
    pub open spec fn settled(self, pool: Seq<Option<Retained>>) -> bool {
        forall|slot: int|
            0 <= slot < POOL_CAPACITY ==> (#[trigger] pool[slot] matches Some(held) ==> held.start
                + self.lead(slot) <= self.latest_start())
    }

    /// The invariant of a scheduler.
    pub open spec fn wf(self) -> bool {
        &&& -TIME_LIMIT <= self.schedule <= TIME_LIMIT + LOOKAHEAD_TICKS + CHUNK_TICKS
        &&& 0 <= self.cursor < POOL_CAPACITY
        &&& self.due matches Some(start) ==> start == self.latest_start()
        &&& self.pending_left is Some <==> self.pending_right is Some
        &&& self.pending_left matches Some(samples) ==> samples.len() == CHUNK_FRAMES
        &&& self.pending_right matches Some(samples) ==> samples.len() == CHUNK_FRAMES
        &&& self.pool_left.len() == POOL_CAPACITY
        &&& self.pool_right.len() == POOL_CAPACITY
        &&& self.settled(self.pool_left)
        &&& self.settled(self.pool_right)
    }

    /// Whether a tick at host time `now` submits a chunk, which is decided
    /// on the resynchronized clock.
    pub open spec fn submits(self, now: int) -> bool {
        gate_open(resynced(self.schedule, now), now)
    }

    /// The scheduler after the tick at host time `now`. The clock is
    /// resynchronized; if a chunk is to be submitted, it is due to start one
    /// look-ahead after the clock, and the clock advances by one chunk.
    pub open spec fn poll(self, now: int) -> SchedulerView {
        let clock = resynced(self.schedule, now);
        if gate_open(clock, now) {
            SchedulerView { schedule: clock + CHUNK_TICKS, due: Some(clock + LOOKAHEAD_TICKS), ..self }
        } else {
            SchedulerView { schedule: clock, ..self }
        }
    }

    /// The sequences to create buffers from when `chunk` arrives: both
    /// channels' pending sequences, stitched, or nothing if none is pending.
    pub open spec fn stitched(self, chunk: Seq<i16>) -> Option<(Seq<i16>, Seq<i16>)> {
        match (
            stitch_output(self.pending_left, channel_of(chunk, 0)),
            stitch_output(self.pending_right, channel_of(chunk, 1)),
        ) {
            (Some(left), Some(right)) => Some((left, right)),
            _ => None,
        }
    }

    /// The scheduler after `chunk` arrived: its channels are pending.
    pub open spec fn process_audio(self, chunk: Seq<i16>) -> SchedulerView {
        SchedulerView {
            pending_left: Some(channel_of(chunk, 0)),
            pending_right: Some(channel_of(chunk, 1)),
            ..self
        }
    }

    /// The scheduler after the due chunk was filed with the handles
    /// `uploaded` of its left and right buffers, if any were created. The
    /// buffers go into the cursor's slots and the cursor moves on. Without a
    /// due chunk nothing changes.
    pub open spec fn submit(self, uploaded: Option<(i32, i32)>) -> SchedulerView {
        match self.due {
            Some(start) => SchedulerView {
                cursor: next_slot(self.cursor),
                due: None,
                pool_left: match uploaded {
                    Some(handles) => stored(
                        self.pool_left,
                        self.cursor,
                        Retained { handle: handles.0, start: start as i64 },
                    ),
                    None => self.pool_left,
                },
                pool_right: match uploaded {
                    Some(handles) => stored(
                        self.pool_right,
                        self.cursor,
                        Retained { handle: handles.1, start: start as i64 },
                    ),
                    None => self.pool_right,
                },
                ..self
            },
            None => self,
        }
    }

    /// What filing the due chunk asks of the runtime: the left voice is
    /// programmed, then the right, both at the chunk's start time, and what
    /// the cursor's slots held is released.
    pub open spec fn submission(self, uploaded: Option<(i32, i32)>) -> SubmissionView {
        match (self.due, uploaded) {
            (Some(start), Some(handles)) => SubmissionView {
                commands: voice_program(handles.0, LEFT_VOICE, LEFT_PAN, start as i64) + voice_program(
                    handles.1,
                    RIGHT_VOICE,
                    RIGHT_PAN,
                    start as i64,
                ),
                released_left: self.pool_left[self.cursor],
                released_right: self.pool_right[self.cursor],
            },
            _ => SubmissionView { commands: Seq::empty(), released_left: None, released_right: None },
        }
    }
}

/// What one submission asks of the runtime: the commands to enqueue, in
/// order, and the buffers that left the pools and may be freed.
pub struct Submission {
    pub commands: Vec<VoiceCommand>,
    pub released_left: Option<Retained>,
    pub released_right: Option<Retained>,
}

impl View for Submission {
    type V = SubmissionView;

    open spec fn view(&self) -> SubmissionView {
        SubmissionView {
            commands: self.commands@,
            released_left: self.released_left,
            released_right: self.released_right,
        }
    }
}

/// The scheduler: schedule clock, pending sequences and buffer pools of
/// both channels.
pub struct Scheduler {
    schedule: i64,
    cursor: usize,
    due: Option<i64>,
    pending_left: Option<Vec<i16>>,
    pending_right: Option<Vec<i16>>,
    pool_left: BufferPool,
    pool_right: BufferPool,
}

impl View for Scheduler {
    type V = SchedulerView;

    closed spec fn view(&self) -> SchedulerView {
        SchedulerView {
            schedule: self.schedule as int,
            cursor: self.cursor as int,
            due: match self.due {
                Some(start) => Some(start as int),
                None => None,
            },
            pending_left: self.pending_left.deep_view(),
            pending_right: self.pending_right.deep_view(),
            pool_left: self.pool_left@,
            pool_right: self.pool_right@,
        }
    }
}

impl Scheduler {
    /// A scheduler before its first tick: nothing pending, empty pools.
    pub fn new() -> (scheduler: Scheduler)
        ensures
            scheduler@ == SchedulerView::initial(),
            scheduler@.wf(),
    {
        Scheduler {
            schedule: INITIAL_SCHEDULE,
            cursor: 0,
            due: None,
            pending_left: None,
            pending_right: None,
            pool_left: BufferPool::new(),
            pool_right: BufferPool::new(),
        }
    }

    /// The schedule clock, in ticks.
    pub fn schedule(&self) -> (schedule: i64)
        ensures
            schedule == self@.schedule,
    {
        self.schedule
    }

    /// The start time of the chunk that is due and not yet filed.
    pub fn due(&self) -> (due: Option<i64>)
        ensures
            match due {
                Some(start) => self@.due == Some(start as int),
                None => self@.due is None,
            },
    {
        self.due
    }

    /// What the left pool holds in `slot`.
    pub fn retained_left(&self, slot: usize) -> (held: Option<Retained>)
        requires
            slot < POOL_CAPACITY,
        ensures
            held == self@.pool_left[slot as int],
    {
        self.pool_left.get(slot)
    }

    /// What the right pool holds in `slot`.
    pub fn retained_right(&self, slot: usize) -> (held: Option<Retained>)
        requires
            slot < POOL_CAPACITY,
        ensures
            held == self@.pool_right[slot as int],
    {
        self.pool_right.get(slot)
    }

    /// The tick at host time `now`: resynchronizes the clock and tells
    /// whether a chunk is to be submitted now.
    pub fn poll(&mut self, now: i64) -> (due: bool)
        requires
            old(self)@.wf(),
            valid_time(now as int),
        ensures
            final(self)@ == old(self)@.poll(now as int),
            final(self)@.wf(),
            due == old(self)@.submits(now as int),
    {
        if self.schedule < now {
            self.schedule = now;
        }
        if now >= self.schedule - LOOKAHEAD_TICKS {
            self.due = Some(self.schedule + LOOKAHEAD_TICKS);
            self.schedule = self.schedule + CHUNK_TICKS;
            true
        } else {
            false
        }
    }

    /// Takes in the chunk pulled from the engine. Each channel's pending
    /// sequence comes out extended by the first sample of the new one, and
    /// the new sequences are pending in their place.
    pub fn process_audio(&mut self, chunk: &[i16]) -> (out: Option<(Vec<i16>, Vec<i16>)>)
        requires
            old(self)@.wf(),
            chunk@.len() == CHUNK_SAMPLES,
        ensures
            final(self)@ == old(self)@.process_audio(chunk@),
            final(self)@.wf(),
            out.deep_view() == old(self)@.stitched(chunk@),
    {
        let (left, right) = deinterleave(chunk);
        let out_left = stitch(&mut self.pending_left, left);
        let out_right = stitch(&mut self.pending_right, right);
        match (out_left, out_right) {
            (Some(left), Some(right)) => Some((left, right)),
            _ => None,
        }
    }

    /// Files the due chunk. `uploaded` holds the handles of the buffers
    /// created from the left and the right sequence, or nothing if
    /// `process_audio` handed none out.
    pub fn submit(&mut self, uploaded: Option<(i32, i32)>) -> (out: Submission)
        requires
            old(self)@.wf(),
        ensures
            final(self)@ == old(self)@.submit(uploaded),
            final(self)@.wf(),
            out@ == old(self)@.submission(uploaded),
    {
        let mut out = Submission { commands: Vec::new(), released_left: None, released_right: None };
        if let Some(start) = self.due {
            if let Some((left, right)) = uploaded {
                out.released_left = self.pool_left.store(self.cursor, Retained { handle: left, start });
                out.released_right = self.pool_right.store(self.cursor, Retained { handle: right, start });
                push_voice_program(&mut out.commands, left, LEFT_VOICE, LEFT_PAN, start);
                push_voice_program(&mut out.commands, right, RIGHT_VOICE, RIGHT_PAN, start);
            }
            self.cursor = if self.cursor + 1 == POOL_CAPACITY {
                0
            } else {
                self.cursor + 1
            };
            self.due = None;
        }
        out
    }
}

/// Schedule monotonicity: no tick moves the schedule clock back. A tick
/// that submits leaves the clock exactly one chunk duration after its
/// resynchronized value, and one chunk duration after its old value where no
/// resync was needed; a tick that idles leaves the scheduler as it was.
/// Taking in a chunk and filing it do not touch the clock.
pub proof fn lemma_schedule_monotone(
    s: SchedulerView,
    now: int,
    chunk: Seq<i16>,
    uploaded: Option<(i32, i32)>,
)
    ensures
        s.poll(now).schedule >= s.schedule,
        s.submits(now) ==> s.poll(now).schedule == resynced(s.schedule, now) + CHUNK_TICKS,
        s.submits(now) && s.schedule >= now ==> s.poll(now).schedule == s.schedule + CHUNK_TICKS,
        !s.submits(now) ==> s.poll(now) == s,
        s.process_audio(chunk).schedule == s.schedule,
        s.submit(uploaded).schedule == s.schedule,
{
}

/// Resync bound: when the host clock has run past the schedule clock, the
/// tick discards the backlog. The clock is set to the host time, the chunk
/// is submitted to start one look-ahead after the host time, and the clock
/// ends one chunk duration after the host time.
pub proof fn lemma_resync_bound(s: SchedulerView, now: int)
    requires
        s.schedule < now,
    ensures
        resynced(s.schedule, now) == now,
        s.submits(now),
        s.poll(now).due == Some(now + LOOKAHEAD_TICKS),
        s.poll(now).schedule == now + CHUNK_TICKS,
{
}

/// Bounded look-ahead: a chunk is submitted only once the host clock is
/// within one look-ahead of the schedule clock. Its start therefore lies at
/// least one and at most two look-aheads after the host time, and the
/// schedule clock ends at most one look-ahead and one chunk duration after
/// the host time. After any tick the schedule clock is not behind the host
/// clock.
pub proof fn lemma_start_near_host_time(s: SchedulerView, now: int)
    ensures
        s.poll(now).schedule >= now,
        s.submits(now) ==> {
            &&& s.poll(now).due matches Some(start) && now + LOOKAHEAD_TICKS <= start <= now + 2
                * LOOKAHEAD_TICKS
            &&& s.poll(now).schedule <= now + LOOKAHEAD_TICKS + CHUNK_TICKS
        },
{
}

/// Chunks are stitched in the order in which they arrive: the first chunk
/// of a new scheduler hands nothing out, and a chunk that follows another
/// hands out, for each channel, the earlier chunk's rescaled samples
/// followed by its own first rescaled sample.
pub proof fn lemma_chunks_stitched_in_order(s: SchedulerView, earlier: Seq<i16>, later: Seq<i16>)
    requires
        earlier.len() == CHUNK_SAMPLES,
        later.len() == CHUNK_SAMPLES,
    ensures
        SchedulerView::initial().stitched(earlier) is None,
        s.process_audio(earlier).stitched(later) == Some(
            (
                channel_of(earlier, 0).push(rescale(later[0])),
                channel_of(earlier, 1).push(rescale(later[1])),
            ),
        ),
        s.process_audio(earlier).process_audio(later).pending_left == Some(channel_of(later, 0)),
        s.process_audio(earlier).process_audio(later).pending_right == Some(channel_of(later, 1)),
{
}

/// Rotating capacity: each pool has `POOL_CAPACITY` slots in every state,
/// so a channel never holds more buffers than that. Filing a chunk changes
/// at most the cursor's slot of each pool: the new buffer takes it, and its
/// former content is what the submission releases. Where nothing is filed,
/// nothing is released.
pub proof fn lemma_pool_rotation(s: SchedulerView, uploaded: Option<(i32, i32)>, slot: int)
    requires
        s.wf(),
        0 <= slot < POOL_CAPACITY,
    ensures
        s.submit(uploaded).pool_left.len() == POOL_CAPACITY,
        s.submit(uploaded).pool_right.len() == POOL_CAPACITY,
        slot != s.cursor ==> s.submit(uploaded).pool_left[slot] == s.pool_left[slot],
        slot != s.cursor ==> s.submit(uploaded).pool_right[slot] == s.pool_right[slot],
        match (s.due, uploaded) {
            (Some(start), Some(handles)) => {
                &&& s.submission(uploaded).released_left == s.pool_left[s.cursor]
                &&& s.submission(uploaded).released_right == s.pool_right[s.cursor]
                &&& s.submit(uploaded).pool_left[s.cursor] == Some(
                    Retained { handle: handles.0, start: start as i64 },
                )
                &&& s.submit(uploaded).pool_right[s.cursor] == Some(
                    Retained { handle: handles.1, start: start as i64 },
                )
            },
            _ => {
                &&& s.submission(uploaded).released_left is None
                &&& s.submission(uploaded).released_right is None
                &&& s.submit(uploaded).pool_left == s.pool_left
                &&& s.submit(uploaded).pool_right == s.pool_right
            },
        },
{
}

/// No buffer is released while a command that refers to it is still to
/// come. When the tick at host time `now` makes a chunk due, and a chunk is
/// taken in and filed, any buffer that filing releases was scheduled to
/// start playing at least `POOL_CAPACITY` chunk durations before the new
/// one, which is before `now`: the commands that named it have taken
/// effect.
pub proof fn lemma_release_after_start(
    s: SchedulerView,
    now: int,
    chunk: Seq<i16>,
    uploaded: Option<(i32, i32)>,
)
    requires
        s.wf(),
        valid_time(now),
        s.submits(now),
    ensures
        ({
            let polled = s.poll(now);
            let out = polled.process_audio(chunk).submission(uploaded);
            &&& polled.due matches Some(start) && {
                &&& out.released_left matches Some(held) ==> held.start + POOL_CAPACITY * CHUNK_TICKS
                    <= start
                &&& out.released_right matches Some(held) ==> held.start + POOL_CAPACITY
                    * CHUNK_TICKS <= start
            }
            &&& out.released_left matches Some(held) ==> held.start < now
            &&& out.released_right matches Some(held) ==> held.start < now
        }),
{
    let polled = s.poll(now);
    lemma_poll_keeps_wf(s, now);
    assert(polled.rounds_since(polled.cursor) == 3);
    assert(polled.lead(polled.cursor) == 3 * CHUNK_TICKS);
}

/// A tick keeps the invariant.
pub proof fn lemma_poll_keeps_wf(s: SchedulerView, now: int)
    requires
        s.wf(),
        valid_time(now),
    ensures
        s.poll(now).wf(),
{
    let polled = s.poll(now);
    assert(polled.settled(polled.pool_left)) by {
        assert forall|slot: int| 0 <= slot < POOL_CAPACITY implies (
        #[trigger] polled.pool_left[slot] matches Some(held) ==> held.start + polled.lead(slot)
            <= polled.latest_start()) by {
            assert(s.pool_left[slot] == polled.pool_left[slot]);
        }
    }
    assert(polled.settled(polled.pool_right)) by {
        assert forall|slot: int| 0 <= slot < POOL_CAPACITY implies (
        #[trigger] polled.pool_right[slot] matches Some(held) ==> held.start + polled.lead(slot)
            <= polled.latest_start()) by {
            assert(s.pool_right[slot] == polled.pool_right[slot]);
        }
    }
}

/// One call on a scheduler.
pub enum Step {
    /// A tick at a host time.
    Poll { now: int },
    /// A chunk taken in.
    Chunk { samples: Seq<i16> },
    /// The due chunk filed, with the handles of its buffers if any.
    Submit { uploaded: Option<(i32, i32)> },
}

impl Step {
    /// Whether the call is one that the scheduler's functions accept.
    pub open spec fn valid(self) -> bool {
        match self {
            Step::Poll { now } => valid_time(now),
            Step::Chunk { samples } => samples.len() == CHUNK_SAMPLES,
            Step::Submit { uploaded } => true,
        }
    }
}

impl SchedulerView {
    /// The scheduler after one call.
    pub open spec fn step(self, step: Step) -> SchedulerView {
        match step {
            Step::Poll { now } => self.poll(now),
            Step::Chunk { samples } => self.process_audio(samples),
            Step::Submit { uploaded } => self.submit(uploaded),
        }
    }

    /// The scheduler after the calls `steps`, in order.
    pub open spec fn run(self, steps: Seq<Step>) -> SchedulerView
        decreases steps.len(),
    {
        if steps.len() == 0 {
            self
        } else {
            self.run(steps.drop_last()).step(steps.last())
        }
    }
}

/// Every call keeps the invariant.
pub proof fn lemma_step_keeps_wf(s: SchedulerView, step: Step)
    requires
        s.wf(),
        step.valid(),
    ensures
        s.step(step).wf(),
{
    match step {
        Step::Poll { now } => {
            lemma_poll_keeps_wf(s, now);
        },
        Step::Chunk { samples } => {
            let after = s.step(step);
            assert(after.settled(after.pool_left));
            assert(after.settled(after.pool_right));
        },
        Step::Submit { uploaded } => {
            lemma_submit_keeps_wf(s, uploaded);
        },
    }
}

/// In every state that a scheduler can reach, whatever the order of the
/// calls on it, the invariant holds: in particular each pool has
/// `POOL_CAPACITY` slots, and either both channels have a sequence pending
/// or neither has. The schedule clock of the state reached is not before
/// the clock of the state the calls began in.
pub proof fn lemma_run_keeps_wf(s: SchedulerView, steps: Seq<Step>)
    requires
        s.wf(),
        forall|i: int| 0 <= i < steps.len() ==> (#[trigger] steps[i]).valid(),
    ensures
        s.run(steps).wf(),
        s.run(steps).pool_left.len() == POOL_CAPACITY,
        s.run(steps).pool_right.len() == POOL_CAPACITY,
        s.run(steps).pending_left is Some <==> s.run(steps).pending_right is Some,
        s.run(steps).schedule >= s.schedule,
    decreases steps.len(),
{
    if steps.len() > 0 {
        lemma_run_keeps_wf(s, steps.drop_last());
        lemma_step_keeps_wf(s.run(steps.drop_last()), steps.last());
    }
}

/// Filing keeps the invariant.
pub proof fn lemma_submit_keeps_wf(s: SchedulerView, uploaded: Option<(i32, i32)>)
    requires
        s.wf(),
    ensures
        s.submit(uploaded).wf(),
{
    let after = s.submit(uploaded);
    if s.due is Some {
        assert forall|slot: int| 0 <= slot < POOL_CAPACITY implies (
        #[trigger] after.pool_left[slot] matches Some(held) ==> held.start + after.lead(slot)
            <= after.latest_start()) by {
            if slot != s.cursor || uploaded is None {
                assert(after.pool_left[slot] == s.pool_left[slot]);
            }
        }
        assert forall|slot: int| 0 <= slot < POOL_CAPACITY implies (
        #[trigger] after.pool_right[slot] matches Some(held) ==> held.start + after.lead(slot)
            <= after.latest_start()) by {
            if slot != s.cursor || uploaded is None {
                assert(after.pool_right[slot] == s.pool_right[slot]);
            }
        }
    }
}

} // verus!
