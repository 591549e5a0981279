//! Units and constants of audio timing.
//!
//! Every instant the scheduler handles is a whole number of ticks, with
//! 44100 ticks to the second. The unit is chosen so that the duration of one
//! chunk (512 frames at 11025 Hz) and the look-ahead (a twentieth of a
//! second) are both whole numbers of ticks, which keeps the clock arithmetic
//! exact.

use vstd::prelude::*;

verus! {

/// Ticks of the scheduling clock in one second.
pub const TICKS_PER_SECOND: i64 = 44_100;

/// Sample rate of the audio the engine produces, in frames per second.
pub const SAMPLE_RATE: i32 = 11_025;

/// Frames in one chunk pulled from the engine.
pub const CHUNK_FRAMES: usize = 512;

/// Samples in one interleaved stereo chunk: two per frame.
pub const CHUNK_SAMPLES: usize = 1024;

/// Playing time of one chunk, in ticks.
pub const CHUNK_TICKS: i64 = 2048;

/// Distance by which playback commands are scheduled ahead, in ticks.
pub const LOOKAHEAD_TICKS: i64 = 2205;

/// Buffers that each channel keeps alive after submitting them.
pub const POOL_CAPACITY: usize = 3;

/// Largest magnitude of a host clock reading that the scheduler accepts, in
/// ticks. It leaves room for the look-ahead above it in 64 bits.
pub const TIME_LIMIT: i64 = 0x4000_0000_0000_0000;

/// Whether `now` is a host clock reading that the scheduler can work with.
pub open spec fn valid_time(now: int) -> bool {
    -TIME_LIMIT <= now <= TIME_LIMIT
}

/// The timing constants agree with each other: a chunk of `CHUNK_FRAMES`
/// frames at `SAMPLE_RATE` lasts `CHUNK_TICKS`, the look-ahead is a twentieth
/// of a second, and `POOL_CAPACITY` is the least number of chunk durations
/// that covers twice the look-ahead.
pub proof fn lemma_timing_constants()
    ensures
        CHUNK_SAMPLES == 2 * CHUNK_FRAMES,
        CHUNK_TICKS * SAMPLE_RATE == CHUNK_FRAMES * TICKS_PER_SECOND,
        20 * LOOKAHEAD_TICKS == TICKS_PER_SECOND,
        POOL_CAPACITY * CHUNK_TICKS >= 2 * LOOKAHEAD_TICKS,
        (POOL_CAPACITY - 1) * CHUNK_TICKS < 2 * LOOKAHEAD_TICKS,
{
}

} // verus!
