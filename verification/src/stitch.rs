//! Splitting engine chunks into channels and joining consecutive chunks.
//!
//! The mixer reads one sample past the nominal end of a buffer when it
//! interpolates. A buffer is therefore submitted only once its successor is
//! known, extended by the successor's first sample.

use vstd::prelude::*;
use crate::timing::{CHUNK_FRAMES, CHUNK_SAMPLES};

verus! {

/// A sample of the engine's reduced-depth stream brought to the full 16-bit
/// range: four times the sample, wrapped to 16 bits.
pub open spec fn rescale(sample: i16) -> i16 {
    let wide = (4 * sample) % 0x1_0000;
    if wide >= 0x8000 {
        (wide - 0x1_0000) as i16
    } else {
        wide as i16
    }
}

/// The rescaled samples of one channel of an interleaved stereo chunk:
/// `offset` 0 selects the left channel, 1 the right.
pub open spec fn channel_of(chunk: Seq<i16>, offset: int) -> Seq<i16> {
    Seq::new((chunk.len() / 2) as nat, |i: int| rescale(chunk[2 * i + offset]))
}

/// What the stitcher hands out for submission when `incoming` arrives while
/// `pending` is held back.
pub open spec fn stitch_output(pending: Option<Seq<i16>>, incoming: Seq<i16>) -> Option<Seq<i16>> {
    match pending {
        Some(previous) => Some(previous.push(incoming[0])),
        None => None,
    }
}

/// The sequences handed out while `chunks` arrive in order at a stitcher that
/// starts with nothing pending, one entry per chunk.
pub open spec fn stitch_outputs(chunks: Seq<Seq<i16>>) -> Seq<Option<Seq<i16>>>
    decreases chunks.len(),
{
    if chunks.len() == 0 {
        Seq::empty()
    } else {
        let earlier = chunks.drop_last();
        stitch_outputs(earlier).push(stitch_output(stitch_pending(earlier), chunks.last()))
    }
}

/// The sequence held back after `chunks` arrived in order at a stitcher that
/// started with nothing pending.
pub open spec fn stitch_pending(chunks: Seq<Seq<i16>>) -> Option<Seq<i16>> {
    if chunks.len() == 0 {
        None
    } else {
        Some(chunks.last())
    }
}

/// Rescales one sample by shifting it left two bits.
pub fn rescale_sample(sample: i16) -> (scaled: i16)
    ensures
        scaled == rescale(sample),
{
    let scaled: i16 = sample << 2;
    assert(scaled == rescale(sample)) by (bit_vector)
        requires
            scaled == sample << 2,
    ;
    scaled
}

/// Splits an interleaved stereo chunk into its rescaled left and right
/// channels.
pub fn deinterleave(chunk: &[i16]) -> (channels: (Vec<i16>, Vec<i16>))
    requires
        chunk@.len() == CHUNK_SAMPLES,
    ensures
        channels.0@ == channel_of(chunk@, 0),
        channels.1@ == channel_of(chunk@, 1),
{
    let mut left: Vec<i16> = Vec::new();
    let mut right: Vec<i16> = Vec::new();
    let mut i: usize = 0;
    while i < CHUNK_FRAMES
        invariant
            chunk@.len() == CHUNK_SAMPLES,
            i <= CHUNK_FRAMES,
            left@.len() == i,
            right@.len() == i,
            forall|k: int| 0 <= k < i ==> left@[k] == rescale(#[trigger] chunk@[2 * k]),
            forall|k: int| 0 <= k < i ==> right@[k] == rescale(#[trigger] chunk@[2 * k + 1]),
        decreases CHUNK_FRAMES - i,
    {
        left.push(rescale_sample(chunk[2 * i]));
        right.push(rescale_sample(chunk[2 * i + 1]));
        i += 1;
    }
    assert(left@ =~= channel_of(chunk@, 0));
    assert(right@ =~= channel_of(chunk@, 1));
    (left, right)
}

/// Takes in the next sequence of a channel. The sequence held back so far, if
/// there is one, comes out extended by the first sample of `incoming`;
/// `incoming` is held back in its place.
pub fn stitch(pending: &mut Option<Vec<i16>>, incoming: Vec<i16>) -> (out: Option<Vec<i16>>)
    requires
        incoming@.len() > 0,
    ensures
        final(pending).deep_view() == Some(incoming@),
        out.deep_view() == stitch_output(old(pending).deep_view(), incoming@),
{
    let first: i16 = incoming[0];
    let previous = pending.take();
    *pending = Some(incoming);
    match previous {
        Some(mut samples) => {
            samples.push(first);
            Some(samples)
        },
        None => None,
    }
}

/// Continuity across chunk boundaries: of chunks that arrive in order, the
/// first produces no submission, and the arrival of every later chunk
/// submits its predecessor's samples followed by its own first sample.
pub proof fn lemma_stitch_continuity(chunks: Seq<Seq<i16>>, k: int)
    requires
        0 <= k < chunks.len(),
        forall|i: int| 0 <= i < chunks.len() ==> (#[trigger] chunks[i]).len() > 0,
    ensures
        stitch_outputs(chunks).len() == chunks.len(),
        k == 0 ==> stitch_outputs(chunks)[k] is None,
        k > 0 ==> stitch_outputs(chunks)[k] == Some(chunks[k - 1].push(chunks[k][0])),
    decreases chunks.len(),
{
    let earlier = chunks.drop_last();
    if earlier.len() == 0 {
        assert(stitch_outputs(earlier) =~= Seq::empty());
    } else if k < earlier.len() {
        lemma_stitch_continuity(earlier, k);
    } else {
        lemma_stitch_continuity(earlier, k - 1);
    }
}

} // verus!
