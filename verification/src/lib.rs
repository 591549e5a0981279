//! The logic of a game engine's host on a fantasy console: an audio frame
//! scheduler that feeds the engine's fixed-rate sound to a time-scheduled
//! mixer, the layout of the allocations handed to the engine, and the small
//! conversions between the engine's conventions and the console's.

pub mod allocator;
pub mod input;
pub mod pool;
pub mod runtime;
pub mod scheduler;
pub mod shim;
pub mod stitch;
pub mod timing;
pub mod voice;

use vstd::prelude::*;
use crate::input::PadState;
use crate::runtime::{Frame, MyApp};
use crate::timing::valid_time;

verus! {

/// The handler of the display refresh: one tick of `app`, which read `pad`
/// at host time `now`.
pub fn tick(app: &mut MyApp, pad: PadState, now: i64) -> (frame: Frame)
    requires
        old(app)@.wf(),
        valid_time(now as int),
    ensures
        final(app)@ == old(app)@.update(pad, now as int),
        final(app)@.wf(),
        frame@ == old(app)@.frame(pad, now as int),
{
    app.update(pad, now)
}

} // verus!
