//! The commands that configure and trigger one playback voice.
//!
//! A voice is programmed by a fixed run of timed commands, all of which take
//! effect at the same instant: the voice is bound to its sample buffer, set
//! to plain one-shot playback, stopped and started again.

use vstd::prelude::*;
use crate::timing::SAMPLE_RATE;

verus! {

/// Voices that the mixer offers.
pub const VOICE_COUNT: i32 = 32;

/// The level 1.0, in thousandths. Levels are carried in thousandths so that
/// a pan position between -1 and 1 is a whole number.
pub const UNITY: i32 = 1000;

/// A parameter of a voice.
#[derive(Clone, Copy, PartialEq, Eq, Structural, Debug)]
pub enum VoiceParam {
    Volume,
    Pitch,
    Detune,
    Pan,
    SampleData,
    Samplerate,
    LoopEnabled,
    Reverb,
    FadeInDuration,
    FadeOutDuration,
}

/// What a command does to its voice.
#[derive(Clone, Copy, PartialEq, Eq, Structural, Debug)]
pub enum VoiceAction {
    /// Sets a whole-number parameter.
    SetInt { param: VoiceParam, value: i32 },
    /// Sets a level, given in thousandths.
    SetLevel { param: VoiceParam, millis: i32 },
    /// Stops the voice.
    Stop,
    /// Starts the voice.
    Start,
}

/// One entry for the mixer's timed command queue.
#[derive(Clone, Copy, PartialEq, Eq, Structural, Debug)]
pub struct VoiceCommand {
    /// The voice addressed.
    pub slot: i32,
    pub action: VoiceAction,
    /// When the command takes effect, in ticks.
    pub time: i64,
}

/// Whether `slot` names a voice of the mixer and `pan` lies between full
/// left and full right.
pub open spec fn valid_voice(slot: i32, pan: i32) -> bool {
    0 <= slot < VOICE_COUNT && -UNITY <= pan <= UNITY
}

/// The command with `action` for voice `slot` at `time`.
pub open spec fn command(slot: i32, action: VoiceAction, time: i64) -> VoiceCommand {
    VoiceCommand { slot, action, time }
}

/// The commands that make voice `slot` play the buffer `handle` at `time`,
/// panned to `pan`: the buffer is bound, the sample rate fixed, looping and
/// reverb switched off, volume and pitch set to one, detune and both fades
/// to zero, and the voice stopped and then started.
pub open spec fn voice_program(handle: i32, slot: i32, pan: i32, time: i64) -> Seq<VoiceCommand> {
    seq![
        command(slot, VoiceAction::SetInt { param: VoiceParam::SampleData, value: handle }, time),
        command(slot, VoiceAction::SetInt { param: VoiceParam::Samplerate, value: SAMPLE_RATE }, time),
        command(slot, VoiceAction::SetInt { param: VoiceParam::LoopEnabled, value: 0 }, time),
        command(slot, VoiceAction::SetInt { param: VoiceParam::Reverb, value: 0 }, time),
        command(slot, VoiceAction::SetLevel { param: VoiceParam::Volume, millis: UNITY }, time),
        command(slot, VoiceAction::SetLevel { param: VoiceParam::Pitch, millis: UNITY }, time),
        command(slot, VoiceAction::SetLevel { param: VoiceParam::Detune, millis: 0 }, time),
        command(slot, VoiceAction::SetLevel { param: VoiceParam::Pan, millis: pan }, time),
        command(slot, VoiceAction::SetLevel { param: VoiceParam::FadeInDuration, millis: 0 }, time),
        command(slot, VoiceAction::SetLevel { param: VoiceParam::FadeOutDuration, millis: 0 }, time),
        command(slot, VoiceAction::Stop, time),
        command(slot, VoiceAction::Start, time),
    ]
}

/// Appends to `commands` the program for one voice.
pub fn push_voice_program(
    commands: &mut Vec<VoiceCommand>,
    handle: i32,
    slot: i32,
    pan: i32,
    time: i64,
)
    requires
        valid_voice(slot, pan),
    ensures
        final(commands)@ == old(commands)@ + voice_program(handle, slot, pan, time),
{
    commands.push(VoiceCommand { slot, action: VoiceAction::SetInt { param: VoiceParam::SampleData, value: handle }, time });
    commands.push(VoiceCommand { slot, action: VoiceAction::SetInt { param: VoiceParam::Samplerate, value: SAMPLE_RATE }, time });
    commands.push(VoiceCommand { slot, action: VoiceAction::SetInt { param: VoiceParam::LoopEnabled, value: 0 }, time });
    commands.push(VoiceCommand { slot, action: VoiceAction::SetInt { param: VoiceParam::Reverb, value: 0 }, time });
    commands.push(VoiceCommand { slot, action: VoiceAction::SetLevel { param: VoiceParam::Volume, millis: UNITY }, time });
    commands.push(VoiceCommand { slot, action: VoiceAction::SetLevel { param: VoiceParam::Pitch, millis: UNITY }, time });
    commands.push(VoiceCommand { slot, action: VoiceAction::SetLevel { param: VoiceParam::Detune, millis: 0 }, time });
    commands.push(VoiceCommand { slot, action: VoiceAction::SetLevel { param: VoiceParam::Pan, millis: pan }, time });
    commands.push(VoiceCommand { slot, action: VoiceAction::SetLevel { param: VoiceParam::FadeInDuration, millis: 0 }, time });
    commands.push(VoiceCommand { slot, action: VoiceAction::SetLevel { param: VoiceParam::FadeOutDuration, millis: 0 }, time });
    commands.push(VoiceCommand { slot, action: VoiceAction::Stop, time });
    commands.push(VoiceCommand { slot, action: VoiceAction::Start, time });
    assert(commands@ =~= old(commands)@ + voice_program(handle, slot, pan, time));
}

/// The commands that make voice `slot` play the buffer `handle` from `time`
/// on, panned to `pan` thousandths.
pub fn program_voice(handle: i32, slot: i32, pan: i32, time: i64) -> (commands: Vec<VoiceCommand>)
    requires
        valid_voice(slot, pan),
    ensures
        commands@ == voice_program(handle, slot, pan, time),
{
    let mut commands: Vec<VoiceCommand> = Vec::new();
    push_voice_program(&mut commands, handle, slot, pan, time);
    commands
}

/// Every command of a voice program addresses the voice it was made for and
/// takes effect at the one instant given, and the program ends by stopping
/// and then starting the voice.
pub proof fn lemma_voice_program_atomic(handle: i32, slot: i32, pan: i32, time: i64)
    ensures
        voice_program(handle, slot, pan, time).len() == 12,
        forall|i: int|
            0 <= i < 12 ==> {
                &&& (#[trigger] voice_program(handle, slot, pan, time)[i]).slot == slot
                &&& voice_program(handle, slot, pan, time)[i].time == time
            },
        voice_program(handle, slot, pan, time)[10].action == VoiceAction::Stop,
        voice_program(handle, slot, pan, time)[11].action == VoiceAction::Start,
{
}

} // verus!
