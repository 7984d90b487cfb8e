//! The event model: one timed MIDI-level occurrence per value.
//!
//! Every variant carries a sample-accurate `timing` offset within the block,
//! and all but the catch-all variant carry a `channel`. Continuous values are
//! raw MIDI (7-bit, or 14-bit for pitch bend). Events the engine does not
//! recognize are represented by the catch-all variant, which passes through
//! components unchanged.

use vstd::prelude::*;

verus! {

pub const BANK_SELECT_MSB: u8 = 0;

pub const MODULATION_MSB: u8 = 1;

pub const BREATH_CONTROLLER_MSB: u8 = 2;

pub const FOOT_CONTROLLER_MSB: u8 = 4;

pub const DATA_ENTRY_MSB: u8 = 6;

pub const MAIN_VOLUME_MSB: u8 = 7;

pub const EXPRESSION_CONTROLLER_MSB: u8 = 11;

pub const BANK_SELECT_LSB: u8 = 32;

pub const MODULATION_LSB: u8 = 33;

pub const BREATH_CONTROLLER_LSB: u8 = 34;

pub const FOOT_CONTROLLER_LSB: u8 = 36;

pub const DATA_ENTRY_LSB: u8 = 38;

pub const EXPRESSION_CONTROLLER_LSB: u8 = 43;

pub const DAMPER_PEDAL: u8 = 64;

pub const SOUND_CONTROLLER_3: u8 = 72;

pub const SOUND_CONTROLLER_4: u8 = 73;

pub const GENERAL_PURPOSE_CONTROLLER_5_MSB: u8 = 80;

/// The damper pedal counts as held from this raw controller value upward
/// (the raw analogue of a normalized threshold of one half).
pub const DAMPER_THRESHOLD: u8 = 64;

/// One timed MIDI-level occurrence.
#[derive(Debug, Clone, Copy, PartialEq, Eq)]
pub enum Event {
    NoteOn { timing: u32, voice_id: Option<i32>, channel: u8, note: u8, velocity: u8 },
    NoteOff { timing: u32, voice_id: Option<i32>, channel: u8, note: u8, velocity: u8 },
    /// Immediate silencing of a note, with no release phase.
    Choke { timing: u32, voice_id: Option<i32>, channel: u8, note: u8 },
    /// A voice ended on the voice engine's initiative.
    VoiceTerminated { timing: u32, voice_id: Option<i32>, channel: u8, note: u8 },
    ControlChange { timing: u32, channel: u8, cc: u8, value: u8 },
    ChannelPressure { timing: u32, channel: u8, pressure: u8 },
    PitchBend { timing: u32, channel: u8, value: u16 },
    ProgramChange { timing: u32, channel: u8, program: u8 },
    PolyPressure { timing: u32, voice_id: Option<i32>, channel: u8, note: u8, pressure: u8 },
    PolyVolume { timing: u32, voice_id: Option<i32>, channel: u8, note: u8, gain: u8 },
    PolyPan { timing: u32, voice_id: Option<i32>, channel: u8, note: u8, pan: u8 },
    PolyTuning { timing: u32, voice_id: Option<i32>, channel: u8, note: u8, tuning: u8 },
    PolyVibrato { timing: u32, voice_id: Option<i32>, channel: u8, note: u8, vibrato: u8 },
    PolyExpression { timing: u32, voice_id: Option<i32>, channel: u8, note: u8, expression: u8 },
    PolyBrightness { timing: u32, voice_id: Option<i32>, channel: u8, note: u8, brightness: u8 },
    /// An event kind this engine does not special-case; forwarded unchanged.
    Other { timing: u32 },
}

impl Event {
    /// Range validity as guaranteed by the event model: channels are 0-15,
    /// notes, controller numbers and 7-bit values are 0-127, pitch bend is
    /// 14-bit.
    pub open spec fn wf(self) -> bool {
        match self {
            Event::NoteOn { channel, note, velocity, .. } => channel < 16 && note < 128 && velocity
                < 128,
            Event::NoteOff { channel, note, velocity, .. } => channel < 16 && note < 128 && velocity
                < 128,
            Event::Choke { channel, note, .. } => channel < 16 && note < 128,
            Event::VoiceTerminated { channel, note, .. } => channel < 16 && note < 128,
            Event::ControlChange { channel, cc, value, .. } => channel < 16 && cc < 128 && value
                < 128,
            Event::ChannelPressure { channel, pressure, .. } => channel < 16 && pressure < 128,
            Event::PitchBend { channel, value, .. } => channel < 16 && value < 16384,
            Event::ProgramChange { channel, program, .. } => channel < 16 && program < 128,
            Event::PolyPressure { channel, note, pressure, .. } => channel < 16 && note < 128
                && pressure < 128,
            Event::PolyVolume { channel, note, gain, .. } => channel < 16 && note < 128 && gain
                < 128,
            Event::PolyPan { channel, note, pan, .. } => channel < 16 && note < 128 && pan < 128,
            Event::PolyTuning { channel, note, tuning, .. } => channel < 16 && note < 128 && tuning
                < 128,
            Event::PolyVibrato { channel, note, vibrato, .. } => channel < 16 && note < 128
                && vibrato < 128,
            Event::PolyExpression { channel, note, expression, .. } => channel < 16 && note < 128
                && expression < 128,
            Event::PolyBrightness { channel, note, brightness, .. } => channel < 16 && note < 128
                && brightness < 128,
            Event::Other { .. } => true,
        }
    }

    /// The same event re-addressed to `channel`. The catch-all variant has no
    /// channel and is returned unchanged.
    pub open spec fn spec_with_channel(self, channel: u8) -> Event {
        match self {
            Event::NoteOn { timing, voice_id, note, velocity, .. } => Event::NoteOn {
                timing,
                voice_id,
                channel,
                note,
                velocity,
            },
            Event::NoteOff { timing, voice_id, note, velocity, .. } => Event::NoteOff {
                timing,
                voice_id,
                channel,
                note,
                velocity,
            },
            Event::Choke { timing, voice_id, note, .. } => Event::Choke {
                timing,
                voice_id,
                channel,
                note,
            },
            Event::VoiceTerminated { timing, voice_id, note, .. } => Event::VoiceTerminated {
                timing,
                voice_id,
                channel,
                note,
            },
            Event::ControlChange { timing, cc, value, .. } => Event::ControlChange {
                timing,
                channel,
                cc,
                value,
            },
            Event::ChannelPressure { timing, pressure, .. } => Event::ChannelPressure {
                timing,
                channel,
                pressure,
            },
            Event::PitchBend { timing, value, .. } => Event::PitchBend { timing, channel, value },
            Event::ProgramChange { timing, program, .. } => Event::ProgramChange {
                timing,
                channel,
                program,
            },
            Event::PolyPressure { timing, voice_id, note, pressure, .. } => Event::PolyPressure {
                timing,
                voice_id,
                channel,
                note,
                pressure,
            },
            Event::PolyVolume { timing, voice_id, note, gain, .. } => Event::PolyVolume {
                timing,
                voice_id,
                channel,
                note,
                gain,
            },
            Event::PolyPan { timing, voice_id, note, pan, .. } => Event::PolyPan {
                timing,
                voice_id,
                channel,
                note,
                pan,
            },
            Event::PolyTuning { timing, voice_id, note, tuning, .. } => Event::PolyTuning {
                timing,
                voice_id,
                channel,
                note,
                tuning,
            },
            Event::PolyVibrato { timing, voice_id, note, vibrato, .. } => Event::PolyVibrato {
                timing,
                voice_id,
                channel,
                note,
                vibrato,
            },
            Event::PolyExpression { timing, voice_id, note, expression, .. } => (
            Event::PolyExpression { timing, voice_id, channel, note, expression }),
            Event::PolyBrightness { timing, voice_id, note, brightness, .. } => (
            Event::PolyBrightness { timing, voice_id, channel, note, brightness }),
            Event::Other { timing } => Event::Other { timing },
        }
    }

    /// Re-address the event to `channel`.
    pub fn with_channel(self, channel: u8) -> (r: Event)
        ensures
            r == self.spec_with_channel(channel),
    {
        match self {
            Event::NoteOn { timing, voice_id, note, velocity, .. } => Event::NoteOn {
                timing,
                voice_id,
                channel,
                note,
                velocity,
            },
            Event::NoteOff { timing, voice_id, note, velocity, .. } => Event::NoteOff {
                timing,
                voice_id,
                channel,
                note,
                velocity,
            },
            Event::Choke { timing, voice_id, note, .. } => Event::Choke {
                timing,
                voice_id,
                channel,
                note,
            },
            Event::VoiceTerminated { timing, voice_id, note, .. } => Event::VoiceTerminated {
                timing,
                voice_id,
                channel,
                note,
            },
            Event::ControlChange { timing, cc, value, .. } => Event::ControlChange {
                timing,
                channel,
                cc,
                value,
            },
            Event::ChannelPressure { timing, pressure, .. } => Event::ChannelPressure {
                timing,
                channel,
                pressure,
            },
            Event::PitchBend { timing, value, .. } => Event::PitchBend { timing, channel, value },
            Event::ProgramChange { timing, program, .. } => Event::ProgramChange {
                timing,
                channel,
                program,
            },
            Event::PolyPressure { timing, voice_id, note, pressure, .. } => Event::PolyPressure {
                timing,
                voice_id,
                channel,
                note,
                pressure,
            },
            Event::PolyVolume { timing, voice_id, note, gain, .. } => Event::PolyVolume {
                timing,
                voice_id,
                channel,
                note,
                gain,
            },
            Event::PolyPan { timing, voice_id, note, pan, .. } => Event::PolyPan {
                timing,
                voice_id,
                channel,
                note,
                pan,
            },
            Event::PolyTuning { timing, voice_id, note, tuning, .. } => Event::PolyTuning {
                timing,
                voice_id,
                channel,
                note,
                tuning,
            },
            Event::PolyVibrato { timing, voice_id, note, vibrato, .. } => Event::PolyVibrato {
                timing,
                voice_id,
                channel,
                note,
                vibrato,
            },
            Event::PolyExpression { timing, voice_id, note, expression, .. } => (
            Event::PolyExpression { timing, voice_id, channel, note, expression }),
            Event::PolyBrightness { timing, voice_id, note, brightness, .. } => (
            Event::PolyBrightness { timing, voice_id, channel, note, brightness }),
            Event::Other { timing } => Event::Other { timing },
        }
    }

    /// Whether this event starts note `n` sounding.
    pub open spec fn starts_note(self, n: u8) -> bool {
        self matches Event::NoteOn { note, .. } && note == n
    }

    /// Whether this event ends note `n`: a note-off, a choke, or a
    /// voice-engine termination for that note.
    pub open spec fn clears_note(self, n: u8) -> bool {
        ||| self matches Event::NoteOff { note, .. } && note == n
        ||| self matches Event::Choke { note, .. } && note == n
        ||| self matches Event::VoiceTerminated { note, .. } && note == n
    }

    /// Whether this event releases the sustain pedal.
    pub open spec fn releases_damper(self) -> bool {
        self matches Event::ControlChange { cc, value, .. } && cc == DAMPER_PEDAL && value
            < DAMPER_THRESHOLD
    }
}

} // verus!
