//! Transpose notes by a shared per-song amount.
//!
//! The amount comes from the process-wide registry (see the registry module)
//! and may be applied inverted, so one instance can transpose into an effect
//! chain and another transpose back out. Only plain note-ons and note-offs
//! are rewritten; every other event passes through unchanged.

use vstd::prelude::*;

verus! {

use crate::event::Event;

/// The transpose amount applied to a note: negated when `invert` is set,
/// added, and saturated into 0-127.
pub open spec fn spec_transpose(note: u8, amount: i8, invert: bool) -> u8 {
    let a: int = if invert {
        -(amount as int)
    } else {
        amount as int
    };
    let v: int = note + a;
    if v < 0 {
        0u8
    } else if v > 127 {
        127u8
    } else {
        v as u8
    }
}

/// Apply the shared transpose amount to one note number.
pub fn transpose(note: u8, amount: i8, invert: bool) -> (r: u8)
    ensures
        r == spec_transpose(note, amount, invert),
{
    let mut a: i16 = amount as i16;
    if invert {
        a = -a;
    }
    let v: i16 = note as i16 + a;
    if v < 0 {
        0
    } else if v > 127 {
        127
    } else {
        v as u8
    }
}

/// The event with its note transposed: note-ons and note-offs are rewritten,
/// everything else is untouched.
pub open spec fn spec_transpose_event(e: Event, amount: i8, invert: bool) -> Event {
    match e {
        Event::NoteOn { timing, voice_id, channel, note, velocity } => Event::NoteOn {
            timing,
            voice_id,
            channel,
            note: spec_transpose(note, amount, invert),
            velocity,
        },
        Event::NoteOff { timing, voice_id, channel, note, velocity } => Event::NoteOff {
            timing,
            voice_id,
            channel,
            note: spec_transpose(note, amount, invert),
            velocity,
        },
        _ => e,
    }
}

/// Transpose one event.
pub fn transpose_event(event: Event, amount: i8, invert: bool) -> (r: Event)
    ensures
        r == spec_transpose_event(event, amount, invert),
{
    match event {
        Event::NoteOn { timing, voice_id, channel, note, velocity } => Event::NoteOn {
            timing,
            voice_id,
            channel,
            note: transpose(note, amount, invert),
            velocity,
        },
        Event::NoteOff { timing, voice_id, channel, note, velocity } => Event::NoteOff {
            timing,
            voice_id,
            channel,
            note: transpose(note, amount, invert),
            velocity,
        },
        _ => event,
    }
}

/// One block of the transposer: every event forwarded in order, notes
/// rewritten.
#[verifier::loop_isolation(false)]
pub fn transpose_block(events: &Vec<Event>, amount: i8, invert: bool, out: &mut Vec<Event>)
    ensures
        final(out)@.len() == old(out)@.len() + events@.len(),
        forall|i: int| 0 <= i < old(out)@.len() ==> final(out)@[i] == old(out)@[i],
        forall|i: int|
            0 <= i < events@.len() ==> final(out)@[old(out)@.len() + i] == spec_transpose_event(
                #[trigger] events@[i],
                amount,
                invert,
            ),
{
    let mut i: usize = 0;
    while i < events.len()
        invariant
            i <= events@.len(),
            out@.len() == old(out)@.len() + i as int,
            forall|j: int| 0 <= j < old(out)@.len() ==> out@[j] == old(out)@[j],
            forall|j: int|
                0 <= j < i as int ==> out@[old(out)@.len() + j] == spec_transpose_event(
                    #[trigger] events@[j],
                    amount,
                    invert,
                ),
        decreases events@.len() - i,
    {
        out.push(transpose_event(events[i], amount, invert));
        i += 1;
    }
}

} // verus!
