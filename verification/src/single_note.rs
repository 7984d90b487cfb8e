//! Collapse every incoming note onto one configurable target note.
//!
//! The tracker remembers which source notes are held. The target note-on is
//! emitted only when the first note starts sounding, and the target note-off
//! only when the last held note ends, so the single output note sounds for
//! exactly as long as any input note is held. All other events pass through
//! unchanged.

use vstd::prelude::*;

verus! {

use crate::engine::opt_event_seq;
use crate::event::Event;
use crate::state::NotesState;

/// The single-note processor's one control: the target note.
#[derive(Debug, Clone, Copy)]
pub struct SingleNoteParams {
    pub note: i32,
}

impl SingleNoteParams {
    pub open spec fn spec_note(self) -> u8 {
        if self.note < 0 {
            0u8
        } else if self.note > 127 {
            127u8
        } else {
            self.note as u8
        }
    }

    /// The target note, saturated into 0-127.
    pub fn note(&self) -> (r: u8)
        ensures
            r == self.spec_note(),
    {
        if self.note < 0 {
            0
        } else if self.note > 127 {
            127
        } else {
            self.note as u8
        }
    }
}

/// The note bitmap after the tracker observes `e`: only plain note-ons and
/// note-offs are tracked here.
pub open spec fn single_note_step(m: u128, e: Event) -> u128 {
    match e {
        Event::NoteOn { note, .. } => m | (1u128 << note),
        Event::NoteOff { note, .. } => m & !(1u128 << note),
        _ => m,
    }
}

/// What is forwarded for `e` when the bitmap held `m` beforehand: the target
/// note-on when the first note starts, the target note-off when the last
/// note ends, other events unchanged, and nothing otherwise.
pub open spec fn single_note_route(m: u128, e: Event, target: u8) -> Option<Event> {
    match e {
        Event::NoteOn { timing, voice_id, channel, velocity, .. } => if m == 0 {
            Some(Event::NoteOn { timing, voice_id, channel, note: target, velocity })
        } else {
            None
        },
        Event::NoteOff { timing, voice_id, channel, velocity, .. } => if single_note_step(m, e)
            == 0 {
            Some(Event::NoteOff { timing, voice_id, channel, note: target, velocity })
        } else {
            None
        },
        _ => Some(e),
    }
}

/// Route one event: track held source notes and emit the target note only at
/// the first note-on and the last note-off.
pub fn process_single_note_event(
    states: &mut NotesState,
    target: u8,
    event: Event,
    out: &mut Vec<Event>,
)
    requires
        event.wf(),
    ensures
        final(states).0 == single_note_step(old(states).0, event),
        final(out)@ == old(out)@ + opt_event_seq(single_note_route(old(states).0, event, target)),
{
    let ghost out0 = out@;
    match event {
        Event::NoteOn { timing, voice_id, channel, note, velocity } => {
            let was_off = states.is_all_off();
            states.set_on(note);
            if was_off {
                out.push(Event::NoteOn { timing, voice_id, channel, note: target, velocity });
            }
        },
        Event::NoteOff { timing, voice_id, channel, note, velocity } => {
            states.set_off(note);
            if states.is_all_off() {
                out.push(Event::NoteOff { timing, voice_id, channel, note: target, velocity });
            }
        },
        _ => {
            out.push(event);
        },
    }
    proof {
        assert(out@ =~= out0 + opt_event_seq(single_note_route(old(states).0, event, target)));
    }
}

/// The note bitmap after the first `n` events of a block.
pub open spec fn single_note_after(m: u128, events: Seq<Event>, n: int) -> u128
    decreases n,
{
    if n <= 0 {
        m
    } else {
        single_note_step(single_note_after(m, events, n - 1), events[n - 1])
    }
}

/// Everything the processor forwards for the first `n` events, in order.
pub open spec fn single_note_out_after(m: u128, events: Seq<Event>, n: int, target: u8) -> Seq<
    Event,
>
    decreases n,
{
    if n <= 0 {
        Seq::<Event>::empty()
    } else {
        single_note_out_after(m, events, n - 1, target) + opt_event_seq(
            single_note_route(single_note_after(m, events, n - 1), events[n - 1], target),
        )
    }
}

/// One block of the single-note processor.
#[verifier::loop_isolation(false)]
pub fn single_note_block(
    states: &mut NotesState,
    target: u8,
    events: &Vec<Event>,
    out: &mut Vec<Event>,
)
    requires
        forall|i: int| 0 <= i < events@.len() ==> (#[trigger] events@[i]).wf(),
    ensures
        final(states).0 == single_note_after(old(states).0, events@, events@.len() as int),
        final(out)@ == old(out)@ + single_note_out_after(
            old(states).0,
            events@,
            events@.len() as int,
            target,
        ),
{
    let ghost n0 = states.0;
    let mut i: usize = 0;
    while i < events.len()
        invariant
            i <= events@.len(),
            states.0 == single_note_after(n0, events@, i as int),
            out@ == old(out)@ + single_note_out_after(n0, events@, i as int, target),
        decreases events@.len() - i,
    {
        process_single_note_event(states, target, events[i], out);
        i += 1;
    }
}

} // verus!
