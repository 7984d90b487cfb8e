//! The activation state machine and the per-block event router.
//!
//! The engine is `Off` (dormant), `On` (actively managing and re-channeling
//! the stream), or `Draining` (deactivation was requested while notes or the
//! pedal were still down; only releases are forwarded until everything
//! clears). Transitions run once per block, before any event is routed.
//!
//! The router applies the full re-channeling policy: while `On`, every
//! recognized event is re-addressed to the managed target channel whatever
//! its original channel was.

use vstd::prelude::*;

verus! {

use crate::event::{Event, BANK_SELECT_LSB, BANK_SELECT_MSB, DAMPER_PEDAL, DAMPER_THRESHOLD};
use crate::params::{damper_off, spec_damper_off_event, EngineParams, ParamsSnapshot};
use crate::state::{lemma_all_off_iff_no_bits, DamperState, NotesState};

/// The engine's activation state. While `On` or `Draining` it carries the
/// held-note tracker and the last-sent parameter snapshot.
#[derive(Debug)]
pub enum InternalState {
    Off,
    On { damper: DamperState, notes: NotesState, snapshot: ParamsSnapshot },
    Draining { damper: DamperState, notes: NotesState, snapshot: ParamsSnapshot },
}

impl Default for InternalState {
    /// The engine is created dormant.
    fn default() -> (r: Self)
        ensures
            r is Off,
    {
        InternalState::Off
    }
}

impl InternalState {
    pub open spec fn wf(self) -> bool {
        match self {
            InternalState::Off => true,
            InternalState::On { snapshot, .. } => snapshot.wf(),
            InternalState::Draining { snapshot, .. } => snapshot.wf(),
        }
    }

    /// The stored snapshot (if any) manages the same controller list as `p`,
    /// so a fresh capture of `p` can be diffed against it.
    pub open spec fn compatible_with(self, p: EngineParams) -> bool {
        match self {
            InternalState::Off => true,
            InternalState::On { snapshot, .. } => snapshot_has_layout_of(snapshot, p),
            InternalState::Draining { snapshot, .. } => snapshot_has_layout_of(snapshot, p),
        }
    }

    /// Whether any note bit is set or the damper is held in this state.
    pub open spec fn any_held(self) -> bool {
        match self {
            InternalState::Off => false,
            InternalState::On { damper, notes, .. } => !notes.spec_all_off()
                || damper.spec_is_down(),
            InternalState::Draining { damper, notes, .. } => !notes.spec_all_off()
                || damper.spec_is_down(),
        }
    }
}

/// The snapshot's controller list is position-by-position the one `p`
/// declares.
pub open spec fn snapshot_has_layout_of(s: ParamsSnapshot, p: EngineParams) -> bool {
    &&& s.ccs@.len() == p.ccs@.len()
    &&& (forall|i: int|
        0 <= i < p.ccs@.len() ==> (#[trigger] s.ccs@[i]).controller == p.ccs@[i].controller)
}

/// What one state-machine step must do, relating the prior state and output
/// to the new ones. Row by row: dormant stays dormant for free; activation
/// captures a snapshot and diffs it (against nothing on a first activation,
/// against the last-sent snapshot otherwise, with held state preserved);
/// deactivation reaches Off only once nothing is held, else it degrades to
/// Draining, emitting one corrective pedal-off on the On-to-Draining edge.
pub open spec fn transition_ok(
    pre: InternalState,
    p: EngineParams,
    post: InternalState,
    out0: Seq<Event>,
    out1: Seq<Event>,
) -> bool {
    match pre {
        InternalState::Off => {
            if !p.active {
                post is Off && out1 == out0
            } else {
                &&& post matches InternalState::On { damper, notes, snapshot }
                &&& !damper.spec_is_down()
                &&& notes.spec_all_off()
                &&& snapshot.is_snapshot_of(p)
                &&& out1 == out0 + snapshot.diff_events(None)
            }
        },
        InternalState::On { damper, notes, snapshot } => active_transition_ok(
            damper,
            notes,
            snapshot,
            true,
            p,
            post,
            out0,
            out1,
        ),
        InternalState::Draining { damper, notes, snapshot } => active_transition_ok(
            damper,
            notes,
            snapshot,
            false,
            p,
            post,
            out0,
            out1,
        ),
    }
}

/// The step taken from `On` or `Draining`; `was_on` tells the two apart, as
/// only the On-to-Draining edge emits the corrective pedal-off.
pub open spec fn active_transition_ok(
    damper: DamperState,
    notes: NotesState,
    prev: ParamsSnapshot,
    was_on: bool,
    p: EngineParams,
    post: InternalState,
    out0: Seq<Event>,
    out1: Seq<Event>,
) -> bool {
    if p.active {
        &&& post matches InternalState::On { damper: d2, notes: n2, snapshot: s2 }
        &&& d2 == damper
        &&& n2 == notes
        &&& s2.is_snapshot_of(p)
        &&& out1 == out0 + s2.diff_events(Some(prev))
    } else if notes.spec_all_off() && !damper.spec_is_down() {
        post is Off && out1 == out0
    } else {
        &&& post matches InternalState::Draining { damper: d2, notes: n2, snapshot: s2 }
        &&& d2 == damper
        &&& n2 == notes
        &&& s2 == prev
        &&& out1 == out0 + if was_on {
            seq![spec_damper_off_event(prev.channel)]
        } else {
            Seq::<Event>::empty()
        }
    }
}

/// One state-machine step, evaluated once per block before any event is
/// routed. Pushes the corrective events the step calls for onto `out`.
pub fn process_state_transitions(
    state: &mut InternalState,
    params: &EngineParams,
    out: &mut Vec<Event>,
)
    requires
        params.wf(),
        old(state).wf(),
        old(state).compatible_with(*params),
    ensures
        transition_ok(*old(state), *params, *final(state), old(out)@, final(out)@),
        final(state).wf(),
        final(state).compatible_with(*params),
        // Dropping activation while anything is held yields Draining, never Off.
        (!params.active && old(state).any_held()) ==> (*final(state)) is Draining,
{
    let mut pre = InternalState::Off;
    core::mem::swap(state, &mut pre);
    match pre {
        InternalState::Off => {
            if params.active {
                let snapshot = params.snapshot();
                snapshot.send(None, out);
                *state = InternalState::On {
                    damper: DamperState::new(),
                    notes: NotesState::new(),
                    snapshot,
                };
            }
        },
        InternalState::On { damper, notes, snapshot } => {
            if params.active {
                let new = params.snapshot();
                proof {
                    assert(new.same_layout(snapshot));
                }
                new.send(Some(&snapshot), out);
                *state = InternalState::On { damper, notes, snapshot: new };
            } else if notes.is_all_off() && damper.is_off() {
                *state = InternalState::Off;
            } else {
                damper_off(snapshot.channel, out);
                *state = InternalState::Draining { damper, notes, snapshot };
            }
        },
        InternalState::Draining { damper, notes, snapshot } => {
            if params.active {
                let new = params.snapshot();
                proof {
                    assert(new.same_layout(snapshot));
                }
                new.send(Some(&snapshot), out);
                *state = InternalState::On { damper, notes, snapshot: new };
            } else if notes.is_all_off() && damper.is_off() {
                *state = InternalState::Off;
            } else {
                *state = InternalState::Draining { damper, notes, snapshot };
            }
        },
    }
}

/// A routed event as a sequence: one element when something is forwarded,
/// none when the event is dropped.
pub open spec fn opt_event_seq(o: Option<Event>) -> Seq<Event> {
    match o {
        Some(e) => seq![e],
        None => Seq::<Event>::empty(),
    }
}

/// The note bitmap after the tracker observes `e` in the active mode: a
/// note-on sets the bit, a note-off, choke or voice termination clears it.
pub open spec fn on_notes_step(m: u128, e: Event) -> u128 {
    match e {
        Event::NoteOn { note, .. } => m | (1u128 << note),
        Event::NoteOff { note, .. } => m & !(1u128 << note),
        Event::Choke { note, .. } => m & !(1u128 << note),
        Event::VoiceTerminated { note, .. } => m & !(1u128 << note),
        _ => m,
    }
}

/// The damper flag after the tracker observes `e`: the last sustain
/// controller value at or above the threshold wins.
pub open spec fn on_damper_step(d: bool, e: Event) -> bool {
    match e {
        Event::ControlChange { cc, value, .. } => if cc == DAMPER_PEDAL {
            value >= DAMPER_THRESHOLD
        } else {
            d
        },
        _ => d,
    }
}

/// What the active mode forwards for `e`: the event re-addressed to the
/// managed channel; program changes and bank-select controllers are
/// swallowed, because the engine itself owns bank and program state.
pub open spec fn on_route(e: Event, channel: u8) -> Option<Event> {
    match e {
        Event::ProgramChange { .. } => None,
        Event::ControlChange { cc, .. } => if cc == BANK_SELECT_MSB || cc == BANK_SELECT_LSB {
            None
        } else {
            Some(e.spec_with_channel(channel))
        },
        _ => Some(e.spec_with_channel(channel)),
    }
}

/// The note bitmap after `e` in the draining mode: bits only clear; a
/// note-on triggers nothing and is not tracked.
pub open spec fn drain_notes_step(m: u128, e: Event) -> u128 {
    match e {
        Event::NoteOff { note, .. } => m & !(1u128 << note),
        Event::Choke { note, .. } => m & !(1u128 << note),
        Event::VoiceTerminated { note, .. } => m & !(1u128 << note),
        _ => m,
    }
}

/// The damper flag after `e` in the draining mode: only a release clears it;
/// nothing sets it.
pub open spec fn drain_damper_step(d: bool, e: Event) -> bool {
    if e.releases_damper() {
        false
    } else {
        d
    }
}

/// What the draining mode forwards for `e`: only note-off equivalents and a
/// pedal release (normalized to value zero), re-addressed to the managed
/// channel; everything else is dropped so no new sound starts.
pub open spec fn drain_route(e: Event, channel: u8) -> Option<Event> {
    match e {
        Event::NoteOff { .. } => Some(e.spec_with_channel(channel)),
        Event::Choke { .. } => Some(e.spec_with_channel(channel)),
        Event::VoiceTerminated { .. } => Some(e.spec_with_channel(channel)),
        Event::ControlChange { timing, cc, value, .. } => if cc == DAMPER_PEDAL && value
            < DAMPER_THRESHOLD {
            Some(Event::ControlChange { timing, channel, cc: DAMPER_PEDAL, value: 0 })
        } else {
            None
        },
        _ => None,
    }
}

/// The note bitmap after the first `n` events of an active-mode block.
pub open spec fn on_notes_after(m: u128, events: Seq<Event>, n: int) -> u128
    decreases n,
{
    if n <= 0 {
        m
    } else {
        on_notes_step(on_notes_after(m, events, n - 1), events[n - 1])
    }
}

/// The damper flag after the first `n` events of an active-mode block.
pub open spec fn on_damper_after(d: bool, events: Seq<Event>, n: int) -> bool
    decreases n,
{
    if n <= 0 {
        d
    } else {
        on_damper_step(on_damper_after(d, events, n - 1), events[n - 1])
    }
}

/// Everything the active mode forwards for the first `n` events, in order.
pub open spec fn on_out_after(channel: u8, events: Seq<Event>, n: int) -> Seq<Event>
    decreases n,
{
    if n <= 0 {
        Seq::<Event>::empty()
    } else {
        on_out_after(channel, events, n - 1) + opt_event_seq(on_route(events[n - 1], channel))
    }
}

/// The note bitmap after the first `n` events of a draining block.
pub open spec fn drain_notes_after(m: u128, events: Seq<Event>, n: int) -> u128
    decreases n,
{
    if n <= 0 {
        m
    } else {
        drain_notes_step(drain_notes_after(m, events, n - 1), events[n - 1])
    }
}

/// The damper flag after the first `n` events of a draining block.
pub open spec fn drain_damper_after(d: bool, events: Seq<Event>, n: int) -> bool
    decreases n,
{
    if n <= 0 {
        d
    } else {
        drain_damper_step(drain_damper_after(d, events, n - 1), events[n - 1])
    }
}

/// Everything the draining mode forwards for the first `n` events, in order.
pub open spec fn drain_out_after(channel: u8, events: Seq<Event>, n: int) -> Seq<Event>
    decreases n,
{
    if n <= 0 {
        Seq::<Event>::empty()
    } else {
        drain_out_after(channel, events, n - 1) + opt_event_seq(
            drain_route(events[n - 1], channel),
        )
    }
}

/// Route one event in the active mode: update the tracker, re-address the
/// event to `channel`, and swallow program-change and bank-select messages.
pub fn process_event_on(
    event: Event,
    damper: &mut DamperState,
    notes: &mut NotesState,
    channel: u8,
    out: &mut Vec<Event>,
)
    requires
        event.wf(),
    ensures
        final(notes).0 == on_notes_step(old(notes).0, event),
        final(damper).spec_is_down() == on_damper_step(old(damper).spec_is_down(), event),
        final(out)@ == old(out)@ + opt_event_seq(on_route(event, channel)),
{
    let ghost out0 = out@;
    match event {
        Event::NoteOn { note, .. } => {
            notes.set_on(note);
            out.push(event.with_channel(channel));
        },
        Event::NoteOff { note, .. } => {
            notes.set_off(note);
            out.push(event.with_channel(channel));
        },
        Event::Choke { note, .. } => {
            notes.set_off(note);
            out.push(event.with_channel(channel));
        },
        Event::VoiceTerminated { note, .. } => {
            notes.set_off(note);
            out.push(event.with_channel(channel));
        },
        Event::ControlChange { cc, value, .. } => {
            if cc == DAMPER_PEDAL {
                if value >= DAMPER_THRESHOLD {
                    damper.set_on();
                } else {
                    damper.set_off();
                }
            }
            if cc == BANK_SELECT_MSB || cc == BANK_SELECT_LSB {
                // Swallowed: the engine owns bank and program state.
            } else {
                out.push(event.with_channel(channel));
            }
        },
        Event::ProgramChange { .. } => {
            // Swallowed: the engine owns bank and program state.
        },
        _ => {
            out.push(event.with_channel(channel));
        },
    }
    proof {
        assert(out@ =~= out0 + opt_event_seq(on_route(event, channel)));
    }
}

/// Route one event while draining: forward only note-off equivalents and a
/// pedal release, clearing the tracker as they pass; drop everything else.
pub fn process_event_seamless(
    event: Event,
    damper: &mut DamperState,
    notes: &mut NotesState,
    channel: u8,
    out: &mut Vec<Event>,
)
    requires
        event.wf(),
    ensures
        final(notes).0 == drain_notes_step(old(notes).0, event),
        final(damper).spec_is_down() == drain_damper_step(old(damper).spec_is_down(), event),
        final(out)@ == old(out)@ + opt_event_seq(drain_route(event, channel)),
{
    let ghost out0 = out@;
    match event {
        Event::NoteOff { note, .. } => {
            notes.set_off(note);
            out.push(event.with_channel(channel));
        },
        Event::Choke { note, .. } => {
            notes.set_off(note);
            out.push(event.with_channel(channel));
        },
        Event::VoiceTerminated { note, .. } => {
            notes.set_off(note);
            out.push(event.with_channel(channel));
        },
        Event::ControlChange { timing, cc, value, .. } => {
            if cc == DAMPER_PEDAL && value < DAMPER_THRESHOLD {
                damper.set_off();
                out.push(Event::ControlChange { timing, channel, cc: DAMPER_PEDAL, value: 0 });
            }
        },
        _ => {},
    }
    proof {
        assert(out@ =~= out0 + opt_event_seq(drain_route(event, channel)));
    }
}

/// What one block of event routing must do, relating the prior state and
/// output to the new ones. Dormant: full pass-through. On: every event is
/// routed through the active mode and the tracker follows. Draining: only
/// releases pass, and the state reaches Off within the block once the last
/// note bit and the damper have cleared.
pub open spec fn events_ok(
    pre: InternalState,
    events: Seq<Event>,
    post: InternalState,
    out0: Seq<Event>,
    out1: Seq<Event>,
) -> bool {
    match pre {
        InternalState::Off => post is Off && out1 == out0 + events,
        InternalState::On { damper, notes, snapshot } => {
            &&& out1 == out0 + on_out_after(snapshot.channel, events, events.len() as int)
            &&& post matches InternalState::On { damper: d2, notes: n2, snapshot: s2 }
            &&& d2.spec_is_down() == on_damper_after(
                damper.spec_is_down(),
                events,
                events.len() as int,
            )
            &&& n2.0 == on_notes_after(notes.0, events, events.len() as int)
            &&& s2 == snapshot
        },
        InternalState::Draining { damper, notes, snapshot } => {
            let dd = drain_damper_after(damper.spec_is_down(), events, events.len() as int);
            let nn = drain_notes_after(notes.0, events, events.len() as int);
            &&& out1 == out0 + drain_out_after(snapshot.channel, events, events.len() as int)
            &&& if nn == 0 && !dd {
                post is Off
            } else {
                &&& post matches InternalState::Draining { damper: d2, notes: n2, snapshot: s2 }
                &&& d2.spec_is_down() == dd
                &&& n2.0 == nn
                &&& s2 == snapshot
            }
        },
    }
}

/// Consume one block's input events against the current state: pass-through
/// when Off, full rewriting when On, releases only while Draining, ending in
/// Off once the held state has fully cleared.
#[verifier::loop_isolation(false)]
pub fn process_events_on_state(state: &mut InternalState, events: &Vec<Event>, out: &mut Vec<Event>)
    requires
        forall|i: int| 0 <= i < events@.len() ==> (#[trigger] events@[i]).wf(),
    ensures
        events_ok(*old(state), events@, *final(state), old(out)@, final(out)@),
        old(state).wf() ==> final(state).wf(),
{
    let mut pre = InternalState::Off;
    core::mem::swap(state, &mut pre);
    match pre {
        InternalState::Off => {
            let mut i: usize = 0;
            while i < events.len()
                invariant
                    i <= events@.len(),
                    out@ == old(out)@ + events@.take(i as int),
                decreases events@.len() - i,
            {
                out.push(events[i]);
                proof {
                    assert(out@ =~= old(out)@ + events@.take(i as int + 1));
                }
                i += 1;
            }
            proof {
                assert(events@.take(events@.len() as int) =~= events@);
            }
        },
        InternalState::On { mut damper, mut notes, snapshot } => {
            let channel = snapshot.channel;
            let ghost d0 = damper.spec_is_down();
            let ghost n0 = notes.0;
            let mut i: usize = 0;
            while i < events.len()
                invariant
                    i <= events@.len(),
                    damper.spec_is_down() == on_damper_after(d0, events@, i as int),
                    notes.0 == on_notes_after(n0, events@, i as int),
                    out@ == old(out)@ + on_out_after(channel, events@, i as int),
                decreases events@.len() - i,
            {
                process_event_on(events[i], &mut damper, &mut notes, channel, out);
                i += 1;
            }
            *state = InternalState::On { damper, notes, snapshot };
        },
        InternalState::Draining { mut damper, mut notes, snapshot } => {
            let channel = snapshot.channel;
            let ghost d0 = damper.spec_is_down();
            let ghost n0 = notes.0;
            let mut i: usize = 0;
            while i < events.len()
                invariant
                    i <= events@.len(),
                    damper.spec_is_down() == drain_damper_after(d0, events@, i as int),
                    notes.0 == drain_notes_after(n0, events@, i as int),
                    out@ == old(out)@ + drain_out_after(channel, events@, i as int),
                decreases events@.len() - i,
            {
                process_event_seamless(events[i], &mut damper, &mut notes, channel, out);
                i += 1;
            }
            if notes.is_all_off() && damper.is_off() {
                *state = InternalState::Off;
            } else {
                *state = InternalState::Draining { damper, notes, snapshot };
            }
        },
    }
}

/// Some event among the first `events.len()` clears note `k`.
pub open spec fn clears_some(events: Seq<Event>, k: u8) -> bool {
    exists|i: int| 0 <= i < events.len() && (#[trigger] events[i]).clears_note(k)
}

/// Some event releases the sustain pedal.
pub open spec fn releases_some(events: Seq<Event>) -> bool {
    exists|i: int| 0 <= i < events.len() && (#[trigger] events[i]).releases_damper()
}

/// While draining the tracker is monotone: a note bit set after `n` events
/// was already set before them, and a held damper was already held.
pub proof fn lemma_drain_monotone(m: u128, d: bool, events: Seq<Event>, n: int, k: u8)
    requires
        0 <= n,
    ensures
        drain_notes_after(m, events, n) & (1u128 << k) != 0 ==> m & (1u128 << k) != 0,
        drain_damper_after(d, events, n) ==> d,
    decreases n,
{
    if n > 0 {
        lemma_drain_monotone(m, d, events, n - 1, k);
        let prev = drain_notes_after(m, events, n - 1);
        match events[n - 1] {
            Event::NoteOff { note, .. } => {
                assert((prev & !(1u128 << note)) & (1u128 << k) != 0 ==> prev & (1u128 << k) != 0)
                    by (bit_vector);
            },
            Event::Choke { note, .. } => {
                assert((prev & !(1u128 << note)) & (1u128 << k) != 0 ==> prev & (1u128 << k) != 0)
                    by (bit_vector);
            },
            Event::VoiceTerminated { note, .. } => {
                assert((prev & !(1u128 << note)) & (1u128 << k) != 0 ==> prev & (1u128 << k) != 0)
                    by (bit_vector);
            },
            _ => {},
        }
    }
}

/// Once some event among the first `n` clears note `k`, its bit is clear
/// after those `n` events: draining never sets it again.
pub proof fn lemma_drain_clears_covered(m: u128, events: Seq<Event>, n: int, k: u8, i: int)
    requires
        0 <= i < n,
        k < 128,
        events[i].clears_note(k),
    ensures
        drain_notes_after(m, events, n) & (1u128 << k) == 0,
    decreases n,
{
    let prev = drain_notes_after(m, events, n - 1);
    if i == n - 1 {
        assert((prev & !(1u128 << k)) & (1u128 << k) == 0) by (bit_vector);
    } else {
        lemma_drain_clears_covered(m, events, n - 1, k, i);
        match events[n - 1] {
            Event::NoteOff { note, .. } => {
                assert(prev & (1u128 << k) == 0 ==> (prev & !(1u128 << note)) & (1u128 << k) == 0)
                    by (bit_vector);
            },
            Event::Choke { note, .. } => {
                assert(prev & (1u128 << k) == 0 ==> (prev & !(1u128 << note)) & (1u128 << k) == 0)
                    by (bit_vector);
            },
            Event::VoiceTerminated { note, .. } => {
                assert(prev & (1u128 << k) == 0 ==> (prev & !(1u128 << note)) & (1u128 << k) == 0)
                    by (bit_vector);
            },
            _ => {},
        }
    }
}

/// Once some event among the first `n` releases the pedal, the damper flag
/// is clear after those `n` events.
pub proof fn lemma_drain_damper_released(d: bool, events: Seq<Event>, n: int, i: int)
    requires
        0 <= i < n,
        events[i].releases_damper(),
    ensures
        !drain_damper_after(d, events, n),
    decreases n,
{
    if i < n - 1 {
        lemma_drain_damper_released(d, events, n - 1, i);
    }
}

/// Eventual quiescence of a draining engine: if the block carries a clearing
/// event for every held note and, when the pedal is down, a pedal release,
/// then after the block no note bit is set and the damper is up - so the
/// state machine reaches Off within that block, with no external trigger.
pub proof fn lemma_drain_quiescence(m: u128, d: bool, events: Seq<Event>)
    requires
        forall|k: u8| k < 128 && NotesState(m).spec_is_on(k) ==> #[trigger] clears_some(events, k),
        d ==> releases_some(events),
    ensures
        drain_notes_after(m, events, events.len() as int) == 0,
        !drain_damper_after(d, events, events.len() as int),
{
    let n = events.len() as int;
    let m_end = drain_notes_after(m, events, n);
    assert forall|k: u8| k < 128 implies !NotesState(m_end).spec_is_on(k) by {
        if m & (1u128 << k) != 0 {
            assert(NotesState(m).spec_is_on(k));
            assert(clears_some(events, k));
            let i = choose|i: int| 0 <= i < events.len() && (#[trigger] events[i]).clears_note(k);
            lemma_drain_clears_covered(m, events, n, k, i);
        } else {
            lemma_drain_monotone(m, d, events, n, k);
        }
    }
    lemma_all_off_iff_no_bits(NotesState(m_end));
    if d {
        let i = choose|i: int| 0 <= i < events.len() && (#[trigger] events[i]).releases_damper();
        lemma_drain_damper_released(d, events, n, i);
    } else {
        lemma_drain_monotone(m, d, events, n, 0);
    }
}

/// Eventual quiescence at the state-machine level: a draining engine fed a
/// clearing event for every held note and, when the pedal is down, a pedal
/// release, is Off when the block ends - no external trigger needed.
pub proof fn lemma_draining_block_reaches_off(
    pre: InternalState,
    events: Seq<Event>,
    post: InternalState,
    out0: Seq<Event>,
    out1: Seq<Event>,
)
    requires
        pre is Draining,
        events_ok(pre, events, post, out0, out1),
        forall|k: u8|
            k < 128 && (pre->Draining_notes).spec_is_on(k) ==> #[trigger] clears_some(events, k),
        (pre->Draining_damper).spec_is_down() ==> releases_some(events),
    ensures
        post is Off,
{
    lemma_drain_quiescence(
        (pre->Draining_notes).0,
        (pre->Draining_damper).spec_is_down(),
        events,
    );
}

/// No clearing event for note `k` occurs strictly between positions `i` and
/// `n` of the block.
pub open spec fn no_clear_after(events: Seq<Event>, i: int, n: int, k: u8) -> bool {
    forall|j: int| i < j < n ==> !(#[trigger] events[j]).clears_note(k)
}

/// Note `k` is live in the first `n` events: some note-on for `k` occurs and
/// no note-off, choke or voice termination for `k` follows it.
pub open spec fn note_live(events: Seq<Event>, n: int, k: u8) -> bool {
    exists|i: int|
        0 <= i < n && (#[trigger] events[i]).starts_note(k) && no_clear_after(events, i, n, k)
}

/// The tracker follows liveness: after an active-mode block that started
/// from a fresh tracker, the bit for note `k` is set exactly when `k` is
/// live - whatever the order of events, and however often a note repeats.
pub proof fn lemma_tracker_follows_liveness(events: Seq<Event>, n: int, k: u8)
    requires
        0 <= n <= events.len(),
        k < 128,
        forall|i: int| 0 <= i < events.len() ==> (#[trigger] events[i]).wf(),
    ensures
        (on_notes_after(0, events, n) & (1u128 << k) != 0) <==> note_live(events, n, k),
    decreases n,
{
    if n == 0 {
        assert(0u128 & (1u128 << k) == 0) by (bit_vector);
    } else {
        lemma_tracker_follows_liveness(events, n - 1, k);
        let prev = on_notes_after(0, events, n - 1);
        let e = events[n - 1];
        if e.starts_note(k) {
            assert((prev | (1u128 << k)) & (1u128 << k) != 0) by (bit_vector)
                requires
                    k < 128,
            ;
            assert(events[n - 1].starts_note(k) && no_clear_after(events, n - 1, n, k));
            assert(note_live(events, n, k));
        } else if e.clears_note(k) {
            assert((prev & !(1u128 << k)) & (1u128 << k) == 0) by (bit_vector);
            assert forall|i: int|
                0 <= i < n && (#[trigger] events[i]).starts_note(k) implies !no_clear_after(
                events,
                i,
                n,
                k,
            ) by {
                assert(i != n - 1);
                assert(events[n - 1].clears_note(k));
            }
            assert(!note_live(events, n, k));
        } else {
            let bit_before = prev & (1u128 << k) != 0;
            match e {
                Event::NoteOn { note, .. } => {
                    assert(((prev | (1u128 << note)) & (1u128 << k) != 0) == (prev & (1u128 << k)
                        != 0)) by (bit_vector)
                        requires
                            note != k,
                            note < 128,
                            k < 128,
                    ;
                },
                Event::NoteOff { note, .. } => {
                    assert(((prev & !(1u128 << note)) & (1u128 << k) != 0) == (prev & (1u128 << k)
                        != 0)) by (bit_vector)
                        requires
                            note != k,
                            note < 128,
                            k < 128,
                    ;
                },
                Event::Choke { note, .. } => {
                    assert(((prev & !(1u128 << note)) & (1u128 << k) != 0) == (prev & (1u128 << k)
                        != 0)) by (bit_vector)
                        requires
                            note != k,
                            note < 128,
                            k < 128,
                    ;
                },
                Event::VoiceTerminated { note, .. } => {
                    assert(((prev & !(1u128 << note)) & (1u128 << k) != 0) == (prev & (1u128 << k)
                        != 0)) by (bit_vector)
                        requires
                            note != k,
                            note < 128,
                            k < 128,
                    ;
                },
                _ => {},
            }
            assert(on_notes_after(0, events, n) & (1u128 << k) != 0 <==> bit_before);
            if note_live(events, n - 1, k) {
                let i = choose|i: int|
                    0 <= i < n - 1 && (#[trigger] events[i]).starts_note(k) && no_clear_after(
                        events,
                        i,
                        n - 1,
                        k,
                    );
                assert(no_clear_after(events, i, n, k));
                assert(note_live(events, n, k));
            }
            if note_live(events, n, k) {
                let i = choose|i: int|
                    0 <= i < n && (#[trigger] events[i]).starts_note(k) && no_clear_after(
                        events,
                        i,
                        n,
                        k,
                    );
                assert(i != n - 1);
                assert(no_clear_after(events, i, n - 1, k));
                assert(note_live(events, n - 1, k));
            }
        }
    }
}

/// Held state closes under matched on/off interleavings: after an
/// active-mode block from a fresh tracker, the bitmap is all clear exactly
/// when every note that was turned on has since been cleared.
pub proof fn lemma_all_off_iff_nothing_live(events: Seq<Event>)
    requires
        forall|i: int| 0 <= i < events.len() ==> (#[trigger] events[i]).wf(),
    ensures
        (on_notes_after(0, events, events.len() as int) == 0) <==> (forall|k: u8|
            k < 128 ==> !note_live(events, events.len() as int, k)),
{
    let n = events.len() as int;
    let m_end = on_notes_after(0, events, n);
    if m_end == 0 {
        assert forall|k: u8| k < 128 implies !note_live(events, n, k) by {
            lemma_tracker_follows_liveness(events, n, k);
            assert(0u128 & (1u128 << k) == 0) by (bit_vector);
        }
    } else {
        lemma_all_off_iff_no_bits(NotesState(m_end));
        let k0 = choose|k: u8| k < 128 && NotesState(m_end).spec_is_on(k);
        lemma_tracker_follows_liveness(events, n, k0);
        assert(note_live(events, n, k0));
    }
}

/// Held state closes under on/off interleavings at the state-machine level:
/// a freshly activated engine (its tracker clear) that processes a block is
/// left holding no note exactly when every note turned on during the block
/// was cleared again - in any order, and however often a note repeats.
pub proof fn lemma_on_block_tracker_matches_liveness(
    pre: InternalState,
    events: Seq<Event>,
    post: InternalState,
    out0: Seq<Event>,
    out1: Seq<Event>,
)
    requires
        pre is On,
        (pre->On_notes).0 == 0,
        events_ok(pre, events, post, out0, out1),
        forall|i: int| 0 <= i < events.len() ==> (#[trigger] events[i]).wf(),
    ensures
        post is On,
        (post->On_notes).spec_all_off() <==> (forall|k: u8|
            k < 128 ==> !note_live(events, events.len() as int, k)),
{
    lemma_all_off_iff_nothing_live(events);
}

} // verus!
