use midi_engine::engine::{
    process_event_on, process_event_seamless, process_events_on_state, process_state_transitions,
    InternalState,
};
use midi_engine::event::Event;
use midi_engine::params::EngineParams;
use midi_engine::state::{DamperState, NotesState};

fn params(active: bool, channel_0_based: u8) -> EngineParams {
    EngineParams {
        active,
        channel: channel_0_based as i32 + 1,
        msb: 0,
        lsb: 0,
        program: 5,
        ccs: Vec::new(),
    }
}

fn on_state(channel_0_based: u8, notes: u128, damper_down: bool) -> InternalState {
    let mut state = InternalState::Off;
    let mut out: Vec<Event> = Vec::new();
    process_state_transitions(&mut state, &params(true, channel_0_based), &mut out);
    match &mut state {
        InternalState::On { damper, notes: n, .. } => {
            n.0 = notes;
            if damper_down {
                damper.set_on();
            }
        }
        _ => panic!("activation must reach On"),
    }
    state
}

#[test]
fn dormant_engine_stays_dormant() {
    let mut state = InternalState::Off;
    let mut out: Vec<Event> = Vec::new();
    process_state_transitions(&mut state, &params(false, 0), &mut out);
    assert!(matches!(state, InternalState::Off));
    assert!(out.is_empty());
}

#[test]
fn activation_captures_and_emits_first_correctives() {
    let mut state = InternalState::Off;
    let mut out: Vec<Event> = Vec::new();
    process_state_transitions(&mut state, &params(true, 0), &mut out);
    match &state {
        InternalState::On { damper, notes, snapshot } => {
            assert!(damper.is_off());
            assert!(notes.is_all_off());
            assert_eq!(snapshot.channel, 0);
        }
        _ => panic!("activation must reach On"),
    }
    assert_eq!(
        out,
        vec![
            Event::ControlChange { timing: 0, channel: 0, cc: 0, value: 0 },
            Event::ControlChange { timing: 0, channel: 0, cc: 32, value: 0 },
            Event::ProgramChange { timing: 1, channel: 0, program: 5 },
            Event::ControlChange { timing: 2, channel: 0, cc: 64, value: 0 },
        ]
    );
}

#[test]
fn reactivation_preserves_held_state_and_emits_only_deltas() {
    let mut state = on_state(0, 1u128 << 60, true);
    let mut out: Vec<Event> = Vec::new();
    let mut p = params(true, 0);
    p.program = 9;
    process_state_transitions(&mut state, &p, &mut out);
    match &state {
        InternalState::On { damper, notes, snapshot } => {
            assert!(!damper.is_off());
            assert!(notes.is_on(60));
            assert_eq!(snapshot.program, Some(9));
        }
        _ => panic!("must stay On"),
    }
    // Only the bank/program group moved; no pedal reset on a same-channel diff.
    assert_eq!(
        out,
        vec![
            Event::ControlChange { timing: 0, channel: 0, cc: 0, value: 0 },
            Event::ControlChange { timing: 0, channel: 0, cc: 32, value: 0 },
            Event::ProgramChange { timing: 1, channel: 0, program: 9 },
        ]
    );
}

#[test]
fn channel_change_while_on_resends_everything() {
    let mut state = on_state(0, 0, false);
    let mut out: Vec<Event> = Vec::new();
    process_state_transitions(&mut state, &params(true, 4), &mut out);
    assert_eq!(
        out,
        vec![
            Event::ControlChange { timing: 0, channel: 4, cc: 0, value: 0 },
            Event::ControlChange { timing: 0, channel: 4, cc: 32, value: 0 },
            Event::ProgramChange { timing: 1, channel: 4, program: 5 },
            Event::ControlChange { timing: 2, channel: 4, cc: 64, value: 0 },
        ]
    );
}

#[test]
fn deactivation_with_clear_tracker_reaches_off_at_once() {
    let mut state = on_state(0, 0, false);
    let mut out: Vec<Event> = Vec::new();
    process_state_transitions(&mut state, &params(false, 0), &mut out);
    assert!(matches!(state, InternalState::Off));
    assert!(out.is_empty());
}

#[test]
fn no_premature_off_while_note_held() {
    // Dropping activation while a note bit is set degrades to Draining,
    // never Off, and winds the pedal down on that edge.
    let mut state = on_state(2, 1u128 << 60, false);
    let mut out: Vec<Event> = Vec::new();
    process_state_transitions(&mut state, &params(false, 2), &mut out);
    match &state {
        InternalState::Draining { notes, .. } => assert!(notes.is_on(60)),
        _ => panic!("must degrade to Draining"),
    }
    assert_eq!(out, vec![Event::ControlChange { timing: 0, channel: 2, cc: 64, value: 0 }]);
}

#[test]
fn no_premature_off_while_damper_down() {
    let mut state = on_state(0, 0, true);
    let mut out: Vec<Event> = Vec::new();
    process_state_transitions(&mut state, &params(false, 0), &mut out);
    assert!(matches!(state, InternalState::Draining { .. }));
}

#[test]
fn draining_stays_draining_without_releases() {
    let mut state = on_state(0, 1u128 << 42, false);
    let mut out: Vec<Event> = Vec::new();
    process_state_transitions(&mut state, &params(false, 0), &mut out);
    out.clear();
    // A second deactivated block emits no further pedal-off.
    process_state_transitions(&mut state, &params(false, 0), &mut out);
    assert!(matches!(state, InternalState::Draining { .. }));
    assert!(out.is_empty());
}

#[test]
fn on_mode_rechannels_a_note_on_and_tracks_it() {
    // Engine On with channel 2: a NoteOn originally on channel 9 leaves on
    // channel 2 under the full re-channeling policy, and bit 60 is set.
    let mut state = on_state(2, 0, false);
    let events = vec![Event::NoteOn {
        timing: 0,
        voice_id: None,
        channel: 9,
        note: 60,
        velocity: 100,
    }];
    let mut out: Vec<Event> = Vec::new();
    process_events_on_state(&mut state, &events, &mut out);
    assert_eq!(
        out,
        vec![Event::NoteOn { timing: 0, voice_id: None, channel: 2, note: 60, velocity: 100 }]
    );
    match &state {
        InternalState::On { notes, .. } => assert!(notes.is_on(60)),
        _ => panic!("must stay On"),
    }
}

#[test]
fn on_mode_swallows_program_and_bank_messages() {
    let mut state = on_state(0, 0, false);
    let events = vec![
        Event::ProgramChange { timing: 0, channel: 0, program: 10 },
        Event::ControlChange { timing: 1, channel: 0, cc: 0, value: 3 },
        Event::ControlChange { timing: 2, channel: 0, cc: 32, value: 4 },
        Event::ControlChange { timing: 3, channel: 5, cc: 7, value: 99 },
    ];
    let mut out: Vec<Event> = Vec::new();
    process_events_on_state(&mut state, &events, &mut out);
    assert_eq!(out, vec![Event::ControlChange { timing: 3, channel: 0, cc: 7, value: 99 }]);
}

#[test]
fn on_mode_tracks_damper_and_forwards_it() {
    let mut state = on_state(0, 0, false);
    let events = vec![Event::ControlChange { timing: 0, channel: 3, cc: 64, value: 100 }];
    let mut out: Vec<Event> = Vec::new();
    process_events_on_state(&mut state, &events, &mut out);
    assert_eq!(out, vec![Event::ControlChange { timing: 0, channel: 0, cc: 64, value: 100 }]);
    match &state {
        InternalState::On { damper, .. } => assert!(!damper.is_off()),
        _ => panic!("must stay On"),
    }
}

#[test]
fn off_mode_passes_everything_through() {
    let mut state = InternalState::Off;
    let events = vec![
        Event::NoteOn { timing: 0, voice_id: Some(7), channel: 9, note: 60, velocity: 100 },
        Event::ProgramChange { timing: 1, channel: 9, program: 10 },
        Event::Other { timing: 2 },
    ];
    let mut out: Vec<Event> = Vec::new();
    process_events_on_state(&mut state, &events, &mut out);
    assert_eq!(out, events);
    assert!(matches!(state, InternalState::Off));
}

#[test]
fn draining_drops_control_changes_but_forwards_the_note_off() {
    // Draining with held bit 60: an incoming ControlChange is dropped, the
    // NoteOff passes (re-channeled), the bit clears, and with the damper
    // already off the engine is Off by the next evaluation.
    let mut state = on_state(2, 1u128 << 60, false);
    let mut out: Vec<Event> = Vec::new();
    process_state_transitions(&mut state, &params(false, 2), &mut out);
    assert!(matches!(state, InternalState::Draining { .. }));
    let events = vec![
        Event::ControlChange { timing: 0, channel: 9, cc: 1, value: 50 },
        Event::NoteOff { timing: 1, voice_id: None, channel: 9, note: 60, velocity: 0 },
    ];
    out.clear();
    process_events_on_state(&mut state, &events, &mut out);
    assert_eq!(
        out,
        vec![Event::NoteOff { timing: 1, voice_id: None, channel: 2, note: 60, velocity: 0 }]
    );
    assert!(matches!(state, InternalState::Off));
}

#[test]
fn draining_reaches_off_within_the_block_once_everything_releases() {
    // Eventual quiescence: note-offs for every held note plus a pedal
    // release drive a Draining engine to Off with no external trigger.
    let mut state = on_state(0, (1u128 << 60) | (1u128 << 64), true);
    let mut out: Vec<Event> = Vec::new();
    process_state_transitions(&mut state, &params(false, 0), &mut out);
    assert!(matches!(state, InternalState::Draining { .. }));
    let events = vec![
        Event::NoteOff { timing: 0, voice_id: None, channel: 0, note: 60, velocity: 0 },
        Event::ControlChange { timing: 1, channel: 0, cc: 64, value: 10 },
        Event::NoteOff { timing: 2, voice_id: None, channel: 0, note: 64, velocity: 0 },
    ];
    out.clear();
    process_events_on_state(&mut state, &events, &mut out);
    assert!(matches!(state, InternalState::Off));
    assert_eq!(
        out,
        vec![
            Event::NoteOff { timing: 0, voice_id: None, channel: 0, note: 60, velocity: 0 },
            Event::ControlChange { timing: 1, channel: 0, cc: 64, value: 0 },
            Event::NoteOff { timing: 2, voice_id: None, channel: 0, note: 64, velocity: 0 },
        ]
    );
}

#[test]
fn draining_ignores_new_note_ons() {
    let mut state = on_state(0, 1u128 << 60, false);
    let mut out: Vec<Event> = Vec::new();
    process_state_transitions(&mut state, &params(false, 0), &mut out);
    let events = vec![
        Event::NoteOn { timing: 0, voice_id: None, channel: 0, note: 62, velocity: 80 },
        Event::NoteOff { timing: 1, voice_id: None, channel: 0, note: 60, velocity: 0 },
    ];
    out.clear();
    process_events_on_state(&mut state, &events, &mut out);
    // The new note neither sounds nor keeps the engine draining.
    assert_eq!(
        out,
        vec![Event::NoteOff { timing: 1, voice_id: None, channel: 0, note: 60, velocity: 0 }]
    );
    assert!(matches!(state, InternalState::Off));
}

#[test]
fn per_event_routers_update_trackers() {
    let mut damper = DamperState::new();
    let mut notes = NotesState::new();
    let mut out: Vec<Event> = Vec::new();
    process_event_on(
        Event::Choke { timing: 0, voice_id: None, channel: 1, note: 30 },
        &mut damper,
        &mut notes,
        0,
        &mut out,
    );
    assert_eq!(out, vec![Event::Choke { timing: 0, voice_id: None, channel: 0, note: 30 }]);

    let mut damper = DamperState::new();
    damper.set_on();
    let mut notes = NotesState(1u128 << 40);
    let mut out: Vec<Event> = Vec::new();
    process_event_seamless(
        Event::ControlChange { timing: 3, channel: 7, cc: 64, value: 20 },
        &mut damper,
        &mut notes,
        1,
        &mut out,
    );
    assert!(damper.is_off());
    assert_eq!(out, vec![Event::ControlChange { timing: 3, channel: 1, cc: 64, value: 0 }]);
    process_event_seamless(
        Event::VoiceTerminated { timing: 4, voice_id: Some(2), channel: 7, note: 40 },
        &mut damper,
        &mut notes,
        1,
        &mut out,
    );
    assert!(notes.is_all_off());
}

#[test]
fn default_state_is_off() {
    let state = InternalState::default();
    assert!(matches!(state, InternalState::Off));
}
