use midi_engine::event::Event;
use midi_engine::filter::{filter_block, MidiFilterParams};
use midi_engine::registry::{find_or_add, update_transpose, update_transpose_from_text, Shared};
use midi_engine::single_note::{process_single_note_event, single_note_block, SingleNoteParams};
use midi_engine::state::NotesState;
use midi_engine::transpose::{transpose, transpose_block, transpose_event};

#[test]
fn filter_blocks_governed_controllers_until_allowed() {
    let blocked = MidiFilterParams::default();
    let sustain = Event::ControlChange { timing: 0, channel: 0, cc: 64, value: 100 };
    let modulation = Event::ControlChange { timing: 1, channel: 0, cc: 1, value: 10 };
    let volume = Event::ControlChange { timing: 2, channel: 0, cc: 7, value: 90 };
    let bend = Event::PitchBend { timing: 3, channel: 0, value: 8192 };
    let note = Event::NoteOn { timing: 4, voice_id: None, channel: 0, note: 60, velocity: 99 };
    let events = vec![sustain, modulation, volume, bend, note];

    let mut out: Vec<Event> = Vec::new();
    filter_block(&blocked, &events, &mut out);
    // Ungoverned events always pass; every governed family starts blocked.
    assert_eq!(out, vec![volume, note]);

    let mut allowing = MidiFilterParams::default();
    allowing.dp = true;
    allowing.pb = true;
    let mut out: Vec<Event> = Vec::new();
    filter_block(&allowing, &events, &mut out);
    assert_eq!(out, vec![sustain, volume, bend, note]);
}

#[test]
fn filter_governs_both_msb_and_lsb_of_a_family() {
    let mut p = MidiFilterParams::default();
    p.mw = true;
    assert!(p.allows(&Event::ControlChange { timing: 0, channel: 0, cc: 1, value: 1 }));
    assert!(p.allows(&Event::ControlChange { timing: 0, channel: 0, cc: 33, value: 1 }));
    assert!(!p.allows(&Event::ControlChange { timing: 0, channel: 0, cc: 2, value: 1 }));
    assert!(!p.allows(&Event::ControlChange { timing: 0, channel: 0, cc: 34, value: 1 }));
    assert!(!p.allows(&Event::ControlChange { timing: 0, channel: 0, cc: 6, value: 1 }));
    assert!(!p.allows(&Event::ControlChange { timing: 0, channel: 0, cc: 38, value: 1 }));
    assert!(!p.allows(&Event::ControlChange { timing: 0, channel: 0, cc: 4, value: 1 }));
    assert!(!p.allows(&Event::ControlChange { timing: 0, channel: 0, cc: 36, value: 1 }));
    assert!(!p.allows(&Event::ControlChange { timing: 0, channel: 0, cc: 11, value: 1 }));
    assert!(!p.allows(&Event::ControlChange { timing: 0, channel: 0, cc: 43, value: 1 }));
    assert!(p.allows(&Event::Other { timing: 0 }));
}

#[test]
fn single_note_emits_target_only_at_edges() {
    let params = SingleNoteParams { note: 36 };
    let target = params.note();
    let mut states = NotesState::new();
    let events = vec![
        Event::NoteOn { timing: 0, voice_id: None, channel: 1, note: 60, velocity: 100 },
        Event::NoteOn { timing: 1, voice_id: None, channel: 1, note: 64, velocity: 90 },
        Event::NoteOff { timing: 2, voice_id: None, channel: 1, note: 60, velocity: 0 },
        Event::NoteOff { timing: 3, voice_id: None, channel: 1, note: 64, velocity: 0 },
    ];
    let mut out: Vec<Event> = Vec::new();
    single_note_block(&mut states, target, &events, &mut out);
    assert_eq!(
        out,
        vec![
            Event::NoteOn { timing: 0, voice_id: None, channel: 1, note: 36, velocity: 100 },
            Event::NoteOff { timing: 3, voice_id: None, channel: 1, note: 36, velocity: 0 },
        ]
    );
    assert!(states.is_all_off());
}

#[test]
fn single_note_passes_other_events_through() {
    let mut states = NotesState::new();
    let mut out: Vec<Event> = Vec::new();
    let cc = Event::ControlChange { timing: 0, channel: 1, cc: 7, value: 80 };
    process_single_note_event(&mut states, 36, cc, &mut out);
    assert_eq!(out, vec![cc]);
    assert!(states.is_all_off());
}

#[test]
fn single_note_target_is_clamped() {
    assert_eq!(SingleNoteParams { note: -4 }.note(), 0);
    assert_eq!(SingleNoteParams { note: 200 }.note(), 127);
    assert_eq!(SingleNoteParams { note: 60 }.note(), 60);
}

#[test]
fn transpose_adds_and_saturates() {
    assert_eq!(transpose(60, 5, false), 65);
    assert_eq!(transpose(60, 5, true), 55);
    assert_eq!(transpose(60, -5, false), 55);
    assert_eq!(transpose(125, 7, false), 127);
    assert_eq!(transpose(3, -7, false), 0);
    assert_eq!(transpose(0, -128, true), 127);
    assert_eq!(transpose(127, 0, false), 127);
}

#[test]
fn transpose_rewrites_only_notes() {
    let on = Event::NoteOn { timing: 0, voice_id: None, channel: 2, note: 60, velocity: 100 };
    let off = Event::NoteOff { timing: 1, voice_id: None, channel: 2, note: 60, velocity: 0 };
    let cc = Event::ControlChange { timing: 2, channel: 2, cc: 7, value: 10 };
    assert_eq!(
        transpose_event(on, 12, false),
        Event::NoteOn { timing: 0, voice_id: None, channel: 2, note: 72, velocity: 100 }
    );
    assert_eq!(
        transpose_event(off, 12, false),
        Event::NoteOff { timing: 1, voice_id: None, channel: 2, note: 72, velocity: 0 }
    );
    assert_eq!(transpose_event(cc, 12, false), cc);

    let mut out: Vec<Event> = Vec::new();
    transpose_block(&vec![on, cc, off], 12, true, &mut out);
    assert_eq!(
        out,
        vec![
            Event::NoteOn { timing: 0, voice_id: None, channel: 2, note: 48, velocity: 100 },
            cc,
            Event::NoteOff { timing: 1, voice_id: None, channel: 2, note: 48, velocity: 0 },
        ]
    );
}

#[test]
fn find_or_add_returns_existing_entry_by_position() {
    let mut registry: Vec<Shared> = Vec::new();
    let first = find_or_add(&mut registry, 0);
    assert_eq!(first.id(), 0);
    assert_eq!(first.amount(), 0);
    assert_eq!(registry.len(), 1);
    let again = find_or_add(&mut registry, 0);
    assert_eq!(again, first);
    assert_eq!(registry.len(), 1);
}

#[test]
fn find_or_add_appends_when_registry_is_short() {
    // An id beyond the current length is appended at the end, keeping its id.
    let mut registry: Vec<Shared> = Vec::new();
    let shared = find_or_add(&mut registry, 5);
    assert_eq!(shared.id(), 5);
    assert_eq!(registry.len(), 1);
    assert_eq!(registry[0].id(), 5);
}

#[test]
fn update_transpose_rewrites_and_extends() {
    let mut registry = vec![
        Shared { id: 0, transpose: 9 },
        Shared { id: 1, transpose: -9 },
        Shared { id: 2, transpose: 4 },
    ];
    update_transpose(&mut registry, vec![1, -2]);
    // Entries beyond the table fall back to zero; shorter tables never shrink
    // the registry.
    assert_eq!(
        registry,
        vec![
            Shared { id: 0, transpose: 1 },
            Shared { id: 1, transpose: -2 },
            Shared { id: 2, transpose: 0 },
        ]
    );
    update_transpose(&mut registry, vec![5, 6, 7, 8, 9]);
    assert_eq!(
        registry,
        vec![
            Shared { id: 0, transpose: 5 },
            Shared { id: 1, transpose: 6 },
            Shared { id: 2, transpose: 7 },
            Shared { id: 3, transpose: 8 },
            Shared { id: 4, transpose: 9 },
        ]
    );
}

#[test]
fn update_from_text_leaves_registry_alone_when_text_is_no_table() {
    // A TOML document is a table at the top level, so none of these hold a
    // plain list of amounts; the registry must stay untouched.
    let mut registry = vec![Shared { id: 0, transpose: 3 }];
    assert!(!update_transpose_from_text(&mut registry, "not toml ["));
    assert_eq!(registry, vec![Shared { id: 0, transpose: 3 }]);
    assert!(!update_transpose_from_text(&mut registry, ""));
    assert_eq!(registry, vec![Shared { id: 0, transpose: 3 }]);
    assert!(!update_transpose_from_text(&mut registry, "a = 1"));
    assert_eq!(registry, vec![Shared { id: 0, transpose: 3 }]);
}
