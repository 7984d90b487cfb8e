use midi_engine::event::Event;
use midi_engine::state::{note_mask, DamperState, NotesState};

#[test]
fn note_mask_is_single_bit() {
    assert_eq!(note_mask(0), 1u128);
    assert_eq!(note_mask(1), 2u128);
    assert_eq!(note_mask(127), 1u128 << 127);
}

#[test]
fn fresh_tracker_is_all_off() {
    let notes = NotesState::new();
    assert!(notes.is_all_off());
    assert!(!notes.is_on(0));
    assert!(!notes.is_on(127));
}

#[test]
fn set_on_and_off_track_single_notes() {
    let mut notes = NotesState::new();
    notes.set_on(60);
    assert!(notes.is_on(60));
    assert!(!notes.is_on(61));
    assert!(!notes.is_all_off());
    notes.set_off(60);
    assert!(!notes.is_on(60));
    assert!(notes.is_all_off());
}

#[test]
fn held_state_closes_under_interleaved_on_off() {
    // Notes turned on in one order, off in another, with duplicates: the
    // tracker is all-off exactly when every distinct note has been cleared.
    let mut notes = NotesState::new();
    notes.set_on(60);
    notes.set_on(64);
    notes.set_on(60); // duplicate on
    notes.set_on(67);
    notes.set_off(64);
    assert!(!notes.is_all_off());
    notes.set_off(60); // clears both duplicates at once: one bit per note
    assert!(!notes.is_all_off());
    notes.set_off(67);
    assert!(notes.is_all_off());
    notes.set_off(67); // duplicate off is harmless
    assert!(notes.is_all_off());
}

#[test]
fn tracker_covers_the_whole_note_range() {
    let mut notes = NotesState::new();
    notes.set_on(0);
    notes.set_on(127);
    assert!(notes.is_on(0));
    assert!(notes.is_on(127));
    notes.set_off(0);
    notes.set_off(127);
    assert!(notes.is_all_off());
}

#[test]
fn damper_tracks_pedal() {
    let mut damper = DamperState::new();
    assert!(damper.is_off());
    damper.set_on();
    assert!(!damper.is_off());
    damper.set_off();
    assert!(damper.is_off());
}

#[test]
fn send_all_note_off_emits_each_held_note_ascending() {
    let mut notes = NotesState::new();
    notes.set_on(64);
    notes.set_on(3);
    notes.set_on(127);
    let mut out: Vec<Event> = Vec::new();
    notes.send_all_note_off(5, &mut out);
    assert_eq!(
        out,
        vec![
            Event::NoteOff { timing: 0, voice_id: None, channel: 5, note: 3, velocity: 0 },
            Event::NoteOff { timing: 0, voice_id: None, channel: 5, note: 64, velocity: 0 },
            Event::NoteOff { timing: 0, voice_id: None, channel: 5, note: 127, velocity: 0 },
        ]
    );
}

#[test]
fn send_all_note_off_on_empty_tracker_emits_nothing() {
    let notes = NotesState::new();
    let mut out: Vec<Event> = Vec::new();
    notes.send_all_note_off(0, &mut out);
    assert!(out.is_empty());
}
