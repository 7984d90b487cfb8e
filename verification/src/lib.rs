//! A verified core for a family of MIDI effect processors.
//!
//! The engine sits in a host's MIDI signal path and rewrites, filters, or
//! re-channels a stream of timed note and controller events, one audio block
//! at a time. Its parts are a held-note/damper tracker, a parameter-snapshot
//! differ that emits only the corrective control messages a downstream synth
//! needs, and an activation state machine that lets the effect be switched
//! off without hung notes or a stuck sustain pedal.

pub mod engine;
pub mod event;
pub mod filter;
pub mod params;
pub mod registry;
pub mod single_note;
pub mod state;
pub mod transpose;
