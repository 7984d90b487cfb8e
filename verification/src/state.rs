//! Held-note and sustain-pedal tracking.
//!
//! `NotesState` is a 128-bit bitmap indexed by MIDI note number; a bit is set
//! while a note is sounding. `DamperState` tracks the sustain pedal. Both
//! support constant-time update and query, and the bitmap's "all clear" test
//! is a single zero test rather than a scan.

use vstd::prelude::*;

verus! {

use crate::event::Event;

/// The note-offs for the notes set in `m` among note numbers below `n`, in
/// ascending note order, all at the start of the block with velocity zero.
pub open spec fn spec_all_note_off(m: u128, channel: u8, n: int) -> Seq<Event>
    decreases n,
{
    if n <= 0 {
        Seq::<Event>::empty()
    } else if m & (1u128 << ((n - 1) as u8)) != 0 {
        spec_all_note_off(m, channel, n - 1) + seq![
            Event::NoteOff {
                timing: 0,
                voice_id: None,
                channel,
                note: (n - 1) as u8,
                velocity: 0,
            },
        ]
    } else {
        spec_all_note_off(m, channel, n - 1)
    }
}

/// The mask with exactly bit `note` set.
pub fn note_mask(note: u8) -> (r: u128)
    requires
        note < 128,
    ensures
        r == (1u128 << note),
{
    1u128 << note
}

/// Bitmap of currently sounding notes, one bit per MIDI note number.
#[derive(Debug, Clone, Copy, PartialEq, Eq, Structural)]
pub struct NotesState(pub u128);

impl NotesState {
    /// Whether bit `note` is set, as seen by specifications.
    pub open spec fn spec_is_on(self, note: u8) -> bool {
        self.0 & (1u128 << note) != 0
    }

    /// Whether no note at all is held.
    pub open spec fn spec_all_off(self) -> bool {
        self.0 == 0
    }

    pub fn new() -> (r: NotesState)
        ensures
            r.0 == 0,
    {
        NotesState(0)
    }

    pub fn is_all_off(&self) -> (r: bool)
        ensures
            r <==> self.spec_all_off(),
    {
        self.0 == 0
    }

    pub fn is_on(&self, note: u8) -> (r: bool)
        requires
            note < 128,
        ensures
            r == self.spec_is_on(note),
    {
        self.0 & note_mask(note) != 0
    }

    pub fn set_on(&mut self, note: u8)
        requires
            note < 128,
        ensures
            final(self).0 == old(self).0 | (1u128 << note),
            forall|n: u8|
                n < 128 ==> final(self).spec_is_on(n) == (old(self).spec_is_on(n) || n == note),
    {
        let ghost m = self.0;
        self.0 = self.0 | note_mask(note);
        proof {
            assert forall|n: u8| n < 128 implies ((m | (1u128 << note)) & (1u128 << n) != 0) == ((
            m & (1u128 << n) != 0) || n == note) by {
                assert(note < 128 && n < 128 ==> ((m | (1u128 << note)) & (1u128 << n) != 0) == ((m
                    & (1u128 << n) != 0) || n == note)) by (bit_vector);
            }
        }
    }

    /// Push a note-off for every note whose bit is set, in ascending note
    /// order, addressed to `channel`.
    #[verifier::loop_isolation(false)]
    pub fn send_all_note_off(&self, channel: u8, out: &mut Vec<Event>)
        ensures
            final(out)@ == old(out)@ + spec_all_note_off(self.0, channel, 128),
    {
        if self.0 != 0 {
            let mut note: u8 = 0;
            while note < 128
                invariant
                    note <= 128,
                    out@ == old(out)@ + spec_all_note_off(self.0, channel, note as int),
                decreases 128 - note,
            {
                if self.is_on(note) {
                    out.push(
                        Event::NoteOff { timing: 0, voice_id: None, channel, note, velocity: 0 },
                    );
                }
                proof {
                    assert(out@ =~= old(out)@ + spec_all_note_off(self.0, channel, note as int + 1));
                }
                note += 1;
            }
        } else {
            proof {
                lemma_all_note_off_empty(channel, 128);
                assert(out@ =~= old(out)@ + spec_all_note_off(0u128, channel, 128));
            }
        }
    }

    pub fn set_off(&mut self, note: u8)
        requires
            note < 128,
        ensures
            final(self).0 == old(self).0 & !(1u128 << note),
            forall|n: u8|
                n < 128 ==> final(self).spec_is_on(n) == (old(self).spec_is_on(n) && n != note),
    {
        let ghost m = self.0;
        self.0 = self.0 & !note_mask(note);
        proof {
            assert forall|n: u8| n < 128 implies ((m & !(1u128 << note)) & (1u128 << n) != 0) == ((
            m & (1u128 << n) != 0) && n != note) by {
                assert(note < 128 && n < 128 ==> ((m & !(1u128 << note)) & (1u128 << n) != 0) == ((
                m & (1u128 << n) != 0) && n != note)) by (bit_vector);
            }
        }
    }
}

/// A clear bitmap yields no note-offs at all.
proof fn lemma_all_note_off_empty(channel: u8, n: int)
    ensures
        spec_all_note_off(0u128, channel, n) == Seq::<Event>::empty(),
    decreases n,
{
    if n > 0 {
        lemma_all_note_off_empty(channel, n - 1);
        let k = (n - 1) as u8;
        assert(0u128 & (1u128 << k) == 0) by (bit_vector);
        assert(spec_all_note_off(0u128, channel, n) =~= Seq::<Event>::empty());
    }
}

/// The zero test on the bitmap agrees with the per-bit reading: the mask is
/// zero exactly when no note bit is set.
pub proof fn lemma_all_off_iff_no_bits(s: NotesState)
    ensures
        s.spec_all_off() <==> (forall|n: u8| n < 128 ==> !s.spec_is_on(n)),
{
    let m = s.0;
    if exists|n: u8| n < 128 && s.spec_is_on(n) {
        let n0 = choose|n: u8| n < 128 && s.spec_is_on(n);
        assert(m & (1u128 << n0) != 0 ==> m != 0) by (bit_vector);
    } else {
        assert forall|n: u8| n <= 127 implies m & (1u128 << n) == 0 by {
            assert(!s.spec_is_on(n));
        }
        lemma_bits_clear_up_to(m, 127);
        assert((127 - 127) as u128 == 0u128);
        assert(m & (!0u128 >> 0u128) == 0);
        assert(m & (!0u128 >> 0u128) == m) by (bit_vector);
    }
}

/// If bits `0..=k` of `m` are all clear, then `m` masked to its low `k + 1`
/// bits is zero. Proved by induction on `k`.
proof fn lemma_bits_clear_up_to(m: u128, k: u8)
    requires
        k < 128,
        forall|n: u8| n <= k ==> m & (1u128 << n) == 0,
    ensures
        m & (!0u128 >> ((127 - k) as u128)) == 0,
    decreases k,
{
    if k == 0 {
        assert(m & (1u128 << 0u8) == 0);
        assert(m & (1u128 << 0u8) == 0 ==> m & (!0u128 >> 127u128) == 0) by (bit_vector);
        assert(m & (!0u128 >> ((127 - 0) as u128)) == m & (!0u128 >> 127u128));
    } else {
        lemma_bits_clear_up_to(m, (k - 1) as u8);
        assert(m & (1u128 << k) == 0);
        let kp = (k - 1) as u8;
        assert((m & (!0u128 >> ((127 - kp) as u128)) == 0 && m & (1u128 << k) == 0 && k == kp + 1
            && k < 128) ==> m & (!0u128 >> ((127 - k) as u128)) == 0) by (bit_vector);
    }
}

/// Sustain ("damper") pedal state: held or released.
#[derive(Debug, Clone, Copy, PartialEq, Eq, Structural)]
pub struct DamperState(bool);

impl DamperState {
    /// Whether the pedal is held, as seen by specifications.
    pub closed spec fn spec_is_down(self) -> bool {
        self.0
    }

    pub fn new() -> (r: DamperState)
        ensures
            !r.spec_is_down(),
    {
        DamperState(false)
    }

    pub fn is_off(&self) -> (r: bool)
        ensures
            r == !self.spec_is_down(),
    {
        !self.0
    }

    pub fn set_off(&mut self)
        ensures
            !final(self).spec_is_down(),
    {
        self.0 = false;
    }

    pub fn set_on(&mut self)
        ensures
            final(self).spec_is_down(),
    {
        self.0 = true;
    }
}

} // verus!
