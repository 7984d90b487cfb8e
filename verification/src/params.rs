//! Parameter snapshots and the snapshot differ.
//!
//! A `ParamsSnapshot` is an immutable capture of the managed control values:
//! the 0-based target channel, an optional bank-select pair and program
//! number, and a list of managed continuous controllers. Each optional value
//! may be unset, meaning "do not manage this control".
//!
//! `ParamsSnapshot::send` compares a fresh capture against the snapshot that
//! was last emitted and pushes only the corrective events a downstream synth
//! needs. Two snapshots are comparable only when they target the same
//! channel; a channel change forces a full re-emission, because the new
//! channel's synth has no prior state.

use vstd::prelude::*;

verus! {

use crate::event::{
    Event,
    BANK_SELECT_LSB,
    BANK_SELECT_MSB,
    DAMPER_PEDAL,
    EXPRESSION_CONTROLLER_MSB,
    GENERAL_PURPOSE_CONTROLLER_5_MSB,
    MAIN_VOLUME_MSB,
    MODULATION_MSB,
    SOUND_CONTROLLER_3,
    SOUND_CONTROLLER_4,
};

/// Clamp a raw parameter value into an optional 7-bit control value: the
/// sentinel -1 means "unset"; every other value saturates into 0-127.
pub open spec fn spec_opt_value(v: i32) -> Option<u8> {
    if v == -1 {
        None
    } else if v < 0 {
        Some(0u8)
    } else if v > 127 {
        Some(127u8)
    } else {
        Some(v as u8)
    }
}

pub fn set_value_range_opt(v: i32) -> (r: Option<u8>)
    ensures
        r == spec_opt_value(v),
{
    if v == -1 {
        None
    } else if v < 0 {
        Some(0)
    } else if v > 127 {
        Some(127)
    } else {
        Some(v as u8)
    }
}

fn opt_value_eq(a: Option<u8>, b: Option<u8>) -> (r: bool)
    ensures
        r == (a == b),
{
    match (a, b) {
        (None, None) => true,
        (Some(x), Some(y)) => x == y,
        _ => false,
    }
}

/// One managed continuous controller as the host exposes it: a controller
/// number and a raw value, -1 meaning "unset".
#[derive(Debug, Clone, Copy)]
pub struct CcParam {
    pub controller: u8,
    pub value: i32,
}

/// The current control values as read from the host at the top of a block.
/// `channel` is the 1-based UI value; `msb`, `lsb`, `program` and the `ccs`
/// values use -1 for "unset".
#[derive(Debug, Clone)]
pub struct EngineParams {
    pub active: bool,
    pub channel: i32,
    pub msb: i32,
    pub lsb: i32,
    pub program: i32,
    pub ccs: Vec<CcParam>,
}

impl EngineParams {
    pub open spec fn wf(self) -> bool {
        forall|i: int| 0 <= i < self.ccs@.len() ==> (#[trigger] self.ccs@[i]).controller < 128
    }

    pub open spec fn spec_channel(self) -> u8 {
        if self.channel < 1 {
            0u8
        } else if self.channel > 16 {
            15u8
        } else {
            (self.channel - 1) as u8
        }
    }

    /// The managed target channel, 0-based: the 1-based UI value saturated
    /// into 1-16, then shifted down.
    pub fn channel(&self) -> (r: u8)
        ensures
            r == self.spec_channel(),
    {
        if self.channel < 1 {
            0
        } else if self.channel > 16 {
            15
        } else {
            (self.channel - 1) as u8
        }
    }

    /// Capture the current control values, clamped into range.
    pub fn snapshot(&self) -> (r: ParamsSnapshot)
        requires
            self.wf(),
        ensures
            r.is_snapshot_of(*self),
            r.wf(),
    {
        let mut ccs: Vec<CcState> = Vec::new();
        let mut i: usize = 0;
        while i < self.ccs.len()
            invariant
                i <= self.ccs@.len(),
                self.wf(),
                ccs@.len() == i as int,
                forall|j: int|
                    0 <= j < i as int ==> #[trigger] ccs@[j] == (CcState {
                        controller: self.ccs@[j].controller,
                        value: spec_opt_value(self.ccs@[j].value),
                    }),
            decreases self.ccs@.len() - i,
        {
            let p = self.ccs[i];
            ccs.push(CcState { controller: p.controller, value: set_value_range_opt(p.value) });
            i += 1;
        }
        ParamsSnapshot {
            channel: self.channel(),
            msb: set_value_range_opt(self.msb),
            lsb: set_value_range_opt(self.lsb),
            program: set_value_range_opt(self.program),
            ccs,
        }
    }
}

impl Default for EngineParams {
    /// The bank/program processor's stock configuration: active on channel 1,
    /// bank and program zero, and the four managed controllers - attack,
    /// decay, release (sound and general-purpose controllers) and volume -
    /// at their mid or customary values.
    fn default() -> (r: Self)
        ensures
            r.active == true,
            r.channel == 1,
            r.msb == 0,
            r.lsb == 0,
            r.program == 0,
            r.ccs@ == seq![
                CcParam { controller: SOUND_CONTROLLER_4, value: 64 },
                CcParam { controller: GENERAL_PURPOSE_CONTROLLER_5_MSB, value: 64 },
                CcParam { controller: SOUND_CONTROLLER_3, value: 64 },
                CcParam { controller: MAIN_VOLUME_MSB, value: 100 },
            ],
            r.wf(),
    {
        let mut ccs: Vec<CcParam> = Vec::new();
        ccs.push(CcParam { controller: SOUND_CONTROLLER_4, value: 64 });
        ccs.push(CcParam { controller: GENERAL_PURPOSE_CONTROLLER_5_MSB, value: 64 });
        ccs.push(CcParam { controller: SOUND_CONTROLLER_3, value: 64 });
        ccs.push(CcParam { controller: MAIN_VOLUME_MSB, value: 100 });
        proof {
            assert(ccs@ =~= seq![
                CcParam { controller: SOUND_CONTROLLER_4, value: 64 },
                CcParam { controller: GENERAL_PURPOSE_CONTROLLER_5_MSB, value: 64 },
                CcParam { controller: SOUND_CONTROLLER_3, value: 64 },
                CcParam { controller: MAIN_VOLUME_MSB, value: 100 },
            ]);
        }
        EngineParams { active: true, channel: 1, msb: 0, lsb: 0, program: 0, ccs }
    }
}

impl EngineParams {
    /// The control-surface processor's stock configuration: active on channel
    /// 1, no bank or program management, and expression, modulation, eight
    /// knobs and eight sliders all unset until the user assigns them.
    pub fn control_surface_defaults() -> (r: Self)
        ensures
            r.active == true,
            r.channel == 1,
            r.msb == -1,
            r.lsb == -1,
            r.program == -1,
            r.ccs@.len() == 18,
            r.ccs@[0] == (CcParam { controller: EXPRESSION_CONTROLLER_MSB, value: -1i32 }),
            r.ccs@[1] == (CcParam { controller: MODULATION_MSB, value: -1i32 }),
            forall|i: int|
                2 <= i < 10 ==> #[trigger] r.ccs@[i] == (CcParam {
                    controller: (14 + i) as u8,
                    value: -1i32,
                }),
            forall|i: int|
                10 <= i < 18 ==> #[trigger] r.ccs@[i] == (CcParam {
                    controller: (72 + i) as u8,
                    value: -1i32,
                }),
            r.wf(),
    {
        let mut ccs: Vec<CcParam> = Vec::new();
        ccs.push(CcParam { controller: EXPRESSION_CONTROLLER_MSB, value: -1i32 });
        ccs.push(CcParam { controller: MODULATION_MSB, value: -1i32 });
        let mut knob: u8 = 16;
        while knob < 24
            invariant
                16 <= knob <= 24,
                ccs@.len() == 2 + (knob - 16) as int,
                ccs@[0] == (CcParam { controller: EXPRESSION_CONTROLLER_MSB, value: -1i32 }),
                ccs@[1] == (CcParam { controller: MODULATION_MSB, value: -1i32 }),
                forall|i: int|
                    2 <= i < ccs@.len() ==> #[trigger] ccs@[i] == (CcParam {
                        controller: (14 + i) as u8,
                        value: -1i32,
                    }),
            decreases 24 - knob,
        {
            ccs.push(CcParam { controller: knob, value: -1i32 });
            knob += 1;
        }
        let mut slider: u8 = 82;
        while slider < 90
            invariant
                82 <= slider <= 90,
                ccs@.len() == 10 + (slider - 82) as int,
                ccs@[0] == (CcParam { controller: EXPRESSION_CONTROLLER_MSB, value: -1i32 }),
                ccs@[1] == (CcParam { controller: MODULATION_MSB, value: -1i32 }),
                forall|i: int|
                    2 <= i < 10 ==> #[trigger] ccs@[i] == (CcParam {
                        controller: (14 + i) as u8,
                        value: -1i32,
                    }),
                forall|i: int|
                    10 <= i < ccs@.len() ==> #[trigger] ccs@[i] == (CcParam {
                        controller: (72 + i) as u8,
                        value: -1i32,
                    }),
            decreases 90 - slider,
        {
            ccs.push(CcParam { controller: slider, value: -1i32 });
            slider += 1;
        }
        EngineParams { active: true, channel: 1, msb: -1, lsb: -1, program: -1, ccs }
    }
}

/// One managed continuous controller in a snapshot: a controller number and
/// the captured value, if the control is managed at all.
#[derive(Debug, Clone, Copy)]
pub struct CcState {
    pub controller: u8,
    pub value: Option<u8>,
}

impl CcState {
    pub open spec fn wf(self) -> bool {
        self.controller < 128 && (self.value matches Some(v) ==> v < 128)
    }
}

/// An immutable capture of all managed control values, compared only against
/// the previously emitted snapshot.
#[derive(Debug, Clone)]
pub struct ParamsSnapshot {
    pub channel: u8,
    pub msb: Option<u8>,
    pub lsb: Option<u8>,
    pub program: Option<u8>,
    pub ccs: Vec<CcState>,
}

/// A control change for an optional value: one event when the value is set,
/// nothing when it is unset.
pub open spec fn opt_cc_seq(channel: u8, timing: u32, cc: u8, value: Option<u8>) -> Seq<Event> {
    match value {
        Some(v) => seq![Event::ControlChange { timing, channel, cc, value: v }],
        None => Seq::empty(),
    }
}

/// A program change for an optional program number: one event when set,
/// nothing when unset.
pub open spec fn opt_pc_seq(channel: u8, timing: u32, program: Option<u8>) -> Seq<Event> {
    match program {
        Some(p) => seq![Event::ProgramChange { timing, channel, program: p }],
        None => Seq::empty(),
    }
}

/// The snapshot a contract compares against, seen as a spec value.
pub open spec fn opt_snapshot(prev: Option<&ParamsSnapshot>) -> Option<ParamsSnapshot> {
    match prev {
        Some(o) => Some(*o),
        None => None,
    }
}

impl ParamsSnapshot {
    pub open spec fn wf(self) -> bool {
        &&& self.channel < 16
        &&& (self.msb matches Some(v) ==> v < 128)
        &&& (self.lsb matches Some(v) ==> v < 128)
        &&& (self.program matches Some(v) ==> v < 128)
        &&& (forall|i: int| 0 <= i < self.ccs@.len() ==> (#[trigger] self.ccs@[i]).wf())
    }

    /// Whether this snapshot is a capture of `p`: every field is `p`'s value
    /// clamped into range.
    pub open spec fn is_snapshot_of(self, p: EngineParams) -> bool {
        &&& self.channel == p.spec_channel()
        &&& self.msb == spec_opt_value(p.msb)
        &&& self.lsb == spec_opt_value(p.lsb)
        &&& self.program == spec_opt_value(p.program)
        &&& self.ccs@.len() == p.ccs@.len()
        &&& (forall|i: int|
            0 <= i < p.ccs@.len() ==> #[trigger] self.ccs@[i] == (CcState {
                controller: p.ccs@[i].controller,
                value: spec_opt_value(p.ccs@[i].value),
            }))
    }

    /// Both snapshots manage the same controller list, position by position;
    /// true of any two captures of the same parameter set.
    pub open spec fn same_layout(self, other: ParamsSnapshot) -> bool {
        &&& self.ccs@.len() == other.ccs@.len()
        &&& (forall|i: int|
            0 <= i < self.ccs@.len() ==> (#[trigger] other.ccs@[i]).controller
                == self.ccs@[i].controller)
    }

    /// The previous snapshot that actually counts: one from another channel
    /// is disregarded entirely, as if nothing had been sent yet.
    pub open spec fn effective_prev(self, prev: Option<ParamsSnapshot>) -> Option<ParamsSnapshot> {
        match prev {
            Some(o) => if o.channel == self.channel {
                Some(o)
            } else {
                None
            },
            None => None,
        }
    }

    /// Whether the bank-select/program group must be re-sent: always on a
    /// first emission, otherwise when any member of the group moved.
    pub open spec fn bank_changed(self, eff: Option<ParamsSnapshot>) -> bool {
        match eff {
            None => true,
            Some(o) => !(o.msb == self.msb && o.lsb == self.lsb && o.program == self.program),
        }
    }

    /// The bank-select pair and program change, in that order: MSB and LSB at
    /// timing 0, the program change at timing 1, so a consumer that respects
    /// timing resolves the bank before the program. Unset members are
    /// skipped.
    pub open spec fn bank_events(self, eff: Option<ParamsSnapshot>) -> Seq<Event> {
        if self.bank_changed(eff) {
            opt_cc_seq(self.channel, 0, BANK_SELECT_MSB, self.msb) + opt_cc_seq(
                self.channel,
                0,
                BANK_SELECT_LSB,
                self.lsb,
            ) + opt_pc_seq(self.channel, 1, self.program)
        } else {
            Seq::empty()
        }
    }

    /// What managed controller `i` contributes: its value at timing 2, on a
    /// first emission or when the value moved; nothing when it is unset or
    /// unchanged.
    pub open spec fn cc_delta(self, eff: Option<ParamsSnapshot>, i: int) -> Seq<Event> {
        match self.ccs@[i].value {
            Some(v) => {
                let changed = match eff {
                    None => true,
                    Some(o) => o.ccs@[i].value != Some(v),
                };
                if changed {
                    seq![
                        Event::ControlChange {
                            timing: 2,
                            channel: self.channel,
                            cc: self.ccs@[i].controller,
                            value: v,
                        },
                    ]
                } else {
                    Seq::empty()
                }
            },
            None => Seq::empty(),
        }
    }

    /// The contributions of the first `n` managed controllers, in order.
    pub open spec fn cc_events_up_to(self, eff: Option<ParamsSnapshot>, n: int) -> Seq<Event>
        decreases n,
    {
        if n <= 0 {
            Seq::empty()
        } else {
            self.cc_events_up_to(eff, n - 1) + self.cc_delta(eff, n - 1)
        }
    }

    /// On a first emission the receiving synth's pedal state is unknown, so a
    /// defensive "sustain off" is sent as well.
    pub open spec fn damper_reset_events(self, eff: Option<ParamsSnapshot>) -> Seq<Event> {
        if eff is None {
            seq![
                Event::ControlChange {
                    timing: 2,
                    channel: self.channel,
                    cc: DAMPER_PEDAL,
                    value: 0,
                },
            ]
        } else {
            Seq::empty()
        }
    }

    /// Everything `send` emits for this snapshot against `prev`.
    pub open spec fn diff_events(self, prev: Option<ParamsSnapshot>) -> Seq<Event> {
        let eff = self.effective_prev(prev);
        self.bank_events(eff) + self.cc_events_up_to(eff, self.ccs@.len() as int)
            + self.damper_reset_events(eff)
    }

    /// A control change addressed to this snapshot's channel.
    pub fn create_cc(&self, timing: u32, cc: u8, value: u8) -> (r: Event)
        ensures
            r == (Event::ControlChange { timing, channel: self.channel, cc, value }),
    {
        Event::ControlChange { timing, channel: self.channel, cc, value }
    }

    /// A program change addressed to this snapshot's channel, at timing 1 so
    /// that it follows the bank-select pair.
    pub fn create_pc(&self, program: u8) -> (r: Event)
        ensures
            r == (Event::ProgramChange { timing: 1, channel: self.channel, program }),
    {
        Event::ProgramChange { timing: 1, channel: self.channel, program }
    }

    /// Emit the bank-select/program group against the effective previous
    /// snapshot: the whole group whenever any set member moved, nothing
    /// otherwise.
    fn send_bank_group(&self, eff: Option<&ParamsSnapshot>, out: &mut Vec<Event>)
        ensures
            final(out)@ == old(out)@ + self.bank_events(opt_snapshot(eff)),
    {
        let changed: bool = match eff {
            None => true,
            Some(o) => !(opt_value_eq(o.msb, self.msb) && opt_value_eq(o.lsb, self.lsb)
                && opt_value_eq(o.program, self.program)),
        };
        if changed {
            if let Some(v) = self.msb {
                out.push(self.create_cc(0, BANK_SELECT_MSB, v));
            }
            if let Some(v) = self.lsb {
                out.push(self.create_cc(0, BANK_SELECT_LSB, v));
            }
            if let Some(p) = self.program {
                out.push(self.create_pc(p));
            }
        }
        proof {
            assert(out@ =~= old(out)@ + self.bank_events(opt_snapshot(eff)));
        }
    }

    /// Push onto `out` exactly the corrective events that bring a synth that
    /// last saw `prev` into agreement with this snapshot.
    #[verifier::loop_isolation(false)]
    pub fn send(&self, prev: Option<&ParamsSnapshot>, out: &mut Vec<Event>)
        requires
            (prev matches Some(o) ==> self.same_layout(*o)),
        ensures
            final(out)@ == old(out)@ + self.diff_events(opt_snapshot(prev)),
    {
        let ghost prev_spec = opt_snapshot(prev);
        let ghost eff_spec = self.effective_prev(prev_spec);
        let eff: Option<&ParamsSnapshot> = match prev {
            Some(o) => if o.channel == self.channel {
                Some(o)
            } else {
                None
            },
            None => None,
        };
        proof {
            assert(match eff {
                Some(o) => eff_spec == Some(*o),
                None => eff_spec is None,
            });
        }

        let ghost out0 = out@;
        self.send_bank_group(eff, out);
        proof {
            assert(out@ == out0 + self.bank_events(eff_spec));
        }

        let ghost out1 = out@;
        let mut i: usize = 0;
        while i < self.ccs.len()
            invariant
                i <= self.ccs@.len(),
                out@ == out1 + self.cc_events_up_to(eff_spec, i as int),
            decreases self.ccs@.len() - i,
        {
            let c = self.ccs[i];
            if let Some(v) = c.value {
                let changed_cc: bool = match eff {
                    None => true,
                    Some(o) => !opt_value_eq(o.ccs[i].value, Some(v)),
                };
                if changed_cc {
                    out.push(self.create_cc(2, c.controller, v));
                }
            }
            proof {
                assert(out@ =~= out1 + self.cc_events_up_to(eff_spec, i as int + 1));
            }
            i += 1;
        }

        if eff.is_none() {
            out.push(self.create_cc(2, DAMPER_PEDAL, 0));
        }
        proof {
            assert(out@ =~= out0 + self.diff_events(prev_spec));
        }
    }
}

/// Two captures of the same parameter set agree on every managed value.
pub proof fn lemma_snapshot_functional(a: ParamsSnapshot, b: ParamsSnapshot, p: EngineParams)
    requires
        a.is_snapshot_of(p),
        b.is_snapshot_of(p),
    ensures
        a.channel == b.channel,
        a.msb == b.msb,
        a.lsb == b.lsb,
        a.program == b.program,
        a.ccs@ == b.ccs@,
        a.same_layout(b),
{
    assert(a.ccs@ =~= b.ccs@);
}

/// Diffing is idempotent: against a previously sent snapshot that carries the
/// same managed values, nothing at all is emitted.
pub proof fn lemma_diff_idempotent(new: ParamsSnapshot, prev: ParamsSnapshot)
    requires
        new.channel == prev.channel,
        new.msb == prev.msb,
        new.lsb == prev.lsb,
        new.program == prev.program,
        new.ccs@ == prev.ccs@,
    ensures
        new.diff_events(Some(prev)) == Seq::<Event>::empty(),
{
    let eff = new.effective_prev(Some(prev));
    assert(eff == Some(prev));
    lemma_cc_events_empty_when_equal(new, prev, new.ccs@.len() as int);
    assert(new.diff_events(Some(prev)) =~= Seq::<Event>::empty());
}

proof fn lemma_cc_events_empty_when_equal(new: ParamsSnapshot, prev: ParamsSnapshot, n: int)
    requires
        new.ccs@ == prev.ccs@,
        n <= new.ccs@.len(),
    ensures
        new.cc_events_up_to(Some(prev), n) == Seq::<Event>::empty(),
    decreases n,
{
    if n > 0 {
        lemma_cc_events_empty_when_equal(new, prev, n - 1);
        assert(new.cc_events_up_to(Some(prev), n) =~= Seq::<Event>::empty());
    }
}

/// Capturing the same parameter values twice in a row and diffing the second
/// capture against the first emits nothing at all.
pub proof fn lemma_capture_twice_emits_nothing(
    a: ParamsSnapshot,
    b: ParamsSnapshot,
    p: EngineParams,
)
    requires
        a.is_snapshot_of(p),
        b.is_snapshot_of(p),
    ensures
        b.diff_events(Some(a)) == Seq::<Event>::empty(),
{
    lemma_snapshot_functional(a, b, p);
    lemma_diff_idempotent(b, a);
}

/// A snapshot differing from the previous one only in channel is diffed as if
/// nothing had ever been sent: the full managed set is re-emitted.
pub proof fn lemma_channel_change_full_resend(new: ParamsSnapshot, prev: ParamsSnapshot)
    requires
        new.channel != prev.channel,
    ensures
        new.diff_events(Some(prev)) == new.diff_events(None),
{
}

/// The corrective "pedal up" message: sustain controller zero on `channel`,
/// at the start of the block.
pub open spec fn spec_damper_off_event(channel: u8) -> Event {
    Event::ControlChange { timing: 0, channel, cc: DAMPER_PEDAL, value: 0 }
}

/// Emit the corrective "pedal up" message on `channel`.
pub fn damper_off(channel: u8, out: &mut Vec<Event>)
    ensures
        final(out)@ == old(out)@ + seq![spec_damper_off_event(channel)],
{
    out.push(Event::ControlChange { timing: 0, channel, cc: DAMPER_PEDAL, value: 0 });
    proof {
        assert(out@ =~= old(out)@ + seq![spec_damper_off_event(channel)]);
    }
}

} // verus!
