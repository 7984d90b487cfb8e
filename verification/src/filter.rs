//! A per-controller event filter.
//!
//! Each toggle governs one controller family (breath, data entry, sustain,
//! expression, foot pedal, modulation) or pitch bend; an event of a governed
//! kind passes only while its toggle is set, and every other event always
//! passes, unchanged and in order.

use vstd::prelude::*;

verus! {

use crate::event::{
    Event,
    BREATH_CONTROLLER_LSB,
    BREATH_CONTROLLER_MSB,
    DAMPER_PEDAL,
    DATA_ENTRY_LSB,
    DATA_ENTRY_MSB,
    EXPRESSION_CONTROLLER_LSB,
    EXPRESSION_CONTROLLER_MSB,
    FOOT_CONTROLLER_LSB,
    FOOT_CONTROLLER_MSB,
    MODULATION_LSB,
    MODULATION_MSB,
};

/// The filter's toggles, one per governed controller family. A set toggle
/// lets the family through.
#[derive(Debug, Clone, Copy, PartialEq, Eq, Structural)]
pub struct MidiFilterParams {
    /// Breath controller.
    pub bc: bool,
    /// Data entry.
    pub de: bool,
    /// Damper pedal (sustain).
    pub dp: bool,
    /// Expression.
    pub ex: bool,
    /// Foot pedal.
    pub fp: bool,
    /// Modulation wheel.
    pub mw: bool,
    /// Pitch bend.
    pub pb: bool,
}

impl Default for MidiFilterParams {
    /// Every governed family starts blocked.
    fn default() -> (r: Self)
        ensures
            r == (MidiFilterParams {
                bc: false,
                de: false,
                dp: false,
                ex: false,
                fp: false,
                mw: false,
                pb: false,
            }),
    {
        MidiFilterParams { bc: false, de: false, dp: false, ex: false, fp: false, mw: false, pb: false }
    }
}

impl MidiFilterParams {
    /// Whether the filter lets `e` through: the toggle of a governed
    /// controller family decides for its control changes, the pitch-bend
    /// toggle for pitch bends; every other event always passes.
    pub open spec fn spec_allows(self, e: Event) -> bool {
        match e {
            Event::ControlChange { cc, .. } => if cc == BREATH_CONTROLLER_MSB || cc
                == BREATH_CONTROLLER_LSB {
                self.bc
            } else if cc == DATA_ENTRY_MSB || cc == DATA_ENTRY_LSB {
                self.de
            } else if cc == DAMPER_PEDAL {
                self.dp
            } else if cc == EXPRESSION_CONTROLLER_MSB || cc == EXPRESSION_CONTROLLER_LSB {
                self.ex
            } else if cc == FOOT_CONTROLLER_MSB || cc == FOOT_CONTROLLER_LSB {
                self.fp
            } else if cc == MODULATION_MSB || cc == MODULATION_LSB {
                self.mw
            } else {
                true
            },
            Event::PitchBend { .. } => self.pb,
            _ => true,
        }
    }

    pub fn allows(&self, event: &Event) -> (r: bool)
        ensures
            r == self.spec_allows(*event),
    {
        match *event {
            Event::ControlChange { cc, .. } => {
                if cc == BREATH_CONTROLLER_MSB || cc == BREATH_CONTROLLER_LSB {
                    self.bc
                } else if cc == DATA_ENTRY_MSB || cc == DATA_ENTRY_LSB {
                    self.de
                } else if cc == DAMPER_PEDAL {
                    self.dp
                } else if cc == EXPRESSION_CONTROLLER_MSB || cc == EXPRESSION_CONTROLLER_LSB {
                    self.ex
                } else if cc == FOOT_CONTROLLER_MSB || cc == FOOT_CONTROLLER_LSB {
                    self.fp
                } else if cc == MODULATION_MSB || cc == MODULATION_LSB {
                    self.mw
                } else {
                    true
                }
            },
            Event::PitchBend { .. } => self.pb,
            _ => true,
        }
    }
}

/// The allowed events among the first `n`, unchanged and in order.
pub open spec fn filtered(p: MidiFilterParams, events: Seq<Event>, n: int) -> Seq<Event>
    decreases n,
{
    if n <= 0 {
        Seq::<Event>::empty()
    } else if p.spec_allows(events[n - 1]) {
        filtered(p, events, n - 1) + seq![events[n - 1]]
    } else {
        filtered(p, events, n - 1)
    }
}

/// One block of the filter: forward exactly the events the toggles allow.
#[verifier::loop_isolation(false)]
pub fn filter_block(params: &MidiFilterParams, events: &Vec<Event>, out: &mut Vec<Event>)
    ensures
        final(out)@ == old(out)@ + filtered(*params, events@, events@.len() as int),
{
    let mut i: usize = 0;
    while i < events.len()
        invariant
            i <= events@.len(),
            out@ == old(out)@ + filtered(*params, events@, i as int),
        decreases events@.len() - i,
    {
        if params.allows(&events[i]) {
            out.push(events[i]);
        }
        proof {
            assert(out@ =~= old(out)@ + filtered(*params, events@, i as int + 1));
        }
        i += 1;
    }
}

} // verus!
