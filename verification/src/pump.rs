//! The per-device coalescing state machine. A pump holds the most recently
//! submitted pad state and a dirty flag; submissions overwrite the held
//! state unconditionally, and a timer tick delivers the held state only
//! when something new arrived since the last delivery.

use vstd::prelude::*;
use crate::device::PadState;

verus! {

/// The state of one device's pump between ticks.
#[derive(Clone, Copy, Debug, PartialEq, Eq, Structural)]
pub struct PumpState {
    /// The most recently submitted pad state.
    pub held: PadState,
    /// Whether `held` has not yet been delivered.
    pub dirty: bool,
}

/// A fresh pump: clean, holding the neutral state.
pub open spec fn spec_pump_init() -> PumpState {
    PumpState { held: PadState::spec_neutral(), dirty: false }
}

/// The pump after a submission: it holds the new state and is dirty,
/// whatever it held before.
pub open spec fn spec_pump_submit(p: PumpState, s: PadState) -> PumpState {
    PumpState { held: s, dirty: true }
}

/// The pump after a timer tick: clean, still holding the same state.
pub open spec fn spec_pump_ticked(p: PumpState) -> PumpState {
    PumpState { held: p.held, dirty: false }
}

/// What a timer tick delivers: the held state if the pump was dirty,
/// nothing otherwise.
pub open spec fn spec_pump_tick_output(p: PumpState) -> Option<PadState> {
    if p.dirty {
        Some(p.held)
    } else {
        None
    }
}

impl PumpState {
    /// A fresh pump for a newly created device.
    pub fn new() -> (r: PumpState)
        ensures
            r == spec_pump_init(),
    {
        PumpState { held: PadState::neutral(), dirty: false }
    }

    /// Records a newly submitted state. Only the latest value ever
    /// matters: whatever was held before is overwritten, delivered or not.
    pub fn submit(&mut self, s: PadState)
        ensures
            *final(self) == spec_pump_submit(*old(self), s),
    {
        self.held = s;
        self.dirty = true;
    }

    /// One timer tick: returns the state to deliver, if any, and becomes
    /// clean. A clean pump delivers nothing.
    pub fn tick(&mut self) -> (r: Option<PadState>)
        ensures
            *final(self) == spec_pump_ticked(*old(self)),
            r == spec_pump_tick_output(*old(self)),
    {
        if self.dirty {
            self.dirty = false;
            Some(self.held)
        } else {
            None
        }
    }
}

/// Rapid submissions coalesce: after several states are submitted within
/// one tick period, the next tick delivers exactly the last of them, and a
/// further tick without new submissions delivers nothing at all.
pub proof fn lemma_pump_coalesces(p0: PumpState, s1: PadState, s2: PadState, s3: PadState)
    ensures
        ({
            let p3 = spec_pump_submit(spec_pump_submit(spec_pump_submit(p0, s1), s2), s3);
            &&& spec_pump_tick_output(p3) == Some(s3)
            &&& spec_pump_tick_output(spec_pump_ticked(p3)) == None::<PadState>
        }),
{
}

} // verus!
