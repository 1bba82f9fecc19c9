//! Pacing of the plugin's run steps against real elapsed time.
//!
//! The session advances the plugin one run step for every `1 / fps` seconds
//! of real time. The pacer keeps the arithmetic exact by counting elapsed
//! microseconds multiplied by the frame rate: one step falls due each time
//! a million such units have gathered, and the remainder is carried so no
//! fraction of a frame is ever lost or invented. There is deliberately no
//! cap on the steps reported after a long stall; catching up whole is the
//! specified behaviour.

use vstd::prelude::*;
use vstd::arithmetic::div_mod::lemma_fundamental_div_mod;

verus! {

/// Accumulator units per due step: microseconds per second, since the
/// accumulator counts microseconds times frames per second.
pub const STEP_UNITS: u64 = 1_000_000;

/// Carries the fractional part of elapsed content time between updates.
#[derive(Clone, Copy, Debug, PartialEq, Eq, Structural)]
pub struct StepPacer {
    pub accum: u64,
}

impl StepPacer {
    pub fn new() -> (r: Self)
        ensures
            r.accum == 0,
    {
        StepPacer { accum: 0 }
    }

    /// Feed the real microseconds elapsed since the last call and learn how
    /// many whole run steps are now due at `fps` steps per second. The
    /// returned steps account for exactly the time fed in: what is left
    /// over stays in the accumulator, always less than one step's worth.
    pub fn advance(&mut self, elapsed_micros: u64, fps: u32) -> (steps: u64)
        requires
            fps > 0,
            old(self).accum + elapsed_micros * fps <= u64::MAX,
        ensures
            ({
                let total = old(self).accum + elapsed_micros * fps;
                &&& steps == total / (STEP_UNITS as int)
                &&& final(self).accum == total % (STEP_UNITS as int)
                &&& total == steps * (STEP_UNITS as int) + final(self).accum
            }),
            final(self).accum < STEP_UNITS,
    {
        let total: u64 = self.accum + elapsed_micros * (fps as u64);
        let steps: u64 = total / STEP_UNITS;
        self.accum = total % STEP_UNITS;
        proof {
            lemma_fundamental_div_mod(total as int, STEP_UNITS as int);
        }
        steps
    }
}

} // verus!
