//! The musical meter: how many beats one cycle has and how many subdivisions
//! each beat has. Every slot array of the step sequencer is sized from it.

use vstd::prelude::*;

verus! {

/// A meter of `num_beats` beats, each split into `num_divs` subdivisions.
///
/// A rhythm with a zero component has no slots and cannot drive the clock;
/// the clock and the sequencer therefore require [`Rhythm::wf`].
#[derive(Debug, Clone, Copy, PartialEq, Eq, Structural)]
pub struct Rhythm {
    pub num_beats: u8,
    pub num_divs: u8,
}

impl Rhythm {
    /// Total number of sequencer slots in one cycle.
    pub open spec fn spec_num_slots(&self) -> int {
        self.num_beats * self.num_divs
    }

    /// Both components are nonzero, so beat and div indices are well defined.
    pub open spec fn wf(&self) -> bool {
        self.num_beats >= 1 && self.num_divs >= 1
    }

    pub fn num_slots(&self) -> (n: usize)
        ensures
            n == self.spec_num_slots(),
            n <= 65025,
    {
        proof {
            assert(self.num_beats * self.num_divs <= 255 * 255) by (nonlinear_arith)
                requires
                    self.num_beats <= 255,
                    self.num_divs <= 255,
            ;
        }
        self.num_beats as usize * self.num_divs as usize
    }
}

impl Default for Rhythm {
    /// The common-time default: four beats of four subdivisions.
    fn default() -> (r: Rhythm)
        ensures
            r.num_beats == 4,
            r.num_divs == 4,
    {
        Rhythm { num_beats: 4, num_divs: 4 }
    }
}

} // verus!
