//! Velocity mapping: how a node reshapes the velocity of incoming notes
//! before its engine sees them.

use vstd::prelude::*;

verus! {

/// The mapping policy of one node.
#[derive(Debug, Clone, Copy, PartialEq, Eq, Structural)]
pub enum Kind {
    /// Velocities pass through unchanged.
    Identity,
    /// The full input range `0..=127` is squeezed linearly into
    /// `min..=max`, rounding to the nearest output step.
    Linear { min: u8, max: u8 },
}

impl Kind {
    /// A linear range is ordered; `Identity` has nothing to get wrong.
    pub open spec fn wf(&self) -> bool {
        match *self {
            Kind::Identity => true,
            Kind::Linear { min, max } => min <= max,
        }
    }
}

/// `velocity * (max - min) / 127`, rounded to the nearest integer, plus
/// `min`. Ties cannot arise: `2 * velocity * (max - min)` is never an odd
/// multiple of `127`.
pub open spec fn spec_map_linear(velocity: u8, min: u8, max: u8) -> int {
    min + ((velocity * (max - min) * 2 + 127) / 254)
}

pub open spec fn spec_map(kind: Kind, velocity: u8) -> int {
    match kind {
        Kind::Identity => velocity as int,
        Kind::Linear { min, max } => spec_map_linear(velocity, min, max),
    }
}

/// Map an incoming velocity through the node's policy.
pub fn map(kind: Kind, velocity: u8) -> (r: u8)
    requires
        kind.wf(),
        velocity <= 127,
    ensures
        r == spec_map(kind, velocity),
{
    match kind {
        Kind::Identity => velocity,
        Kind::Linear { min, max } => map_linear(velocity, min, max),
    }
}

/// Squeeze `velocity` into `min..=max` linearly; the result stays in that
/// range.
pub fn map_linear(velocity: u8, min: u8, max: u8) -> (r: u8)
    requires
        min <= max,
        velocity <= 127,
    ensures
        r == spec_map_linear(velocity, min, max),
        min <= r <= max,
{
    proof {
        assert(velocity * (max - min) * 2 + 127 <= 254 * (max - min) + 127) by (nonlinear_arith)
            requires
                velocity <= 127,
                min <= max,
                max <= 255,
        ;
        assert((254 * (max - min) + 127) / 254 == max - min);
        assert(velocity * (max - min) * 2 + 127 >= 0) by (nonlinear_arith)
            requires
                min <= max,
        ;
    }
    let d: u32 = (max - min) as u32;
    let scaled: u32 = (velocity as u32 * d * 2 + 127) / 254;
    (scaled as u8) + min
}

} // verus!
