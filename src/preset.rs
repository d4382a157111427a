//! Space strategies chosen by configuration.

use vstd::prelude::*;
use vstd::arithmetic::power2::pow2;

use crate::strategy::space::{
    Coord, HilbertSpaceStrategy, LineSpaceStrategy, SpaceStrategy, SpaceStrategyAdapter,
    is_power_of_two, MAX_SIZE_EXP,
};

verus! {

/// A space strategy as a configuration names it.
#[derive(Clone, Copy, Debug, PartialEq, Eq, Structural)]
pub enum SpacePreset {
    /// A Hilbert curve over a square of side `size`.
    Hilbert { size: u32 },
    /// A line of `length` points, lifted into the plane.
    Line { length: usize },
}

impl Default for SpacePreset {
    fn default() -> (r: SpacePreset)
        ensures
            r == (SpacePreset::Hilbert { size: 512 }),
    {
        SpacePreset::Hilbert { size: 512 }
    }
}

/// One of the two-dimensional space strategies that a preset can name.
pub enum PresetSpaceStrategy {
    Hilbert(HilbertSpaceStrategy),
    Line(SpaceStrategyAdapter<1, 2, LineSpaceStrategy>),
}

impl SpacePreset {
    /// Whether the preset's parameters can make a strategy: a Hilbert side is a
    /// power of two whose square fits in a `u32`, and a line's points fit in a
    /// `u32`.
    pub open spec fn is_valid(&self) -> bool {
        match *self {
            SpacePreset::Hilbert { size } => is_power_of_two(size as nat) && size <= pow2(
                MAX_SIZE_EXP as nat,
            ),
            SpacePreset::Line { length } => length <= u32::MAX,
        }
    }

    /// The strategy that the preset names, or `None` when its parameters are
    /// not valid.
    pub fn to_strategy(&self) -> (r: Option<PresetSpaceStrategy>)
        ensures
            r.is_some() <==> self.is_valid(),
            r matches Some(s) ==> s.well_formed(),
            r matches Some(PresetSpaceStrategy::Hilbert(h)) ==> (*self matches SpacePreset::Hilbert {
                size,
            } && pow2(h.spec_size_exp()) == size),
            r matches Some(PresetSpaceStrategy::Line(l)) ==> (*self matches SpacePreset::Line {
                length,
            } && l.inner().spec_line_length() == length),
    {
        match *self {
            SpacePreset::Hilbert { size } => {
                if size_is_power_of_two(size) {
                    Some(PresetSpaceStrategy::Hilbert(HilbertSpaceStrategy::from_size(size)))
                } else {
                    None
                }
            },
            SpacePreset::Line { length } => {
                if length <= u32::MAX as usize {
                    Some(
                        PresetSpaceStrategy::Line(
                            SpaceStrategyAdapter::new(LineSpaceStrategy::new(length)),
                        ),
                    )
                } else {
                    None
                }
            },
        }
    }
}

/// Whether `size` is a power of two no larger than the largest Hilbert side.
fn size_is_power_of_two(size: u32) -> (r: bool)
    ensures
        r <==> is_power_of_two(size as nat) && size <= pow2(MAX_SIZE_EXP as nat),
{
    let mut exp: u32 = 0;
    let mut side: u32 = 1;
    proof {
        vstd::arithmetic::power2::lemma2_to64();
    }
    while exp < MAX_SIZE_EXP && side < size
        invariant
            exp <= MAX_SIZE_EXP,
            side == pow2(exp as nat),
            forall|k: nat| k < exp ==> pow2(k) < size,
        decreases MAX_SIZE_EXP - exp,
    {
        proof {
            vstd::arithmetic::power2::lemma_pow2_unfold((exp + 1) as nat);
            vstd::arithmetic::power2::lemma_pow2_strictly_increases(exp as nat, MAX_SIZE_EXP as nat);
            vstd::arithmetic::power2::lemma2_to64();
        }
        side = side * 2;
        exp = exp + 1;
    }
    proof {
        vstd::arithmetic::power2::lemma2_to64();
        if side != size && is_power_of_two(size as nat) && size <= pow2(MAX_SIZE_EXP as nat) {
            // The exponent of `size` lies at or beyond `exp`, where the side
            // has already reached `size` or the largest exponent.
            let e: nat = choose|e: nat| pow2(e) == size;
            if e > exp {
                vstd::arithmetic::power2::lemma_pow2_strictly_increases(exp as nat, e);
            }
        }
    }
    side == size
}

impl SpaceStrategy<2> for PresetSpaceStrategy {
    open spec fn well_formed(&self) -> bool {
        match self {
            PresetSpaceStrategy::Hilbert(h) => h.well_formed(),
            PresetSpaceStrategy::Line(l) => l.well_formed(),
        }
    }

    open spec fn spec_length(&self, dimension: int) -> nat {
        match self {
            PresetSpaceStrategy::Hilbert(h) => h.spec_length(dimension),
            PresetSpaceStrategy::Line(l) => l.spec_length(dimension),
        }
    }

    open spec fn spec_size(&self) -> nat {
        match self {
            PresetSpaceStrategy::Hilbert(h) => h.spec_size(),
            PresetSpaceStrategy::Line(l) => l.spec_size(),
        }
    }

    open spec fn spec_coord(&self, index: int) -> Seq<u32> {
        match self {
            PresetSpaceStrategy::Hilbert(h) => h.spec_coord(index),
            PresetSpaceStrategy::Line(l) => l.spec_coord(index),
        }
    }

    fn index_to_coord(&self, index: usize) -> (r: Option<Coord<2>>) {
        match self {
            PresetSpaceStrategy::Hilbert(h) => h.index_to_coord(index),
            PresetSpaceStrategy::Line(l) => l.index_to_coord(index),
        }
    }

    fn length(&self, dimension: usize) -> (r: u32) {
        match self {
            PresetSpaceStrategy::Hilbert(h) => h.length(dimension),
            PresetSpaceStrategy::Line(l) => l.length(dimension),
        }
    }

    fn size(&self) -> (r: usize) {
        match self {
            PresetSpaceStrategy::Hilbert(h) => h.size(),
            PresetSpaceStrategy::Line(l) => l.size(),
        }
    }
}

} // verus!
