//! The ordered capability levels of the demo and the features each one gates.

use vstd::prelude::*;

verus! {

/// The five capability levels, in increasing order of enabled features.
///
/// Every feature gated by a level stays active at all higher levels, so the
/// set of active techniques grows monotonically with the level.
#[derive(Clone, Copy, Debug, PartialEq, Eq, Structural, PartialOrd, Ord)]
pub enum Levels {
    /// Flat rendering, no projection.
    ONE,
    /// Perspective projection.
    TWO,
    /// Depth testing.
    THREE,
    /// 8-sample multisampling.
    FOUR,
    /// Lighting.
    FIVE,
}

impl Levels {
    /// The position of the level in the total order, counted from 1.
    pub open spec fn ordinal(self) -> int {
        match self {
            Levels::ONE => 1,
            Levels::TWO => 2,
            Levels::THREE => 3,
            Levels::FOUR => 4,
            Levels::FIVE => 5,
        }
    }

    /// The level's ordinal as a machine integer, for comparisons and display.
    pub fn index(&self) -> (n: u8)
        ensures
            n == self.ordinal(),
    {
        match self {
            Levels::ONE => 1,
            Levels::TWO => 2,
            Levels::THREE => 3,
            Levels::FOUR => 4,
            Levels::FIVE => 5,
        }
    }

    /// The level named by a selection signal in 1..=5, if any.
    pub fn from_index(n: u8) -> (r: Option<Levels>)
        ensures
            r is Some <==> 1 <= n <= 5,
            r matches Some(l) ==> l.ordinal() == n,
    {
        match n {
            1 => Some(Levels::ONE),
            2 => Some(Levels::TWO),
            3 => Some(Levels::THREE),
            4 => Some(Levels::FOUR),
            5 => Some(Levels::FIVE),
            _ => None,
        }
    }

    /// Ordering test used for all capability gating (`level >= threshold`).
    pub fn at_least(&self, other: &Levels) -> (r: bool)
        ensures
            r == (self.ordinal() >= other.ordinal()),
    {
        self.index() >= other.index()
    }

    /// Perspective projection is applied from `TWO` upward.
    pub open spec fn spec_projection_enabled(self) -> bool {
        self.ordinal() >= 2
    }

    /// Depth testing is applied from `THREE` upward.
    pub open spec fn spec_depth_test_enabled(self) -> bool {
        self.ordinal() >= 3
    }

    /// Multisampled rasterization is applied from `FOUR` upward.
    pub open spec fn spec_multisample_enabled(self) -> bool {
        self.ordinal() >= 4
    }

    /// Lighting is applied at `FIVE`.
    pub open spec fn spec_lighting_enabled(self) -> bool {
        self.ordinal() >= 5
    }

    pub fn projection_enabled(&self) -> (r: bool)
        ensures
            r == self.spec_projection_enabled(),
    {
        self.at_least(&Levels::TWO)
    }

    pub fn depth_test_enabled(&self) -> (r: bool)
        ensures
            r == self.spec_depth_test_enabled(),
    {
        self.at_least(&Levels::THREE)
    }

    pub fn multisample_enabled(&self) -> (r: bool)
        ensures
            r == self.spec_multisample_enabled(),
    {
        self.at_least(&Levels::FOUR)
    }

    pub fn lighting_enabled(&self) -> (r: bool)
        ensures
            r == self.spec_lighting_enabled(),
    {
        self.at_least(&Levels::FIVE)
    }
}

/// Capability accumulation is monotonic: a feature active at some level is
/// active at every level at least as high.
pub proof fn lemma_capabilities_monotonic(l1: Levels, l2: Levels)
    requires
        l1.ordinal() <= l2.ordinal(),
    ensures
        l1.spec_projection_enabled() ==> l2.spec_projection_enabled(),
        l1.spec_depth_test_enabled() ==> l2.spec_depth_test_enabled(),
        l1.spec_multisample_enabled() ==> l2.spec_multisample_enabled(),
        l1.spec_lighting_enabled() ==> l2.spec_lighting_enabled(),
{
}

} // verus!
