//! The options of the transform engine's planner.

use vstd::prelude::*;

verus! {

/// How the planner of the transform engine chooses its plan, and what the
/// plan may do to its buffers. Each flag but `Measure` is one bit.
#[derive(Clone, Copy, Debug, PartialEq, Eq, Structural)]
pub enum PlannerFlags {
    Measure,
    DestroyInput,
    Unaligned,
    ConserveMemory,
    Exhaustive,
    PreserveInput,
    Patient,
    Estimate,
    WisdomOnly,
}

impl PlannerFlags {
    /// The bit of this flag.
    pub open spec fn spec_bits(self) -> u32 {
        match self {
            PlannerFlags::Measure => 0,
            PlannerFlags::DestroyInput => 0x1,
            PlannerFlags::Unaligned => 0x2,
            PlannerFlags::ConserveMemory => 0x4,
            PlannerFlags::Exhaustive => 0x8,
            PlannerFlags::PreserveInput => 0x10,
            PlannerFlags::Patient => 0x20,
            PlannerFlags::Estimate => 0x40,
            PlannerFlags::WisdomOnly => 0x200000,
        }
    }

    /// The bit of this flag.
    pub fn bits(self) -> (raw: u32)
        ensures
            raw == self.spec_bits(),
    {
        match self {
            PlannerFlags::Measure => 0,
            PlannerFlags::DestroyInput => 0x1,
            PlannerFlags::Unaligned => 0x2,
            PlannerFlags::ConserveMemory => 0x4,
            PlannerFlags::Exhaustive => 0x8,
            PlannerFlags::PreserveInput => 0x10,
            PlannerFlags::Patient => 0x20,
            PlannerFlags::Estimate => 0x40,
            PlannerFlags::WisdomOnly => 0x200000,
        }
    }
}

/// The number of frequency bins that a transform of `size` real samples
/// gives: half the size.
pub open spec fn spec_bin_count(size: nat) -> nat {
    size / 2
}

/// The number of frequency bins that a transform of `size` real samples
/// gives.
pub fn bin_count(size: usize) -> (bins: usize)
    ensures
        bins == spec_bin_count(size as nat),
{
    size / 2
}

} // verus!
