//! Model of a chained pair of 8259-style interrupt controllers.
//!
//! The pair owns two base vector offsets. Remapping moves both controllers
//! above the 32 vectors the CPU reserves for exceptions; acknowledging an
//! interrupt decides which of the two controllers must receive an
//! end-of-interrupt signal. The port writes themselves happen at the system
//! boundary; this module decides, and its decisions are what the handlers
//! rely on to keep the controllers delivering interrupts.

use vstd::prelude::*;

verus! {

/// Vector offset the primary controller is remapped to at boot.
pub const PIC_1_OFFSET: u8 = 32;

/// Vector offset the secondary controller is remapped to at boot.
pub const PIC_2_OFFSET: u8 = 40;

/// How many interrupt lines each controller owns.
pub const LINES_PER_PIC: u8 = 8;

/// Which controllers must receive an end-of-interrupt signal for a vector.
#[derive(Clone, Copy, Debug, PartialEq, Eq, Structural)]
pub enum EoiPlan {
    /// The vector belongs to neither controller: no signal is sent.
    NotHandled,
    /// The vector belongs to the primary controller: one signal, to it.
    PrimaryOnly,
    /// The vector belongs to the secondary controller, which is cascaded
    /// through the primary: both controllers are signalled.
    SecondaryThenPrimary,
}

impl EoiPlan {
    /// How many end-of-interrupt port operations the plan issues.
    pub open spec fn spec_op_count(self) -> nat {
        match self {
            EoiPlan::NotHandled => 0,
            EoiPlan::PrimaryOnly => 1,
            EoiPlan::SecondaryThenPrimary => 2,
        }
    }

    /// How many end-of-interrupt port operations the plan issues.
    pub fn op_count(self) -> (n: u8)
        ensures
            n == self.spec_op_count(),
    {
        match self {
            EoiPlan::NotHandled => 0,
            EoiPlan::PrimaryOnly => 1,
            EoiPlan::SecondaryThenPrimary => 2,
        }
    }
}

/// The pair of chained interrupt controllers: each owns eight vectors
/// starting at its offset.
pub struct ChainedPics {
    /// Base vector of the primary controller.
    pub primary_offset: u8,
    /// Base vector of the secondary controller.
    pub secondary_offset: u8,
}

impl ChainedPics {
    /// Both offsets clear the 32 reserved CPU exception vectors and the two
    /// ranges of eight vectors do not overlap.
    pub open spec fn wf(self) -> bool {
        &&& self.primary_offset >= 32
        &&& self.secondary_offset >= 32
        &&& self.primary_offset + LINES_PER_PIC <= 255
        &&& self.secondary_offset + LINES_PER_PIC <= 255
        &&& (self.secondary_offset >= self.primary_offset + LINES_PER_PIC
            || self.primary_offset >= self.secondary_offset + LINES_PER_PIC)
    }

    /// The vector is one of the eight owned by the primary controller.
    pub open spec fn spec_primary_handles(self, vector: u8) -> bool {
        self.primary_offset <= vector < self.primary_offset + LINES_PER_PIC
    }

    /// The vector is one of the eight owned by the secondary controller.
    pub open spec fn spec_secondary_handles(self, vector: u8) -> bool {
        self.secondary_offset <= vector < self.secondary_offset + LINES_PER_PIC
    }

    /// Remap both controllers to the given base vectors.
    pub fn remap(primary_offset: u8, secondary_offset: u8) -> (pics: ChainedPics)
        requires
            primary_offset >= 32,
            secondary_offset >= 32,
            primary_offset + LINES_PER_PIC <= 255,
            secondary_offset + LINES_PER_PIC <= 255,
            secondary_offset >= primary_offset + LINES_PER_PIC
                || primary_offset >= secondary_offset + LINES_PER_PIC,
        ensures
            pics.wf(),
            pics.primary_offset == primary_offset,
            pics.secondary_offset == secondary_offset,
    {
        ChainedPics { primary_offset, secondary_offset }
    }

    /// Whether a vector belongs to either controller.
    pub fn handles_interrupt(&self, vector: u8) -> (b: bool)
        requires
            self.wf(),
        ensures
            b == (self.spec_primary_handles(vector) || self.spec_secondary_handles(vector)),
    {
        (self.primary_offset <= vector && vector < self.primary_offset + LINES_PER_PIC)
            || (self.secondary_offset <= vector
                && vector < self.secondary_offset + LINES_PER_PIC)
    }

    /// Decide which controllers must be acknowledged after servicing the
    /// given vector. A vector of the secondary controller is cascaded
    /// through the primary, so servicing it obliges an end-of-interrupt
    /// signal to both controllers; a vector of the primary obliges exactly
    /// one; any other vector obliges none.
    pub fn acknowledge(&self, vector: u8) -> (plan: EoiPlan)
        requires
            self.wf(),
        ensures
            self.spec_secondary_handles(vector) ==> plan == EoiPlan::SecondaryThenPrimary,
            self.spec_primary_handles(vector) ==> plan == EoiPlan::PrimaryOnly,
            !self.spec_primary_handles(vector) && !self.spec_secondary_handles(vector)
                ==> plan == EoiPlan::NotHandled,
            plan.spec_op_count() == if self.spec_secondary_handles(vector) {
                2nat
            } else if self.spec_primary_handles(vector) {
                1nat
            } else {
                0nat
            },
    {
        if self.secondary_offset <= vector && vector < self.secondary_offset + LINES_PER_PIC {
            EoiPlan::SecondaryThenPrimary
        } else if self.primary_offset <= vector && vector < self.primary_offset + LINES_PER_PIC {
            EoiPlan::PrimaryOnly
        } else {
            EoiPlan::NotHandled
        }
    }
}

} // verus!
