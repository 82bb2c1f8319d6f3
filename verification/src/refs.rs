//! Reference-frame slot classification.
//!
//! A prediction reads from one of seven inter reference slots; the two
//! remaining tags mark intra prediction and an unused slot. Converting a
//! slot to a dense index is defined only for the seven inter slots.

use vstd::prelude::*;

verus! {

/// A reference-frame tag: the intra marker, seven inter slots in decode
/// order, and the "none" marker.
#[allow(non_camel_case_types)]
#[derive(PartialEq, Eq, Copy, Clone, Structural)]
pub enum RefType {
    INTRA_FRAME,
    LAST_FRAME,
    LAST2_FRAME,
    LAST3_FRAME,
    GOLDEN_FRAME,
    BWDREF_FRAME,
    ALTREF2_FRAME,
    ALTREF_FRAME,
    NONE_FRAME,
}

pub const FWD_REFS: usize = 4;

pub const BWD_REFS: usize = 3;

pub const SINGLE_REFS: usize = 7;

pub const TOTAL_REFS_PER_FRAME: usize = 8;

pub const INTER_REFS_PER_FRAME: usize = 7;

pub const REF_FRAMES_LOG2: usize = 3;

pub const REF_FRAMES: usize = 8;

pub const REF_CONTEXTS: usize = 3;

pub const MVREF_ROW_COLS: usize = 3;

/// The place of a tag in the declaration order.
pub open spec fn ref_ordinal(r: RefType) -> int {
    match r {
        RefType::INTRA_FRAME => 0,
        RefType::LAST_FRAME => 1,
        RefType::LAST2_FRAME => 2,
        RefType::LAST3_FRAME => 3,
        RefType::GOLDEN_FRAME => 4,
        RefType::BWDREF_FRAME => 5,
        RefType::ALTREF2_FRAME => 6,
        RefType::ALTREF_FRAME => 7,
        RefType::NONE_FRAME => 8,
    }
}

/// True for the seven inter slots, which alone can name a reference frame.
pub open spec fn is_inter_ref(r: RefType) -> bool {
    r != RefType::INTRA_FRAME && r != RefType::NONE_FRAME
}

impl RefType {
    /// The dense index of an inter slot, 0 through 6 in decode order.
    ///
    /// Calling this on the intra or none tag is a usage error; those tags
    /// are excluded by the precondition.
    pub fn to_index(self) -> (r: usize)
        requires
            is_inter_ref(self),
        ensures
            r == ref_ordinal(self) - 1,
            r < INTER_REFS_PER_FRAME,
    {
        match self {
            RefType::LAST_FRAME => 0,
            RefType::LAST2_FRAME => 1,
            RefType::LAST3_FRAME => 2,
            RefType::GOLDEN_FRAME => 3,
            RefType::BWDREF_FRAME => 4,
            RefType::ALTREF2_FRAME => 5,
            RefType::ALTREF_FRAME => 6,
            RefType::INTRA_FRAME => 0,
            RefType::NONE_FRAME => 0,
        }
    }

    /// Whether the tag sits in the forward-in-time class (ordinal below 5).
    pub fn is_fwd_ref(self) -> (r: bool)
        ensures
            r == (ref_ordinal(self) < 5),
    {
        match self {
            RefType::INTRA_FRAME => true,
            RefType::LAST_FRAME => true,
            RefType::LAST2_FRAME => true,
            RefType::LAST3_FRAME => true,
            RefType::GOLDEN_FRAME => true,
            _ => false,
        }
    }

    /// Whether the tag sits in the backward-in-time class (ordinal 5 or more).
    pub fn is_bwd_ref(self) -> (r: bool)
        ensures
            r == (ref_ordinal(self) >= 5),
    {
        match self {
            RefType::BWDREF_FRAME => true,
            RefType::ALTREF2_FRAME => true,
            RefType::ALTREF_FRAME => true,
            RefType::NONE_FRAME => true,
            _ => false,
        }
    }
}

} // verus!
