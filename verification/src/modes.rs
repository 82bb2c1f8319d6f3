//! Prediction modes and the smaller mode enumerations of the coding
//! scheme. Declaration order is significant: the intra modes come first,
//! then the single-reference inter modes, then the compound modes.

use vstd::prelude::*;

verus! {

/// How one block's pixels are predicted.
#[allow(non_camel_case_types)]
#[derive(Copy, Clone, Debug, PartialEq, Eq, Structural)]
pub enum PredictionMode {
    /// Average of above and left pixels.
    DC_PRED,
    /// Vertical replication.
    V_PRED,
    /// Horizontal replication.
    H_PRED,
    /// Directional, 45 degrees.
    D45_PRED,
    /// Directional, 135 degrees.
    D135_PRED,
    /// Directional, 117 degrees.
    D117_PRED,
    /// Directional, 153 degrees.
    D153_PRED,
    /// Directional, 207 degrees.
    D207_PRED,
    /// Directional, 63 degrees.
    D63_PRED,
    /// Blend of horizontal and vertical interpolation.
    SMOOTH_PRED,
    SMOOTH_V_PRED,
    SMOOTH_H_PRED,
    /// Gradient-clamped choice among above, left and top-left.
    PAETH_PRED,
    /// Chroma from luma.
    UV_CFL_PRED,
    NEARESTMV,
    NEAR0MV,
    NEAR1MV,
    NEAR2MV,
    GLOBALMV,
    NEWMV,
    NEAREST_NEARESTMV,
    NEAR_NEARMV,
    NEAREST_NEWMV,
    NEW_NEARESTMV,
    NEAR_NEWMV,
    NEW_NEARMV,
    GLOBAL_GLOBALMV,
    NEW_NEWMV,
}

/// The place of a mode in the declaration order.
pub open spec fn mode_ordinal(m: PredictionMode) -> int {
    match m {
        PredictionMode::DC_PRED => 0,
        PredictionMode::V_PRED => 1,
        PredictionMode::H_PRED => 2,
        PredictionMode::D45_PRED => 3,
        PredictionMode::D135_PRED => 4,
        PredictionMode::D117_PRED => 5,
        PredictionMode::D153_PRED => 6,
        PredictionMode::D207_PRED => 7,
        PredictionMode::D63_PRED => 8,
        PredictionMode::SMOOTH_PRED => 9,
        PredictionMode::SMOOTH_V_PRED => 10,
        PredictionMode::SMOOTH_H_PRED => 11,
        PredictionMode::PAETH_PRED => 12,
        PredictionMode::UV_CFL_PRED => 13,
        PredictionMode::NEARESTMV => 14,
        PredictionMode::NEAR0MV => 15,
        PredictionMode::NEAR1MV => 16,
        PredictionMode::NEAR2MV => 17,
        PredictionMode::GLOBALMV => 18,
        PredictionMode::NEWMV => 19,
        PredictionMode::NEAREST_NEARESTMV => 20,
        PredictionMode::NEAR_NEARMV => 21,
        PredictionMode::NEAREST_NEWMV => 22,
        PredictionMode::NEW_NEARESTMV => 23,
        PredictionMode::NEAR_NEWMV => 24,
        PredictionMode::NEW_NEARMV => 25,
        PredictionMode::GLOBAL_GLOBALMV => 26,
        PredictionMode::NEW_NEWMV => 27,
    }
}

pub const INTER_COMPOUND_MODES: usize = 8;

impl PredictionMode {
    /// Whether the mode is an intra mode: every mode declared before the
    /// first motion-vector mode.
    pub fn is_intra(self) -> (r: bool)
        ensures
            r == (mode_ordinal(self) < mode_ordinal(PredictionMode::NEARESTMV)),
    {
        match self {
            PredictionMode::DC_PRED | PredictionMode::V_PRED | PredictionMode::H_PRED
                | PredictionMode::D45_PRED | PredictionMode::D135_PRED
                | PredictionMode::D117_PRED | PredictionMode::D153_PRED
                | PredictionMode::D207_PRED | PredictionMode::D63_PRED
                | PredictionMode::SMOOTH_PRED | PredictionMode::SMOOTH_V_PRED
                | PredictionMode::SMOOTH_H_PRED | PredictionMode::PAETH_PRED
                | PredictionMode::UV_CFL_PRED => true,
            _ => false,
        }
    }

    /// Whether the mode is the chroma-from-luma mode.
    pub fn is_cfl(self) -> (r: bool)
        ensures
            r == (self == PredictionMode::UV_CFL_PRED),
    {
        match self {
            PredictionMode::UV_CFL_PRED => true,
            _ => false,
        }
    }

    /// Whether the mode is one of the eight directional modes, by
    /// declaration order.
    pub fn is_directional(self) -> (r: bool)
        ensures
            r == (mode_ordinal(PredictionMode::V_PRED) <= mode_ordinal(self) <= mode_ordinal(
                PredictionMode::D63_PRED,
            )),
    {
        match self {
            PredictionMode::V_PRED | PredictionMode::H_PRED | PredictionMode::D45_PRED
                | PredictionMode::D135_PRED | PredictionMode::D117_PRED
                | PredictionMode::D153_PRED | PredictionMode::D207_PRED
                | PredictionMode::D63_PRED => true,
            _ => false,
        }
    }
}

/// Transform type: which 1-D transforms run in each direction.
#[allow(non_camel_case_types)]
#[derive(Debug, Copy, Clone, PartialEq, Eq, Structural)]
pub enum TxType {
    DCT_DCT,
    ADST_DCT,
    DCT_ADST,
    ADST_ADST,
    FLIPADST_DCT,
    DCT_FLIPADST,
    FLIPADST_FLIPADST,
    ADST_FLIPADST,
    FLIPADST_ADST,
    IDTX,
    V_DCT,
    H_DCT,
    V_ADST,
    H_ADST,
    V_FLIPADST,
    H_FLIPADST,
}

/// Which set of transform types a block may choose from.
#[allow(non_camel_case_types)]
#[derive(Copy, Clone, Debug, PartialEq, Eq, Structural)]
pub enum TxSet {
    TX_SET_DCTONLY,
    TX_SET_DCT_IDTX,
    TX_SET_DTT4_IDTX,
    TX_SET_DTT4_IDTX_1DDCT_16X16,
    TX_SET_DTT4_IDTX_1DDCT,
    TX_SET_DTT9_IDTX,
    TX_SET_DTT9_IDTX_1DDCT,
    TX_SET_ALL16_16X16,
    TX_SET_ALL16,
}

/// Modes of blending an inter with an intra prediction.
#[allow(non_camel_case_types)]
#[derive(Copy, Clone, Debug, PartialEq, Eq, Structural)]
pub enum InterIntraMode {
    II_DC_PRED,
    II_V_PRED,
    II_H_PRED,
    II_SMOOTH_PRED,
    INTERINTRA_MODES,
}

/// How two inter predictions are combined.
#[allow(non_camel_case_types)]
#[derive(Copy, Clone, Debug, PartialEq, Eq, Structural)]
pub enum CompoundType {
    COMPOUND_AVERAGE,
    COMPOUND_WEDGE,
    COMPOUND_DIFFWTD,
    COMPOUND_TYPES,
}

/// How a block's motion is modelled.
#[allow(non_camel_case_types)]
#[derive(Copy, Clone, Debug, PartialEq, Eq, Structural)]
pub enum MotionMode {
    SIMPLE_TRANSLATION,
    OBMC_CAUSAL,
    WARPED_CAUSAL,
    MOTION_MODES,
}

/// How many colors a palette holds.
#[allow(non_camel_case_types)]
#[derive(Copy, Clone, Debug, PartialEq, Eq, Structural)]
pub enum PaletteSize {
    TWO_COLORS,
    THREE_COLORS,
    FOUR_COLORS,
    FIVE_COLORS,
    SIX_COLORS,
    SEVEN_COLORS,
    EIGHT_COLORS,
    PALETTE_SIZES,
}

/// A color's place in a palette.
#[allow(non_camel_case_types)]
#[derive(Copy, Clone, Debug, PartialEq, Eq, Structural)]
pub enum PaletteColor {
    PALETTE_COLOR_ONE,
    PALETTE_COLOR_TWO,
    PALETTE_COLOR_THREE,
    PALETTE_COLOR_FOUR,
    PALETTE_COLOR_FIVE,
    PALETTE_COLOR_SIX,
    PALETTE_COLOR_SEVEN,
    PALETTE_COLOR_EIGHT,
    PALETTE_COLORS,
}

/// The filtered intra modes.
#[allow(non_camel_case_types)]
#[derive(Copy, Clone, Debug, PartialEq, Eq, Structural)]
pub enum FilterIntraMode {
    FILTER_DC_PRED,
    FILTER_V_PRED,
    FILTER_H_PRED,
    FILTER_D157_PRED,
    FILTER_PAETH_PRED,
    FILTER_INTRA_MODES,
}

/// The global motion models, from identity to full affine.
#[allow(non_camel_case_types)]
#[derive(Copy, Clone, Debug, PartialEq, Eq, Structural)]
pub enum GlobalMVMode {
    IDENTITY,
    TRANSLATION,
    ROTZOOM,
    AFFINE,
}

/// The precision a motion vector is signaled at.
#[allow(non_camel_case_types)]
#[derive(Copy, Clone, Debug, PartialEq, Eq, Structural)]
pub enum MvSubpelPrecision {
    MV_SUBPEL_NONE,
    MV_SUBPEL_LOW_PRECISION,
    MV_SUBPEL_HIGH_PRECISION,
}

/// Which motion-vector components are zero, coded jointly.
#[allow(non_camel_case_types)]
#[derive(Copy, Clone, Debug, PartialEq, Eq, Structural)]
pub enum MvJointType {
    MV_JOINT_ZERO,
    MV_JOINT_HNZVZ,
    MV_JOINT_HZVNZ,
    MV_JOINT_HNZVNZ,
}

} // verus!
