//! Transform sizes: the 19 shapes a frequency transform can take,
//! 5 square and 14 rectangular, and their reduction to square ancestors.

use vstd::prelude::*;
use crate::block::BlockSize;
use crate::block::blk_width;
use crate::block::blk_height;

verus! {

pub const TX_TYPES: usize = 16;

/// Transform size.
#[allow(non_camel_case_types)]
#[derive(Copy, Clone, Debug, PartialEq, Eq, Structural)]
pub enum TxSize {
    TX_4X4,
    TX_8X8,
    TX_16X16,
    TX_32X32,
    TX_64X64,
    TX_4X8,
    TX_8X4,
    TX_8X16,
    TX_16X8,
    TX_16X32,
    TX_32X16,
    TX_32X64,
    TX_64X32,
    TX_4X16,
    TX_16X4,
    TX_8X32,
    TX_32X8,
    TX_16X64,
    TX_64X16,
}

/// Log2 of a transform's width in pixels.
pub open spec fn tx_width_log2(t: TxSize) -> int {
    match t {
        TxSize::TX_4X4 | TxSize::TX_4X8 | TxSize::TX_4X16 => 2,
        TxSize::TX_8X8 | TxSize::TX_8X4 | TxSize::TX_8X16 | TxSize::TX_8X32 => 3,
        TxSize::TX_16X16 | TxSize::TX_16X8 | TxSize::TX_16X32 | TxSize::TX_16X4
            | TxSize::TX_16X64 => 4,
        TxSize::TX_32X32 | TxSize::TX_32X16 | TxSize::TX_32X64 | TxSize::TX_32X8 => 5,
        TxSize::TX_64X64 | TxSize::TX_64X32 | TxSize::TX_64X16 => 6,
    }
}

/// Log2 of a transform's height in pixels.
pub open spec fn tx_height_log2(t: TxSize) -> int {
    match t {
        TxSize::TX_4X4 | TxSize::TX_8X4 | TxSize::TX_16X4 => 2,
        TxSize::TX_8X8 | TxSize::TX_4X8 | TxSize::TX_16X8 | TxSize::TX_32X8 => 3,
        TxSize::TX_16X16 | TxSize::TX_8X16 | TxSize::TX_32X16 | TxSize::TX_4X16
            | TxSize::TX_64X16 => 4,
        TxSize::TX_32X32 | TxSize::TX_16X32 | TxSize::TX_64X32 | TxSize::TX_8X32 => 5,
        TxSize::TX_64X64 | TxSize::TX_32X64 | TxSize::TX_16X64 => 6,
    }
}

/// A transform's width in pixels.
pub open spec fn tx_width(t: TxSize) -> int {
    match t {
        TxSize::TX_4X4 | TxSize::TX_4X8 | TxSize::TX_4X16 => 4,
        TxSize::TX_8X8 | TxSize::TX_8X4 | TxSize::TX_8X16 | TxSize::TX_8X32 => 8,
        TxSize::TX_16X16 | TxSize::TX_16X8 | TxSize::TX_16X32 | TxSize::TX_16X4
            | TxSize::TX_16X64 => 16,
        TxSize::TX_32X32 | TxSize::TX_32X16 | TxSize::TX_32X64 | TxSize::TX_32X8 => 32,
        TxSize::TX_64X64 | TxSize::TX_64X32 | TxSize::TX_64X16 => 64,
    }
}

/// A transform's height in pixels.
pub open spec fn tx_height(t: TxSize) -> int {
    match t {
        TxSize::TX_4X4 | TxSize::TX_8X4 | TxSize::TX_16X4 => 4,
        TxSize::TX_8X8 | TxSize::TX_4X8 | TxSize::TX_16X8 | TxSize::TX_32X8 => 8,
        TxSize::TX_16X16 | TxSize::TX_8X16 | TxSize::TX_32X16 | TxSize::TX_4X16
            | TxSize::TX_64X16 => 16,
        TxSize::TX_32X32 | TxSize::TX_16X32 | TxSize::TX_64X32 | TxSize::TX_8X32 => 32,
        TxSize::TX_64X64 | TxSize::TX_32X64 | TxSize::TX_16X64 => 64,
    }
}

/// The square ancestor that `sqr` reduces to: the smaller dimension.
pub open spec fn tx_sqr_spec(t: TxSize) -> TxSize {
    match t {
        TxSize::TX_4X4 | TxSize::TX_4X8 | TxSize::TX_8X4 | TxSize::TX_4X16
            | TxSize::TX_16X4 => TxSize::TX_4X4,
        TxSize::TX_8X8 | TxSize::TX_8X16 | TxSize::TX_16X8 | TxSize::TX_8X32
            | TxSize::TX_32X8 => TxSize::TX_8X8,
        TxSize::TX_16X16 | TxSize::TX_16X32 | TxSize::TX_32X16 | TxSize::TX_16X64
            | TxSize::TX_64X16 => TxSize::TX_16X16,
        TxSize::TX_32X32 | TxSize::TX_32X64 | TxSize::TX_64X32 => TxSize::TX_32X32,
        TxSize::TX_64X64 => TxSize::TX_64X64,
    }
}

/// The square ancestor that `sqr_up` enlarges to: the larger dimension.
pub open spec fn tx_sqr_up_spec(t: TxSize) -> TxSize {
    match t {
        TxSize::TX_4X4 => TxSize::TX_4X4,
        TxSize::TX_8X8 | TxSize::TX_4X8 | TxSize::TX_8X4 => TxSize::TX_8X8,
        TxSize::TX_16X16 | TxSize::TX_8X16 | TxSize::TX_16X8 | TxSize::TX_4X16
            | TxSize::TX_16X4 => TxSize::TX_16X16,
        TxSize::TX_32X32 | TxSize::TX_16X32 | TxSize::TX_32X16 | TxSize::TX_8X32
            | TxSize::TX_32X8 => TxSize::TX_32X32,
        TxSize::TX_64X64 | TxSize::TX_32X64 | TxSize::TX_64X32 | TxSize::TX_16X64
            | TxSize::TX_64X16 => TxSize::TX_64X64,
    }
}

/// The block size with the same pixel dimensions as a transform size.
pub open spec fn tx_block_size_spec(t: TxSize) -> BlockSize {
    match t {
        TxSize::TX_4X4 => BlockSize::BLOCK_4X4,
        TxSize::TX_8X8 => BlockSize::BLOCK_8X8,
        TxSize::TX_16X16 => BlockSize::BLOCK_16X16,
        TxSize::TX_32X32 => BlockSize::BLOCK_32X32,
        TxSize::TX_64X64 => BlockSize::BLOCK_64X64,
        TxSize::TX_4X8 => BlockSize::BLOCK_4X8,
        TxSize::TX_8X4 => BlockSize::BLOCK_8X4,
        TxSize::TX_8X16 => BlockSize::BLOCK_8X16,
        TxSize::TX_16X8 => BlockSize::BLOCK_16X8,
        TxSize::TX_16X32 => BlockSize::BLOCK_16X32,
        TxSize::TX_32X16 => BlockSize::BLOCK_32X16,
        TxSize::TX_32X64 => BlockSize::BLOCK_32X64,
        TxSize::TX_64X32 => BlockSize::BLOCK_64X32,
        TxSize::TX_4X16 => BlockSize::BLOCK_4X16,
        TxSize::TX_16X4 => BlockSize::BLOCK_16X4,
        TxSize::TX_8X32 => BlockSize::BLOCK_8X32,
        TxSize::TX_32X8 => BlockSize::BLOCK_32X8,
        TxSize::TX_16X64 => BlockSize::BLOCK_16X64,
        TxSize::TX_64X16 => BlockSize::BLOCK_64X16,
    }
}

/// The transform size of given pixel dimensions, where one exists.
pub open spec fn tx_from_dims_spec(w: int, h: int) -> Option<TxSize> {
    if w == 4 && h == 4 {
        Some(TxSize::TX_4X4)
    } else if w == 8 && h == 8 {
        Some(TxSize::TX_8X8)
    } else if w == 16 && h == 16 {
        Some(TxSize::TX_16X16)
    } else if w == 32 && h == 32 {
        Some(TxSize::TX_32X32)
    } else if w == 64 && h == 64 {
        Some(TxSize::TX_64X64)
    } else if w == 4 && h == 8 {
        Some(TxSize::TX_4X8)
    } else if w == 8 && h == 4 {
        Some(TxSize::TX_8X4)
    } else if w == 8 && h == 16 {
        Some(TxSize::TX_8X16)
    } else if w == 16 && h == 8 {
        Some(TxSize::TX_16X8)
    } else if w == 16 && h == 32 {
        Some(TxSize::TX_16X32)
    } else if w == 32 && h == 16 {
        Some(TxSize::TX_32X16)
    } else if w == 32 && h == 64 {
        Some(TxSize::TX_32X64)
    } else if w == 64 && h == 32 {
        Some(TxSize::TX_64X32)
    } else if w == 4 && h == 16 {
        Some(TxSize::TX_4X16)
    } else if w == 16 && h == 4 {
        Some(TxSize::TX_16X4)
    } else if w == 8 && h == 32 {
        Some(TxSize::TX_8X32)
    } else if w == 32 && h == 8 {
        Some(TxSize::TX_32X8)
    } else if w == 16 && h == 64 {
        Some(TxSize::TX_16X64)
    } else if w == 64 && h == 16 {
        Some(TxSize::TX_64X16)
    } else {
        None
    }
}

impl TxSize {
    /// Number of square transform sizes.
    pub const TX_SIZES: usize = 5;

    /// Number of transform sizes, rectangular shapes included.
    pub const TX_SIZES_ALL: usize = 19;

    /// Width in pixels.
    pub fn width(self) -> (r: usize)
        ensures
            r == tx_width(self),
    {
        match self {
            TxSize::TX_4X4 | TxSize::TX_4X8 | TxSize::TX_4X16 => 4,
            TxSize::TX_8X8 | TxSize::TX_8X4 | TxSize::TX_8X16 | TxSize::TX_8X32 => 8,
            TxSize::TX_16X16 | TxSize::TX_16X8 | TxSize::TX_16X32 | TxSize::TX_16X4
                | TxSize::TX_16X64 => 16,
            TxSize::TX_32X32 | TxSize::TX_32X16 | TxSize::TX_32X64 | TxSize::TX_32X8 => 32,
            TxSize::TX_64X64 | TxSize::TX_64X32 | TxSize::TX_64X16 => 64,
        }
    }

    /// Log2 of the width in pixels.
    pub fn width_log2(self) -> (r: usize)
        ensures
            r == tx_width_log2(self),
    {
        match self {
            TxSize::TX_4X4 | TxSize::TX_4X8 | TxSize::TX_4X16 => 2,
            TxSize::TX_8X8 | TxSize::TX_8X4 | TxSize::TX_8X16 | TxSize::TX_8X32 => 3,
            TxSize::TX_16X16 | TxSize::TX_16X8 | TxSize::TX_16X32 | TxSize::TX_16X4
                | TxSize::TX_16X64 => 4,
            TxSize::TX_32X32 | TxSize::TX_32X16 | TxSize::TX_32X64 | TxSize::TX_32X8 => 5,
            TxSize::TX_64X64 | TxSize::TX_64X32 | TxSize::TX_64X16 => 6,
        }
    }

    /// The width's place among the five square dimensions.
    pub fn width_index(self) -> (r: usize)
        ensures
            r == tx_width_log2(self) - 2,
    {
        self.width_log2() - 2
    }

    /// Height in pixels.
    pub fn height(self) -> (r: usize)
        ensures
            r == tx_height(self),
    {
        match self {
            TxSize::TX_4X4 | TxSize::TX_8X4 | TxSize::TX_16X4 => 4,
            TxSize::TX_8X8 | TxSize::TX_4X8 | TxSize::TX_16X8 | TxSize::TX_32X8 => 8,
            TxSize::TX_16X16 | TxSize::TX_8X16 | TxSize::TX_32X16 | TxSize::TX_4X16
                | TxSize::TX_64X16 => 16,
            TxSize::TX_32X32 | TxSize::TX_16X32 | TxSize::TX_64X32 | TxSize::TX_8X32 => 32,
            TxSize::TX_64X64 | TxSize::TX_32X64 | TxSize::TX_16X64 => 64,
        }
    }

    /// Log2 of the height in pixels.
    pub fn height_log2(self) -> (r: usize)
        ensures
            r == tx_height_log2(self),
    {
        match self {
            TxSize::TX_4X4 | TxSize::TX_8X4 | TxSize::TX_16X4 => 2,
            TxSize::TX_8X8 | TxSize::TX_4X8 | TxSize::TX_16X8 | TxSize::TX_32X8 => 3,
            TxSize::TX_16X16 | TxSize::TX_8X16 | TxSize::TX_32X16 | TxSize::TX_4X16
                | TxSize::TX_64X16 => 4,
            TxSize::TX_32X32 | TxSize::TX_16X32 | TxSize::TX_64X32 | TxSize::TX_8X32 => 5,
            TxSize::TX_64X64 | TxSize::TX_32X64 | TxSize::TX_16X64 => 6,
        }
    }

    /// The height's place among the five square dimensions.
    pub fn height_index(self) -> (r: usize)
        ensures
            r == tx_height_log2(self) - 2,
    {
        self.height_log2() - 2
    }

    /// Width in minimum units.
    pub fn width_mi(self) -> (r: usize)
        ensures
            r == tx_width(self) / 4,
    {
        self.width() / 4
    }

    /// Height in minimum units.
    pub fn height_mi(self) -> (r: usize)
        ensures
            r == tx_height(self) / 4,
    {
        self.height() / 4
    }

    /// The number of pixels covered.
    pub fn area(self) -> (r: usize)
        ensures
            r == tx_width(self) * tx_height(self),
    {
        self.width() * self.height()
    }

    /// Log2 of the number of pixels covered.
    pub fn area_log2(self) -> (r: usize)
        ensures
            r == tx_width_log2(self) + tx_height_log2(self),
    {
        self.width_log2() + self.height_log2()
    }

    /// The block size with the same pixel dimensions.
    pub fn block_size(self) -> (r: BlockSize)
        ensures
            r == tx_block_size_spec(self),
            blk_width(r) == tx_width(self),
            blk_height(r) == tx_height(self),
    {
        match self {
            TxSize::TX_4X4 => BlockSize::BLOCK_4X4,
            TxSize::TX_8X8 => BlockSize::BLOCK_8X8,
            TxSize::TX_16X16 => BlockSize::BLOCK_16X16,
            TxSize::TX_32X32 => BlockSize::BLOCK_32X32,
            TxSize::TX_64X64 => BlockSize::BLOCK_64X64,
            TxSize::TX_4X8 => BlockSize::BLOCK_4X8,
            TxSize::TX_8X4 => BlockSize::BLOCK_8X4,
            TxSize::TX_8X16 => BlockSize::BLOCK_8X16,
            TxSize::TX_16X8 => BlockSize::BLOCK_16X8,
            TxSize::TX_16X32 => BlockSize::BLOCK_16X32,
            TxSize::TX_32X16 => BlockSize::BLOCK_32X16,
            TxSize::TX_32X64 => BlockSize::BLOCK_32X64,
            TxSize::TX_64X32 => BlockSize::BLOCK_64X32,
            TxSize::TX_4X16 => BlockSize::BLOCK_4X16,
            TxSize::TX_16X4 => BlockSize::BLOCK_16X4,
            TxSize::TX_8X32 => BlockSize::BLOCK_8X32,
            TxSize::TX_32X8 => BlockSize::BLOCK_32X8,
            TxSize::TX_16X64 => BlockSize::BLOCK_16X64,
            TxSize::TX_64X16 => BlockSize::BLOCK_64X16,
        }
    }

    /// The square transform of the smaller dimension.
    pub fn sqr(self) -> (r: TxSize)
        ensures
            r == tx_sqr_spec(self),
    {
        match self {
            TxSize::TX_4X4 | TxSize::TX_4X8 | TxSize::TX_8X4 | TxSize::TX_4X16
                | TxSize::TX_16X4 => TxSize::TX_4X4,
            TxSize::TX_8X8 | TxSize::TX_8X16 | TxSize::TX_16X8 | TxSize::TX_8X32
                | TxSize::TX_32X8 => TxSize::TX_8X8,
            TxSize::TX_16X16 | TxSize::TX_16X32 | TxSize::TX_32X16 | TxSize::TX_16X64
                | TxSize::TX_64X16 => TxSize::TX_16X16,
            TxSize::TX_32X32 | TxSize::TX_32X64 | TxSize::TX_64X32 => TxSize::TX_32X32,
            TxSize::TX_64X64 => TxSize::TX_64X64,
        }
    }

    /// The square transform of the larger dimension.
    pub fn sqr_up(self) -> (r: TxSize)
        ensures
            r == tx_sqr_up_spec(self),
    {
        match self {
            TxSize::TX_4X4 => TxSize::TX_4X4,
            TxSize::TX_8X8 | TxSize::TX_4X8 | TxSize::TX_8X4 => TxSize::TX_8X8,
            TxSize::TX_16X16 | TxSize::TX_8X16 | TxSize::TX_16X8 | TxSize::TX_4X16
                | TxSize::TX_16X4 => TxSize::TX_16X16,
            TxSize::TX_32X32 | TxSize::TX_16X32 | TxSize::TX_32X16 | TxSize::TX_8X32
                | TxSize::TX_32X8 => TxSize::TX_32X32,
            TxSize::TX_64X64 | TxSize::TX_32X64 | TxSize::TX_64X32 | TxSize::TX_16X64
                | TxSize::TX_64X16 => TxSize::TX_64X64,
        }
    }

    /// The transform size of the given pixel dimensions.
    ///
    /// Dimensions outside the enumerated set are a usage error and are
    /// excluded by the precondition.
    pub fn by_dims(w: usize, h: usize) -> (r: TxSize)
        requires
            tx_from_dims_spec(w as int, h as int).is_some(),
        ensures
            Some(r) == tx_from_dims_spec(w as int, h as int),
    {
        match (w, h) {
            (4, 4) => TxSize::TX_4X4,
            (8, 8) => TxSize::TX_8X8,
            (16, 16) => TxSize::TX_16X16,
            (32, 32) => TxSize::TX_32X32,
            (64, 64) => TxSize::TX_64X64,
            (4, 8) => TxSize::TX_4X8,
            (8, 4) => TxSize::TX_8X4,
            (8, 16) => TxSize::TX_8X16,
            (16, 8) => TxSize::TX_16X8,
            (16, 32) => TxSize::TX_16X32,
            (32, 16) => TxSize::TX_32X16,
            (32, 64) => TxSize::TX_32X64,
            (64, 32) => TxSize::TX_64X32,
            (4, 16) => TxSize::TX_4X16,
            (16, 4) => TxSize::TX_16X4,
            (8, 32) => TxSize::TX_8X32,
            (32, 8) => TxSize::TX_32X8,
            (16, 64) => TxSize::TX_16X64,
            _ => TxSize::TX_64X16,
        }
    }

    /// Whether width and height differ.
    pub fn is_rect(self) -> (r: bool)
        ensures
            r == (tx_width_log2(self) != tx_height_log2(self)),
    {
        self.width_log2() != self.height_log2()
    }
}

/// Squaring up is idempotent, and the square it returns covers the
/// transform it came from in both dimensions.
pub proof fn lemma_sqr_up_idempotent(t: TxSize)
    ensures
        tx_sqr_up_spec(tx_sqr_up_spec(t)) == tx_sqr_up_spec(t),
        tx_width(tx_sqr_up_spec(t)) == tx_height(tx_sqr_up_spec(t)),
        tx_width(tx_sqr_up_spec(t)) >= tx_width(t),
        tx_height(tx_sqr_up_spec(t)) >= tx_height(t),
{
}

} // verus!
