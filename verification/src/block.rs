//! Block sizes and partitions: the 22 block shapes of the coding tree,
//! the 10 ways a block can be split, and the lookup rules relating them.

use vstd::prelude::*;
use crate::transform::TxSize;
use crate::transform::tx_width;
use crate::transform::tx_height;

verus! {

pub const EXT_PARTITION_TYPES: usize = 10;

pub const NEWMV_MODE_CONTEXTS: usize = 7;

pub const GLOBALMV_MODE_CONTEXTS: usize = 2;

pub const REFMV_MODE_CONTEXTS: usize = 6;

pub const REFMV_OFFSET: usize = 4;

pub const GLOBALMV_OFFSET: usize = 3;

pub const NEWMV_CTX_MASK: usize = 7;

pub const GLOBALMV_CTX_MASK: usize = 1;

pub const REFMV_CTX_MASK: usize = 15;

/// How a square or near-square block is split into sub-blocks.
#[allow(non_camel_case_types)]
#[derive(Copy, Clone, Debug, PartialEq, Eq, Structural)]
pub enum PartitionType {
    PARTITION_NONE,
    PARTITION_HORZ,
    PARTITION_VERT,
    PARTITION_SPLIT,
    /// Horizontal split whose top half is split again.
    PARTITION_HORZ_A,
    /// Horizontal split whose bottom half is split again.
    PARTITION_HORZ_B,
    /// Vertical split whose left half is split again.
    PARTITION_VERT_A,
    /// Vertical split whose right half is split again.
    PARTITION_VERT_B,
    /// Four-way horizontal strip split.
    PARTITION_HORZ_4,
    /// Four-way vertical strip split.
    PARTITION_VERT_4,
    PARTITION_INVALID,
}

/// A block shape of the coding tree, a power-of-two rectangle between
/// 4 and 128 pixels on each side, plus the invalid marker.
#[allow(non_camel_case_types)]
#[derive(Copy, Clone, Debug, PartialEq, Eq, Structural)]
pub enum BlockSize {
    BLOCK_4X4,
    BLOCK_4X8,
    BLOCK_8X4,
    BLOCK_8X8,
    BLOCK_8X16,
    BLOCK_16X8,
    BLOCK_16X16,
    BLOCK_16X32,
    BLOCK_32X16,
    BLOCK_32X32,
    BLOCK_32X64,
    BLOCK_64X32,
    BLOCK_64X64,
    BLOCK_64X128,
    BLOCK_128X64,
    BLOCK_128X128,
    BLOCK_4X16,
    BLOCK_16X4,
    BLOCK_8X32,
    BLOCK_32X8,
    BLOCK_16X64,
    BLOCK_64X16,
    BLOCK_INVALID,
}

/// The place of a block size in the declaration order, on which the
/// legacy less-than classification rules rely.
pub open spec fn blk_ordinal(b: BlockSize) -> int {
    match b {
        BlockSize::BLOCK_4X4 => 0,
        BlockSize::BLOCK_4X8 => 1,
        BlockSize::BLOCK_8X4 => 2,
        BlockSize::BLOCK_8X8 => 3,
        BlockSize::BLOCK_8X16 => 4,
        BlockSize::BLOCK_16X8 => 5,
        BlockSize::BLOCK_16X16 => 6,
        BlockSize::BLOCK_16X32 => 7,
        BlockSize::BLOCK_32X16 => 8,
        BlockSize::BLOCK_32X32 => 9,
        BlockSize::BLOCK_32X64 => 10,
        BlockSize::BLOCK_64X32 => 11,
        BlockSize::BLOCK_64X64 => 12,
        BlockSize::BLOCK_64X128 => 13,
        BlockSize::BLOCK_128X64 => 14,
        BlockSize::BLOCK_128X128 => 15,
        BlockSize::BLOCK_4X16 => 16,
        BlockSize::BLOCK_16X4 => 17,
        BlockSize::BLOCK_8X32 => 18,
        BlockSize::BLOCK_32X8 => 19,
        BlockSize::BLOCK_16X64 => 20,
        BlockSize::BLOCK_64X16 => 21,
        BlockSize::BLOCK_INVALID => 22,
    }
}

/// A block's width in pixels.
pub open spec fn blk_width(b: BlockSize) -> int
    recommends
        b != BlockSize::BLOCK_INVALID,
{
    match b {
        BlockSize::BLOCK_4X4 | BlockSize::BLOCK_4X8 | BlockSize::BLOCK_4X16 => 4,
        BlockSize::BLOCK_8X4 | BlockSize::BLOCK_8X8 | BlockSize::BLOCK_8X16
            | BlockSize::BLOCK_8X32 => 8,
        BlockSize::BLOCK_16X8 | BlockSize::BLOCK_16X16 | BlockSize::BLOCK_16X32
            | BlockSize::BLOCK_16X4 | BlockSize::BLOCK_16X64 => 16,
        BlockSize::BLOCK_32X16 | BlockSize::BLOCK_32X32 | BlockSize::BLOCK_32X64
            | BlockSize::BLOCK_32X8 => 32,
        BlockSize::BLOCK_64X32 | BlockSize::BLOCK_64X64 | BlockSize::BLOCK_64X128
            | BlockSize::BLOCK_64X16 => 64,
        BlockSize::BLOCK_128X64 | BlockSize::BLOCK_128X128 => 128,
        BlockSize::BLOCK_INVALID => 0,
    }
}

/// A block's height in pixels.
pub open spec fn blk_height(b: BlockSize) -> int
    recommends
        b != BlockSize::BLOCK_INVALID,
{
    match b {
        BlockSize::BLOCK_4X4 | BlockSize::BLOCK_8X4 | BlockSize::BLOCK_16X4 => 4,
        BlockSize::BLOCK_4X8 | BlockSize::BLOCK_8X8 | BlockSize::BLOCK_16X8
            | BlockSize::BLOCK_32X8 => 8,
        BlockSize::BLOCK_8X16 | BlockSize::BLOCK_16X16 | BlockSize::BLOCK_32X16
            | BlockSize::BLOCK_4X16 | BlockSize::BLOCK_64X16 => 16,
        BlockSize::BLOCK_16X32 | BlockSize::BLOCK_32X32 | BlockSize::BLOCK_64X32
            | BlockSize::BLOCK_8X32 => 32,
        BlockSize::BLOCK_32X64 | BlockSize::BLOCK_64X64 | BlockSize::BLOCK_128X64
            | BlockSize::BLOCK_16X64 => 64,
        BlockSize::BLOCK_64X128 | BlockSize::BLOCK_128X128 => 128,
        BlockSize::BLOCK_INVALID => 0,
    }
}

/// Log2 of a block's width in pixels.
pub open spec fn blk_width_log2(b: BlockSize) -> int
    recommends
        b != BlockSize::BLOCK_INVALID,
{
    match b {
        BlockSize::BLOCK_4X4 | BlockSize::BLOCK_4X8 | BlockSize::BLOCK_4X16 => 2,
        BlockSize::BLOCK_8X4 | BlockSize::BLOCK_8X8 | BlockSize::BLOCK_8X16
            | BlockSize::BLOCK_8X32 => 3,
        BlockSize::BLOCK_16X8 | BlockSize::BLOCK_16X16 | BlockSize::BLOCK_16X32
            | BlockSize::BLOCK_16X4 | BlockSize::BLOCK_16X64 => 4,
        BlockSize::BLOCK_32X16 | BlockSize::BLOCK_32X32 | BlockSize::BLOCK_32X64
            | BlockSize::BLOCK_32X8 => 5,
        BlockSize::BLOCK_64X32 | BlockSize::BLOCK_64X64 | BlockSize::BLOCK_64X128
            | BlockSize::BLOCK_64X16 => 6,
        BlockSize::BLOCK_128X64 | BlockSize::BLOCK_128X128 => 7,
        BlockSize::BLOCK_INVALID => 0,
    }
}

/// Log2 of a block's height in pixels.
pub open spec fn blk_height_log2(b: BlockSize) -> int
    recommends
        b != BlockSize::BLOCK_INVALID,
{
    match b {
        BlockSize::BLOCK_4X4 | BlockSize::BLOCK_8X4 | BlockSize::BLOCK_16X4 => 2,
        BlockSize::BLOCK_4X8 | BlockSize::BLOCK_8X8 | BlockSize::BLOCK_16X8
            | BlockSize::BLOCK_32X8 => 3,
        BlockSize::BLOCK_8X16 | BlockSize::BLOCK_16X16 | BlockSize::BLOCK_32X16
            | BlockSize::BLOCK_4X16 | BlockSize::BLOCK_64X16 => 4,
        BlockSize::BLOCK_16X32 | BlockSize::BLOCK_32X32 | BlockSize::BLOCK_64X32
            | BlockSize::BLOCK_8X32 => 5,
        BlockSize::BLOCK_32X64 | BlockSize::BLOCK_64X64 | BlockSize::BLOCK_128X64
            | BlockSize::BLOCK_16X64 => 6,
        BlockSize::BLOCK_64X128 | BlockSize::BLOCK_128X128 => 7,
        BlockSize::BLOCK_INVALID => 0,
    }
}

/// The block size of given pixel dimensions, or the invalid marker for a
/// pair outside the enumerated set.
pub open spec fn blk_from_dims_spec(w: int, h: int) -> BlockSize {
    if w == 4 && h == 4 {
        BlockSize::BLOCK_4X4
    } else if w == 4 && h == 8 {
        BlockSize::BLOCK_4X8
    } else if w == 8 && h == 4 {
        BlockSize::BLOCK_8X4
    } else if w == 8 && h == 8 {
        BlockSize::BLOCK_8X8
    } else if w == 8 && h == 16 {
        BlockSize::BLOCK_8X16
    } else if w == 16 && h == 8 {
        BlockSize::BLOCK_16X8
    } else if w == 16 && h == 16 {
        BlockSize::BLOCK_16X16
    } else if w == 16 && h == 32 {
        BlockSize::BLOCK_16X32
    } else if w == 32 && h == 16 {
        BlockSize::BLOCK_32X16
    } else if w == 32 && h == 32 {
        BlockSize::BLOCK_32X32
    } else if w == 32 && h == 64 {
        BlockSize::BLOCK_32X64
    } else if w == 64 && h == 32 {
        BlockSize::BLOCK_64X32
    } else if w == 64 && h == 64 {
        BlockSize::BLOCK_64X64
    } else if w == 64 && h == 128 {
        BlockSize::BLOCK_64X128
    } else if w == 128 && h == 64 {
        BlockSize::BLOCK_128X64
    } else if w == 128 && h == 128 {
        BlockSize::BLOCK_128X128
    } else if w == 4 && h == 16 {
        BlockSize::BLOCK_4X16
    } else if w == 16 && h == 4 {
        BlockSize::BLOCK_16X4
    } else if w == 8 && h == 32 {
        BlockSize::BLOCK_8X32
    } else if w == 32 && h == 8 {
        BlockSize::BLOCK_32X8
    } else if w == 16 && h == 64 {
        BlockSize::BLOCK_16X64
    } else if w == 64 && h == 16 {
        BlockSize::BLOCK_64X16
    } else {
        BlockSize::BLOCK_INVALID
    }
}

/// The sub-block size a partition produces from a block, or the invalid
/// marker where that partition is not legal for that block.
pub open spec fn subsize_spec(p: PartitionType, b: BlockSize) -> BlockSize
    recommends
        p != PartitionType::PARTITION_INVALID,
        b != BlockSize::BLOCK_INVALID,
{
    match p {
        PartitionType::PARTITION_NONE => b,
        PartitionType::PARTITION_HORZ | PartitionType::PARTITION_HORZ_A
            | PartitionType::PARTITION_HORZ_B => match b {
            BlockSize::BLOCK_8X8 => BlockSize::BLOCK_8X4,
            BlockSize::BLOCK_16X16 => BlockSize::BLOCK_16X8,
            BlockSize::BLOCK_32X32 => BlockSize::BLOCK_32X16,
            BlockSize::BLOCK_64X64 => BlockSize::BLOCK_64X32,
            BlockSize::BLOCK_128X128 => BlockSize::BLOCK_128X64,
            _ => BlockSize::BLOCK_INVALID,
        },
        PartitionType::PARTITION_VERT | PartitionType::PARTITION_VERT_A
            | PartitionType::PARTITION_VERT_B => match b {
            BlockSize::BLOCK_8X8 => BlockSize::BLOCK_4X8,
            BlockSize::BLOCK_16X16 => BlockSize::BLOCK_8X16,
            BlockSize::BLOCK_32X32 => BlockSize::BLOCK_16X32,
            BlockSize::BLOCK_64X64 => BlockSize::BLOCK_32X64,
            BlockSize::BLOCK_128X128 => BlockSize::BLOCK_64X128,
            _ => BlockSize::BLOCK_INVALID,
        },
        PartitionType::PARTITION_SPLIT => match b {
            BlockSize::BLOCK_8X8 => BlockSize::BLOCK_4X4,
            BlockSize::BLOCK_16X16 => BlockSize::BLOCK_8X8,
            BlockSize::BLOCK_32X32 => BlockSize::BLOCK_16X16,
            BlockSize::BLOCK_64X64 => BlockSize::BLOCK_32X32,
            BlockSize::BLOCK_128X128 => BlockSize::BLOCK_64X64,
            _ => BlockSize::BLOCK_INVALID,
        },
        PartitionType::PARTITION_HORZ_4 => match b {
            BlockSize::BLOCK_16X16 => BlockSize::BLOCK_16X4,
            BlockSize::BLOCK_32X32 => BlockSize::BLOCK_32X8,
            BlockSize::BLOCK_64X64 => BlockSize::BLOCK_64X16,
            _ => BlockSize::BLOCK_INVALID,
        },
        PartitionType::PARTITION_VERT_4 => match b {
            BlockSize::BLOCK_16X16 => BlockSize::BLOCK_4X16,
            BlockSize::BLOCK_32X32 => BlockSize::BLOCK_8X32,
            BlockSize::BLOCK_64X64 => BlockSize::BLOCK_16X64,
            _ => BlockSize::BLOCK_INVALID,
        },
        PartitionType::PARTITION_INVALID => BlockSize::BLOCK_INVALID,
    }
}

/// Whether a block admits rectangular transforms.
pub open spec fn rect_tx_allowed_spec(b: BlockSize) -> bool {
    match b {
        BlockSize::BLOCK_4X8 | BlockSize::BLOCK_8X4 | BlockSize::BLOCK_8X16
            | BlockSize::BLOCK_16X8 | BlockSize::BLOCK_16X32 | BlockSize::BLOCK_32X16
            | BlockSize::BLOCK_32X64 | BlockSize::BLOCK_64X32 | BlockSize::BLOCK_4X16
            | BlockSize::BLOCK_16X4 | BlockSize::BLOCK_8X32 | BlockSize::BLOCK_32X8
            | BlockSize::BLOCK_16X64 | BlockSize::BLOCK_64X16 => true,
        _ => false,
    }
}

/// The block size as seen by a chroma plane with the given subsampling,
/// or the invalid marker where the subsampled shape is not enumerated.
pub open spec fn plane_block_spec(b: BlockSize, xdec: int, ydec: int) -> BlockSize
    recommends
        b != BlockSize::BLOCK_INVALID,
        0 <= xdec <= 1,
        0 <= ydec <= 1,
{
    if xdec == 0 && ydec == 0 {
        b
    } else {
        blk_from_dims_spec(
            if xdec == 1 && blk_width(b) > 4 {
                blk_width(b) / 2
            } else {
                blk_width(b)
            },
            if ydec == 1 && blk_height(b) > 4 {
                blk_height(b) / 2
            } else {
                blk_height(b)
            },
        )
    }
}

/// The largest transform, rectangular shapes allowed, that fits a block:
/// each dimension is the block's own capped at 64 pixels.
pub open spec fn max_rect_tx_spec(b: BlockSize) -> TxSize
    recommends
        b != BlockSize::BLOCK_INVALID,
{
    match b {
        BlockSize::BLOCK_4X4 => TxSize::TX_4X4,
        BlockSize::BLOCK_4X8 => TxSize::TX_4X8,
        BlockSize::BLOCK_8X4 => TxSize::TX_8X4,
        BlockSize::BLOCK_8X8 => TxSize::TX_8X8,
        BlockSize::BLOCK_8X16 => TxSize::TX_8X16,
        BlockSize::BLOCK_16X8 => TxSize::TX_16X8,
        BlockSize::BLOCK_16X16 => TxSize::TX_16X16,
        BlockSize::BLOCK_16X32 => TxSize::TX_16X32,
        BlockSize::BLOCK_32X16 => TxSize::TX_32X16,
        BlockSize::BLOCK_32X32 => TxSize::TX_32X32,
        BlockSize::BLOCK_32X64 => TxSize::TX_32X64,
        BlockSize::BLOCK_64X32 => TxSize::TX_64X32,
        BlockSize::BLOCK_64X64 | BlockSize::BLOCK_64X128 | BlockSize::BLOCK_128X64
            | BlockSize::BLOCK_128X128 => TxSize::TX_64X64,
        BlockSize::BLOCK_4X16 => TxSize::TX_4X16,
        BlockSize::BLOCK_16X4 => TxSize::TX_16X4,
        BlockSize::BLOCK_8X32 => TxSize::TX_8X32,
        BlockSize::BLOCK_32X8 => TxSize::TX_32X8,
        BlockSize::BLOCK_16X64 => TxSize::TX_16X64,
        BlockSize::BLOCK_64X16 => TxSize::TX_64X16,
        BlockSize::BLOCK_INVALID => TxSize::TX_4X4,
    }
}

/// The largest transform actually codeable: dimensions above 32 pixels
/// are halved toward the 32-pixel square.
pub open spec fn coded_tx_spec(t: TxSize) -> TxSize {
    match t {
        TxSize::TX_64X64 | TxSize::TX_64X32 | TxSize::TX_32X64 => TxSize::TX_32X32,
        TxSize::TX_64X16 => TxSize::TX_32X16,
        TxSize::TX_16X64 => TxSize::TX_16X32,
        _ => t,
    }
}

/// The block size as seen by a plane with the given subsampling.
pub fn get_plane_block_size(bsize: BlockSize, xdec: usize, ydec: usize) -> (r: BlockSize)
    requires
        bsize != BlockSize::BLOCK_INVALID,
        xdec <= 1,
        ydec <= 1,
    ensures
        r == plane_block_spec(bsize, xdec as int, ydec as int),
{
    if xdec == 0 && ydec == 0 {
        bsize
    } else {
        let bw = bsize.width();
        let bh = bsize.height();
        let w = if xdec == 1 && bw > 4 {
            bw / 2
        } else {
            bw
        };
        let h = if ydec == 1 && bh > 4 {
            bh / 2
        } else {
            bh
        };
        block_from_dims(w, h)
    }
}

/// The block size of given pixel dimensions, with the invalid marker for
/// a pair outside the enumerated set.
fn block_from_dims(w: usize, h: usize) -> (r: BlockSize)
    ensures
        r == blk_from_dims_spec(w as int, h as int),
{
    if w == 4 && h == 4 {
        BlockSize::BLOCK_4X4
    } else if w == 4 && h == 8 {
        BlockSize::BLOCK_4X8
    } else if w == 8 && h == 4 {
        BlockSize::BLOCK_8X4
    } else if w == 8 && h == 8 {
        BlockSize::BLOCK_8X8
    } else if w == 8 && h == 16 {
        BlockSize::BLOCK_8X16
    } else if w == 16 && h == 8 {
        BlockSize::BLOCK_16X8
    } else if w == 16 && h == 16 {
        BlockSize::BLOCK_16X16
    } else if w == 16 && h == 32 {
        BlockSize::BLOCK_16X32
    } else if w == 32 && h == 16 {
        BlockSize::BLOCK_32X16
    } else if w == 32 && h == 32 {
        BlockSize::BLOCK_32X32
    } else if w == 32 && h == 64 {
        BlockSize::BLOCK_32X64
    } else if w == 64 && h == 32 {
        BlockSize::BLOCK_64X32
    } else if w == 64 && h == 64 {
        BlockSize::BLOCK_64X64
    } else if w == 64 && h == 128 {
        BlockSize::BLOCK_64X128
    } else if w == 128 && h == 64 {
        BlockSize::BLOCK_128X64
    } else if w == 128 && h == 128 {
        BlockSize::BLOCK_128X128
    } else if w == 4 && h == 16 {
        BlockSize::BLOCK_4X16
    } else if w == 16 && h == 4 {
        BlockSize::BLOCK_16X4
    } else if w == 8 && h == 32 {
        BlockSize::BLOCK_8X32
    } else if w == 32 && h == 8 {
        BlockSize::BLOCK_32X8
    } else if w == 16 && h == 64 {
        BlockSize::BLOCK_16X64
    } else if w == 64 && h == 16 {
        BlockSize::BLOCK_64X16
    } else {
        BlockSize::BLOCK_INVALID
    }
}

impl BlockSize {
    /// The number of enumerated block shapes.
    pub const BLOCK_SIZES_ALL: usize = 22;

    /// The block size of given pixel dimensions.
    ///
    /// A pair outside the enumerated set is a usage error and is excluded
    /// by the precondition.
    pub fn from_width_and_height(w: usize, h: usize) -> (r: BlockSize)
        requires
            blk_from_dims_spec(w as int, h as int) != BlockSize::BLOCK_INVALID,
        ensures
            r == blk_from_dims_spec(w as int, h as int),
    {
        block_from_dims(w, h)
    }

    /// Whether chroma-from-luma prediction is allowed for this block:
    /// only blocks no larger than the 32-pixel square, by declaration order.
    pub fn cfl_allowed(self) -> (r: bool)
        ensures
            r == (blk_ordinal(self) <= blk_ordinal(BlockSize::BLOCK_32X32)),
    {
        match self {
            BlockSize::BLOCK_4X4 | BlockSize::BLOCK_4X8 | BlockSize::BLOCK_8X4
                | BlockSize::BLOCK_8X8 | BlockSize::BLOCK_8X16 | BlockSize::BLOCK_16X8
                | BlockSize::BLOCK_16X16 | BlockSize::BLOCK_16X32 | BlockSize::BLOCK_32X16
                | BlockSize::BLOCK_32X32 => true,
            _ => false,
        }
    }

    /// Width in pixels.
    pub fn width(self) -> (r: usize)
        requires
            self != BlockSize::BLOCK_INVALID,
        ensures
            r == blk_width(self),
    {
        match self {
            BlockSize::BLOCK_4X4 | BlockSize::BLOCK_4X8 | BlockSize::BLOCK_4X16 => 4,
            BlockSize::BLOCK_8X4 | BlockSize::BLOCK_8X8 | BlockSize::BLOCK_8X16
                | BlockSize::BLOCK_8X32 => 8,
            BlockSize::BLOCK_16X8 | BlockSize::BLOCK_16X16 | BlockSize::BLOCK_16X32
                | BlockSize::BLOCK_16X4 | BlockSize::BLOCK_16X64 => 16,
            BlockSize::BLOCK_32X16 | BlockSize::BLOCK_32X32 | BlockSize::BLOCK_32X64
                | BlockSize::BLOCK_32X8 => 32,
            BlockSize::BLOCK_64X32 | BlockSize::BLOCK_64X64 | BlockSize::BLOCK_64X128
                | BlockSize::BLOCK_64X16 => 64,
            _ => 128,
        }
    }

    /// Log2 of the width in pixels.
    pub fn width_log2(self) -> (r: usize)
        requires
            self != BlockSize::BLOCK_INVALID,
        ensures
            r == blk_width_log2(self),
    {
        match self {
            BlockSize::BLOCK_4X4 | BlockSize::BLOCK_4X8 | BlockSize::BLOCK_4X16 => 2,
            BlockSize::BLOCK_8X4 | BlockSize::BLOCK_8X8 | BlockSize::BLOCK_8X16
                | BlockSize::BLOCK_8X32 => 3,
            BlockSize::BLOCK_16X8 | BlockSize::BLOCK_16X16 | BlockSize::BLOCK_16X32
                | BlockSize::BLOCK_16X4 | BlockSize::BLOCK_16X64 => 4,
            BlockSize::BLOCK_32X16 | BlockSize::BLOCK_32X32 | BlockSize::BLOCK_32X64
                | BlockSize::BLOCK_32X8 => 5,
            BlockSize::BLOCK_64X32 | BlockSize::BLOCK_64X64 | BlockSize::BLOCK_64X128
                | BlockSize::BLOCK_64X16 => 6,
            _ => 7,
        }
    }

    /// Width in minimum units.
    pub fn width_mi(self) -> (r: usize)
        requires
            self != BlockSize::BLOCK_INVALID,
        ensures
            r == blk_width(self) / 4,
    {
        self.width() / 4
    }

    /// Height in pixels.
    pub fn height(self) -> (r: usize)
        requires
            self != BlockSize::BLOCK_INVALID,
        ensures
            r == blk_height(self),
    {
        match self {
            BlockSize::BLOCK_4X4 | BlockSize::BLOCK_8X4 | BlockSize::BLOCK_16X4 => 4,
            BlockSize::BLOCK_4X8 | BlockSize::BLOCK_8X8 | BlockSize::BLOCK_16X8
                | BlockSize::BLOCK_32X8 => 8,
            BlockSize::BLOCK_8X16 | BlockSize::BLOCK_16X16 | BlockSize::BLOCK_32X16
                | BlockSize::BLOCK_4X16 | BlockSize::BLOCK_64X16 => 16,
            BlockSize::BLOCK_16X32 | BlockSize::BLOCK_32X32 | BlockSize::BLOCK_64X32
                | BlockSize::BLOCK_8X32 => 32,
            BlockSize::BLOCK_32X64 | BlockSize::BLOCK_64X64 | BlockSize::BLOCK_128X64
                | BlockSize::BLOCK_16X64 => 64,
            _ => 128,
        }
    }

    /// Log2 of the height in pixels.
    pub fn height_log2(self) -> (r: usize)
        requires
            self != BlockSize::BLOCK_INVALID,
        ensures
            r == blk_height_log2(self),
    {
        match self {
            BlockSize::BLOCK_4X4 | BlockSize::BLOCK_8X4 | BlockSize::BLOCK_16X4 => 2,
            BlockSize::BLOCK_4X8 | BlockSize::BLOCK_8X8 | BlockSize::BLOCK_16X8
                | BlockSize::BLOCK_32X8 => 3,
            BlockSize::BLOCK_8X16 | BlockSize::BLOCK_16X16 | BlockSize::BLOCK_32X16
                | BlockSize::BLOCK_4X16 | BlockSize::BLOCK_64X16 => 4,
            BlockSize::BLOCK_16X32 | BlockSize::BLOCK_32X32 | BlockSize::BLOCK_64X32
                | BlockSize::BLOCK_8X32 => 5,
            BlockSize::BLOCK_32X64 | BlockSize::BLOCK_64X64 | BlockSize::BLOCK_128X64
                | BlockSize::BLOCK_16X64 => 6,
            _ => 7,
        }
    }

    /// Height in minimum units.
    pub fn height_mi(self) -> (r: usize)
        requires
            self != BlockSize::BLOCK_INVALID,
        ensures
            r == blk_height(self) / 4,
    {
        self.height() / 4
    }

    /// The transform size a whole block of this shape takes, capped at
    /// the 64-pixel square for the largest blocks.
    pub fn tx_size(self) -> (r: TxSize)
        requires
            self != BlockSize::BLOCK_INVALID,
        ensures
            r == max_rect_tx_spec(self),
    {
        match self {
            BlockSize::BLOCK_4X4 => TxSize::TX_4X4,
            BlockSize::BLOCK_4X8 => TxSize::TX_4X8,
            BlockSize::BLOCK_8X4 => TxSize::TX_8X4,
            BlockSize::BLOCK_8X8 => TxSize::TX_8X8,
            BlockSize::BLOCK_8X16 => TxSize::TX_8X16,
            BlockSize::BLOCK_16X8 => TxSize::TX_16X8,
            BlockSize::BLOCK_16X16 => TxSize::TX_16X16,
            BlockSize::BLOCK_16X32 => TxSize::TX_16X32,
            BlockSize::BLOCK_32X16 => TxSize::TX_32X16,
            BlockSize::BLOCK_32X32 => TxSize::TX_32X32,
            BlockSize::BLOCK_32X64 => TxSize::TX_32X64,
            BlockSize::BLOCK_64X32 => TxSize::TX_64X32,
            BlockSize::BLOCK_4X16 => TxSize::TX_4X16,
            BlockSize::BLOCK_16X4 => TxSize::TX_16X4,
            BlockSize::BLOCK_8X32 => TxSize::TX_8X32,
            BlockSize::BLOCK_32X8 => TxSize::TX_32X8,
            BlockSize::BLOCK_16X64 => TxSize::TX_16X64,
            BlockSize::BLOCK_64X16 => TxSize::TX_64X16,
            _ => TxSize::TX_64X64,
        }
    }

    /// The largest transform a chroma plane of this block can code:
    /// the plane-adjusted block's largest transform, coerced to the
    /// largest codeable size.
    pub fn largest_uv_tx_size(self, xdec: usize, ydec: usize) -> (r: TxSize)
        requires
            self != BlockSize::BLOCK_INVALID,
            xdec <= 1,
            ydec <= 1,
            plane_block_spec(self, xdec as int, ydec as int) != BlockSize::BLOCK_INVALID,
        ensures
            r == coded_tx_spec(max_rect_tx_spec(plane_block_spec(self, xdec as int, ydec as int))),
    {
        let plane_bsize = get_plane_block_size(self, xdec, ydec);
        let uv_tx = max_rect_tx_size(plane_bsize);
        coded_tx_size(uv_tx)
    }

    /// Whether width and height are equal.
    pub fn is_sqr(self) -> (r: bool)
        requires
            self != BlockSize::BLOCK_INVALID,
        ensures
            r == (blk_width_log2(self) == blk_height_log2(self)),
    {
        self.width_log2() == self.height_log2()
    }

    /// Whether a subsampled plane sees this block at the 4-pixel minimum
    /// in a subsampled dimension.
    pub fn is_sub8x8(self, xdec: usize, ydec: usize) -> (r: bool)
        requires
            self != BlockSize::BLOCK_INVALID,
        ensures
            r == (xdec != 0 && blk_width_log2(self) == 2 || ydec != 0 && blk_height_log2(self)
                == 2),
    {
        xdec != 0 && self.width_log2() == 2 || ydec != 0 && self.height_log2() == 2
    }

    /// The offset a sub-8x8 block must step back by in each subsampled
    /// dimension, in minimum units.
    pub fn sub8x8_offset(self, xdec: usize, ydec: usize) -> (r: (isize, isize))
        requires
            self != BlockSize::BLOCK_INVALID,
        ensures
            r.0 == if xdec != 0 && blk_width_log2(self) == 2 {
                -1int
            } else {
                0int
            },
            r.1 == if ydec != 0 && blk_height_log2(self) == 2 {
                -1int
            } else {
                0int
            },
    {
        let offset_x: isize = if xdec != 0 && self.width_log2() == 2 {
            -1
        } else {
            0
        };
        let offset_y: isize = if ydec != 0 && self.height_log2() == 2 {
            -1
        } else {
            0
        };
        (offset_x, offset_y)
    }

    /// The strict partial order on block shapes: strictly larger in one
    /// dimension and no smaller in the other.
    pub fn greater_than(self, other: BlockSize) -> (r: bool)
        requires
            self != BlockSize::BLOCK_INVALID,
            other != BlockSize::BLOCK_INVALID,
        ensures
            r == ((blk_width(self) > blk_width(other) && blk_height(self) >= blk_height(other))
                || (blk_width(self) >= blk_width(other) && blk_height(self) > blk_height(
                other,
            ))),
    {
        (self.width() > other.width() && self.height() >= other.height()) || (self.width()
            >= other.width() && self.height() > other.height())
    }

    /// The partial order of `greater_than`, or equal dimensions.
    pub fn gte(self, other: BlockSize) -> (r: bool)
        requires
            self != BlockSize::BLOCK_INVALID,
            other != BlockSize::BLOCK_INVALID,
        ensures
            r == ((blk_width(self) > blk_width(other) && blk_height(self) >= blk_height(other))
                || (blk_width(self) >= blk_width(other) && blk_height(self) > blk_height(other))
                || (blk_width(self) == blk_width(other) && blk_height(self) == blk_height(
                other,
            ))),
    {
        self.greater_than(other) || (self.width() == other.width() && self.height()
            == other.height())
    }

    /// The sub-block size a partition produces from this block, with the
    /// invalid marker for an illegal combination.
    pub fn subsize(self, partition: PartitionType) -> (r: BlockSize)
        requires
            self != BlockSize::BLOCK_INVALID,
            partition != PartitionType::PARTITION_INVALID,
        ensures
            r == subsize_spec(partition, self),
    {
        match partition {
            PartitionType::PARTITION_NONE => self,
            PartitionType::PARTITION_HORZ | PartitionType::PARTITION_HORZ_A
                | PartitionType::PARTITION_HORZ_B => match self {
                BlockSize::BLOCK_8X8 => BlockSize::BLOCK_8X4,
                BlockSize::BLOCK_16X16 => BlockSize::BLOCK_16X8,
                BlockSize::BLOCK_32X32 => BlockSize::BLOCK_32X16,
                BlockSize::BLOCK_64X64 => BlockSize::BLOCK_64X32,
                BlockSize::BLOCK_128X128 => BlockSize::BLOCK_128X64,
                _ => BlockSize::BLOCK_INVALID,
            },
            PartitionType::PARTITION_VERT | PartitionType::PARTITION_VERT_A
                | PartitionType::PARTITION_VERT_B => match self {
                BlockSize::BLOCK_8X8 => BlockSize::BLOCK_4X8,
                BlockSize::BLOCK_16X16 => BlockSize::BLOCK_8X16,
                BlockSize::BLOCK_32X32 => BlockSize::BLOCK_16X32,
                BlockSize::BLOCK_64X64 => BlockSize::BLOCK_32X64,
                BlockSize::BLOCK_128X128 => BlockSize::BLOCK_64X128,
                _ => BlockSize::BLOCK_INVALID,
            },
            PartitionType::PARTITION_SPLIT => match self {
                BlockSize::BLOCK_8X8 => BlockSize::BLOCK_4X4,
                BlockSize::BLOCK_16X16 => BlockSize::BLOCK_8X8,
                BlockSize::BLOCK_32X32 => BlockSize::BLOCK_16X16,
                BlockSize::BLOCK_64X64 => BlockSize::BLOCK_32X32,
                BlockSize::BLOCK_128X128 => BlockSize::BLOCK_64X64,
                _ => BlockSize::BLOCK_INVALID,
            },
            PartitionType::PARTITION_HORZ_4 => match self {
                BlockSize::BLOCK_16X16 => BlockSize::BLOCK_16X4,
                BlockSize::BLOCK_32X32 => BlockSize::BLOCK_32X8,
                BlockSize::BLOCK_64X64 => BlockSize::BLOCK_64X16,
                _ => BlockSize::BLOCK_INVALID,
            },
            PartitionType::PARTITION_VERT_4 => match self {
                BlockSize::BLOCK_16X16 => BlockSize::BLOCK_4X16,
                BlockSize::BLOCK_32X32 => BlockSize::BLOCK_8X32,
                BlockSize::BLOCK_64X64 => BlockSize::BLOCK_16X64,
                _ => BlockSize::BLOCK_INVALID,
            },
            PartitionType::PARTITION_INVALID => BlockSize::BLOCK_INVALID,
        }
    }

    /// Whether this block admits rectangular transforms.
    pub fn is_rect_tx_allowed(self) -> (r: bool)
        requires
            self != BlockSize::BLOCK_INVALID,
        ensures
            r == rect_tx_allowed_spec(self),
    {
        match self {
            BlockSize::BLOCK_4X8 | BlockSize::BLOCK_8X4 | BlockSize::BLOCK_8X16
                | BlockSize::BLOCK_16X8 | BlockSize::BLOCK_16X32 | BlockSize::BLOCK_32X16
                | BlockSize::BLOCK_32X64 | BlockSize::BLOCK_64X32 | BlockSize::BLOCK_4X16
                | BlockSize::BLOCK_16X4 | BlockSize::BLOCK_8X32 | BlockSize::BLOCK_32X8
                | BlockSize::BLOCK_16X64 | BlockSize::BLOCK_64X16 => true,
            _ => false,
        }
    }
}

/// The largest transform, rectangular shapes allowed, that fits a block.
pub fn max_rect_tx_size(b: BlockSize) -> (r: TxSize)
    requires
        b != BlockSize::BLOCK_INVALID,
    ensures
        r == max_rect_tx_spec(b),
{
    b.tx_size()
}

/// The largest transform actually codeable for a wanted transform size.
pub fn coded_tx_size(t: TxSize) -> (r: TxSize)
    ensures
        r == coded_tx_spec(t),
{
    match t {
        TxSize::TX_64X64 | TxSize::TX_64X32 | TxSize::TX_32X64 => TxSize::TX_32X32,
        TxSize::TX_64X16 => TxSize::TX_32X16,
        TxSize::TX_16X64 => TxSize::TX_16X32,
        _ => t,
    }
}

/// Deriving a block size from its own dimensions gives the block back:
/// the mapping between shapes and (width, height) pairs is bijective
/// over the enumerated set.
pub proof fn lemma_block_dims_round_trip(b: BlockSize)
    requires
        b != BlockSize::BLOCK_INVALID,
    ensures
        blk_from_dims_spec(blk_width(b), blk_height(b)) == b,
{
}

/// Every legal subsize covers the expected fraction of its parent: the
/// whole for no split, half for the two-way and the A/B splits, and a
/// quarter for the four-way and the strip splits; every other
/// combination yields the invalid marker.
pub proof fn lemma_subsize_fraction(p: PartitionType, b: BlockSize)
    requires
        p != PartitionType::PARTITION_INVALID,
        b != BlockSize::BLOCK_INVALID,
    ensures
        subsize_spec(p, b) != BlockSize::BLOCK_INVALID ==> ({
            let s = subsize_spec(p, b);
            let parent_area = blk_width(b) * blk_height(b);
            let sub_area = blk_width(s) * blk_height(s);
            match p {
                PartitionType::PARTITION_NONE => sub_area == parent_area,
                PartitionType::PARTITION_HORZ | PartitionType::PARTITION_VERT
                    | PartitionType::PARTITION_HORZ_A | PartitionType::PARTITION_HORZ_B
                    | PartitionType::PARTITION_VERT_A | PartitionType::PARTITION_VERT_B => 2
                    * sub_area == parent_area,
                PartitionType::PARTITION_SPLIT | PartitionType::PARTITION_HORZ_4
                    | PartitionType::PARTITION_VERT_4 => 4 * sub_area == parent_area,
                PartitionType::PARTITION_INVALID => false,
            }
        }),
{
}

} // verus!
