//! Neighbor availability inside one superblock.
//!
//! `has_tr` and `has_bl` decide whether the block diagonally above-right
//! (or below-left) of a target block has already been reconstructed in
//! decode order and may be read for edge extension. Both work on bitmask
//! arithmetic over the block's position masked to one 64x64 superblock,
//! in 4-pixel units.

use vstd::prelude::*;
use crate::block::BlockSize;
use crate::block::blk_width;
use crate::block::blk_height;
use crate::geom::LOCAL_BLOCK_MASK;
use crate::geom::SB_UNITS;

verus! {

/// A block position in minimum (4-pixel) units.
#[derive(Copy, Clone, Debug, PartialEq, Eq, Structural)]
pub struct BlockOffset {
    pub x: usize,
    pub y: usize,
}

/// The scan of `has_tr` over progressively larger enclosing blocks:
/// availability is lost as soon as a visited size has both position bits
/// set one doubling up; the scan stops at the first clear column bit.
pub open spec fn tr_scan(mask_col: usize, mask_row: usize, bs: usize, acc: bool) -> bool
    decreases (if bs < 16 {
        16int - bs
    } else {
        0int
    }),
{
    if bs < 1 || bs >= 16 {
        acc
    } else if mask_col & bs != 0 {
        if (mask_col & ((2 * bs) as usize) != 0) && (mask_row & ((2 * bs) as usize) != 0) {
            false
        } else {
            tr_scan(mask_col, mask_row, (2 * bs) as usize, acc)
        }
    } else {
        acc
    }
}

/// The scan of `has_bl` over progressively larger enclosing blocks:
/// availability is gained as soon as a visited size has both position
/// bits clear one doubling up; the scan stops at the first set column bit.
pub open spec fn bl_scan(mask_col: usize, mask_row: usize, bs: usize, acc: bool) -> bool
    decreases (if bs < 16 {
        16int - bs
    } else {
        0int
    }),
{
    if bs < 1 || 2 * bs >= 16 {
        acc
    } else if mask_col & bs == 0 {
        if (mask_col & ((2 * bs) as usize) == 0) && (mask_row & ((2 * bs) as usize) == 0) {
            true
        } else {
            bl_scan(mask_col, mask_row, (2 * bs) as usize, acc)
        }
    } else {
        acc
    }
}

/// Whether the block diagonally above-right is available, per the
/// superblock-local bitmask rules and the two rectangle tie-breaks.
pub open spec fn has_tr_spec(bo: BlockOffset, bsize: BlockSize) -> bool
    recommends
        bsize != BlockSize::BLOCK_INVALID,
{
    let w = (blk_width(bsize) / 4) as usize;
    let h = (blk_height(bsize) / 4) as usize;
    let bs0 = if w > h {
        w
    } else {
        h
    };
    if bs0 > 16 {
        false
    } else {
        let mask_row = bo.y & LOCAL_BLOCK_MASK;
        let mask_col = bo.x & LOCAL_BLOCK_MASK;
        let base = !((mask_row & bs0 != 0) && (mask_col & bs0 != 0));
        let scanned = tr_scan(mask_col, mask_row, bs0, base);
        let tall_adjusted = if w < h && (bo.x & w) == 0 {
            true
        } else {
            scanned
        };
        if w > h && (bo.y & h) != 0 {
            false
        } else {
            tall_adjusted
        }
    }
}

/// Whether the block diagonally below-left is available, per the
/// superblock-local bitmask rules and the two rectangle tie-breaks.
pub open spec fn has_bl_spec(bo: BlockOffset, bsize: BlockSize) -> bool
    recommends
        bsize != BlockSize::BLOCK_INVALID,
{
    let w = (blk_width(bsize) / 4) as usize;
    let h = (blk_height(bsize) / 4) as usize;
    let bs0 = if w > h {
        w
    } else {
        h
    };
    if bs0 > 16 {
        false
    } else {
        let mask_row = bo.y & LOCAL_BLOCK_MASK;
        let mask_col = bo.x & LOCAL_BLOCK_MASK;
        let base = (mask_row & bs0 == 0) && (mask_col & bs0 == 0) && bs0 < 16;
        let scanned = bl_scan(mask_col, mask_row, bs0, base);
        let tall_adjusted = if w < h && (bo.x & w) != 0 {
            false
        } else {
            scanned
        };
        if w > h && (bo.y & h) == 0 {
            true
        } else {
            tall_adjusted
        }
    }
}

/// Whether the block diagonally above-right of the target has been
/// reconstructed. A tall block at the left edge of its own footprint
/// always has one; a wide block in the bottom strip of its footprint
/// never does.
pub fn has_tr(bo: BlockOffset, bsize: BlockSize) -> (r: bool)
    requires
        bsize != BlockSize::BLOCK_INVALID,
    ensures
        r == has_tr_spec(bo, bsize),
{
    let sb_mi_size: usize = SB_UNITS;
    let mask_row = bo.y & LOCAL_BLOCK_MASK;
    let mask_col = bo.x & LOCAL_BLOCK_MASK;
    let target_n4_w = bsize.width_mi();
    let target_n4_h = bsize.height_mi();

    let mut bs = if target_n4_w > target_n4_h {
        target_n4_w
    } else {
        target_n4_h
    };

    if bs > sb_mi_size {
        return false;
    }
    let ghost bs0 = bs;

    let mut has_tr = !((mask_row & bs != 0) && (mask_col & bs != 0));
    let ghost acc0 = has_tr;

    while bs < sb_mi_size
        invariant_except_break
            1 <= bs <= 30,
            sb_mi_size == 16,
            tr_scan(mask_col, mask_row, bs, has_tr) == tr_scan(mask_col, mask_row, bs0, acc0),
        ensures
            has_tr == tr_scan(mask_col, mask_row, bs0, acc0),
        decreases (if bs < 16 {
            16int - bs
        } else {
            0int
        }),
    {
        if mask_col & bs != 0 {
            if (mask_col & (2 * bs) != 0) && (mask_row & (2 * bs) != 0) {
                has_tr = false;
                break ;
            }
        } else {
            break ;
        }
        bs = bs * 2;
    }

    if target_n4_w < target_n4_h && (bo.x & target_n4_w) == 0 {
        has_tr = true;
    }
    if target_n4_w > target_n4_h && (bo.y & target_n4_h) != 0 {
        has_tr = false;
    }

    has_tr
}

/// Whether the block diagonally below-left of the target has been
/// reconstructed. A wide block in the top strip of its own footprint
/// always has one; a tall block at the right edge of its footprint
/// never does.
pub fn has_bl(bo: BlockOffset, bsize: BlockSize) -> (r: bool)
    requires
        bsize != BlockSize::BLOCK_INVALID,
    ensures
        r == has_bl_spec(bo, bsize),
{
    let sb_mi_size: usize = SB_UNITS;
    let mask_row = bo.y & LOCAL_BLOCK_MASK;
    let mask_col = bo.x & LOCAL_BLOCK_MASK;
    let target_n4_w = bsize.width_mi();
    let target_n4_h = bsize.height_mi();

    let mut bs = if target_n4_w > target_n4_h {
        target_n4_w
    } else {
        target_n4_h
    };

    if bs > sb_mi_size {
        return false;
    }
    let ghost bs0 = bs;

    let mut has_bl = (mask_row & bs == 0) && (mask_col & bs == 0) && bs < sb_mi_size;
    let ghost acc0 = has_bl;

    while 2 * bs < sb_mi_size
        invariant_except_break
            1 <= bs <= 30,
            sb_mi_size == 16,
            bl_scan(mask_col, mask_row, bs, has_bl) == bl_scan(mask_col, mask_row, bs0, acc0),
        ensures
            has_bl == bl_scan(mask_col, mask_row, bs0, acc0),
        decreases (if bs < 16 {
            16int - bs
        } else {
            0int
        }),
    {
        if mask_col & bs == 0 {
            if (mask_col & (2 * bs) == 0) && (mask_row & (2 * bs) == 0) {
                has_bl = true;
                break ;
            }
        } else {
            break ;
        }
        bs = bs * 2;
    }

    if target_n4_w < target_n4_h && (bo.x & target_n4_w) != 0 {
        has_bl = false;
    }
    if target_n4_w > target_n4_h && (bo.y & target_n4_h) == 0 {
        has_bl = true;
    }

    has_bl
}

} // verus!
