//! The intra edge builder.
//!
//! Before an intra prediction, the samples bordering the transform block
//! are gathered into a fixed-capacity buffer: up to 128 "left" samples
//! ordered bottom-to-top and right-aligned, one top-left sample, and up
//! to 128 "above" samples. Which runs are built depends on the mode; a
//! run that is not needed keeps the neutral fill value.

use vstd::prelude::*;
use crate::block::BlockSize;
use crate::block::blk_from_dims_spec;
use crate::geom::EDGE_RUN;
use crate::geom::base_sample;
use crate::geom::base_sample_value;
use crate::geom::lemma_base_sample_bounds;
use crate::geom::max_sample;
use crate::modes::PredictionMode;
use crate::neighbors::BlockOffset;
use crate::neighbors::has_bl;
use crate::neighbors::has_bl_spec;
use crate::neighbors::has_tr;
use crate::neighbors::has_tr_spec;
use crate::plane::PlaneOffset;
use crate::plane::PlaneRegion;
use crate::transform::TxSize;
use crate::transform::tx_height;
use crate::transform::tx_width;

verus! {

/// The edge buffer an intra prediction reads: left samples bottom-to-top
/// and right-aligned, one top-left sample, and above samples.
pub struct EdgeBuf {
    pub left: Vec<u16>,
    pub top_left: u16,
    pub above: Vec<u16>,
}

impl EdgeBuf {
    pub open spec fn wf(self) -> bool {
        &&& self.left.len() == EDGE_RUN
        &&& self.above.len() == EDGE_RUN
    }

    /// Every sample representable at the given bit depth.
    pub open spec fn samples_bounded(self, bit_depth: nat) -> bool {
        &&& forall|i: int|
            0 <= i < self.left.len() ==> #[trigger] self.left[i] <= max_sample(bit_depth)
        &&& forall|i: int|
            0 <= i < self.above.len() ==> #[trigger] self.above[i] <= max_sample(bit_depth)
        &&& self.top_left <= max_sample(bit_depth)
    }
}

/// The mode whose edge needs are computed: at the frame origin PAETH
/// degenerates to DC, on the top row to horizontal, on the left column
/// to vertical, mirroring the prediction's own degeneration.
pub open spec fn paeth_resolved(m: PredictionMode, x: int, y: int) -> PredictionMode {
    if m == PredictionMode::PAETH_PRED {
        if x == 0 && y == 0 {
            PredictionMode::DC_PRED
        } else if y == 0 {
            PredictionMode::H_PRED
        } else if x == 0 {
            PredictionMode::V_PRED
        } else {
            PredictionMode::PAETH_PRED
        }
    } else {
        m
    }
}

/// Whether the left run is built: skipped only for the vertical mode,
/// the two up-right directional modes, and DC at the left edge.
pub open spec fn needs_left_spec(om: Option<PredictionMode>, x: int, y: int) -> bool {
    match om {
        None => true,
        Some(m0) => {
            let m = paeth_resolved(m0, x, y);
            let dc_or_cfl = m == PredictionMode::DC_PRED || m == PredictionMode::UV_CFL_PRED;
            m != PredictionMode::V_PRED && (!dc_or_cfl || x != 0) && !(m
                == PredictionMode::D45_PRED || m == PredictionMode::D63_PRED)
        },
    }
}

/// Whether the top-left sample is built: only for PAETH and the three
/// down-left directional modes.
pub open spec fn needs_topleft_spec(om: Option<PredictionMode>, x: int, y: int) -> bool {
    match om {
        None => true,
        Some(m0) => {
            let m = paeth_resolved(m0, x, y);
            m == PredictionMode::PAETH_PRED || m == PredictionMode::D117_PRED || m
                == PredictionMode::D135_PRED || m == PredictionMode::D153_PRED
        },
    }
}

/// Whether the above run is built: skipped only for the horizontal mode
/// and DC at the top edge.
pub open spec fn needs_top_spec(om: Option<PredictionMode>, x: int, y: int) -> bool {
    match om {
        None => true,
        Some(m0) => {
            let m = paeth_resolved(m0, x, y);
            let dc_or_cfl = m == PredictionMode::DC_PRED || m == PredictionMode::UV_CFL_PRED;
            m != PredictionMode::H_PRED && (!dc_or_cfl || y != 0)
        },
    }
}

/// Whether the top-right extension is built: only for the two up-right
/// directional modes.
pub open spec fn needs_topright_spec(om: Option<PredictionMode>, x: int, y: int) -> bool {
    match om {
        None => true,
        Some(m0) => {
            let m = paeth_resolved(m0, x, y);
            m == PredictionMode::D45_PRED || m == PredictionMode::D63_PRED
        },
    }
}

/// Whether the bottom-left extension is built: only for the one
/// down-left directional mode that reads below the block.
pub open spec fn needs_bottomleft_spec(om: Option<PredictionMode>, x: int, y: int) -> bool {
    match om {
        None => true,
        Some(m0) => {
            let m = paeth_resolved(m0, x, y);
            m == PredictionMode::D207_PRED
        },
    }
}

/// The luma-domain block the availability predicates are asked about:
/// the transform position shifted out of the plane's subsampling.
pub open spec fn avail_bo_spec(dst: PlaneRegion, x: int, y: int) -> BlockOffset {
    BlockOffset {
        x: (x / (if dst.xdec == 1 {
            2int
        } else {
            4int
        })) as usize,
        y: (y / (if dst.ydec == 1 {
            2int
        } else {
            4int
        })) as usize,
    }
}

/// The luma-domain block size the availability predicates are asked
/// about: the transform size scaled back up by the subsampling.
pub open spec fn avail_bsize_spec(dst: PlaneRegion, w: int, h: int) -> BlockSize {
    blk_from_dims_spec(w * (1 + dst.xdec), h * (1 + dst.ydec))
}

/// How many top-right samples are really available: none above the top
/// row or without an available top-right neighbor, else capped by the
/// remaining width of the region.
pub open spec fn tr_count_spec(dst: PlaneRegion, x: int, y: int, w: int, h: int) -> int {
    if y != 0 && has_tr_spec(avail_bo_spec(dst, x, y), avail_bsize_spec(dst, w, h)) {
        if w < dst.width - x - w {
            w
        } else {
            dst.width - x - w
        }
    } else {
        0
    }
}

/// How many bottom-left samples are really available: none on the left
/// column or without an available bottom-left neighbor, else capped by
/// the remaining height of the region.
pub open spec fn bl_count_spec(dst: PlaneRegion, x: int, y: int, w: int, h: int) -> int {
    if x != 0 && has_bl_spec(avail_bo_spec(dst, x, y), avail_bsize_spec(dst, w, h)) {
        if h < dst.height - y - h {
            h
        } else {
            dst.height - y - h
        }
    } else {
        0
    }
}

/// One past the last `above` index the top-right section touches.
pub open spec fn tr_end_spec(dst: PlaneRegion, om: Option<PredictionMode>, x: int, y: int, w: int, h: int) -> int {
    if needs_topright_spec(om, x, y) {
        let n = tr_count_spec(dst, x, y, w, h);
        if n < h {
            w + h
        } else {
            w + n
        }
    } else {
        w
    }
}

/// The lowest `left` index the bottom-left section touches.
pub open spec fn bl_start_spec(dst: PlaneRegion, om: Option<PredictionMode>, x: int, y: int, w: int, h: int) -> int {
    if needs_bottomleft_spec(om, x, y) {
        let n = bl_count_spec(dst, x, y, w, h);
        if n < w {
            128 - h - w
        } else {
            128 - h - n
        }
    } else {
        128 - h
    }
}

/// A vector of one repeated value.
fn vec_filled(n: usize, val: u16) -> (v: Vec<u16>)
    ensures
        v.len() == n,
        forall|i: int| 0 <= i < n ==> #[trigger] v[i] == val,
{
    let mut v: Vec<u16> = Vec::new();
    let mut i: usize = 0;
    while i < n
        invariant
            i <= n,
            v.len() == i,
            forall|j: int| 0 <= j < i ==> #[trigger] v[j] == val,
        decreases n - i,
    {
        v.push(val);
        i = i + 1;
    }
    v
}

/// Overwrites the index range `[from, to)` with one value.
fn fill_range(v: &mut Vec<u16>, from: usize, to: usize, val: u16)
    requires
        from <= to,
        to <= old(v).len(),
    ensures
        final(v).len() == old(v).len(),
        forall|i: int| from <= i < to ==> #[trigger] final(v)[i] == val,
        forall|i: int|
            0 <= i < old(v).len() && !(from <= i < to) ==> #[trigger] final(v)[i] == old(v)[i],
{
    let mut i: usize = from;
    while i < to
        invariant
            from <= i <= to,
            to <= v.len(),
            v.len() == old(v).len(),
            forall|j: int| from <= j < i ==> #[trigger] v[j] == val,
            forall|j: int| 0 <= j < old(v).len() && !(from <= j < i) ==> #[trigger] v[j] == old(
                v,
            )[j],
        decreases to - i,
    {
        v.set(i, val);
        i = i + 1;
    }
}

/// The smaller of two lengths.
fn min_usize(a: usize, b: usize) -> (r: usize)
    ensures
        r == if a < b {
            a as int
        } else {
            b as int
        },
{
    if a < b {
        a
    } else {
        b
    }
}

/// Builds the edge buffer for one intra prediction.
///
/// `dst` is the region the block lives in, read for its reconstructed
/// surroundings; `po` the block's position inside it. With a mode given,
/// only the runs that mode needs are built; without one every run is
/// built (the chroma-from-luma analysis path). Runs not built keep the
/// neutral fill value, so construction at the region origin with the DC
/// mode yields a flat buffer.
///
/// In the result, the sample of `left[j]` for an index inside the left
/// or bottom-left run is the reconstructed pixel at row `y + 127 - j`
/// of the column left of the block; `above[j]` inside the above or
/// top-right run is the pixel at column `x + j` of the row above.
#[verifier::rlimit(100)]
pub fn get_intra_edges(
    dst: &PlaneRegion,
    po: PlaneOffset,
    tx_size: TxSize,
    bit_depth: usize,
    opt_mode: Option<PredictionMode>,
) -> (r: EdgeBuf)
    requires
        dst.wf(),
        8 <= bit_depth <= 16,
        dst.samples_bounded(bit_depth as nat),
        po.x + tx_width(tx_size) <= dst.width,
        po.y + tx_height(tx_size) <= dst.height,
        needs_topright_spec(opt_mode, po.x as int, po.y as int) || needs_bottomleft_spec(
            opt_mode,
            po.x as int,
            po.y as int,
        ) ==> avail_bsize_spec(*dst, tx_width(tx_size), tx_height(tx_size))
            != BlockSize::BLOCK_INVALID,
    ensures
        r.wf(),
        r.samples_bounded(bit_depth as nat),
        ({
            let x = po.x as int;
            let y = po.y as int;
            let w = tx_width(tx_size);
            let h = tx_height(tx_size);
            let base = base_sample(bit_depth as nat);
            let nl = needs_left_spec(opt_mode, x, y);
            let ntl = needs_topleft_spec(opt_mode, x, y);
            let nt = needs_top_spec(opt_mode, x, y);
            let ntr = needs_topright_spec(opt_mode, x, y);
            let nbl = needs_bottomleft_spec(opt_mode, x, y);
            let trn = tr_count_spec(*dst, x, y, w, h);
            let bln = bl_count_spec(*dst, x, y, w, h);
            // The left run, bottom-to-top and right-aligned.
            &&& (nl && x > 0 ==> forall|j: int|
                128 - h <= j < 128 ==> #[trigger] r.left[j] == dst.at(x - 1, y + 127 - j))
            &&& (nl && x == 0 ==> forall|j: int|
                128 - h <= j < 128 ==> #[trigger] r.left[j] == if y > 0 {
                    dst.at(0, y - 1) as int
                } else {
                    base + 1
                })
            &&& (!nl ==> forall|j: int| 128 - h <= j < 128 ==> #[trigger] r.left[j] == base)
            // The top-left sample, by the corner case split.
            &&& (ntl ==> r.top_left == if x == 0 && y == 0 {
                base
            } else if y == 0 {
                dst.at(x - 1, 0) as int
            } else if x == 0 {
                dst.at(0, y - 1) as int
            } else {
                dst.at(x - 1, y - 1) as int
            })
            &&& (!ntl ==> r.top_left == base)
            // The above run.
            &&& (nt && y > 0 ==> forall|j: int|
                0 <= j < w ==> #[trigger] r.above[j] == dst.at(x + j, y - 1))
            &&& (nt && y == 0 ==> forall|j: int|
                0 <= j < w ==> #[trigger] r.above[j] == if x > 0 {
                    dst.at(x - 1, 0) as int
                } else {
                    base - 1
                })
            &&& (!nt ==> forall|j: int| 0 <= j < w ==> #[trigger] r.above[j] == base)
            // The top-right extension: available samples, then the last
            // value of the run repeated over the shortfall.
            &&& (ntr ==> forall|j: int|
                w <= j < w + trn ==> #[trigger] r.above[j] == dst.at(x + j, y - 1))
            &&& (ntr ==> forall|j: int|
                w + trn <= j < w + h ==> #[trigger] r.above[j] == r.above[w + trn - 1])
            &&& (forall|j: int|
                tr_end_spec(*dst, opt_mode, x, y, w, h) <= j < 128 ==> #[trigger] r.above[j]
                    == base)
            // The bottom-left extension: available samples below the left
            // run, then the last value repeated over the shortfall.
            &&& (nbl ==> forall|j: int|
                128 - h - bln <= j < 128 - h ==> #[trigger] r.left[j] == dst.at(
                    x - 1,
                    y + 127 - j,
                ))
            &&& (nbl ==> forall|j: int|
                128 - h - w <= j < 128 - h - bln ==> #[trigger] r.left[j] == r.left[128 - h - bln])
            &&& (forall|j: int|
                0 <= j < bl_start_spec(*dst, opt_mode, x, y, w, h) ==> #[trigger] r.left[j]
                    == base)
        }),
{
    let w = tx_size.width();
    let h = tx_size.height();
    let x = po.x;
    let y = po.y;
    let base = base_sample_value(bit_depth);
    proof {
        lemma_base_sample_bounds(bit_depth as nat);
    }
    let ghost bd = bit_depth as nat;

    let mut left: Vec<u16> = vec_filled(EDGE_RUN, base);
    let mut above: Vec<u16> = vec_filled(EDGE_RUN, base);
    let mut top_left: u16 = base;

    let mut needs_left = true;
    let mut needs_topleft = true;
    let mut needs_top = true;
    let mut needs_topright = true;
    let mut needs_bottomleft = true;

    if let Some(mode0) = opt_mode {
        let mode = if matches!(mode0, PredictionMode::PAETH_PRED) {
            if x == 0 && y == 0 {
                PredictionMode::DC_PRED
            } else if y == 0 {
                PredictionMode::H_PRED
            } else if x == 0 {
                PredictionMode::V_PRED
            } else {
                PredictionMode::PAETH_PRED
            }
        } else {
            mode0
        };
        assert(mode == paeth_resolved(mode0, x as int, y as int));

        let dc_or_cfl = mode == PredictionMode::DC_PRED || mode == PredictionMode::UV_CFL_PRED;

        needs_left = mode != PredictionMode::V_PRED && (!dc_or_cfl || x != 0) && !(mode
            == PredictionMode::D45_PRED || mode == PredictionMode::D63_PRED);
        needs_topleft = mode == PredictionMode::PAETH_PRED || mode == PredictionMode::D117_PRED
            || mode == PredictionMode::D135_PRED || mode == PredictionMode::D153_PRED;
        needs_top = mode != PredictionMode::H_PRED && (!dc_or_cfl || y != 0);
        needs_topright = mode == PredictionMode::D45_PRED || mode == PredictionMode::D63_PRED;
        needs_bottomleft = mode == PredictionMode::D207_PRED;
    }

    // The left run.
    if needs_left {
        if x != 0 {
            let mut i: usize = 0;
            while i < h
                invariant
                    i <= h,
                    4 <= h <= 64,
                    left.len() == 128,
                    dst.wf(),
                    dst.samples_bounded(bd),
                    1 <= x < dst.width,
                    y + h <= dst.height,
                    forall|j: int|
                        128 - h <= j < 128 - h + i ==> #[trigger] left[j] == dst.at(
                            x as int - 1,
                            y + 127 - j,
                        ),
                    forall|j: int|
                        0 <= j < left.len() && !(128 - h <= j < 128 - h + i) ==> #[trigger] left[j]
                            == base,
                    forall|j: int| 0 <= j < left.len() ==> #[trigger] left[j] <= max_sample(bd),
                decreases h - i,
            {
                let v = dst.px(x - 1, y + h - 1 - i);
                left.set(128 - h + i, v);
                i = i + 1;
            }
        } else {
            let val = if y != 0 {
                dst.px(0, y - 1)
            } else {
                base + 1
            };
            let ghost pre = left;
            fill_range(&mut left, 128 - h, 128, val);
            proof {
                assert forall|j: int| 0 <= j < left.len() implies #[trigger] left[j] <= max_sample(
                    bd,
                ) by {
                    if !(128 - h <= j < 128) {
                        assert(left[j] == pre[j]);
                    }
                }
            }
        }
    }

    // The top-left sample.
    if needs_topleft {
        top_left = if x == 0 && y == 0 {
            base
        } else if y == 0 {
            dst.px(x - 1, 0)
        } else if x == 0 {
            dst.px(0, y - 1)
        } else {
            dst.px(x - 1, y - 1)
        };
    }

    // The above run.
    let ghost left_mid = left;
    if needs_top {
        if y != 0 {
            let mut i: usize = 0;
            while i < w
                invariant
                    i <= w,
                    4 <= w <= 64,
                    above.len() == 128,
                    dst.wf(),
                    dst.samples_bounded(bd),
                    y >= 1,
                    x + w <= dst.width,
                    y < dst.height,
                    forall|j: int|
                        0 <= j < i ==> #[trigger] above[j] == dst.at(x + j, y as int - 1),
                    forall|j: int| i <= j < above.len() ==> #[trigger] above[j] == base,
                    forall|j: int| 0 <= j < above.len() ==> #[trigger] above[j] <= max_sample(bd),
                decreases w - i,
            {
                let v = dst.px(x + i, y - 1);
                above.set(i, v);
                i = i + 1;
            }
        } else {
            let val = if x != 0 {
                dst.px(x - 1, 0)
            } else {
                base - 1
            };
            let ghost pre = above;
            fill_range(&mut above, 0, w, val);
            proof {
                assert forall|j: int| 0 <= j < above.len() implies #[trigger] above[j]
                    <= max_sample(bd) by {
                    if !(0 <= j < w) {
                        assert(above[j] == pre[j]);
                    }
                }
            }
        }
    }

    // The top-right extension.
    if needs_topright {
        let bo = BlockOffset {
            x: x / (if dst.xdec == 1 {
                2
            } else {
                4
            }),
            y: y / (if dst.ydec == 1 {
                2
            } else {
                4
            }),
        };
        let bsize = BlockSize::from_width_and_height(w * (1 + dst.xdec), h * (1 + dst.ydec));

        let num_avail = if y != 0 && has_tr(bo, bsize) {
            min_usize(w, dst.width - x - w)
        } else {
            0
        };
        assert(num_avail == tr_count_spec(*dst, x as int, y as int, w as int, h as int));

        let ghost above0 = above;
        let mut i: usize = 0;
        while i < num_avail
            invariant
                i <= num_avail,
                num_avail <= w,
                num_avail as int == tr_count_spec(*dst, x as int, y as int, w as int, h as int),
                num_avail > 0 ==> y >= 1,
                4 <= w <= 64,
                4 <= h <= 64,
                above.len() == 128,
                dst.wf(),
                dst.samples_bounded(bd),
                x + w + num_avail <= dst.width,
                y <= dst.height,
                forall|j: int|
                    w <= j < w + i ==> #[trigger] above[j] == dst.at(x + j, y as int - 1),
                forall|j: int|
                    0 <= j < above.len() && !(w <= j < w + i) ==> #[trigger] above[j] == above0[j],
                forall|j: int| 0 <= j < above.len() ==> #[trigger] above[j] <= max_sample(bd),
            decreases num_avail - i,
        {
            let v = dst.px(x + w + i, y - 1);
            above.set(w + i, v);
            i = i + 1;
        }
        if num_avail < h {
            let val = above[w + num_avail - 1];
            let ghost pre = above;
            fill_range(&mut above, w + num_avail, w + h, val);
            proof {
                assert forall|j: int| 0 <= j < above.len() implies #[trigger] above[j]
                    <= max_sample(bd) by {
                    if !(w + num_avail <= j < w + h) {
                        assert(above[j] == pre[j]);
                    }
                }
            }
        }
    }

    // The bottom-left extension.
    if needs_bottomleft {
        let bo = BlockOffset {
            x: x / (if dst.xdec == 1 {
                2
            } else {
                4
            }),
            y: y / (if dst.ydec == 1 {
                2
            } else {
                4
            }),
        };
        let bsize = BlockSize::from_width_and_height(w * (1 + dst.xdec), h * (1 + dst.ydec));

        let num_avail = if x != 0 && has_bl(bo, bsize) {
            min_usize(h, dst.height - y - h)
        } else {
            0
        };
        assert(num_avail == bl_count_spec(*dst, x as int, y as int, w as int, h as int));

        let ghost left0 = left;
        let mut i: usize = 0;
        while i < num_avail
            invariant
                i <= num_avail,
                num_avail <= h,
                num_avail as int == bl_count_spec(*dst, x as int, y as int, w as int, h as int),
                num_avail > 0 ==> x >= 1,
                4 <= w <= 64,
                4 <= h <= 64,
                left.len() == 128,
                dst.wf(),
                dst.samples_bounded(bd),
                x <= dst.width,
                y + h + num_avail <= dst.height,
                forall|j: int|
                    128 - h - i <= j < 128 - h ==> #[trigger] left[j] == dst.at(
                        x as int - 1,
                        y + 127 - j,
                    ),
                forall|j: int|
                    0 <= j < left.len() && !(128 - h - i <= j < 128 - h) ==> #[trigger] left[j]
                        == left0[j],
                forall|j: int| 0 <= j < left.len() ==> #[trigger] left[j] <= max_sample(bd),
            decreases num_avail - i,
        {
            let v = dst.px(x - 1, y + h + i);
            left.set(128 - h - 1 - i, v);
            i = i + 1;
        }
        if num_avail < w {
            let val = left[128 - h - num_avail];
            let ghost pre = left;
            fill_range(&mut left, 128 - h - w, 128 - h - num_avail, val);
            proof {
                assert forall|j: int| 0 <= j < left.len() implies #[trigger] left[j] <= max_sample(
                    bd,
                ) by {
                    if !(128 - h - w <= j < 128 - h - num_avail) {
                        assert(left[j] == pre[j]);
                    }
                }
            }
        }
    }

    let r = EdgeBuf { left, top_left, above };
    proof {
        assert forall|j: int| 0 <= j < r.left.len() implies #[trigger] r.left[j] <= max_sample(bd)
        by {}
        assert forall|j: int| 0 <= j < r.above.len() implies #[trigger] r.above[j] <= max_sample(
            bd,
        ) by {}
    }
    r
}

} // verus!
