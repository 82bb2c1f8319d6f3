//! The prediction engine: dispatching one intra or inter prediction
//! for a chosen mode into a caller-owned destination region.

use vstd::prelude::*;
use crate::edge::EdgeBuf;
use crate::edge::paeth_resolved;
use crate::geom::max_sample;
use crate::intra::cfl_delta;
use crate::intra::clamp_value;
use crate::intra::dc_fill_value;
use crate::intra::dc_value;
use crate::intra::paeth_value;
use crate::intra::pred_cfl_inner;
use crate::intra::pred_dc;
use crate::intra::pred_dc_128;
use crate::intra::pred_dc_left;
use crate::intra::pred_dc_top;
use crate::intra::pred_directional;
use crate::intra::pred_h;
use crate::intra::pred_paeth;
use crate::intra::pred_smooth;
use crate::intra::pred_smooth_h;
use crate::intra::pred_smooth_v;
use crate::intra::pred_v;
use crate::mc::mc_avg;
use crate::mc::prep_8tap;
use crate::mc::prep_scale;
use crate::mc::put_8tap;
use crate::modes::PredictionMode;
use crate::modes::mode_ordinal;
use crate::motion::MotionVector;
use crate::plane::FrameContext;
use crate::plane::PlaneOffset;
use crate::plane::PlaneRegion;
use crate::plane::TileRect;
use crate::refs::RefType;
use crate::refs::is_inter_ref;
use crate::refs::ref_ordinal;
use crate::transform::TxSize;
use crate::transform::tx_height;
use crate::transform::tx_width;

verus! {

/// The mode a prediction really runs as: PAETH degenerates by position
/// as in the edge builder, and chroma-from-luma with a zero correction
/// degenerates to DC.
pub open spec fn resolved_mode(m: PredictionMode, x: int, y: int, alpha: int) -> PredictionMode {
    let m1 = paeth_resolved(m, x, y);
    if m1 == PredictionMode::UV_CFL_PRED && alpha == 0 {
        PredictionMode::DC_PRED
    } else {
        m1
    }
}

/// What one intra prediction leaves in the destination, pointwise over
/// its final state `d1`, given its prior state `d0`.
///
/// For the exactly specified modes (DC, horizontal, vertical, PAETH and
/// chroma-from-luma) the clause pins every sample; for the smooth and
/// directional modes, whose interpolation tables are kernel-internal,
/// every sample is representable at the bit depth.
pub open spec fn intra_prediction_ok(
    m: PredictionMode,
    tile_rect: TileRect,
    d0: PlaneRegion,
    d1: PlaneRegion,
    ac: Seq<i16>,
    alpha: int,
    edge: EdgeBuf,
    bit_depth: nat,
) -> bool {
    let x = d1.rect_x - tile_rect.x;
    let y = d1.rect_y - tile_rect.y;
    let w = d1.width as int;
    let h = d1.height as int;
    let rm = resolved_mode(m, x, y, alpha);
    &&& d1.wf()
    &&& d1.width == d0.width
    &&& d1.height == d0.height
    &&& d1.rect_x == d0.rect_x
    &&& d1.rect_y == d0.rect_y
    &&& d1.xdec == d0.xdec
    &&& d1.ydec == d0.ydec
    &&& (rm == PredictionMode::DC_PRED ==> forall|c: int, r: int|
        0 <= c < w && 0 <= r < h ==> #[trigger] d1.at(c, r) == dc_fill_value(
            edge,
            x,
            y,
            w,
            h,
            bit_depth,
        ))
    &&& (rm == PredictionMode::UV_CFL_PRED ==> forall|c: int, r: int|
        0 <= c < w && 0 <= r < h ==> #[trigger] d1.at(c, r) == clamp_value(
            dc_fill_value(edge, x, y, w, h, bit_depth) + cfl_delta(alpha, ac[r * w + c] as int),
            max_sample(bit_depth),
        ))
    &&& (rm == PredictionMode::H_PRED ==> forall|c: int, r: int|
        0 <= c < w && 0 <= r < h ==> #[trigger] d1.at(c, r) == edge.left[127 - r])
    &&& (rm == PredictionMode::V_PRED ==> forall|c: int, r: int|
        0 <= c < w && 0 <= r < h ==> #[trigger] d1.at(c, r) == edge.above[c])
    &&& (rm == PredictionMode::PAETH_PRED ==> forall|c: int, r: int|
        0 <= c < w && 0 <= r < h ==> #[trigger] d1.at(c, r) == paeth_value(
            edge.above[c],
            edge.left[127 - r],
            edge.top_left,
        ))
    &&& (forall|c: int, r: int|
        0 <= c < w && 0 <= r < h ==> #[trigger] d1.at(c, r) <= max_sample(bit_depth))
}

/// The full-pixel part of a motion component at a plane's subsampling:
/// the floor of the component over 8 luma (16 chroma) eighth-pixel
/// steps.
pub open spec fn mv_offset(v: int, dec: int) -> int {
    if dec == 1 {
        v / 16
    } else {
        v / 8
    }
}

/// The 1/16-pixel fractional phase of a motion component at a plane's
/// subsampling.
pub open spec fn mv_frac16(v: int, dec: int) -> int {
    if dec == 1 {
        v % 16
    } else {
        (v % 8) * 2
    }
}

/// Splits a motion component into its full-pixel offset and its
/// 1/16-pixel phase at the given subsampling.
fn mv_split(v: i16, dec: usize) -> (r: (i64, u32))
    requires
        dec <= 1,
    ensures
        r.0 == mv_offset(v as int, dec as int),
        r.1 == mv_frac16(v as int, dec as int),
        -4096 <= r.0 <= 4096,
        r.1 < 16,
{
    let d: i64 = if dec == 1 {
        16
    } else {
        8
    };
    let off = crate::mc::floor_div_i64(v as i64, d);
    proof {
        vstd::arithmetic::div_mod::lemma_fundamental_div_mod(v as int, d as int);
        vstd::arithmetic::div_mod::lemma_mod_bound(v as int, d as int);
        assert(-4096 <= (v as int) / (d as int) <= 4096) by (nonlinear_arith)
            requires
                (d as int) * ((v as int) / (d as int)) + (v as int) % (d as int) == v as int,
                0 <= (v as int) % (d as int) < d as int,
                d == 8 || d == 16,
                -0x8000 <= v as int <= 0x7fff,
        ;
    }
    let rem: i64 = v as i64 - off * d;
    let frac: u32 = if dec == 1 {
        rem as u32
    } else {
        (rem * 2) as u32
    };
    (off, frac)
}

/// A vector of zeros for the compound intermediates.
fn zeros_i64(n: usize) -> (v: Vec<i64>)
    ensures
        v.len() == n,
        forall|i: int| 0 <= i < n ==> #[trigger] v[i] == 0,
{
    let mut v: Vec<i64> = Vec::new();
    let mut i: usize = 0;
    while i < n
        invariant
            i <= n,
            v.len() == i,
            forall|j: int| 0 <= j < i ==> #[trigger] v[j] == 0,
        decreases n - i,
    {
        v.push(0);
        i = i + 1;
    }
    v
}

impl PredictionMode {
    /// Fills the destination with this intra mode's prediction, reading
    /// the edge buffer built for the block. The destination's own size
    /// is the transform's size; its position inside the tile decides
    /// the corner and edge degenerations.
    pub fn predict_intra(
        self,
        tile_rect: TileRect,
        dst: &mut PlaneRegion,
        tx_size: TxSize,
        bit_depth: usize,
        ac: &Vec<i16>,
        alpha: i16,
        edge_buf: &EdgeBuf,
    )
        requires
            mode_ordinal(self) < mode_ordinal(PredictionMode::NEARESTMV),
            old(dst).wf(),
            edge_buf.wf(),
            edge_buf.samples_bounded(bit_depth as nat),
            8 <= bit_depth <= 16,
            old(dst).width == tx_width(tx_size),
            old(dst).height == tx_height(tx_size),
            old(dst).rect_x >= tile_rect.x,
            old(dst).rect_y >= tile_rect.y,
            self == PredictionMode::UV_CFL_PRED && alpha != 0 ==> ac.len() >= old(dst).width * old(
                dst,
            ).height,
        ensures
            intra_prediction_ok(
                self,
                tile_rect,
                *old(dst),
                *final(dst),
                ac@,
                alpha as int,
                *edge_buf,
                bit_depth as nat,
            ),
    {
        self.predict_intra_inner(tile_rect, dst, bit_depth, ac, alpha, edge_buf);
    }

    /// The mode dispatch behind `predict_intra`, factored by the
    /// destination's width and height instead of a transform size.
    pub fn predict_intra_inner(
        self,
        tile_rect: TileRect,
        dst: &mut PlaneRegion,
        bit_depth: usize,
        ac: &Vec<i16>,
        alpha: i16,
        edge_buf: &EdgeBuf,
    )
        requires
            mode_ordinal(self) < mode_ordinal(PredictionMode::NEARESTMV),
            old(dst).wf(),
            edge_buf.wf(),
            edge_buf.samples_bounded(bit_depth as nat),
            8 <= bit_depth <= 16,
            old(dst).width == 4 || old(dst).width == 8 || old(dst).width == 16 || old(
                dst,
            ).width == 32 || old(dst).width == 64,
            old(dst).height == 4 || old(dst).height == 8 || old(dst).height == 16 || old(
                dst,
            ).height == 32 || old(dst).height == 64,
            old(dst).rect_x >= tile_rect.x,
            old(dst).rect_y >= tile_rect.y,
            self == PredictionMode::UV_CFL_PRED && alpha != 0 ==> ac.len() >= old(dst).width * old(
                dst,
            ).height,
        ensures
            intra_prediction_ok(
                self,
                tile_rect,
                *old(dst),
                *final(dst),
                ac@,
                alpha as int,
                *edge_buf,
                bit_depth as nat,
            ),
    {
        let x = dst.rect_x - tile_rect.x;
        let y = dst.rect_y - tile_rect.y;
        let w = dst.width;
        let h = dst.height;

        let mode = if matches!(self, PredictionMode::PAETH_PRED) {
            if x == 0 && y == 0 {
                PredictionMode::DC_PRED
            } else if y == 0 {
                PredictionMode::H_PRED
            } else if x == 0 {
                PredictionMode::V_PRED
            } else {
                PredictionMode::PAETH_PRED
            }
        } else if matches!(self, PredictionMode::UV_CFL_PRED) {
            if alpha == 0 {
                PredictionMode::DC_PRED
            } else {
                self
            }
        } else {
            self
        };
        assert(mode == resolved_mode(self, x as int, y as int, alpha as int));

        match mode {
            PredictionMode::DC_PRED => {
                if x == 0 && y == 0 {
                    pred_dc_128(dst, bit_depth);
                } else if y == 0 {
                    pred_dc_left(dst, edge_buf);
                } else if x == 0 {
                    pred_dc_top(dst, edge_buf);
                } else {
                    pred_dc(dst, edge_buf);
                }
                proof {
                    crate::geom::lemma_base_sample_bounds(bit_depth as nat);
                    crate::intra::lemma_sum_bounds(edge_buf.left@, 128 - h as int, 128, max_sample(bit_depth as nat));
                    crate::intra::lemma_sum_bounds(edge_buf.above@, 0, w as int, max_sample(bit_depth as nat));
                    crate::intra::lemma_avg_bound(
                        crate::intra::seq_sum_range(edge_buf.left@, 128 - h as int, 128),
                        h as int,
                        max_sample(bit_depth as nat),
                    );
                    crate::intra::lemma_avg_bound(
                        crate::intra::seq_sum_range(edge_buf.above@, 0, w as int),
                        w as int,
                        max_sample(bit_depth as nat),
                    );
                    assert((w as int) * max_sample(bit_depth as nat) + (h as int) * max_sample(
                        bit_depth as nat,
                    ) == ((w + h) as int) * max_sample(bit_depth as nat)) by (nonlinear_arith);
                    crate::intra::lemma_avg_bound(
                        crate::intra::seq_sum_range(edge_buf.above@, 0, w as int)
                            + crate::intra::seq_sum_range(edge_buf.left@, 128 - h as int, 128),
                        (w + h) as int,
                        max_sample(bit_depth as nat),
                    );
                }
            },
            PredictionMode::UV_CFL_PRED => {
                let dc = dc_value(edge_buf, x, y, w, h, bit_depth);
                pred_cfl_inner(dst, ac, alpha, bit_depth, dc);
            },
            PredictionMode::H_PRED => {
                pred_h(dst, edge_buf);
            },
            PredictionMode::V_PRED => {
                pred_v(dst, edge_buf);
            },
            PredictionMode::PAETH_PRED => {
                pred_paeth(dst, edge_buf);
                proof {
                    assert forall|c: int, r: int|
                        0 <= c < w && 0 <= r < h implies #[trigger] dst.at(c, r) <= max_sample(
                        bit_depth as nat,
                    ) by {
                        assert(edge_buf.above[c] <= max_sample(bit_depth as nat));
                        assert(edge_buf.left[127 - r] <= max_sample(bit_depth as nat));
                    }
                }
            },
            PredictionMode::SMOOTH_PRED => {
                pred_smooth(dst, edge_buf, bit_depth);
            },
            PredictionMode::SMOOTH_H_PRED => {
                pred_smooth_h(dst, edge_buf, bit_depth);
            },
            PredictionMode::SMOOTH_V_PRED => {
                pred_smooth_v(dst, edge_buf, bit_depth);
            },
            PredictionMode::D45_PRED => {
                pred_directional(dst, edge_buf, 45, bit_depth);
            },
            PredictionMode::D135_PRED => {
                pred_directional(dst, edge_buf, 135, bit_depth);
            },
            PredictionMode::D117_PRED => {
                pred_directional(dst, edge_buf, 113, bit_depth);
            },
            PredictionMode::D153_PRED => {
                pred_directional(dst, edge_buf, 157, bit_depth);
            },
            PredictionMode::D207_PRED => {
                pred_directional(dst, edge_buf, 203, bit_depth);
            },
            PredictionMode::D63_PRED => {
                pred_directional(dst, edge_buf, 67, bit_depth);
            },
            _ => {
                proof {
                    assert(false);
                }
            },
        }
    }

    /// Fills the destination with a motion-compensated prediction.
    ///
    /// The first reference slot must name an inter reference; the call
    /// is compound when the second does too. A slot whose frame buffer
    /// is absent contributes nothing: alone it leaves the destination
    /// untouched, inside a compound pair its side of the blend stays
    /// neutral. With zero fractional phases the prediction equals the
    /// clamped reference window (single) or the rounded mean of the two
    /// windows (compound).
    pub fn predict_inter(
        self,
        fi: &FrameContext,
        tile_rect: TileRect,
        p: usize,
        po: PlaneOffset,
        dst: &mut PlaneRegion,
        width: usize,
        height: usize,
        ref_frames: [RefType; 2],
        mvs: [MotionVector; 2],
    )
        requires
            mode_ordinal(self) >= mode_ordinal(PredictionMode::NEARESTMV),
            fi.wf(),
            fi.samples_bounded(),
            old(dst).wf(),
            width == old(dst).width,
            height == old(dst).height,
            1 <= width <= 128,
            1 <= height <= 128,
            p < 3,
            is_inter_ref(ref_frames@[0]),
            tile_rect.x + po.x + 0x2000 <= 0x10_0000,
            tile_rect.y + po.y + 0x2000 <= 0x10_0000,
        ensures
            final(dst).wf(),
            final(dst).width == old(dst).width,
            final(dst).height == old(dst).height,
            final(dst).rect_x == old(dst).rect_x,
            final(dst).rect_y == old(dst).rect_y,
            final(dst).xdec == old(dst).xdec,
            final(dst).ydec == old(dst).ydec,
            !is_inter_ref(ref_frames@[1]) ==> ({
                let f0 = fi.frames[fi.ref_frames[ref_ordinal(ref_frames@[0]) - 1] as int];
                &&& (f0 is None ==> final(dst).data == old(dst).data)
                &&& (f0 is Some ==> ({
                    let plane = f0.unwrap().planes[p as int];
                    let ox = tile_rect.x + po.x + mv_offset(
                        mvs@[0].col as int,
                        plane.xdec as int,
                    );
                    let oy = tile_rect.y + po.y + mv_offset(
                        mvs@[0].row as int,
                        plane.ydec as int,
                    );
                    &&& (mv_frac16(mvs@[0].col as int, plane.xdec as int) == 0 && mv_frac16(
                        mvs@[0].row as int,
                        plane.ydec as int,
                    ) == 0 ==> forall|c: int, r: int|
                        0 <= c < width && 0 <= r < height ==> #[trigger] final(dst).at(c, r)
                            == plane.ref_sample(ox + c, oy + r))
                    &&& (forall|c: int, r: int|
                        0 <= c < width && 0 <= r < height ==> #[trigger] final(dst).at(c, r)
                            <= max_sample(fi.bit_depth as nat))
                }))
            }),
            is_inter_ref(ref_frames@[1]) ==> ({
                let f0 = fi.frames[fi.ref_frames[ref_ordinal(ref_frames@[0]) - 1] as int];
                let f1 = fi.frames[fi.ref_frames[ref_ordinal(ref_frames@[1]) - 1] as int];
                &&& (forall|c: int, r: int|
                    0 <= c < width && 0 <= r < height ==> #[trigger] final(dst).at(c, r)
                        <= max_sample(fi.bit_depth as nat))
                &&& (f0 is Some && f1 is Some ==> ({
                    let plane0 = f0.unwrap().planes[p as int];
                    let plane1 = f1.unwrap().planes[p as int];
                    let ox0 = tile_rect.x + po.x + mv_offset(
                        mvs@[0].col as int,
                        plane0.xdec as int,
                    );
                    let oy0 = tile_rect.y + po.y + mv_offset(
                        mvs@[0].row as int,
                        plane0.ydec as int,
                    );
                    let ox1 = tile_rect.x + po.x + mv_offset(
                        mvs@[1].col as int,
                        plane1.xdec as int,
                    );
                    let oy1 = tile_rect.y + po.y + mv_offset(
                        mvs@[1].row as int,
                        plane1.ydec as int,
                    );
                    mv_frac16(mvs@[0].col as int, plane0.xdec as int) == 0 && mv_frac16(
                        mvs@[0].row as int,
                        plane0.ydec as int,
                    ) == 0 && mv_frac16(mvs@[1].col as int, plane1.xdec as int) == 0 && mv_frac16(
                        mvs@[1].row as int,
                        plane1.ydec as int,
                    ) == 0 ==> forall|c: int, r: int|
                        0 <= c < width && 0 <= r < height ==> #[trigger] final(dst).at(c, r)
                            == clamp_value(
                            (plane0.ref_sample(ox0 + c, oy0 + r) + plane1.ref_sample(
                                ox1 + c,
                                oy1 + r,
                            ) + 1) / 2,
                            max_sample(fi.bit_depth as nat),
                        )
                }))
            }),
    {
        let frame_po = tile_rect.to_frame_plane_offset(po);
        let is_compound = ref_frames[1] != RefType::INTRA_FRAME && ref_frames[1]
            != RefType::NONE_FRAME;

        if !is_compound {
            let slot = ref_frames[0].to_index();
            let fidx = fi.ref_frames[slot];
            match &fi.frames[fidx] {
                Some(rec) => {
                    let rp = &rec.planes[p];
                    proof {
                        assert(fi.frames[fidx as int].unwrap().planes[p as int].samples_bounded(
                            fi.bit_depth as nat,
                        ));
                    }
                    let (co, cf) = mv_split(mvs[0].col, rp.xdec);
                    let (ro, rf) = mv_split(mvs[0].row, rp.ydec);
                    let ox: i64 = frame_po.x as i64 + co;
                    let oy: i64 = frame_po.y as i64 + ro;
                    put_8tap(dst, rp, ox, oy, width, height, cf, rf, fi.bit_depth);
                },
                None => {},
            }
        } else {
            let mut tmp1 = zeros_i64(width * height);
            let mut tmp2 = zeros_i64(width * height);
            proof {
                assert(width * height <= 128 * 128) by (nonlinear_arith)
                    requires
                        1 <= width <= 128,
                        1 <= height <= 128,
                ;
            }

            let slot0 = ref_frames[0].to_index();
            let fidx0 = fi.ref_frames[slot0];
            match &fi.frames[fidx0] {
                Some(rec) => {
                    let rp = &rec.planes[p];
                    proof {
                        assert(fi.frames[fidx0 as int].unwrap().planes[p as int].samples_bounded(
                            fi.bit_depth as nat,
                        ));
                    }
                    let (co, cf) = mv_split(mvs[0].col, rp.xdec);
                    let (ro, rf) = mv_split(mvs[0].row, rp.ydec);
                    let ox: i64 = frame_po.x as i64 + co;
                    let oy: i64 = frame_po.y as i64 + ro;
                    prep_8tap(&mut tmp1, rp, ox, oy, width, height, cf, rf, fi.bit_depth);
                },
                None => {},
            }

            let slot1 = ref_frames[1].to_index();
            let fidx1 = fi.ref_frames[slot1];
            match &fi.frames[fidx1] {
                Some(rec) => {
                    let rp = &rec.planes[p];
                    proof {
                        assert(fi.frames[fidx1 as int].unwrap().planes[p as int].samples_bounded(
                            fi.bit_depth as nat,
                        ));
                    }
                    let (co, cf) = mv_split(mvs[1].col, rp.xdec);
                    let (ro, rf) = mv_split(mvs[1].row, rp.ydec);
                    let ox: i64 = frame_po.x as i64 + co;
                    let oy: i64 = frame_po.y as i64 + ro;
                    prep_8tap(&mut tmp2, rp, ox, oy, width, height, cf, rf, fi.bit_depth);
                },
                None => {},
            }

            mc_avg(dst, &tmp1, &tmp2, width, height, fi.bit_depth);

            proof {
                let bd = fi.bit_depth as nat;
                crate::geom::lemma_base_sample_bounds(bd);
                assert forall|c: int, r: int|
                    0 <= c < width && 0 <= r < height implies #[trigger] dst.at(c, r)
                    <= max_sample(bd) by {
                    assert(dst.at(c, r) == clamp_value(
                        (tmp1[r * width + c] + tmp2[r * width + c] + prep_scale(bd)) / (2
                            * prep_scale(bd)),
                        max_sample(bd),
                    ));
                }
                let f0 = fi.frames[fidx0 as int];
                let f1 = fi.frames[fidx1 as int];
                if f0 is Some && f1 is Some {
                    let plane0 = f0.unwrap().planes[p as int];
                    let plane1 = f1.unwrap().planes[p as int];
                    if mv_frac16(mvs@[0].col as int, plane0.xdec as int) == 0 && mv_frac16(
                        mvs@[0].row as int,
                        plane0.ydec as int,
                    ) == 0 && mv_frac16(mvs@[1].col as int, plane1.xdec as int) == 0 && mv_frac16(
                        mvs@[1].row as int,
                        plane1.ydec as int,
                    ) == 0 {
                        let ox0 = tile_rect.x + po.x + mv_offset(
                            mvs@[0].col as int,
                            plane0.xdec as int,
                        );
                        let oy0 = tile_rect.y + po.y + mv_offset(
                            mvs@[0].row as int,
                            plane0.ydec as int,
                        );
                        let ox1 = tile_rect.x + po.x + mv_offset(
                            mvs@[1].col as int,
                            plane1.xdec as int,
                        );
                        let oy1 = tile_rect.y + po.y + mv_offset(
                            mvs@[1].row as int,
                            plane1.ydec as int,
                        );
                        assert forall|c: int, r: int|
                            0 <= c < width && 0 <= r < height implies #[trigger] dst.at(
                            c,
                            r,
                        ) == clamp_value(
                            (plane0.ref_sample(ox0 + c, oy0 + r) + plane1.ref_sample(
                                ox1 + c,
                                oy1 + r,
                            ) + 1) / 2,
                            max_sample(bd),
                        ) by {
                            let s0 = plane0.ref_sample(ox0 + c, oy0 + r) as int;
                            let s1 = plane1.ref_sample(ox1 + c, oy1 + r) as int;
                            let sc = prep_scale(bd);
                            crate::plane::lemma_rc_index(width as int, height as int, c, r);
                            assert(tmp1@[r * width + c] == s0 * sc);
                            assert(tmp2@[r * width + c] == s1 * sc);
                            assert(s0 * sc + s1 * sc + sc == sc * (s0 + s1 + 1)) by (nonlinear_arith);
                            assert(2 * sc == sc * 2) by (nonlinear_arith);
                            vstd::arithmetic::div_mod::lemma_div_denominator(
                                sc * (s0 + s1 + 1),
                                sc,
                                2,
                            );
                            vstd::arithmetic::div_mod::lemma_div_multiples_vanish(
                                s0 + s1 + 1,
                                sc,
                            );
                        }
                    }
                }
            }
        }
    }
}

} // verus!
