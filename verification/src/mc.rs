//! Motion compensation: the separable 8-tap sub-pixel filter pair and
//! the compound averaging blend.
//!
//! `put_8tap` writes final samples; `prep_8tap` writes intermediate
//! higher-precision values that `mc_avg` later blends. At a zero
//! fractional phase the filter is a no-op: `put_8tap` copies the
//! reference window exactly and `prep_8tap` scales it by the
//! intermediate precision alone.

use vstd::prelude::*;
use crate::geom::max_sample;
use crate::geom::max_sample_value;
use crate::plane::Plane;
use crate::plane::PlaneRegion;

verus! {

/// The filter's fixed-point precision.
pub const FILTER_BITS: u32 = 7;

/// Magnitude bound on every intermediate value `prep_8tap` writes.
pub const PREP_BOUND: i64 = 0x4000_0000;

/// The scale of intermediate values: `2^4` at ordinary depths, `2^2`
/// at 12-bit depth.
pub open spec fn prep_scale(bit_depth: nat) -> int {
    if bit_depth == 12 {
        4
    } else {
        16
    }
}

/// The scale of intermediate values, as executable code.
pub fn prep_scale_value(bit_depth: usize) -> (r: i64)
    requires
        8 <= bit_depth <= 16,
    ensures
        r == prep_scale(bit_depth as nat),
        r == 4 || r == 16,
{
    if bit_depth == 12 {
        4
    } else {
        16
    }
}

/// Floor division of a possibly negative value by a positive divisor,
/// agreeing with the mathematical quotient.
pub(crate) fn floor_div_i64(v: i64, d: i64) -> (q: i64)
    requires
        1 <= d <= 0x1_0000,
        -0x10_0000_0000_0000 <= v <= 0x10_0000_0000_0000,
    ensures
        q == v as int / d as int,
{
    if v >= 0 {
        v / d
    } else {
        let m = -v;
        let t = (m + d - 1) / d;
        proof {
            let mi = m as int;
            let di = d as int;
            let ti = (mi + di - 1) / di;
            vstd::arithmetic::div_mod::lemma_fundamental_div_mod(mi + di - 1, di);
            vstd::arithmetic::div_mod::lemma_mod_bound(mi + di - 1, di);
            assert(di * ti <= mi + di - 1 < di * ti + di);
            assert(0 <= (-mi) - di * (-ti) < di) by (nonlinear_arith)
                requires
                    di * ti <= mi + di - 1 < di * ti + di,
                    di >= 1,
            ;
            vstd::arithmetic::div_mod::lemma_fundamental_div_mod_converse(
                -mi,
                di,
                -ti,
                (-mi) - di * (-ti),
            );
        }
        -t
    }
}

/// Rounded shift right: floor of `(v + half) / d` with `d = 2 * half`.
/// The result's magnitude never exceeds the input's.
fn round_div_i64(v: i64, d: i64) -> (q: i64)
    requires
        d == 8 || d == 32 || d == 128 || d == 512 || d == 2048,
        -0x2_0000_0000_0000 <= v <= 0x2_0000_0000_0000,
    ensures
        q == (v + d / 2) as int / d as int,
        v >= 0 ==> 0 <= q <= v,
        v < 0 ==> v <= q <= 0,
{
    let t = v + d / 2;
    let q = floor_div_i64(t, d);
    proof {
        let ti = t as int;
        let di = d as int;
        vstd::arithmetic::div_mod::lemma_fundamental_div_mod(ti, di);
        vstd::arithmetic::div_mod::lemma_mod_bound(ti, di);
        if v >= 0 {
            assert(0 <= q <= v) by (nonlinear_arith)
                requires
                    di * (q as int) <= ti < di * (q as int) + di,
                    ti == v + di / 2,
                    di == 8 || di == 32 || di == 128 || di == 512 || di == 2048,
                    v >= 0,
            ;
        } else {
            assert(v <= q <= 0) by (nonlinear_arith)
                requires
                    di * (q as int) <= ti < di * (q as int) + di,
                    ti == v + di / 2,
                    di == 8 || di == 32 || di == 128 || di == 512 || di == 2048,
                    v < 0,
            ;
        }
    }
    q
}

/// The regular 8-tap sub-pixel filter bank, one row per 1/16-pel phase.
/// Phase zero is the identity tap.
fn subpel_filter(frac: u32) -> (r: [i64; 8])
    requires
        frac < 16,
    ensures
        forall|k: int| 0 <= k < 8 ==> -16 <= #[trigger] r@[k] <= 128,
        frac == 0 ==> r@[0] == 0 && r@[1] == 0 && r@[2] == 0 && r@[3] == 128 && r@[4] == 0 && r@[5]
            == 0 && r@[6] == 0 && r@[7] == 0,
{
    if frac == 0 {
        [0, 0, 0, 128, 0, 0, 0, 0]
    } else if frac == 1 {
        [0, 2, -6, 126, 8, -2, 0, 0]
    } else if frac == 2 {
        [0, 2, -10, 122, 18, -4, 0, 0]
    } else if frac == 3 {
        [0, 2, -12, 116, 28, -8, 2, 0]
    } else if frac == 4 {
        [0, 2, -14, 110, 38, -10, 2, 0]
    } else if frac == 5 {
        [0, 2, -14, 102, 48, -12, 2, 0]
    } else if frac == 6 {
        [0, 2, -16, 94, 58, -12, 2, 0]
    } else if frac == 7 {
        [0, 2, -14, 84, 66, -12, 2, 0]
    } else if frac == 8 {
        [0, 2, -14, 76, 76, -14, 2, 0]
    } else if frac == 9 {
        [0, 2, -12, 66, 84, -14, 2, 0]
    } else if frac == 10 {
        [0, 2, -12, 58, 94, -16, 2, 0]
    } else if frac == 11 {
        [0, 2, -12, 48, 102, -14, 2, 0]
    } else if frac == 12 {
        [0, 2, -10, 38, 110, -14, 2, 0]
    } else if frac == 13 {
        [0, 2, -8, 28, 116, -12, 2, 0]
    } else if frac == 14 {
        [0, 0, -4, 18, 122, -10, 2, 0]
    } else {
        [0, 0, -2, 8, 126, -6, 2, 0]
    }
}

/// One 8-tap dot product along a row of the reference plane.
fn filter_taps_h(rp: &Plane, coef: &[i64; 8], x0: i64, y: i64) -> (acc: i64)
    requires
        rp.wf(),
        forall|k: int| 0 <= k < 8 ==> -16 <= #[trigger] coef@[k] <= 128,
        -0x100_0000 <= x0 <= 0x100_0000,
        -0x100_0000 <= y <= 0x100_0000,
    ensures
        -0x8000_0000 <= acc <= 0x8000_0000,
{
    let mut acc: i64 = 0;
    let mut k: usize = 0;
    while k < 8
        invariant
            k <= 8,
            rp.wf(),
            forall|kk: int| 0 <= kk < 8 ==> -16 <= #[trigger] coef@[kk] <= 128,
            -0x100_0000 <= x0 <= 0x100_0000,
            -0x100_0000 <= y <= 0x100_0000,
            -0x10_0000 * (k as i64) <= acc <= 0x80_0000 * (k as i64),
        decreases 8 - k,
    {
        let s = rp.ref_px(x0 + k as i64, y);
        proof {
            assert(-0x10_0000 <= coef@[k as int] * (s as int) <= 0x80_0000) by (nonlinear_arith)
                requires
                    -16 <= coef@[k as int] <= 128,
                    0 <= s as int <= 0xffff,
            ;
        }
        acc = acc + coef[k] * s as i64;
        k = k + 1;
    }
    acc
}

/// One 8-tap dot product down a column of intermediate values.
fn filter_taps_v(mid: &Vec<i64>, coef: &[i64; 8], idx0: usize, stride: usize) -> (acc: i64)
    requires
        forall|k: int| 0 <= k < 8 ==> -16 <= #[trigger] coef@[k] <= 128,
        forall|i: int| 0 <= i < mid.len() ==> -0x8000_0010 <= #[trigger] mid[i] <= 0x8000_0010,
        stride >= 1,
        idx0 + 7 * stride < mid.len(),
    ensures
        -0x1_0000_0100_0000 <= acc <= 0x1_0000_0100_0000,
{
    let mut acc: i64 = 0;
    let mut k: usize = 0;
    while k < 8
        invariant
            k <= 8,
            forall|kk: int| 0 <= kk < 8 ==> -16 <= #[trigger] coef@[kk] <= 128,
            forall|i: int| 0 <= i < mid.len() ==> -0x8000_0010 <= #[trigger] mid[i] <= 0x8000_0010,
            stride >= 1,
            idx0 + 7 * stride < mid.len(),
            -0x2000_0020_0000 * (k as i64) <= acc <= 0x2000_0020_0000 * (k as i64),
        decreases 8 - k,
    {
        proof {
            assert(k * stride <= 7 * stride) by (nonlinear_arith)
                requires
                    0 <= k <= 7,
                    stride >= 1,
            ;
        }
        let m = mid[idx0 + k * stride];
        proof {
            assert(-0x2000_0020_0000 <= coef@[k as int] * (m as int) <= 0x2000_0020_0000)
                by (nonlinear_arith)
                requires
                    -16 <= coef@[k as int] <= 128,
                    -0x8000_0010 <= m as int <= 0x8000_0010,
            ;
        }
        acc = acc + coef[k] * m;
        k = k + 1;
    }
    acc
}

/// The horizontal pass of the separable filter: one intermediate value
/// per output column and extended row, rounded down to the intermediate
/// precision.
fn filter_horizontal(
    rp: &Plane,
    ox: i64,
    oy: i64,
    width: usize,
    height: usize,
    col_frac: u32,
    shift1: i64,
) -> (mid: Vec<i64>)
    requires
        rp.wf(),
        col_frac < 16,
        1 <= width <= 128,
        1 <= height <= 128,
        shift1 == 8 || shift1 == 32,
        -0x10_0000 <= ox <= 0x10_0000,
        -0x10_0000 <= oy <= 0x10_0000,
    ensures
        mid.len() == (height + 7) * width,
        forall|i: int| 0 <= i < mid.len() ==> -0x8000_0010 <= #[trigger] mid[i] <= 0x8000_0010,
{
    let coef = subpel_filter(col_frac);
    let rows = height + 7;
    let mut mid: Vec<i64> = Vec::new();
    let mut ry: usize = 0;
    while ry < rows
        invariant
            ry <= rows,
            rows == height + 7,
            1 <= width <= 128,
            1 <= height <= 128,
            rp.wf(),
            col_frac < 16,
            forall|k: int| 0 <= k < 8 ==> -16 <= #[trigger] coef@[k] <= 128,
            shift1 == 8 || shift1 == 32,
            -0x10_0000 <= ox <= 0x10_0000,
            -0x10_0000 <= oy <= 0x10_0000,
            mid.len() == ry * width,
            forall|i: int| 0 <= i < mid.len() ==> -0x8000_0010 <= #[trigger] mid[i] <= 0x8000_0010,
        decreases rows - ry,
    {
        let mut cx: usize = 0;
        while cx < width
            invariant
                cx <= width,
                ry < rows,
                rows == height + 7,
                1 <= width <= 128,
                1 <= height <= 128,
                rp.wf(),
                col_frac < 16,
                forall|k: int| 0 <= k < 8 ==> -16 <= #[trigger] coef@[k] <= 128,
                shift1 == 8 || shift1 == 32,
                -0x10_0000 <= ox <= 0x10_0000,
                -0x10_0000 <= oy <= 0x10_0000,
                mid.len() == ry * width + cx,
                forall|i: int|
                    0 <= i < mid.len() ==> -0x8000_0010 <= #[trigger] mid[i] <= 0x8000_0010,
            decreases width - cx,
        {
            let acc = filter_taps_h(rp, &coef, ox + cx as i64 - 3, oy + ry as i64 - 3);
            let v = round_div_i64(acc, shift1);
            mid.push(v);
            cx = cx + 1;
        }
        proof {
            assert((ry + 1) * width == ry * width + width) by (nonlinear_arith);
        }
        ry = ry + 1;
    }
    proof {
        assert((height + 7) * width == rows * width);
    }
    mid
}

/// Writes one motion-compensated block into the destination with the
/// regular filter in both axes.
///
/// At a zero fractional phase in both axes the filter degenerates to a
/// copy of the clamped reference window; otherwise every written sample
/// is representable at the bit depth.
pub fn put_8tap(
    dst: &mut PlaneRegion,
    rp: &Plane,
    ox: i64,
    oy: i64,
    width: usize,
    height: usize,
    col_frac: u32,
    row_frac: u32,
    bit_depth: usize,
)
    requires
        old(dst).wf(),
        rp.wf(),
        rp.samples_bounded(bit_depth as nat),
        8 <= bit_depth <= 16,
        width == old(dst).width,
        height == old(dst).height,
        width <= 128,
        height <= 128,
        col_frac < 16,
        row_frac < 16,
        -0x10_0000 <= ox <= 0x10_0000,
        -0x10_0000 <= oy <= 0x10_0000,
    ensures
        final(dst).wf(),
        final(dst).width == old(dst).width,
        final(dst).height == old(dst).height,
        final(dst).rect_x == old(dst).rect_x,
        final(dst).rect_y == old(dst).rect_y,
        final(dst).xdec == old(dst).xdec,
        final(dst).ydec == old(dst).ydec,
        col_frac == 0 && row_frac == 0 ==> forall|c: int, r: int|
            0 <= c < width && 0 <= r < height ==> #[trigger] final(dst).at(c, r) == rp.ref_sample(
                ox + c,
                oy + r,
            ),
        forall|c: int, r: int|
            0 <= c < width && 0 <= r < height ==> #[trigger] final(dst).at(c, r) <= max_sample(
                bit_depth as nat,
            ),
{
    let max = max_sample_value(bit_depth);
    if col_frac == 0 && row_frac == 0 {
        let mut r: usize = 0;
        while r < height
            invariant
                r <= height,
                dst.wf(),
                rp.wf(),
                rp.samples_bounded(bit_depth as nat),
                8 <= bit_depth <= 16,
                max == max_sample(bit_depth as nat),
                width == dst.width,
                height == dst.height,
                dst.width == old(dst).width,
                dst.height == old(dst).height,
                dst.rect_x == old(dst).rect_x,
                dst.rect_y == old(dst).rect_y,
                dst.xdec == old(dst).xdec,
                dst.ydec == old(dst).ydec,
                width <= 128,
                height <= 128,
                -0x10_0000 <= ox <= 0x10_0000,
                -0x10_0000 <= oy <= 0x10_0000,
                forall|cc: int, rr: int|
                    0 <= cc < width && 0 <= rr < r ==> #[trigger] dst.at(cc, rr) == rp.ref_sample(
                        ox + cc,
                        oy + rr,
                    ),
                forall|cc: int, rr: int|
                    0 <= cc < width && 0 <= rr < r ==> #[trigger] dst.at(cc, rr) <= max_sample(
                        bit_depth as nat,
                    ),
            decreases height - r,
        {
            let mut c: usize = 0;
            while c < width
                invariant
                    c <= width,
                    r < height,
                    dst.wf(),
                    rp.wf(),
                    rp.samples_bounded(bit_depth as nat),
                    8 <= bit_depth <= 16,
                    max == max_sample(bit_depth as nat),
                    width == dst.width,
                    height == dst.height,
                    dst.width == old(dst).width,
                    dst.height == old(dst).height,
                    dst.rect_x == old(dst).rect_x,
                    dst.rect_y == old(dst).rect_y,
                    dst.xdec == old(dst).xdec,
                    dst.ydec == old(dst).ydec,
                    width <= 128,
                    height <= 128,
                    -0x10_0000 <= ox <= 0x10_0000,
                    -0x10_0000 <= oy <= 0x10_0000,
                    forall|cc: int, rr: int|
                        0 <= cc < width && 0 <= rr < r ==> #[trigger] dst.at(cc, rr)
                            == rp.ref_sample(ox + cc, oy + rr),
                    forall|cc: int, rr: int|
                        0 <= cc < width && 0 <= rr < r ==> #[trigger] dst.at(cc, rr) <= max_sample(
                            bit_depth as nat,
                        ),
                    forall|cc: int|
                        0 <= cc < c ==> #[trigger] dst.at(cc, r as int) == rp.ref_sample(
                            ox + cc,
                            oy + r,
                        ),
                    forall|cc: int|
                        0 <= cc < c ==> #[trigger] dst.at(cc, r as int) <= max_sample(
                            bit_depth as nat,
                        ),
                decreases width - c,
            {
                let v = rp.ref_px(ox + c as i64, oy + r as i64);
                dst.set_px(c, r, v);
                c = c + 1;
            }
            r = r + 1;
        }
        return ;
    }
    let ib = prep_scale_value(bit_depth);
    let shift1: i64 = if ib == 16 {
        8
    } else {
        32
    };
    let shift2: i64 = if ib == 16 {
        2048
    } else {
        512
    };
    let mid = filter_horizontal(rp, ox, oy, width, height, col_frac, shift1);
    let coef_v = subpel_filter(row_frac);
    let mut r: usize = 0;
    while r < height
        invariant
            r <= height,
            dst.wf(),
            8 <= bit_depth <= 16,
            max == max_sample(bit_depth as nat),
            width == dst.width,
            height == dst.height,
            dst.width == old(dst).width,
            dst.height == old(dst).height,
            dst.rect_x == old(dst).rect_x,
            dst.rect_y == old(dst).rect_y,
            dst.xdec == old(dst).xdec,
            dst.ydec == old(dst).ydec,
            1 <= width <= 128,
            1 <= height <= 128,
            mid.len() == (height + 7) * width,
            shift2 == 512 || shift2 == 2048,
            forall|i: int| 0 <= i < mid.len() ==> -0x8000_0010 <= #[trigger] mid[i] <= 0x8000_0010,
            forall|k: int| 0 <= k < 8 ==> -16 <= #[trigger] coef_v@[k] <= 128,
            forall|cc: int, rr: int|
                0 <= cc < width && 0 <= rr < r ==> #[trigger] dst.at(cc, rr) <= max_sample(
                    bit_depth as nat,
                ),
        decreases height - r,
    {
        let mut c: usize = 0;
        while c < width
            invariant
                c <= width,
                r < height,
                dst.wf(),
                8 <= bit_depth <= 16,
                max == max_sample(bit_depth as nat),
                width == dst.width,
                height == dst.height,
                dst.width == old(dst).width,
                dst.height == old(dst).height,
                dst.rect_x == old(dst).rect_x,
                dst.rect_y == old(dst).rect_y,
                dst.xdec == old(dst).xdec,
                dst.ydec == old(dst).ydec,
                1 <= width <= 128,
                1 <= height <= 128,
                mid.len() == (height + 7) * width,
                shift2 == 512 || shift2 == 2048,
                forall|i: int|
                    0 <= i < mid.len() ==> -0x8000_0010 <= #[trigger] mid[i] <= 0x8000_0010,
                forall|k: int| 0 <= k < 8 ==> -16 <= #[trigger] coef_v@[k] <= 128,
                forall|cc: int, rr: int|
                    0 <= cc < width && 0 <= rr < r ==> #[trigger] dst.at(cc, rr) <= max_sample(
                        bit_depth as nat,
                    ),
                forall|cc: int|
                    0 <= cc < c ==> #[trigger] dst.at(cc, r as int) <= max_sample(
                        bit_depth as nat,
                    ),
            decreases width - c,
        {
            proof {
                assert(r * width + c + 7 * width < (height + 7) * width) by (nonlinear_arith)
                    requires
                        0 <= c < width,
                        0 <= r < height,
                ;
            }
            let acc = filter_taps_v(&mid, &coef_v, r * width + c, width);
            let v = round_div_i64(acc, shift2);
            let px: u16 = if v < 0 {
                0
            } else if v > max as i64 {
                max
            } else {
                v as u16
            };
            dst.set_px(c, r, px);
            c = c + 1;
        }
        r = r + 1;
    }
}

/// Prepares one reference's contribution to a compound blend:
/// intermediate values at the filter's internal precision.
///
/// At a zero fractional phase each value is the clamped reference
/// sample scaled by the intermediate precision exactly; in every case
/// the values stay within the intermediate bound.
pub fn prep_8tap(
    tmp: &mut Vec<i64>,
    rp: &Plane,
    ox: i64,
    oy: i64,
    width: usize,
    height: usize,
    col_frac: u32,
    row_frac: u32,
    bit_depth: usize,
)
    requires
        rp.wf(),
        rp.samples_bounded(bit_depth as nat),
        8 <= bit_depth <= 16,
        old(tmp).len() == width * height,
        forall|i: int|
            0 <= i < old(tmp).len() ==> -PREP_BOUND <= #[trigger] old(tmp)[i] <= PREP_BOUND,
        1 <= width <= 128,
        1 <= height <= 128,
        col_frac < 16,
        row_frac < 16,
        -0x10_0000 <= ox <= 0x10_0000,
        -0x10_0000 <= oy <= 0x10_0000,
    ensures
        final(tmp).len() == width * height,
        col_frac == 0 && row_frac == 0 ==> forall|c: int, r: int|
            0 <= c < width && 0 <= r < height ==> #[trigger] final(tmp)[r * width + c]
                == rp.ref_sample(ox + c, oy + r) * prep_scale(bit_depth as nat),
        forall|i: int|
            0 <= i < final(tmp).len() ==> -PREP_BOUND <= #[trigger] final(tmp)[i] <= PREP_BOUND,
{
    let scale = prep_scale_value(bit_depth);
    if col_frac == 0 && row_frac == 0 {
        let mut r: usize = 0;
        while r < height
            invariant
                r <= height,
                rp.wf(),
                rp.samples_bounded(bit_depth as nat),
                8 <= bit_depth <= 16,
                scale == prep_scale(bit_depth as nat),
                scale == 4 || scale == 16,
                tmp.len() == width * height,
                1 <= width <= 128,
                1 <= height <= 128,
                -0x10_0000 <= ox <= 0x10_0000,
                -0x10_0000 <= oy <= 0x10_0000,
                forall|cc: int, rr: int|
                    0 <= cc < width && 0 <= rr < r ==> #[trigger] tmp[rr * width + cc]
                        == rp.ref_sample(ox + cc, oy + rr) * prep_scale(bit_depth as nat),
                forall|i: int| 0 <= i < tmp.len() ==> -PREP_BOUND <= #[trigger] tmp[i]
                    <= PREP_BOUND,
            decreases height - r,
        {
            let mut c: usize = 0;
            while c < width
                invariant
                    c <= width,
                    r < height,
                    rp.wf(),
                    rp.samples_bounded(bit_depth as nat),
                    8 <= bit_depth <= 16,
                    scale == prep_scale(bit_depth as nat),
                    scale == 4 || scale == 16,
                    tmp.len() == width * height,
                    1 <= width <= 128,
                    1 <= height <= 128,
                    -0x10_0000 <= ox <= 0x10_0000,
                    -0x10_0000 <= oy <= 0x10_0000,
                    forall|cc: int, rr: int|
                        0 <= cc < width && 0 <= rr < r ==> #[trigger] tmp[rr * width + cc]
                            == rp.ref_sample(ox + cc, oy + rr) * prep_scale(bit_depth as nat),
                    forall|cc: int|
                        0 <= cc < c ==> #[trigger] tmp[r as int * width + cc] == rp.ref_sample(
                            ox + cc,
                            oy + r,
                        ) * prep_scale(bit_depth as nat),
                    forall|i: int| 0 <= i < tmp.len() ==> -PREP_BOUND <= #[trigger] tmp[i]
                        <= PREP_BOUND,
                decreases width - c,
            {
                proof {
                    crate::plane::lemma_rc_index(width as int, height as int, c as int, r as int);
                    assert((height as int) * (width as int) == (width as int) * (height as int))
                        by (nonlinear_arith);
                }
                let s = rp.ref_px(ox + c as i64, oy + r as i64);
                let v: i64 = s as i64 * scale;
                let ghost tmp_before = tmp@;
                tmp.set(r * width + c, v);
                proof {
                    assert forall|cc: int, rr: int|
                        0 <= cc < width && 0 <= rr < r implies #[trigger] tmp[rr * width + cc]
                        == rp.ref_sample(ox + cc, oy + rr) * prep_scale(bit_depth as nat) by {
                        crate::plane::lemma_rc_unique(
                            width as int,
                            cc,
                            rr,
                            c as int,
                            r as int,
                        );
                        crate::plane::lemma_rc_index(width as int, height as int, cc, rr);
                    }
                    assert forall|cc: int|
                        0 <= cc < c implies #[trigger] tmp[r as int * width + cc] == rp.ref_sample(
                        ox + cc,
                        oy + r,
                    ) * prep_scale(bit_depth as nat) by {
                        crate::plane::lemma_rc_unique(
                            width as int,
                            cc,
                            r as int,
                            c as int,
                            r as int,
                        );
                        crate::plane::lemma_rc_index(width as int, height as int, cc, r as int);
                    }
                }
                c = c + 1;
            }
            r = r + 1;
        }
        return ;
    }
    let shift1: i64 = if scale == 16 {
        8
    } else {
        32
    };
    let mid = filter_horizontal(rp, ox, oy, width, height, col_frac, shift1);
    let coef_v = subpel_filter(row_frac);
    let mut r: usize = 0;
    while r < height
        invariant
            r <= height,
            8 <= bit_depth <= 16,
            tmp.len() == width * height,
            1 <= width <= 128,
            1 <= height <= 128,
            mid.len() == (height + 7) * width,
            forall|i: int| 0 <= i < mid.len() ==> -0x8000_0010 <= #[trigger] mid[i] <= 0x8000_0010,
            forall|k: int| 0 <= k < 8 ==> -16 <= #[trigger] coef_v@[k] <= 128,
            forall|i: int| 0 <= i < tmp.len() ==> -PREP_BOUND <= #[trigger] tmp[i] <= PREP_BOUND,
        decreases height - r,
    {
        let mut c: usize = 0;
        while c < width
            invariant
                c <= width,
                r < height,
                8 <= bit_depth <= 16,
                tmp.len() == width * height,
                1 <= width <= 128,
                1 <= height <= 128,
                mid.len() == (height + 7) * width,
                forall|i: int|
                    0 <= i < mid.len() ==> -0x8000_0010 <= #[trigger] mid[i] <= 0x8000_0010,
                forall|k: int| 0 <= k < 8 ==> -16 <= #[trigger] coef_v@[k] <= 128,
                forall|i: int| 0 <= i < tmp.len() ==> -PREP_BOUND <= #[trigger] tmp[i]
                    <= PREP_BOUND,
            decreases width - c,
        {
            proof {
                assert(r * width + c + 7 * width < (height + 7) * width) by (nonlinear_arith)
                    requires
                        0 <= c < width,
                        0 <= r < height,
                ;
                crate::plane::lemma_rc_index(width as int, height as int, c as int, r as int);
                assert((height as int) * (width as int) == (width as int) * (height as int))
                    by (nonlinear_arith);
            }
            let acc = filter_taps_v(&mid, &coef_v, r * width + c, width);
            let v = round_div_i64(acc, 128);
            let v = if v < -PREP_BOUND {
                -PREP_BOUND
            } else if v > PREP_BOUND {
                PREP_BOUND
            } else {
                v
            };
            tmp.set(r * width + c, v);
            c = c + 1;
        }
        r = r + 1;
    }
}

/// Blends two prepared intermediate buffers into final samples: the
/// rounded mean at the intermediate precision, clamped to the
/// representable range.
pub fn mc_avg(
    dst: &mut PlaneRegion,
    tmp1: &Vec<i64>,
    tmp2: &Vec<i64>,
    width: usize,
    height: usize,
    bit_depth: usize,
)
    requires
        old(dst).wf(),
        8 <= bit_depth <= 16,
        width == old(dst).width,
        height == old(dst).height,
        tmp1.len() == width * height,
        tmp2.len() == width * height,
        forall|i: int| 0 <= i < tmp1.len() ==> -PREP_BOUND <= #[trigger] tmp1[i] <= PREP_BOUND,
        forall|i: int| 0 <= i < tmp2.len() ==> -PREP_BOUND <= #[trigger] tmp2[i] <= PREP_BOUND,
    ensures
        final(dst).wf(),
        final(dst).width == old(dst).width,
        final(dst).height == old(dst).height,
        final(dst).rect_x == old(dst).rect_x,
        final(dst).rect_y == old(dst).rect_y,
        final(dst).xdec == old(dst).xdec,
        final(dst).ydec == old(dst).ydec,
        forall|c: int, r: int|
            0 <= c < width && 0 <= r < height ==> #[trigger] final(dst).at(c, r)
                == crate::intra::clamp_value(
                (tmp1[r * width + c] + tmp2[r * width + c] + prep_scale(bit_depth as nat)) / (2
                    * prep_scale(bit_depth as nat)),
                max_sample(bit_depth as nat),
            ),
{
    let max = max_sample_value(bit_depth);
    let scale = prep_scale_value(bit_depth);
    let d: i64 = 2 * scale;
    let mut r: usize = 0;
    while r < height
        invariant
            r <= height,
            dst.wf(),
            8 <= bit_depth <= 16,
            max == max_sample(bit_depth as nat),
            scale == prep_scale(bit_depth as nat),
            scale == 4 || scale == 16,
            d == 2 * scale,
            width == dst.width,
            height == dst.height,
            dst.width == old(dst).width,
            dst.height == old(dst).height,
            dst.rect_x == old(dst).rect_x,
            dst.rect_y == old(dst).rect_y,
            dst.xdec == old(dst).xdec,
            dst.ydec == old(dst).ydec,
            tmp1.len() == width * height,
            tmp2.len() == width * height,
            forall|i: int| 0 <= i < tmp1.len() ==> -PREP_BOUND <= #[trigger] tmp1[i] <= PREP_BOUND,
            forall|i: int| 0 <= i < tmp2.len() ==> -PREP_BOUND <= #[trigger] tmp2[i] <= PREP_BOUND,
            forall|cc: int, rr: int|
                0 <= cc < width && 0 <= rr < r ==> #[trigger] dst.at(cc, rr)
                    == crate::intra::clamp_value(
                    (tmp1[rr * width + cc] + tmp2[rr * width + cc] + prep_scale(
                        bit_depth as nat,
                    )) / (2 * prep_scale(bit_depth as nat)),
                    max_sample(bit_depth as nat),
                ),
        decreases height - r,
    {
        let mut c: usize = 0;
        while c < width
            invariant
                c <= width,
                r < height,
                dst.wf(),
                8 <= bit_depth <= 16,
                max == max_sample(bit_depth as nat),
                scale == prep_scale(bit_depth as nat),
                scale == 4 || scale == 16,
                d == 2 * scale,
                width == dst.width,
                height == dst.height,
                dst.width == old(dst).width,
                dst.height == old(dst).height,
                dst.rect_x == old(dst).rect_x,
                dst.rect_y == old(dst).rect_y,
                dst.xdec == old(dst).xdec,
                dst.ydec == old(dst).ydec,
                tmp1.len() == width * height,
                tmp2.len() == width * height,
                forall|i: int| 0 <= i < tmp1.len() ==> -PREP_BOUND <= #[trigger] tmp1[i]
                    <= PREP_BOUND,
                forall|i: int| 0 <= i < tmp2.len() ==> -PREP_BOUND <= #[trigger] tmp2[i]
                    <= PREP_BOUND,
                forall|cc: int, rr: int|
                    0 <= cc < width && 0 <= rr < r ==> #[trigger] dst.at(cc, rr)
                        == crate::intra::clamp_value(
                        (tmp1[rr * width + cc] + tmp2[rr * width + cc] + prep_scale(
                            bit_depth as nat,
                        )) / (2 * prep_scale(bit_depth as nat)),
                        max_sample(bit_depth as nat),
                    ),
                forall|cc: int|
                    0 <= cc < c ==> #[trigger] dst.at(cc, r as int)
                        == crate::intra::clamp_value(
                        (tmp1[r as int * width + cc] + tmp2[r as int * width + cc] + prep_scale(
                            bit_depth as nat,
                        )) / (2 * prep_scale(bit_depth as nat)),
                        max_sample(bit_depth as nat),
                    ),
            decreases width - c,
        {
            proof {
                crate::plane::lemma_rc_index(width as int, height as int, c as int, r as int);
                assert((height as int) * (width as int) == (width as int) * (height as int))
                    by (nonlinear_arith);
            }
            let idx = r * width + c;
            let a = tmp1[idx];
            let b = tmp2[idx];
            let q = floor_div_i64(a + b + scale, d);
            let px: u16 = if q < 0 {
                0
            } else if q > max as i64 {
                max
            } else {
                q as u16
            };
            dst.set_px(c, r, px);
            c = c + 1;
        }
        r = r + 1;
    }
}

} // verus!
