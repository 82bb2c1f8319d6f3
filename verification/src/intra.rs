//! The intra prediction kernels, factored by block width and height.
//!
//! Each kernel fills a destination region from the edge buffer. The
//! destination's own dimensions are the transform's; inside the edge
//! buffer the sample left of row `r` sits at `left[127 - r]` and the
//! sample above column `c` at `above[c]`.

use vstd::prelude::*;
use crate::edge::EdgeBuf;
use crate::geom::base_sample;
use crate::geom::base_sample_value;
use crate::geom::max_sample;
use crate::geom::max_sample_value;
use crate::plane::PlaneRegion;

verus! {

/// The sum of the samples `s[lo..hi]`.
pub open spec fn seq_sum_range(s: Seq<u16>, lo: int, hi: int) -> int
    decreases hi - lo,
{
    if lo >= hi {
        0
    } else {
        s[lo] + seq_sum_range(s, lo + 1, hi)
    }
}

/// Extending a sum by one element on the right.
pub proof fn lemma_sum_snoc(s: Seq<u16>, lo: int, hi: int)
    requires
        lo <= hi,
    ensures
        seq_sum_range(s, lo, hi + 1) == seq_sum_range(s, lo, hi) + s[hi],
    decreases hi - lo,
{
    if lo < hi {
        lemma_sum_snoc(s, lo + 1, hi);
    } else {
        assert(seq_sum_range(s, lo, hi) == 0);
        assert(seq_sum_range(s, lo + 1, hi + 1) == 0);
    }
}

/// A sum of bounded samples is bounded by count times the bound.
pub proof fn lemma_sum_bounds(s: Seq<u16>, lo: int, hi: int, m: int)
    requires
        lo <= hi,
        m >= 0,
        forall|i: int| lo <= i < hi ==> #[trigger] s[i] <= m,
    ensures
        0 <= seq_sum_range(s, lo, hi),
        seq_sum_range(s, lo, hi) <= (hi - lo) * m,
    decreases hi - lo,
{
    if lo < hi {
        lemma_sum_bounds(s, lo + 1, hi, m);
        assert((hi - lo) * m == m + (hi - lo - 1) * m) by (nonlinear_arith);
    } else {
        assert((hi - lo) * m == 0) by (nonlinear_arith)
            requires
                hi == lo,
        ;
    }
}

/// A rounded average of a bounded sum stays within the bound.
pub proof fn lemma_avg_bound(sum: int, cnt: int, m: int)
    requires
        0 <= sum,
        sum <= cnt * m,
        cnt >= 1,
        m >= 0,
    ensures
        0 <= (sum + cnt / 2) / cnt <= m,
{
    let a = sum + cnt / 2;
    let q = a / cnt;
    vstd::arithmetic::div_mod::lemma_fundamental_div_mod(a, cnt);
    vstd::arithmetic::div_mod::lemma_mod_bound(a, cnt);
    assert(cnt * q <= a);
    assert(a < cnt * m + cnt);
    assert(q <= m) by (nonlinear_arith)
        requires
            cnt * q <= a,
            a < cnt * m + cnt,
            cnt >= 1,
    ;
    assert(q >= 0) by (nonlinear_arith)
        requires
            a == cnt * q + a % cnt,
            0 <= a % cnt < cnt,
            a >= 0,
            cnt >= 1,
    ;
}

/// The value a DC prediction fills the block with, by position case:
/// the neutral value at the corner, the average of the left run on the
/// top row, the average of the above run on the left column, and the
/// average of both runs in the interior.
pub open spec fn dc_fill_value(
    edge: EdgeBuf,
    x: int,
    y: int,
    w: int,
    h: int,
    bit_depth: nat,
) -> int {
    if x == 0 && y == 0 {
        base_sample(bit_depth)
    } else if y == 0 {
        (seq_sum_range(edge.left@, 128 - h, 128) + h / 2) / h
    } else if x == 0 {
        (seq_sum_range(edge.above@, 0, w) + w / 2) / w
    } else {
        (seq_sum_range(edge.above@, 0, w) + seq_sum_range(edge.left@, 128 - h, 128) + (w + h) / 2)
            / (w + h)
    }
}

/// The PAETH choice: whichever of above, left and top-left is closest
/// to `above + left - top_left`, above preferred, then left.
pub open spec fn paeth_value(a: u16, l: u16, tl: u16) -> u16 {
    let p = a + l - tl;
    let pa = if p >= a {
        p - a
    } else {
        a - p
    };
    let pb = if p >= l {
        p - l
    } else {
        l - p
    };
    let pc = if p >= tl {
        p - tl
    } else {
        tl - p
    };
    if pa <= pb && pa <= pc {
        a
    } else if pb <= pc {
        l
    } else {
        tl
    }
}

/// The chroma-from-luma correction: `alpha * ac`, rounded away from
/// zero at six fractional bits.
pub open spec fn cfl_delta(alpha: int, ac: int) -> int {
    let p = alpha * ac;
    if p >= 0 {
        (p + 32) / 64
    } else {
        -((-p + 32) / 64)
    }
}

/// An integer clamped to `[0, hi]`.
pub open spec fn clamp_value(v: int, hi: int) -> int {
    if v < 0 {
        0
    } else if v > hi {
        hi
    } else {
        v
    }
}

/// Fills the whole destination with one value.
fn fill_uniform(dst: &mut PlaneRegion, val: u16)
    requires
        old(dst).wf(),
    ensures
        final(dst).wf(),
        final(dst).width == old(dst).width,
        final(dst).height == old(dst).height,
        final(dst).rect_x == old(dst).rect_x,
        final(dst).rect_y == old(dst).rect_y,
        final(dst).xdec == old(dst).xdec,
        final(dst).ydec == old(dst).ydec,
        forall|c: int, r: int|
            0 <= c < final(dst).width && 0 <= r < final(dst).height ==> #[trigger] final(dst).at(
                c,
                r,
            ) == val,
{
    let w = dst.width;
    let h = dst.height;
    let mut r: usize = 0;
    while r < h
        invariant
            r <= h,
            dst.wf(),
            dst.width == old(dst).width,
            dst.height == old(dst).height,
            dst.rect_x == old(dst).rect_x,
            dst.rect_y == old(dst).rect_y,
            dst.xdec == old(dst).xdec,
            dst.ydec == old(dst).ydec,
            w == dst.width,
            h == dst.height,
            forall|cc: int, rr: int|
                0 <= cc < w && 0 <= rr < r ==> #[trigger] dst.at(cc, rr) == val,
        decreases h - r,
    {
        let mut c: usize = 0;
        while c < w
            invariant
                c <= w,
                r < h,
                dst.wf(),
                dst.width == old(dst).width,
                dst.height == old(dst).height,
                dst.rect_x == old(dst).rect_x,
                dst.rect_y == old(dst).rect_y,
                dst.xdec == old(dst).xdec,
                dst.ydec == old(dst).ydec,
                w == dst.width,
                h == dst.height,
                forall|cc: int, rr: int|
                    0 <= cc < w && 0 <= rr < r ==> #[trigger] dst.at(cc, rr) == val,
                forall|cc: int| 0 <= cc < c ==> #[trigger] dst.at(cc, r as int) == val,
            decreases w - c,
        {
            dst.set_px(c, r, val);
            c = c + 1;
        }
        r = r + 1;
    }
}

/// The sum of `v[lo..hi]`, at most 256 samples.
fn sum_range_u32(v: &Vec<u16>, lo: usize, hi: usize) -> (s: u32)
    requires
        lo <= hi,
        hi <= v.len(),
        hi - lo <= 256,
    ensures
        s == seq_sum_range(v@, lo as int, hi as int),
{
    let mut s: u32 = 0;
    let mut i: usize = lo;
    while i < hi
        invariant
            lo <= i <= hi,
            hi <= v.len(),
            hi - lo <= 256,
            s == seq_sum_range(v@, lo as int, i as int),
        decreases hi - i,
    {
        proof {
            lemma_sum_bounds(v@, lo as int, i as int, 0xffff);
            assert((i - lo) * 0xffff <= 256 * 0xffff) by (nonlinear_arith)
                requires
                    i - lo <= 256,
            ;
            lemma_sum_snoc(v@, lo as int, i as int);
        }
        s = s + v[i] as u32;
        i = i + 1;
    }
    s
}

/// DC prediction at the corner: the block becomes the neutral value.
pub fn pred_dc_128(dst: &mut PlaneRegion, bit_depth: usize)
    requires
        old(dst).wf(),
        8 <= bit_depth <= 16,
    ensures
        final(dst).wf(),
        final(dst).width == old(dst).width,
        final(dst).height == old(dst).height,
        final(dst).rect_x == old(dst).rect_x,
        final(dst).rect_y == old(dst).rect_y,
        final(dst).xdec == old(dst).xdec,
        final(dst).ydec == old(dst).ydec,
        forall|c: int, r: int|
            0 <= c < final(dst).width && 0 <= r < final(dst).height ==> #[trigger] final(dst).at(
                c,
                r,
            ) == base_sample(bit_depth as nat),
{
    let val = base_sample_value(bit_depth);
    fill_uniform(dst, val);
}

/// DC prediction on the top row: the block becomes the rounded average
/// of the left run.
pub fn pred_dc_left(dst: &mut PlaneRegion, edge: &EdgeBuf)
    requires
        old(dst).wf(),
        edge.wf(),
        old(dst).height <= 64,
    ensures
        final(dst).wf(),
        final(dst).width == old(dst).width,
        final(dst).height == old(dst).height,
        final(dst).rect_x == old(dst).rect_x,
        final(dst).rect_y == old(dst).rect_y,
        final(dst).xdec == old(dst).xdec,
        final(dst).ydec == old(dst).ydec,
        forall|c: int, r: int|
            0 <= c < final(dst).width && 0 <= r < final(dst).height ==> #[trigger] final(dst).at(
                c,
                r,
            ) == (seq_sum_range(edge.left@, 128 - final(dst).height, 128) + final(dst).height / 2)
                / final(dst).height as int,
{
    let h = dst.height;
    let sum = sum_range_u32(&edge.left, 128 - h, 128);
    proof {
        lemma_sum_bounds(edge.left@, 128 - h as int, 128, 0xffff);
        lemma_avg_bound(sum as int, h as int, 0xffff);
    }
    let val: u32 = (sum + (h as u32) / 2) / (h as u32);
    fill_uniform(dst, val as u16);
}

/// DC prediction on the left column: the block becomes the rounded
/// average of the above run.
pub fn pred_dc_top(dst: &mut PlaneRegion, edge: &EdgeBuf)
    requires
        old(dst).wf(),
        edge.wf(),
        old(dst).width <= 64,
    ensures
        final(dst).wf(),
        final(dst).width == old(dst).width,
        final(dst).height == old(dst).height,
        final(dst).rect_x == old(dst).rect_x,
        final(dst).rect_y == old(dst).rect_y,
        final(dst).xdec == old(dst).xdec,
        final(dst).ydec == old(dst).ydec,
        forall|c: int, r: int|
            0 <= c < final(dst).width && 0 <= r < final(dst).height ==> #[trigger] final(dst).at(
                c,
                r,
            ) == (seq_sum_range(edge.above@, 0, final(dst).width as int) + final(dst).width / 2)
                / final(dst).width as int,
{
    let w = dst.width;
    let sum = sum_range_u32(&edge.above, 0, w);
    proof {
        lemma_sum_bounds(edge.above@, 0, w as int, 0xffff);
        lemma_avg_bound(sum as int, w as int, 0xffff);
    }
    let val: u32 = (sum + (w as u32) / 2) / (w as u32);
    fill_uniform(dst, val as u16);
}

/// Interior DC prediction: the block becomes the rounded average of the
/// above and left runs together.
pub fn pred_dc(dst: &mut PlaneRegion, edge: &EdgeBuf)
    requires
        old(dst).wf(),
        edge.wf(),
        old(dst).width <= 64,
        old(dst).height <= 64,
    ensures
        final(dst).wf(),
        final(dst).width == old(dst).width,
        final(dst).height == old(dst).height,
        final(dst).rect_x == old(dst).rect_x,
        final(dst).rect_y == old(dst).rect_y,
        final(dst).xdec == old(dst).xdec,
        final(dst).ydec == old(dst).ydec,
        forall|c: int, r: int|
            0 <= c < final(dst).width && 0 <= r < final(dst).height ==> #[trigger] final(dst).at(
                c,
                r,
            ) == ({
                let w = final(dst).width as int;
                let h = final(dst).height as int;
                (seq_sum_range(edge.above@, 0, w) + seq_sum_range(edge.left@, 128 - h, 128) + (w
                    + h) / 2) / (w + h)
            }),
{
    let w = dst.width;
    let h = dst.height;
    let sum_a = sum_range_u32(&edge.above, 0, w);
    let sum_l = sum_range_u32(&edge.left, 128 - h, 128);
    proof {
        lemma_sum_bounds(edge.above@, 0, w as int, 0xffff);
        lemma_sum_bounds(edge.left@, 128 - h as int, 128, 0xffff);
        assert(64 * 0xffff + 64 * 0xffff < 0x1000_0000) by (nonlinear_arith);
        lemma_avg_bound((sum_a + sum_l) as int, (w + h) as int, 0xffff);
        assert(sum_a + sum_l <= (w as int) * 0xffff + (h as int) * 0xffff);
        assert((w as int) * 0xffff + (h as int) * 0xffff == ((w + h) as int) * 0xffff)
            by (nonlinear_arith);
    }
    let cnt: u32 = w as u32 + h as u32;
    let val: u32 = (sum_a + sum_l + cnt / 2) / cnt;
    fill_uniform(dst, val as u16);
}

/// Horizontal prediction: each row is the sample to its left, repeated.
pub fn pred_h(dst: &mut PlaneRegion, edge: &EdgeBuf)
    requires
        old(dst).wf(),
        edge.wf(),
        old(dst).height <= 64,
    ensures
        final(dst).wf(),
        final(dst).width == old(dst).width,
        final(dst).height == old(dst).height,
        final(dst).rect_x == old(dst).rect_x,
        final(dst).rect_y == old(dst).rect_y,
        final(dst).xdec == old(dst).xdec,
        final(dst).ydec == old(dst).ydec,
        forall|c: int, r: int|
            0 <= c < final(dst).width && 0 <= r < final(dst).height ==> #[trigger] final(dst).at(
                c,
                r,
            ) == edge.left[127 - r],
{
    let w = dst.width;
    let h = dst.height;
    let mut r: usize = 0;
    while r < h
        invariant
            r <= h,
            h <= 64,
            dst.wf(),
            edge.wf(),
            dst.width == old(dst).width,
            dst.height == old(dst).height,
            dst.rect_x == old(dst).rect_x,
            dst.rect_y == old(dst).rect_y,
            dst.xdec == old(dst).xdec,
            dst.ydec == old(dst).ydec,
            w == dst.width,
            h == dst.height,
            forall|cc: int, rr: int|
                0 <= cc < w && 0 <= rr < r ==> #[trigger] dst.at(cc, rr) == edge.left[127 - rr],
        decreases h - r,
    {
        let val = edge.left[127 - r];
        let mut c: usize = 0;
        while c < w
            invariant
                c <= w,
                r < h,
                h <= 64,
                dst.wf(),
                edge.wf(),
                dst.width == old(dst).width,
                dst.height == old(dst).height,
                dst.rect_x == old(dst).rect_x,
                dst.rect_y == old(dst).rect_y,
                dst.xdec == old(dst).xdec,
                dst.ydec == old(dst).ydec,
                w == dst.width,
                h == dst.height,
                val == edge.left[127 - r],
                forall|cc: int, rr: int|
                    0 <= cc < w && 0 <= rr < r ==> #[trigger] dst.at(cc, rr) == edge.left[127 - rr],
                forall|cc: int|
                    0 <= cc < c ==> #[trigger] dst.at(cc, r as int) == edge.left[127 - r],
            decreases w - c,
        {
            dst.set_px(c, r, val);
            c = c + 1;
        }
        r = r + 1;
    }
}

/// Vertical prediction: each column is the sample above it, repeated.
pub fn pred_v(dst: &mut PlaneRegion, edge: &EdgeBuf)
    requires
        old(dst).wf(),
        edge.wf(),
        old(dst).width <= 64,
    ensures
        final(dst).wf(),
        final(dst).width == old(dst).width,
        final(dst).height == old(dst).height,
        final(dst).rect_x == old(dst).rect_x,
        final(dst).rect_y == old(dst).rect_y,
        final(dst).xdec == old(dst).xdec,
        final(dst).ydec == old(dst).ydec,
        forall|c: int, r: int|
            0 <= c < final(dst).width && 0 <= r < final(dst).height ==> #[trigger] final(dst).at(
                c,
                r,
            ) == edge.above[c],
{
    let w = dst.width;
    let h = dst.height;
    let mut r: usize = 0;
    while r < h
        invariant
            r <= h,
            w <= 64,
            dst.wf(),
            edge.wf(),
            dst.width == old(dst).width,
            dst.height == old(dst).height,
            dst.rect_x == old(dst).rect_x,
            dst.rect_y == old(dst).rect_y,
            dst.xdec == old(dst).xdec,
            dst.ydec == old(dst).ydec,
            w == dst.width,
            h == dst.height,
            forall|cc: int, rr: int|
                0 <= cc < w && 0 <= rr < r ==> #[trigger] dst.at(cc, rr) == edge.above[cc],
        decreases h - r,
    {
        let mut c: usize = 0;
        while c < w
            invariant
                c <= w,
                r < h,
                w <= 64,
                dst.wf(),
                edge.wf(),
                dst.width == old(dst).width,
                dst.height == old(dst).height,
                dst.rect_x == old(dst).rect_x,
                dst.rect_y == old(dst).rect_y,
                dst.xdec == old(dst).xdec,
                dst.ydec == old(dst).ydec,
                w == dst.width,
                h == dst.height,
                forall|cc: int, rr: int|
                    0 <= cc < w && 0 <= rr < r ==> #[trigger] dst.at(cc, rr) == edge.above[cc],
                forall|cc: int| 0 <= cc < c ==> #[trigger] dst.at(cc, r as int) == edge.above[cc],
            decreases w - c,
        {
            let val = edge.above[c];
            dst.set_px(c, r, val);
            c = c + 1;
        }
        r = r + 1;
    }
}

/// One PAETH choice, computed in wide arithmetic.
fn paeth_pixel(a: u16, l: u16, tl: u16) -> (r: u16)
    ensures
        r == paeth_value(a, l, tl),
{
    let p: i32 = a as i32 + l as i32 - tl as i32;
    let pa: i32 = if p >= a as i32 {
        p - a as i32
    } else {
        a as i32 - p
    };
    let pb: i32 = if p >= l as i32 {
        p - l as i32
    } else {
        l as i32 - p
    };
    let pc: i32 = if p >= tl as i32 {
        p - tl as i32
    } else {
        tl as i32 - p
    };
    if pa <= pb && pa <= pc {
        a
    } else if pb <= pc {
        l
    } else {
        tl
    }
}

/// PAETH prediction: per pixel, the gradient-clamped choice among the
/// above, left and top-left samples.
pub fn pred_paeth(dst: &mut PlaneRegion, edge: &EdgeBuf)
    requires
        old(dst).wf(),
        edge.wf(),
        old(dst).width <= 64,
        old(dst).height <= 64,
    ensures
        final(dst).wf(),
        final(dst).width == old(dst).width,
        final(dst).height == old(dst).height,
        final(dst).rect_x == old(dst).rect_x,
        final(dst).rect_y == old(dst).rect_y,
        final(dst).xdec == old(dst).xdec,
        final(dst).ydec == old(dst).ydec,
        forall|c: int, r: int|
            0 <= c < final(dst).width && 0 <= r < final(dst).height ==> #[trigger] final(dst).at(
                c,
                r,
            ) == paeth_value(edge.above[c], edge.left[127 - r], edge.top_left),
{
    let w = dst.width;
    let h = dst.height;
    let tl = edge.top_left;
    let mut r: usize = 0;
    while r < h
        invariant
            r <= h,
            w <= 64,
            h <= 64,
            dst.wf(),
            edge.wf(),
            dst.width == old(dst).width,
            dst.height == old(dst).height,
            dst.rect_x == old(dst).rect_x,
            dst.rect_y == old(dst).rect_y,
            dst.xdec == old(dst).xdec,
            dst.ydec == old(dst).ydec,
            w == dst.width,
            h == dst.height,
            tl == edge.top_left,
            forall|cc: int, rr: int|
                0 <= cc < w && 0 <= rr < r ==> #[trigger] dst.at(cc, rr) == paeth_value(
                    edge.above[cc],
                    edge.left[127 - rr],
                    edge.top_left,
                ),
        decreases h - r,
    {
        let lv = edge.left[127 - r];
        let mut c: usize = 0;
        while c < w
            invariant
                c <= w,
                r < h,
                w <= 64,
                h <= 64,
                dst.wf(),
                edge.wf(),
                dst.width == old(dst).width,
                dst.height == old(dst).height,
                dst.rect_x == old(dst).rect_x,
                dst.rect_y == old(dst).rect_y,
                dst.xdec == old(dst).xdec,
                dst.ydec == old(dst).ydec,
                w == dst.width,
                h == dst.height,
                tl == edge.top_left,
                lv == edge.left[127 - r],
                forall|cc: int, rr: int|
                    0 <= cc < w && 0 <= rr < r ==> #[trigger] dst.at(cc, rr) == paeth_value(
                        edge.above[cc],
                        edge.left[127 - rr],
                        edge.top_left,
                    ),
                forall|cc: int|
                    0 <= cc < c ==> #[trigger] dst.at(cc, r as int) == paeth_value(
                        edge.above[cc],
                        edge.left[127 - r],
                        edge.top_left,
                    ),
            decreases w - c,
        {
            let av = edge.above[c];
            let val = paeth_pixel(av, lv, tl);
            dst.set_px(c, r, val);
            c = c + 1;
        }
        r = r + 1;
    }
}

/// One chroma-from-luma corrected sample: the DC value biased by the
/// scaled AC coefficient, clamped to the representable range.
fn cfl_pixel(dc: u16, alpha: i16, ac: i16, max: u16) -> (r: u16)
    ensures
        r == clamp_value(dc + cfl_delta(alpha as int, ac as int), max as int),
{
    proof {
        assert(-0x4000_0000 <= alpha as int * ac as int <= 0x4000_0000) by (nonlinear_arith)
            requires
                -0x8000 <= alpha as int <= 0x7fff,
                -0x8000 <= ac as int <= 0x7fff,
        ;
    }
    let p: i32 = alpha as i32 * ac as i32;
    let delta: i32 = if p >= 0 {
        (p + 32) / 64
    } else {
        -((-p + 32) / 64)
    };
    let v: i32 = dc as i32 + delta;
    if v < 0 {
        0
    } else if v > max as i32 {
        max
    } else {
        v as u16
    }
}

/// Chroma-from-luma prediction around a given DC base value: per pixel
/// the base plus the scaled AC coefficient, clamped.
pub fn pred_cfl_inner(
    dst: &mut PlaneRegion,
    ac: &Vec<i16>,
    alpha: i16,
    bit_depth: usize,
    dc: u16,
)
    requires
        old(dst).wf(),
        8 <= bit_depth <= 16,
        ac.len() >= old(dst).width * old(dst).height,
        old(dst).width <= 64,
        old(dst).height <= 64,
    ensures
        final(dst).wf(),
        final(dst).width == old(dst).width,
        final(dst).height == old(dst).height,
        final(dst).rect_x == old(dst).rect_x,
        final(dst).rect_y == old(dst).rect_y,
        final(dst).xdec == old(dst).xdec,
        final(dst).ydec == old(dst).ydec,
        forall|c: int, r: int|
            0 <= c < final(dst).width && 0 <= r < final(dst).height ==> #[trigger] final(dst).at(
                c,
                r,
            ) == clamp_value(
                dc + cfl_delta(alpha as int, ac[r * final(dst).width + c] as int),
                max_sample(bit_depth as nat),
            ),
{
    let w = dst.width;
    let h = dst.height;
    let max = max_sample_value(bit_depth);
    let mut r: usize = 0;
    while r < h
        invariant
            r <= h,
            w <= 64,
            h <= 64,
            dst.wf(),
            8 <= bit_depth <= 16,
            ac.len() >= w * h,
            max == max_sample(bit_depth as nat),
            dst.width == old(dst).width,
            dst.height == old(dst).height,
            dst.rect_x == old(dst).rect_x,
            dst.rect_y == old(dst).rect_y,
            dst.xdec == old(dst).xdec,
            dst.ydec == old(dst).ydec,
            w == dst.width,
            h == dst.height,
            forall|cc: int, rr: int|
                0 <= cc < w && 0 <= rr < r ==> #[trigger] dst.at(cc, rr) == clamp_value(
                    dc + cfl_delta(alpha as int, ac[rr * w + cc] as int),
                    max_sample(bit_depth as nat),
                ),
        decreases h - r,
    {
        let mut c: usize = 0;
        while c < w
            invariant
                c <= w,
                r < h,
                w <= 64,
                h <= 64,
                dst.wf(),
                8 <= bit_depth <= 16,
                ac.len() >= w * h,
                max == max_sample(bit_depth as nat),
                dst.width == old(dst).width,
                dst.height == old(dst).height,
                dst.rect_x == old(dst).rect_x,
                dst.rect_y == old(dst).rect_y,
                dst.xdec == old(dst).xdec,
                dst.ydec == old(dst).ydec,
                w == dst.width,
                h == dst.height,
                forall|cc: int, rr: int|
                    0 <= cc < w && 0 <= rr < r ==> #[trigger] dst.at(cc, rr) == clamp_value(
                        dc + cfl_delta(alpha as int, ac[rr * w + cc] as int),
                        max_sample(bit_depth as nat),
                    ),
                forall|cc: int|
                    0 <= cc < c ==> #[trigger] dst.at(cc, r as int) == clamp_value(
                        dc + cfl_delta(alpha as int, ac[r * w + cc] as int),
                        max_sample(bit_depth as nat),
                    ),
            decreases w - c,
        {
            proof {
                crate::plane::lemma_rc_index(w as int, h as int, c as int, r as int);
                assert((h as int) * (w as int) == (w as int) * (h as int)) by (nonlinear_arith);
            }
            let coeff = ac[r * w + c];
            let val = cfl_pixel(dc, alpha, coeff, max);
            dst.set_px(c, r, val);
            c = c + 1;
        }
        r = r + 1;
    }
}

/// A nonnegative value below `k * (m + 1)` divides by `k` to at most `m`.
proof fn lemma_div_below(x: int, k: int, m: int)
    requires
        0 <= x,
        x < k * (m + 1),
        k >= 1,
        m >= 0,
    ensures
        0 <= x / k <= m,
{
    let q = x / k;
    vstd::arithmetic::div_mod::lemma_fundamental_div_mod(x, k);
    vstd::arithmetic::div_mod::lemma_mod_bound(x, k);
    assert(k * q <= x);
    assert(q <= m) by (nonlinear_arith)
        requires
            k * q <= x,
            x < k * (m + 1),
            k >= 1,
    ;
    assert(q >= 0) by (nonlinear_arith)
        requires
            x == k * q + x % k,
            0 <= x % k < k,
            x >= 0,
            k >= 1,
    ;
}

/// A two-sample blend at a 1/32 fractional position, bounded by the
/// inputs' bound.
fn blend_frac32(a0: u16, a1: u16, s: u32, max: u16) -> (r: u16)
    requires
        s <= 32,
        a0 <= max,
        a1 <= max,
    ensures
        r <= max,
{
    proof {
        assert(a0 as int * (32 - s as int) <= max as int * (32 - s as int)) by (nonlinear_arith)
            requires
                a0 <= max,
                s <= 32,
        ;
        assert(a1 as int * (s as int) <= max as int * (s as int)) by (nonlinear_arith)
            requires
                a1 <= max,
                0 <= s,
        ;
        assert(max as int * (32 - s as int) + max as int * (s as int) == 32 * (max as int))
            by (nonlinear_arith);
        lemma_div_below(
            a0 as int * (32 - s as int) + a1 as int * (s as int) + 16,
            32,
            max as int,
        );
    }
    let sum: u32 = a0 as u32 * (32 - s) + a1 as u32 * s + 16;
    (sum / 32) as u16
}

/// A two-sample blend with weights summing to 256, bounded by the
/// inputs' bound.
fn blend_w256(p0: u16, p1: u16, w0: u32, max: u16) -> (r: u16)
    requires
        w0 <= 256,
        p0 <= max,
        p1 <= max,
    ensures
        r <= max,
{
    proof {
        assert(p0 as int * (w0 as int) <= max as int * (w0 as int)) by (nonlinear_arith)
            requires
                p0 <= max,
                0 <= w0,
        ;
        assert(p1 as int * (256 - w0 as int) <= max as int * (256 - w0 as int)) by (nonlinear_arith)
            requires
                p1 <= max,
                w0 <= 256,
        ;
        assert(max as int * (w0 as int) + max as int * (256 - w0 as int) == 256 * (max as int))
            by (nonlinear_arith);
        lemma_div_below(
            p0 as int * (w0 as int) + p1 as int * (256 - w0 as int) + 128,
            256,
            max as int,
        );
    }
    let sum: u32 = p0 as u32 * w0 + p1 as u32 * (256 - w0) + 128;
    (sum / 256) as u16
}

/// A four-sample blend with two weight pairs each summing to 256,
/// bounded by the inputs' bound.
fn blend_w512(p0: u16, p1: u16, p2: u16, p3: u16, w0: u32, w2: u32, max: u16) -> (r: u16)
    requires
        w0 <= 256,
        w2 <= 256,
        p0 <= max,
        p1 <= max,
        p2 <= max,
        p3 <= max,
    ensures
        r <= max,
{
    proof {
        assert(p0 as int * (w0 as int) <= max as int * (w0 as int)) by (nonlinear_arith)
            requires
                p0 <= max,
                0 <= w0,
        ;
        assert(p1 as int * (256 - w0 as int) <= max as int * (256 - w0 as int)) by (nonlinear_arith)
            requires
                p1 <= max,
                w0 <= 256,
        ;
        assert(p2 as int * (w2 as int) <= max as int * (w2 as int)) by (nonlinear_arith)
            requires
                p2 <= max,
                0 <= w2,
        ;
        assert(p3 as int * (256 - w2 as int) <= max as int * (256 - w2 as int)) by (nonlinear_arith)
            requires
                p3 <= max,
                w2 <= 256,
        ;
        assert(max as int * (w0 as int) + max as int * (256 - w0 as int) + max as int * (
        w2 as int) + max as int * (256 - w2 as int) == 512 * (max as int)) by (nonlinear_arith);
        lemma_div_below(
            p0 as int * (w0 as int) + p1 as int * (256 - w0 as int) + p2 as int * (w2 as int)
                + p3 as int * (256 - w2 as int) + 256,
            512,
            max as int,
        );
    }
    let sum: u32 = p0 as u32 * w0 + p1 as u32 * (256 - w0) + p2 as u32 * w2 + p3 as u32 * (256
        - w2) + 256;
    (sum / 512) as u16
}

/// The smooth-blend weight for a dimension and offset. The weights fall
/// from 255 toward the far edge and pair with their complement to 256.
fn sm_weight(dim: usize, i: usize) -> (r: u8)
    requires
        i < dim,
        dim == 4 || dim == 8 || dim == 16 || dim == 32 || dim == 64,
{
    if dim == 4 {
        let t: [u8; 4] = [255, 149, 85, 64];
        t[i]
    } else if dim == 8 {
        let t: [u8; 8] = [255, 197, 146, 105, 73, 50, 37, 32];
        t[i]
    } else if dim == 16 {
        let t: [u8; 16] = [255, 225, 196, 170, 145, 123, 102, 84, 68, 54, 43, 33, 26, 20, 17, 16];
        t[i]
    } else if dim == 32 {
        let t: [u8; 32] = [255, 240, 225, 210, 196, 182, 169, 157, 145, 133, 122, 111, 101, 92,
            83, 74, 66, 59, 52, 45, 39, 34, 29, 25, 21, 17, 14, 12, 10, 9, 8, 8];
        t[i]
    } else {
        let t: [u8; 64] = [255, 248, 240, 233, 225, 218, 210, 203, 196, 189, 182, 176, 169, 163,
            156, 150, 144, 138, 133, 127, 121, 116, 111, 106, 101, 96, 91, 86, 82, 77, 73, 69, 65,
            61, 57, 54, 50, 47, 44, 41, 38, 35, 32, 29, 27, 25, 22, 20, 18, 16, 15, 13, 12, 10, 9,
            8, 7, 6, 6, 5, 5, 4, 4, 4];
        t[i]
    }
}

/// Smooth prediction: each pixel blends the above and left samples
/// toward the estimated bottom-left and top-right corners, with fixed
/// weights by block size. Every output stays representable.
pub fn pred_smooth(dst: &mut PlaneRegion, edge: &EdgeBuf, bit_depth: usize)
    requires
        old(dst).wf(),
        edge.wf(),
        edge.samples_bounded(bit_depth as nat),
        8 <= bit_depth <= 16,
        old(dst).width == 4 || old(dst).width == 8 || old(dst).width == 16 || old(dst).width == 32
            || old(dst).width == 64,
        old(dst).height == 4 || old(dst).height == 8 || old(dst).height == 16 || old(dst).height
            == 32 || old(dst).height == 64,
    ensures
        final(dst).wf(),
        final(dst).width == old(dst).width,
        final(dst).height == old(dst).height,
        final(dst).rect_x == old(dst).rect_x,
        final(dst).rect_y == old(dst).rect_y,
        final(dst).xdec == old(dst).xdec,
        final(dst).ydec == old(dst).ydec,
        forall|c: int, r: int|
            0 <= c < final(dst).width && 0 <= r < final(dst).height ==> #[trigger] final(dst).at(
                c,
                r,
            ) <= max_sample(bit_depth as nat),
{
    let w = dst.width;
    let h = dst.height;
    let max = max_sample_value(bit_depth);
    let below = edge.left[128 - h];
    let right = edge.above[w - 1];
    proof {
        assert(edge.left@[128 - h as int] <= max_sample(bit_depth as nat));
        assert(edge.above@[w as int - 1] <= max_sample(bit_depth as nat));
    }
    let mut r: usize = 0;
    while r < h
        invariant
            r <= h,
            dst.wf(),
            edge.wf(),
            edge.samples_bounded(bit_depth as nat),
            8 <= bit_depth <= 16,
            max == max_sample(bit_depth as nat),
            below <= max,
            right <= max,
            dst.width == old(dst).width,
            dst.height == old(dst).height,
            dst.rect_x == old(dst).rect_x,
            dst.rect_y == old(dst).rect_y,
            dst.xdec == old(dst).xdec,
            dst.ydec == old(dst).ydec,
            w == dst.width,
            h == dst.height,
            w == 4 || w == 8 || w == 16 || w == 32 || w == 64,
            h == 4 || h == 8 || h == 16 || h == 32 || h == 64,
            forall|cc: int, rr: int|
                0 <= cc < w && 0 <= rr < r ==> #[trigger] dst.at(cc, rr) <= max_sample(
                    bit_depth as nat,
                ),
        decreases h - r,
    {
        let lv = edge.left[127 - r];
        let wh = sm_weight(h, r) as u32;
        let mut c: usize = 0;
        while c < w
            invariant
                c <= w,
                r < h,
                dst.wf(),
                edge.wf(),
                edge.samples_bounded(bit_depth as nat),
                8 <= bit_depth <= 16,
                max == max_sample(bit_depth as nat),
                below <= max,
                right <= max,
                lv <= max,
                wh <= 256,
                dst.width == old(dst).width,
                dst.height == old(dst).height,
                dst.rect_x == old(dst).rect_x,
                dst.rect_y == old(dst).rect_y,
                dst.xdec == old(dst).xdec,
                dst.ydec == old(dst).ydec,
                w == dst.width,
                h == dst.height,
                w == 4 || w == 8 || w == 16 || w == 32 || w == 64,
                forall|cc: int, rr: int|
                    0 <= cc < w && 0 <= rr < r ==> #[trigger] dst.at(cc, rr) <= max_sample(
                        bit_depth as nat,
                    ),
                forall|cc: int|
                    0 <= cc < c ==> #[trigger] dst.at(cc, r as int) <= max_sample(
                        bit_depth as nat,
                    ),
            decreases w - c,
        {
            let av = edge.above[c];
            let ww = sm_weight(w, c) as u32;
            let val = blend_w512(av, below, lv, right, wh, ww, max);
            dst.set_px(c, r, val);
            c = c + 1;
        }
        r = r + 1;
    }
}

/// Smooth-horizontal prediction: each pixel blends the left sample
/// toward the estimated top-right corner. Every output stays
/// representable.
pub fn pred_smooth_h(dst: &mut PlaneRegion, edge: &EdgeBuf, bit_depth: usize)
    requires
        old(dst).wf(),
        edge.wf(),
        edge.samples_bounded(bit_depth as nat),
        8 <= bit_depth <= 16,
        old(dst).width == 4 || old(dst).width == 8 || old(dst).width == 16 || old(dst).width == 32
            || old(dst).width == 64,
        old(dst).height <= 64,
    ensures
        final(dst).wf(),
        final(dst).width == old(dst).width,
        final(dst).height == old(dst).height,
        final(dst).rect_x == old(dst).rect_x,
        final(dst).rect_y == old(dst).rect_y,
        final(dst).xdec == old(dst).xdec,
        final(dst).ydec == old(dst).ydec,
        forall|c: int, r: int|
            0 <= c < final(dst).width && 0 <= r < final(dst).height ==> #[trigger] final(dst).at(
                c,
                r,
            ) <= max_sample(bit_depth as nat),
{
    let w = dst.width;
    let h = dst.height;
    let max = max_sample_value(bit_depth);
    let right = edge.above[w - 1];
    let mut r: usize = 0;
    while r < h
        invariant
            r <= h,
            dst.wf(),
            edge.wf(),
            edge.samples_bounded(bit_depth as nat),
            8 <= bit_depth <= 16,
            max == max_sample(bit_depth as nat),
            right <= max,
            dst.width == old(dst).width,
            dst.height == old(dst).height,
            dst.rect_x == old(dst).rect_x,
            dst.rect_y == old(dst).rect_y,
            dst.xdec == old(dst).xdec,
            dst.ydec == old(dst).ydec,
            w == dst.width,
            h == dst.height,
            h <= 64,
            w == 4 || w == 8 || w == 16 || w == 32 || w == 64,
            forall|cc: int, rr: int|
                0 <= cc < w && 0 <= rr < r ==> #[trigger] dst.at(cc, rr) <= max_sample(
                    bit_depth as nat,
                ),
        decreases h - r,
    {
        let lv = edge.left[127 - r];
        let mut c: usize = 0;
        while c < w
            invariant
                c <= w,
                r < h,
                dst.wf(),
                edge.wf(),
                edge.samples_bounded(bit_depth as nat),
                8 <= bit_depth <= 16,
                max == max_sample(bit_depth as nat),
                right <= max,
                lv <= max,
                dst.width == old(dst).width,
                dst.height == old(dst).height,
                dst.rect_x == old(dst).rect_x,
                dst.rect_y == old(dst).rect_y,
                dst.xdec == old(dst).xdec,
                dst.ydec == old(dst).ydec,
                w == dst.width,
                h == dst.height,
                w == 4 || w == 8 || w == 16 || w == 32 || w == 64,
                forall|cc: int, rr: int|
                    0 <= cc < w && 0 <= rr < r ==> #[trigger] dst.at(cc, rr) <= max_sample(
                        bit_depth as nat,
                    ),
                forall|cc: int|
                    0 <= cc < c ==> #[trigger] dst.at(cc, r as int) <= max_sample(
                        bit_depth as nat,
                    ),
            decreases w - c,
        {
            let ww = sm_weight(w, c) as u32;
            let val = blend_w256(lv, right, ww, max);
            dst.set_px(c, r, val);
            c = c + 1;
        }
        r = r + 1;
    }
}

/// Smooth-vertical prediction: each pixel blends the above sample
/// toward the estimated bottom-left corner. Every output stays
/// representable.
pub fn pred_smooth_v(dst: &mut PlaneRegion, edge: &EdgeBuf, bit_depth: usize)
    requires
        old(dst).wf(),
        edge.wf(),
        edge.samples_bounded(bit_depth as nat),
        8 <= bit_depth <= 16,
        old(dst).height == 4 || old(dst).height == 8 || old(dst).height == 16 || old(
            dst,
        ).height == 32 || old(dst).height == 64,
        old(dst).width <= 64,
    ensures
        final(dst).wf(),
        final(dst).width == old(dst).width,
        final(dst).height == old(dst).height,
        final(dst).rect_x == old(dst).rect_x,
        final(dst).rect_y == old(dst).rect_y,
        final(dst).xdec == old(dst).xdec,
        final(dst).ydec == old(dst).ydec,
        forall|c: int, r: int|
            0 <= c < final(dst).width && 0 <= r < final(dst).height ==> #[trigger] final(dst).at(
                c,
                r,
            ) <= max_sample(bit_depth as nat),
{
    let w = dst.width;
    let h = dst.height;
    let max = max_sample_value(bit_depth);
    let below = edge.left[128 - h];
    let mut r: usize = 0;
    while r < h
        invariant
            r <= h,
            dst.wf(),
            edge.wf(),
            edge.samples_bounded(bit_depth as nat),
            8 <= bit_depth <= 16,
            max == max_sample(bit_depth as nat),
            below <= max,
            dst.width == old(dst).width,
            dst.height == old(dst).height,
            dst.rect_x == old(dst).rect_x,
            dst.rect_y == old(dst).rect_y,
            dst.xdec == old(dst).xdec,
            dst.ydec == old(dst).ydec,
            w == dst.width,
            h == dst.height,
            w <= 64,
            h == 4 || h == 8 || h == 16 || h == 32 || h == 64,
            forall|cc: int, rr: int|
                0 <= cc < w && 0 <= rr < r ==> #[trigger] dst.at(cc, rr) <= max_sample(
                    bit_depth as nat,
                ),
        decreases h - r,
    {
        let wh = sm_weight(h, r) as u32;
        let mut c: usize = 0;
        while c < w
            invariant
                c <= w,
                r < h,
                dst.wf(),
                edge.wf(),
                edge.samples_bounded(bit_depth as nat),
                8 <= bit_depth <= 16,
                max == max_sample(bit_depth as nat),
                below <= max,
                wh <= 256,
                dst.width == old(dst).width,
                dst.height == old(dst).height,
                dst.rect_x == old(dst).rect_x,
                dst.rect_y == old(dst).rect_y,
                dst.xdec == old(dst).xdec,
                dst.ydec == old(dst).ydec,
                w == dst.width,
                h == dst.height,
                w <= 64,
                forall|cc: int, rr: int|
                    0 <= cc < w && 0 <= rr < r ==> #[trigger] dst.at(cc, rr) <= max_sample(
                        bit_depth as nat,
                    ),
                forall|cc: int|
                    0 <= cc < c ==> #[trigger] dst.at(cc, r as int) <= max_sample(
                        bit_depth as nat,
                    ),
            decreases w - c,
        {
            let av = edge.above[c];
            let val = blend_w256(av, below, wh, max);
            dst.set_px(c, r, val);
            c = c + 1;
        }
        r = r + 1;
    }
}

/// The directional-interpolation step per 64 sub-positions, by angle.
fn dir_step(angle: usize) -> (r: u32)
    requires
        angle == 45 || angle == 67 || angle == 113 || angle == 135 || angle == 157 || angle
            == 203,
    ensures
        1 <= r <= 151,
{
    if angle == 45 || angle == 135 {
        64
    } else if angle == 67 || angle == 113 {
        27
    } else {
        151
    }
}

/// The second step of a mid-range angle, along the other axis.
fn dir_step_other(angle: usize) -> (r: u32)
    requires
        angle == 113 || angle == 135 || angle == 157,
    ensures
        1 <= r <= 151,
{
    if angle == 113 {
        151
    } else if angle == 135 {
        64
    } else {
        27
    }
}

/// An above-run sample at a possibly out-of-range index: the top-left
/// sample below zero, the last run sample past the end.
fn above_px(edge: &EdgeBuf, i: i64, w: usize, h: usize, Ghost(bd): Ghost<nat>) -> (r: u16)
    requires
        edge.wf(),
        edge.samples_bounded(bd),
        4 <= w <= 64,
        4 <= h <= 64,
        -0x1_0000 <= i <= 0x1_0000,
    ensures
        r <= max_sample(bd),
{
    if i < 0 {
        edge.top_left
    } else {
        let mut idx = i as usize;
        if idx > w + h - 1 {
            idx = w + h - 1;
        }
        edge.above[idx]
    }
}

/// A left-run sample at a possibly out-of-range row: the top-left
/// sample above zero, the lowest run sample past the end.
fn left_px(edge: &EdgeBuf, j: i64, w: usize, h: usize, Ghost(bd): Ghost<nat>) -> (r: u16)
    requires
        edge.wf(),
        edge.samples_bounded(bd),
        4 <= w <= 64,
        4 <= h <= 64,
        -0x1_0000 <= j <= 0x1_0000,
    ensures
        r <= max_sample(bd),
{
    if j < 0 {
        edge.top_left
    } else {
        let mut jj = j as usize;
        if jj > h + w - 1 {
            jj = h + w - 1;
        }
        edge.left[127 - jj]
    }
}

/// One pixel of an up-right (below 90 degrees) directional prediction,
/// interpolated along the above run.
fn dir_px_up_right(
    edge: &EdgeBuf,
    w: usize,
    h: usize,
    r: usize,
    c: usize,
    dx: u32,
    max: u16,
    Ghost(bd): Ghost<nat>,
) -> (v: u16)
    requires
        edge.wf(),
        edge.samples_bounded(bd),
        max == max_sample(bd),
        4 <= w <= 64,
        4 <= h <= 64,
        r < h,
        c < w,
        1 <= dx <= 151,
    ensures
        v <= max,
{
    proof {
        assert((dx as int) * (r as int + 1) <= 151 * 64) by (nonlinear_arith)
            requires
                1 <= dx <= 151,
                0 <= r < 64,
        ;
    }
    let x: u32 = dx * (r as u32 + 1);
    let base: i64 = (x / 64) as i64 + c as i64;
    let frac: u32 = (x % 64) / 2;
    let a0 = above_px(edge, base, w, h, Ghost(bd));
    let a1 = above_px(edge, base + 1, w, h, Ghost(bd));
    blend_frac32(a0, a1, frac, max)
}

/// One pixel of a down-left (above 180 degrees) directional prediction,
/// interpolated along the left run.
fn dir_px_down_left(
    edge: &EdgeBuf,
    w: usize,
    h: usize,
    r: usize,
    c: usize,
    dy: u32,
    max: u16,
    Ghost(bd): Ghost<nat>,
) -> (v: u16)
    requires
        edge.wf(),
        edge.samples_bounded(bd),
        max == max_sample(bd),
        4 <= w <= 64,
        4 <= h <= 64,
        r < h,
        c < w,
        1 <= dy <= 151,
    ensures
        v <= max,
{
    proof {
        assert((dy as int) * (c as int + 1) <= 151 * 64) by (nonlinear_arith)
            requires
                1 <= dy <= 151,
                0 <= c < 64,
        ;
    }
    let y: u32 = dy * (c as u32 + 1);
    let base: i64 = (y / 64) as i64 + r as i64;
    let frac: u32 = (y % 64) / 2;
    let l0 = left_px(edge, base, w, h, Ghost(bd));
    let l1 = left_px(edge, base + 1, w, h, Ghost(bd));
    blend_frac32(l0, l1, frac, max)
}

/// One pixel of a mid-range (between 90 and 180 degrees) directional
/// prediction: along the above run where the projection lands right of
/// the corner, else along the left run, the top-left sample serving as
/// the shared origin.
fn dir_px_mid(
    edge: &EdgeBuf,
    w: usize,
    h: usize,
    r: usize,
    c: usize,
    dx: u32,
    dy: u32,
    max: u16,
    Ghost(bd): Ghost<nat>,
) -> (v: u16)
    requires
        edge.wf(),
        edge.samples_bounded(bd),
        max == max_sample(bd),
        4 <= w <= 64,
        4 <= h <= 64,
        r < h,
        c < w,
        1 <= dx <= 151,
        1 <= dy <= 151,
    ensures
        v <= max,
{
    proof {
        assert(0 <= (r as int + 1) * (dx as int) <= 151 * 64) by (nonlinear_arith)
            requires
                1 <= dx <= 151,
                0 <= r < 64,
        ;
        assert(0 <= (c as int + 1) * (dy as int) <= 151 * 64) by (nonlinear_arith)
            requires
                1 <= dy <= 151,
                0 <= c < 64,
        ;
    }
    let xv: i64 = 64 * (c as i64) - (r as i64 + 1) * (dx as i64);
    let xs: u64 = (xv + 262144) as u64;
    let bx: i64 = (xs / 64) as i64 - 4096;
    if bx >= -1 {
        let frac: u32 = ((xs % 64) / 2) as u32;
        let a0 = above_px(edge, bx, w, h, Ghost(bd));
        let a1 = above_px(edge, bx + 1, w, h, Ghost(bd));
        blend_frac32(a0, a1, frac, max)
    } else {
        let yv: i64 = 64 * (r as i64) - (c as i64 + 1) * (dy as i64);
        let ys: u64 = (yv + 262144) as u64;
        let by: i64 = (ys / 64) as i64 - 4096;
        let frac: u32 = ((ys % 64) / 2) as u32;
        let l0 = left_px(edge, by, w, h, Ghost(bd));
        let l1 = left_px(edge, by + 1, w, h, Ghost(bd));
        blend_frac32(l0, l1, frac, max)
    }
}

/// Directional prediction at one of the six coded angles, two-tap
/// interpolation at 1/32-pixel positions along the edge runs. Every
/// output stays representable.
pub fn pred_directional(dst: &mut PlaneRegion, edge: &EdgeBuf, angle: usize, bit_depth: usize)
    requires
        old(dst).wf(),
        edge.wf(),
        edge.samples_bounded(bit_depth as nat),
        8 <= bit_depth <= 16,
        angle == 45 || angle == 67 || angle == 113 || angle == 135 || angle == 157 || angle
            == 203,
        4 <= old(dst).width <= 64,
        4 <= old(dst).height <= 64,
    ensures
        final(dst).wf(),
        final(dst).width == old(dst).width,
        final(dst).height == old(dst).height,
        final(dst).rect_x == old(dst).rect_x,
        final(dst).rect_y == old(dst).rect_y,
        final(dst).xdec == old(dst).xdec,
        final(dst).ydec == old(dst).ydec,
        forall|c: int, r: int|
            0 <= c < final(dst).width && 0 <= r < final(dst).height ==> #[trigger] final(dst).at(
                c,
                r,
            ) <= max_sample(bit_depth as nat),
{
    let w = dst.width;
    let h = dst.height;
    let max = max_sample_value(bit_depth);
    let dx = dir_step(angle);
    let dy: u32 = if angle == 113 || angle == 135 || angle == 157 {
        dir_step_other(angle)
    } else {
        1
    };
    let mut r: usize = 0;
    while r < h
        invariant
            r <= h,
            dst.wf(),
            edge.wf(),
            edge.samples_bounded(bit_depth as nat),
            8 <= bit_depth <= 16,
            max == max_sample(bit_depth as nat),
            1 <= dx <= 151,
            1 <= dy <= 151,
            angle == 45 || angle == 67 || angle == 113 || angle == 135 || angle == 157 || angle
                == 203,
            dst.width == old(dst).width,
            dst.height == old(dst).height,
            dst.rect_x == old(dst).rect_x,
            dst.rect_y == old(dst).rect_y,
            dst.xdec == old(dst).xdec,
            dst.ydec == old(dst).ydec,
            w == dst.width,
            h == dst.height,
            4 <= w <= 64,
            4 <= h <= 64,
            forall|cc: int, rr: int|
                0 <= cc < w && 0 <= rr < r ==> #[trigger] dst.at(cc, rr) <= max_sample(
                    bit_depth as nat,
                ),
        decreases h - r,
    {
        let mut c: usize = 0;
        while c < w
            invariant
                c <= w,
                r < h,
                dst.wf(),
                edge.wf(),
                edge.samples_bounded(bit_depth as nat),
                8 <= bit_depth <= 16,
                max == max_sample(bit_depth as nat),
                1 <= dx <= 151,
                1 <= dy <= 151,
                angle == 45 || angle == 67 || angle == 113 || angle == 135 || angle == 157
                    || angle == 203,
                dst.width == old(dst).width,
                dst.height == old(dst).height,
                dst.rect_x == old(dst).rect_x,
                dst.rect_y == old(dst).rect_y,
                dst.xdec == old(dst).xdec,
                dst.ydec == old(dst).ydec,
                w == dst.width,
                h == dst.height,
                4 <= w <= 64,
                4 <= h <= 64,
                forall|cc: int, rr: int|
                    0 <= cc < w && 0 <= rr < r ==> #[trigger] dst.at(cc, rr) <= max_sample(
                        bit_depth as nat,
                    ),
                forall|cc: int|
                    0 <= cc < c ==> #[trigger] dst.at(cc, r as int) <= max_sample(
                        bit_depth as nat,
                    ),
            decreases w - c,
        {
            let val = if angle < 90 {
                dir_px_up_right(edge, w, h, r, c, dx, max, Ghost(bit_depth as nat))
            } else if angle > 180 {
                dir_px_down_left(edge, w, h, r, c, dx, max, Ghost(bit_depth as nat))
            } else {
                dir_px_mid(edge, w, h, r, c, dx, dy, max, Ghost(bit_depth as nat))
            };
            dst.set_px(c, r, val);
            c = c + 1;
        }
        r = r + 1;
    }
}


/// The DC fill value for a block position, without writing it.
pub fn dc_value(edge: &EdgeBuf, x: usize, y: usize, w: usize, h: usize, bit_depth: usize) -> (v:
    u16)
    requires
        edge.wf(),
        1 <= w <= 64,
        1 <= h <= 64,
        8 <= bit_depth <= 16,
    ensures
        v == dc_fill_value(*edge, x as int, y as int, w as int, h as int, bit_depth as nat),
{
    if x == 0 && y == 0 {
        base_sample_value(bit_depth)
    } else if y == 0 {
        let sum = sum_range_u32(&edge.left, 128 - h, 128);
        proof {
            lemma_sum_bounds(edge.left@, 128 - h as int, 128, 0xffff);
            lemma_avg_bound(sum as int, h as int, 0xffff);
        }
        ((sum + (h as u32) / 2) / (h as u32)) as u16
    } else if x == 0 {
        let sum = sum_range_u32(&edge.above, 0, w);
        proof {
            lemma_sum_bounds(edge.above@, 0, w as int, 0xffff);
            lemma_avg_bound(sum as int, w as int, 0xffff);
        }
        ((sum + (w as u32) / 2) / (w as u32)) as u16
    } else {
        let sum_a = sum_range_u32(&edge.above, 0, w);
        let sum_l = sum_range_u32(&edge.left, 128 - h, 128);
        proof {
            lemma_sum_bounds(edge.above@, 0, w as int, 0xffff);
            lemma_sum_bounds(edge.left@, 128 - h as int, 128, 0xffff);
            lemma_avg_bound((sum_a + sum_l) as int, (w + h) as int, 0xffff);
            assert((w as int) * 0xffff + (h as int) * 0xffff == ((w + h) as int) * 0xffff)
                by (nonlinear_arith);
        }
        let cnt: u32 = w as u32 + h as u32;
        ((sum_a + sum_l + cnt / 2) / cnt) as u16
    }
}

} // verus!

