//! Geometry configuration: the fixed constants of the coding scheme.
//!
//! Every dimension in the crate derives from these: the minimum coding
//! unit ("mi") is 4 pixels on a side, a superblock spans 64 pixels, and
//! no transform exceeds 64 pixels in either dimension.

use vstd::prelude::*;

verus! {

/// Log2 of the minimum-unit size in pixels.
pub const MI_SIZE_LOG2: usize = 2;

/// The minimum-unit ("mi") size in pixels.
pub const MI_SIZE: usize = 4;

/// A superblock's span in minimum units (64 pixels / 4).
pub const SB_UNITS: usize = 16;

/// Mask that reduces a position in minimum units to its
/// superblock-local range.
pub const LOCAL_BLOCK_MASK: usize = 15;

/// The largest transform dimension in pixels.
pub const MAX_TX_SIZE: usize = 64;

/// Length of each edge-buffer run (twice the largest transform size).
pub const EDGE_RUN: usize = 128;

/// `2^e` as a mathematical integer.
pub open spec fn pow2_int(e: nat) -> int
    decreases e,
{
    if e == 0 {
        1
    } else {
        2 * pow2_int((e - 1) as nat)
    }
}

/// The greatest sample value at a bit depth, `2^bit_depth - 1`.
pub open spec fn max_sample(bit_depth: nat) -> int {
    pow2_int(bit_depth) - 1
}

/// The neutral sample value at a bit depth: 128 scaled by `2^(bit_depth-8)`.
pub open spec fn base_sample(bit_depth: nat) -> int
    recommends
        bit_depth >= 8,
{
    128 * pow2_int((bit_depth - 8) as nat)
}

pub proof fn lemma_pow2_pos(e: nat)
    ensures
        pow2_int(e) >= 1,
    decreases e,
{
    if e > 0 {
        lemma_pow2_pos((e - 1) as nat);
    }
}

pub proof fn lemma_pow2_mono(a: nat, b: nat)
    requires
        a <= b,
    ensures
        pow2_int(a) <= pow2_int(b),
    decreases b,
{
    if a < b {
        lemma_pow2_pos(a);
        lemma_pow2_mono(a, (b - 1) as nat);
    }
}

/// `2^(e+8) == 256 * 2^e`.
pub proof fn lemma_pow2_add8(e: nat)
    ensures
        pow2_int((e + 8) as nat) == 256 * pow2_int(e),
{
    assert(pow2_int((e + 8) as nat) == 2 * pow2_int((e + 7) as nat));
    assert(pow2_int((e + 7) as nat) == 2 * pow2_int((e + 6) as nat));
    assert(pow2_int((e + 6) as nat) == 2 * pow2_int((e + 5) as nat));
    assert(pow2_int((e + 5) as nat) == 2 * pow2_int((e + 4) as nat));
    assert(pow2_int((e + 4) as nat) == 2 * pow2_int((e + 3) as nat));
    assert(pow2_int((e + 3) as nat) == 2 * pow2_int((e + 2) as nat));
    assert(pow2_int((e + 2) as nat) == 2 * pow2_int((e + 1) as nat));
    assert(pow2_int((e + 1) as nat) == 2 * pow2_int(e));
}

/// The neutral sample value sits strictly inside the representable range
/// for every supported bit depth.
pub proof fn lemma_base_sample_bounds(bit_depth: nat)
    requires
        8 <= bit_depth <= 16,
    ensures
        128 <= base_sample(bit_depth),
        base_sample(bit_depth) + 1 <= max_sample(bit_depth),
        max_sample(bit_depth) <= 0xffff,
{
    let e = (bit_depth - 8) as nat;
    lemma_pow2_pos(e);
    lemma_pow2_mono(e, 8);
    reveal_with_fuel(pow2_int, 10);
    assert(pow2_int(8) == 256);
    lemma_pow2_add8(e);
}

/// Computes `2^(bit_depth - 8)`, the scale between 8-bit and deeper samples.
pub fn depth_scale(bit_depth: usize) -> (r: u16)
    requires
        8 <= bit_depth <= 16,
    ensures
        r == pow2_int((bit_depth - 8) as nat),
        1 <= r <= 256,
{
    proof {
        lemma_pow2_mono((bit_depth - 8) as nat, 8);
        reveal_with_fuel(pow2_int, 10);
        assert(pow2_int(8) == 256);
    }
    let mut e: usize = bit_depth - 8;
    let mut r: u16 = 1;
    while e > 0
        invariant
            e <= 8,
            8 <= bit_depth <= 16,
            e <= bit_depth - 8,
            r == pow2_int(((bit_depth - 8) - e) as nat),
            1 <= r <= 256,
        decreases e,
    {
        proof {
            let k = ((bit_depth - 8) - e) as nat;
            assert(pow2_int((k + 1) as nat) == 2 * pow2_int(k));
            lemma_pow2_mono((k + 1) as nat, 8);
            reveal_with_fuel(pow2_int, 10);
            assert(pow2_int(8) == 256);
        }
        r = r * 2;
        e = e - 1;
    }
    r
}

/// The greatest sample value at a bit depth.
pub fn max_sample_value(bit_depth: usize) -> (r: u16)
    requires
        8 <= bit_depth <= 16,
    ensures
        r == max_sample(bit_depth as nat),
{
    proof {
        lemma_base_sample_bounds(bit_depth as nat);
        lemma_pow2_add8((bit_depth - 8) as nat);
    }
    let s = depth_scale(bit_depth);
    let v: u32 = s as u32 * 256 - 1;
    v as u16
}

/// The neutral sample value at a bit depth.
pub fn base_sample_value(bit_depth: usize) -> (r: u16)
    requires
        8 <= bit_depth <= 16,
    ensures
        r == base_sample(bit_depth as nat),
        128 <= r,
        r + 1 <= max_sample(bit_depth as nat),
{
    proof {
        lemma_base_sample_bounds(bit_depth as nat);
    }
    let s = depth_scale(bit_depth);
    s * 128
}

} // verus!
