//! Motion-vector arithmetic in eighth-pixel units.
//!
//! A motion vector is a pair of signed 16-bit components. All arithmetic
//! is exact fixed-point integer arithmetic; division truncates toward
//! zero, which must be preserved since it affects reconstructed pixels
//! bit for bit.

use vstd::prelude::*;

verus! {

pub const MV_JOINTS: usize = 4;

/// The absolute value of an integer.
pub open spec fn abs_int(a: int) -> int {
    if a >= 0 {
        a
    } else {
        -a
    }
}

/// Truncating division: the quotient rounded toward zero, as the `/`
/// operator of the language computes it on signed integers.
pub open spec fn trunc_div(a: int, b: int) -> int
    recommends
        b != 0,
{
    if (a < 0) == (b < 0) {
        abs_int(a) / abs_int(b)
    } else {
        -(abs_int(a) / abs_int(b))
    }
}

/// Truncating division of two 16-bit components, computed on magnitudes
/// so that the rounding direction is explicit.
fn div_trunc_i16(a: i16, b: i16) -> (r: i16)
    requires
        b != 0,
        !(a == i16::MIN && b == -1),
    ensures
        r == trunc_div(a as int, b as int),
{
    let a32: i32 = a as i32;
    let b32: i32 = b as i32;
    let am: u32 = if a32 >= 0 {
        a32 as u32
    } else {
        (-a32) as u32
    };
    let bm: u32 = if b32 >= 0 {
        b32 as u32
    } else {
        (-b32) as u32
    };
    let q: u32 = am / bm;
    assert(am == abs_int(a as int) && bm == abs_int(b as int));
    assert(q <= am) by {
        assert(am as int / bm as int <= am) by (nonlinear_arith)
            requires
                bm >= 1,
                am >= 0,
        ;
    };
    let neg: bool = (a < 0) != (b < 0);
    proof {
        if !neg && am == 32768 {
            // a is the least value and b is negative but not -1, so the
            // magnitude of b is at least 2 and the quotient at most half.
            assert(bm >= 2);
            assert(am as int / bm as int <= 32768int / 2) by (nonlinear_arith)
                requires
                    bm >= 2,
                    am == 32768,
            ;
        }
    }
    let r32: i32 = if neg {
        -(q as i32)
    } else {
        q as i32
    };
    r32 as i16
}

/// A motion vector in eighth-pixel units.
#[derive(Clone, Copy, Debug, PartialEq, Eq, Structural)]
pub struct MotionVector {
    pub row: i16,
    pub col: i16,
}

impl Default for MotionVector {
    fn default() -> (r: Self)
        ensures
            r.row == 0 && r.col == 0,
    {
        MotionVector { row: 0, col: 0 }
    }
}

impl MotionVector {
    /// Componentwise sum of two motion vectors.
    pub fn plus(self, rhs: MotionVector) -> (r: MotionVector)
        requires
            i16::MIN <= self.row + rhs.row <= i16::MAX,
            i16::MIN <= self.col + rhs.col <= i16::MAX,
        ensures
            r.row == self.row + rhs.row,
            r.col == self.col + rhs.col,
    {
        MotionVector { row: self.row + rhs.row, col: self.col + rhs.col }
    }

    /// Componentwise division by a scalar, truncating toward zero.
    pub fn div_scalar(self, rhs: i16) -> (r: MotionVector)
        requires
            rhs != 0,
            !(self.row == i16::MIN && rhs == -1),
            !(self.col == i16::MIN && rhs == -1),
        ensures
            r.row == trunc_div(self.row as int, rhs as int),
            r.col == trunc_div(self.col as int, rhs as int),
    {
        MotionVector { row: div_trunc_i16(self.row, rhs), col: div_trunc_i16(self.col, rhs) }
    }

    /// The vector moved to the nearest full-pixel position toward zero:
    /// each component becomes the nearest multiple of 8 toward zero.
    pub fn quantize_to_fullpel(self) -> (r: Self)
        ensures
            r.row == 8 * trunc_div(self.row as int, 8),
            r.col == 8 * trunc_div(self.col as int, 8),
            r.row % 8 == 0,
            r.col % 8 == 0,
    {
        Self { row: (self.row / 8) * 8, col: (self.col / 8) * 8 }
    }

    /// Whether both components are zero.
    pub fn is_zero(self) -> (r: bool)
        ensures
            r == (self.row == 0 && self.col == 0),
    {
        self.row == 0 && self.col == 0
    }
}

/// The componentwise sum is commutative.
pub proof fn lemma_mv_plus_commutative(a: MotionVector, b: MotionVector)
    requires
        i16::MIN <= a.row + b.row <= i16::MAX,
        i16::MIN <= a.col + b.col <= i16::MAX,
    ensures
        ({
            let s = MotionVector { row: (a.row + b.row) as i16, col: (a.col + b.col) as i16 };
            let t = MotionVector { row: (b.row + a.row) as i16, col: (b.col + a.col) as i16 };
            s == t
        }),
{
}

/// The componentwise sum is associative.
pub proof fn lemma_mv_plus_associative(a: MotionVector, b: MotionVector, c: MotionVector)
    requires
        i16::MIN <= a.row + b.row + c.row <= i16::MAX,
        i16::MIN <= a.col + b.col + c.col <= i16::MAX,
        i16::MIN <= a.row + b.row <= i16::MAX,
        i16::MIN <= a.col + b.col <= i16::MAX,
        i16::MIN <= b.row + c.row <= i16::MAX,
        i16::MIN <= b.col + c.col <= i16::MAX,
    ensures
        ({
            let ab_c = MotionVector {
                row: ((a.row + b.row) + c.row) as i16,
                col: ((a.col + b.col) + c.col) as i16,
            };
            let a_bc = MotionVector {
                row: (a.row + (b.row + c.row)) as i16,
                col: (a.col + (b.col + c.col)) as i16,
            };
            ab_c == a_bc
        }),
{
}

/// A vector and its componentwise negation sum to the zero vector.
pub proof fn lemma_mv_plus_negation(a: MotionVector)
    requires
        a.row > i16::MIN,
        a.col > i16::MIN,
    ensures
        a.row + (-a.row) == 0,
        a.col + (-a.col) == 0,
{
}

} // verus!
