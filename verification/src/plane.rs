//! The pixel-buffer model the prediction engine works on.
//!
//! Samples are 16-bit unsigned values wide enough for every supported
//! bit depth (8 to 16). A `PlaneRegion` is a rectangle of samples with
//! its position in the plane and the plane's chroma subsampling; a
//! `Plane` is a whole reconstructed reference plane, read with edge
//! clamping by motion compensation.

use vstd::prelude::*;
use crate::geom::max_sample;
use crate::refs::REF_FRAMES;
use crate::refs::INTER_REFS_PER_FRAME;

verus! {

/// Greatest plane dimension the model admits, so that every coordinate
/// computation fits comfortably in 64 bits.
pub const MAX_PLANE_DIM: usize = 0xffff;

/// A position inside a plane, in that plane's own pixel units.
#[derive(Copy, Clone, Debug, PartialEq, Eq, Structural)]
pub struct PlaneOffset {
    pub x: usize,
    pub y: usize,
}

/// The pixel rectangle of one tile, in the units of the plane at hand.
#[derive(Copy, Clone, Debug, PartialEq, Eq, Structural)]
pub struct TileRect {
    pub x: usize,
    pub y: usize,
    pub width: usize,
    pub height: usize,
}

impl TileRect {
    /// Converts a tile-relative position to a plane-absolute one.
    pub fn to_frame_plane_offset(&self, po: PlaneOffset) -> (r: PlaneOffset)
        requires
            self.x + po.x <= usize::MAX,
            self.y + po.y <= usize::MAX,
        ensures
            r.x == self.x + po.x,
            r.y == self.y + po.y,
    {
        PlaneOffset { x: self.x + po.x, y: self.y + po.y }
    }
}

/// Row index times width stays inside the backing storage.
pub proof fn lemma_rc_index(w: int, h: int, x: int, y: int)
    requires
        0 <= x < w,
        0 <= y < h,
    ensures
        0 <= y * w + x < h * w,
{
    assert(y * w + x < h * w) by (nonlinear_arith)
        requires
            0 <= x < w,
            0 <= y < h,
    ;
    assert(y * w >= 0) by (nonlinear_arith)
        requires
            y >= 0,
            w > 0,
    ;
}

/// Two distinct in-range coordinates index distinct storage cells.
pub proof fn lemma_rc_unique(w: int, x1: int, y1: int, x2: int, y2: int)
    requires
        0 <= x1 < w,
        0 <= x2 < w,
        0 <= y1,
        0 <= y2,
        !(x1 == x2 && y1 == y2),
    ensures
        y1 * w + x1 != y2 * w + x2,
{
    if y1 == y2 {
    } else {
        assert(y1 * w + x1 != y2 * w + x2) by (nonlinear_arith)
            requires
                0 <= x1 < w,
                0 <= x2 < w,
                y1 != y2,
                0 <= y1,
                0 <= y2,
        ;
    }
}

/// A rectangle of samples: the destination of a prediction or the
/// reconstructed surroundings it reads. `rect_x`/`rect_y` give the
/// rectangle's origin in the coordinates of the plane it belongs to;
/// `xdec`/`ydec` are that plane's chroma subsampling.
pub struct PlaneRegion {
    pub data: Vec<u16>,
    pub width: usize,
    pub height: usize,
    pub rect_x: usize,
    pub rect_y: usize,
    pub xdec: usize,
    pub ydec: usize,
}

impl PlaneRegion {
    /// The storage covers the rectangle exactly and the dimensions are
    /// within the model's bounds.
    pub open spec fn wf(self) -> bool {
        &&& self.data.len() == self.width * self.height
        &&& 0 < self.width <= MAX_PLANE_DIM
        &&& 0 < self.height <= MAX_PLANE_DIM
        &&& self.rect_x <= MAX_PLANE_DIM
        &&& self.rect_y <= MAX_PLANE_DIM
        &&& self.xdec <= 1
        &&& self.ydec <= 1
    }

    /// The sample at a position, x across and y down.
    pub open spec fn at(self, x: int, y: int) -> u16
        recommends
            0 <= x < self.width,
            0 <= y < self.height,
    {
        self.data[y * self.width + x]
    }

    /// Every sample representable at the given bit depth.
    pub open spec fn samples_bounded(self, bit_depth: nat) -> bool {
        forall|i: int| 0 <= i < self.data.len() ==> self.data[i] <= max_sample(bit_depth)
    }

    /// Reads the sample at a position.
    pub fn px(&self, x: usize, y: usize) -> (r: u16)
        requires
            self.wf(),
            x < self.width,
            y < self.height,
        ensures
            r == self.at(x as int, y as int),
            forall|b: nat| #[trigger] self.samples_bounded(b) ==> r <= max_sample(b),
    {
        proof {
            lemma_rc_index(self.width as int, self.height as int, x as int, y as int);
            assert(self.height * self.width == self.width * self.height) by (nonlinear_arith);
        }
        self.data[y * self.width + x]
    }

    /// Writes the sample at a position, leaving every other sample and
    /// every descriptive field unchanged.
    pub fn set_px(&mut self, x: usize, y: usize, v: u16)
        requires
            old(self).wf(),
            x < old(self).width,
            y < old(self).height,
        ensures
            final(self).wf(),
            final(self).width == old(self).width,
            final(self).height == old(self).height,
            final(self).rect_x == old(self).rect_x,
            final(self).rect_y == old(self).rect_y,
            final(self).xdec == old(self).xdec,
            final(self).ydec == old(self).ydec,
            final(self).at(x as int, y as int) == v,
            forall|x2: int, y2: int|
                0 <= x2 < old(self).width && 0 <= y2 < old(self).height && !(x2 == x && y2 == y)
                    ==> final(self).at(x2, y2) == old(self).at(x2, y2),
    {
        proof {
            lemma_rc_index(self.width as int, self.height as int, x as int, y as int);
            let w0 = old(self).width as int;
            let h0 = old(self).height as int;
            assert(h0 * w0 == w0 * h0) by (nonlinear_arith);
        }
        let idx = y * self.width + x;
        self.data.set(idx, v);
        proof {
            assert forall|x2: int, y2: int|
                0 <= x2 < old(self).width && 0 <= y2 < old(self).height && !(x2 == x && y2 == y)
                    implies final(self).at(x2, y2) == old(self).at(x2, y2) by {
                lemma_rc_index(old(self).width as int, old(self).height as int, x2, y2);
                lemma_rc_unique(old(self).width as int, x2, y2, x as int, y as int);
            }
        }
    }

    /// A fresh region filled with one value.
    pub fn new_filled(
        width: usize,
        height: usize,
        rect_x: usize,
        rect_y: usize,
        xdec: usize,
        ydec: usize,
        fill: u16,
    ) -> (r: PlaneRegion)
        requires
            0 < width <= MAX_PLANE_DIM,
            0 < height <= MAX_PLANE_DIM,
            rect_x <= MAX_PLANE_DIM,
            rect_y <= MAX_PLANE_DIM,
            xdec <= 1,
            ydec <= 1,
        ensures
            r.wf(),
            r.width == width,
            r.height == height,
            r.rect_x == rect_x,
            r.rect_y == rect_y,
            r.xdec == xdec,
            r.ydec == ydec,
            forall|i: int| 0 <= i < r.data.len() ==> r.data[i] == fill,
    {
        proof {
            assert(width * height <= 0xffff * 0xffff) by (nonlinear_arith)
                requires
                    0 < width <= 0xffff,
                    0 < height <= 0xffff,
            ;
        }
        let n = width * height;
        let mut data: Vec<u16> = Vec::new();
        let mut i: usize = 0;
        while i < n
            invariant
                i <= n,
                n == width * height,
                data.len() == i,
                forall|j: int| 0 <= j < i ==> data[j] == fill,
            decreases n - i,
        {
            data.push(fill);
            i = i + 1;
        }
        PlaneRegion { data, width, height, rect_x, rect_y, xdec, ydec }
    }
}

/// One whole reconstructed plane of a reference frame.
pub struct Plane {
    pub data: Vec<u16>,
    pub width: usize,
    pub height: usize,
    pub xdec: usize,
    pub ydec: usize,
}

impl Plane {
    pub open spec fn wf(self) -> bool {
        &&& self.data.len() == self.width * self.height
        &&& 0 < self.width <= MAX_PLANE_DIM
        &&& 0 < self.height <= MAX_PLANE_DIM
        &&& self.xdec <= 1
        &&& self.ydec <= 1
    }

    /// The sample at an in-range position.
    pub open spec fn at(self, x: int, y: int) -> u16
        recommends
            0 <= x < self.width,
            0 <= y < self.height,
    {
        self.data[y * self.width + x]
    }

    /// The sample a motion-compensated read sees: coordinates outside
    /// the plane are clamped to its valid region.
    pub open spec fn ref_sample(self, x: int, y: int) -> u16 {
        let cx = if x < 0 {
            0
        } else if x >= self.width {
            self.width - 1
        } else {
            x
        };
        let cy = if y < 0 {
            0
        } else if y >= self.height {
            self.height - 1
        } else {
            y
        };
        self.at(cx, cy)
    }

    /// Every sample representable at the given bit depth.
    pub open spec fn samples_bounded(self, bit_depth: nat) -> bool {
        forall|i: int| 0 <= i < self.data.len() ==> self.data[i] <= max_sample(bit_depth)
    }

    /// Reads a sample with edge clamping.
    pub fn ref_px(&self, x: i64, y: i64) -> (r: u16)
        requires
            self.wf(),
        ensures
            r == self.ref_sample(x as int, y as int),
            forall|b: nat| #[trigger] self.samples_bounded(b) ==> r <= max_sample(b),
    {
        let cx: usize = if x < 0 {
            0
        } else if x >= self.width as i64 {
            self.width - 1
        } else {
            x as usize
        };
        let cy: usize = if y < 0 {
            0
        } else if y >= self.height as i64 {
            self.height - 1
        } else {
            y as usize
        };
        proof {
            lemma_rc_index(self.width as int, self.height as int, cx as int, cy as int);
            assert(self.height * self.width == self.width * self.height) by (nonlinear_arith);
        }
        self.data[cy * self.width + cx]
    }

    /// A fresh plane filled with one value.
    pub fn new_filled(width: usize, height: usize, xdec: usize, ydec: usize, fill: u16) -> (r:
        Plane)
        requires
            0 < width <= MAX_PLANE_DIM,
            0 < height <= MAX_PLANE_DIM,
            xdec <= 1,
            ydec <= 1,
        ensures
            r.wf(),
            r.width == width,
            r.height == height,
            r.xdec == xdec,
            r.ydec == ydec,
            forall|i: int| 0 <= i < r.data.len() ==> r.data[i] == fill,
    {
        proof {
            assert(width * height <= 0xffff * 0xffff) by (nonlinear_arith)
                requires
                    0 < width <= 0xffff,
                    0 < height <= 0xffff,
            ;
        }
        let n = width * height;
        let mut data: Vec<u16> = Vec::new();
        let mut i: usize = 0;
        while i < n
            invariant
                i <= n,
                n == width * height,
                data.len() == i,
                forall|j: int| 0 <= j < i ==> data[j] == fill,
            decreases n - i,
        {
            data.push(fill);
            i = i + 1;
        }
        Plane { data, width, height, xdec, ydec }
    }
}

/// One reconstructed reference frame: a luma plane and two chroma planes.
pub struct Frame {
    pub planes: Vec<Plane>,
}

impl Frame {
    pub open spec fn wf(self) -> bool {
        &&& self.planes.len() == 3
        &&& forall|i: int| 0 <= i < 3 ==> self.planes[i].wf()
    }
}

/// What the encoder's frame context exposes to one inter prediction
/// call: the mapping from the seven logical reference slots to the
/// reconstructed frame buffers (possibly absent), and the bit depth.
pub struct FrameContext {
    pub frames: Vec<Option<Frame>>,
    pub ref_frames: Vec<usize>,
    pub bit_depth: usize,
}

impl FrameContext {
    pub open spec fn wf(self) -> bool {
        &&& self.frames.len() == REF_FRAMES
        &&& forall|i: int|
            0 <= i < self.frames.len() ==> (#[trigger] self.frames[i] matches Some(f) ==> f.wf())
        &&& self.ref_frames.len() == INTER_REFS_PER_FRAME
        &&& forall|i: int| 0 <= i < self.ref_frames.len() ==> self.ref_frames[i] < REF_FRAMES
        &&& 8 <= self.bit_depth <= 16
    }

    /// Every sample of every present reference plane representable at
    /// the context's bit depth.
    pub open spec fn samples_bounded(self) -> bool {
        forall|i: int, j: int|
            0 <= i < self.frames.len() && self.frames[i] is Some && 0 <= j < self.frames[
                i
            ].unwrap().planes.len() ==> (#[trigger] self.frames[i].unwrap().planes[
                j
            ]).samples_bounded(self.bit_depth as nat)
    }
}

} // verus!
