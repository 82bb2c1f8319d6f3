use av1core::edge::get_intra_edges;
use av1core::modes::PredictionMode;
use av1core::motion::MotionVector;
use av1core::plane::Frame;
use av1core::plane::FrameContext;
use av1core::plane::Plane;
use av1core::plane::PlaneOffset;
use av1core::plane::PlaneRegion;
use av1core::plane::TileRect;
use av1core::refs::RefType;
use av1core::transform::TxSize;

fn patterned_region(w: usize, h: usize) -> PlaneRegion {
    let mut region = PlaneRegion::new_filled(w, h, 0, 0, 0, 0, 0);
    for y in 0..h {
        for x in 0..w {
            region.set_px(x, y, (y * 16 + x) as u16);
        }
    }
    region
}

fn patterned_plane(w: usize, h: usize) -> Plane {
    let mut data = Vec::new();
    for y in 0..h {
        for x in 0..w {
            data.push(((x * 7 + y * 3) % 200) as u16);
        }
    }
    Plane { data, width: w, height: h, xdec: 0, ydec: 0 }
}

fn frame_of_plane(p: Plane) -> Frame {
    let u = Plane::new_filled(p.width / 2, p.height / 2, 1, 1, 0);
    let v = Plane::new_filled(p.width / 2, p.height / 2, 1, 1, 0);
    Frame { planes: vec![p, u, v] }
}

fn context_with(frames: Vec<Option<Frame>>, ref_frames: Vec<usize>, bit_depth: usize) -> FrameContext {
    FrameContext { frames, ref_frames, bit_depth }
}

#[test]
fn dc_at_tile_origin_is_uniform_neutral() {
    // A 16x16 DC prediction at the tile origin, 8-bit: uniformly 128.
    let tile_region = PlaneRegion::new_filled(32, 32, 0, 0, 0, 0, 7);
    let edge = get_intra_edges(
        &tile_region,
        PlaneOffset { x: 0, y: 0 },
        TxSize::TX_16X16,
        8,
        Some(PredictionMode::DC_PRED),
    );
    let mut dst = PlaneRegion::new_filled(16, 16, 0, 0, 0, 0, 0);
    let tile = TileRect { x: 0, y: 0, width: 32, height: 32 };
    let ac: Vec<i16> = Vec::new();
    PredictionMode::DC_PRED.predict_intra(tile, &mut dst, TxSize::TX_16X16, 8, &ac, 0, &edge);
    for y in 0..16 {
        for x in 0..16 {
            assert_eq!(dst.px(x, y), 128);
        }
    }
}

#[test]
fn dc_interior_is_the_rounded_average() {
    let region = patterned_region(8, 8);
    let edge = get_intra_edges(
        &region,
        PlaneOffset { x: 4, y: 4 },
        TxSize::TX_4X4,
        8,
        Some(PredictionMode::DC_PRED),
    );
    let mut dst = PlaneRegion::new_filled(4, 4, 4, 4, 0, 0, 0);
    let tile = TileRect { x: 0, y: 0, width: 8, height: 8 };
    let ac: Vec<i16> = Vec::new();
    PredictionMode::DC_PRED.predict_intra(tile, &mut dst, TxSize::TX_4X4, 8, &ac, 0, &edge);
    // Above row 3, columns 4..8: 52+53+54+55; left column 3, rows
    // 4..8: 67+83+99+115; rounded average over 8 samples.
    let expected = ((52 + 53 + 54 + 55 + 67 + 83 + 99 + 115) + 4) / 8;
    for y in 0..4 {
        for x in 0..4 {
            assert_eq!(dst.px(x, y), expected as u16);
        }
    }
}

#[test]
fn horizontal_replicates_the_left_column() {
    let region = patterned_region(8, 8);
    let edge = get_intra_edges(
        &region,
        PlaneOffset { x: 4, y: 4 },
        TxSize::TX_4X4,
        8,
        Some(PredictionMode::H_PRED),
    );
    let mut dst = PlaneRegion::new_filled(4, 4, 4, 4, 0, 0, 0);
    let tile = TileRect { x: 0, y: 0, width: 8, height: 8 };
    let ac: Vec<i16> = Vec::new();
    PredictionMode::H_PRED.predict_intra(tile, &mut dst, TxSize::TX_4X4, 8, &ac, 0, &edge);
    for y in 0..4 {
        for x in 0..4 {
            assert_eq!(dst.px(x, y), ((4 + y) * 16 + 3) as u16);
        }
    }
}

#[test]
fn vertical_replicates_the_above_row() {
    let region = patterned_region(8, 8);
    let edge = get_intra_edges(
        &region,
        PlaneOffset { x: 4, y: 4 },
        TxSize::TX_4X4,
        8,
        Some(PredictionMode::V_PRED),
    );
    let mut dst = PlaneRegion::new_filled(4, 4, 4, 4, 0, 0, 0);
    let tile = TileRect { x: 0, y: 0, width: 8, height: 8 };
    let ac: Vec<i16> = Vec::new();
    PredictionMode::V_PRED.predict_intra(tile, &mut dst, TxSize::TX_4X4, 8, &ac, 0, &edge);
    for y in 0..4 {
        for x in 0..4 {
            assert_eq!(dst.px(x, y), (3 * 16 + 4 + x) as u16);
        }
    }
}

#[test]
fn paeth_picks_the_closest_neighbor() {
    let region = patterned_region(8, 8);
    let edge = get_intra_edges(
        &region,
        PlaneOffset { x: 4, y: 4 },
        TxSize::TX_4X4,
        8,
        Some(PredictionMode::PAETH_PRED),
    );
    let mut dst = PlaneRegion::new_filled(4, 4, 4, 4, 0, 0, 0);
    let tile = TileRect { x: 0, y: 0, width: 8, height: 8 };
    let ac: Vec<i16> = Vec::new();
    PredictionMode::PAETH_PRED.predict_intra(tile, &mut dst, TxSize::TX_4X4, 8, &ac, 0, &edge);
    // Top-left pixel: above 52, left 67, top-left 51; the raw sum 68
    // is closest to the left sample.
    assert_eq!(dst.px(0, 0), 67);
}

#[test]
fn cfl_with_zero_alpha_degenerates_to_dc() {
    let region = patterned_region(8, 8);
    let edge = get_intra_edges(
        &region,
        PlaneOffset { x: 4, y: 4 },
        TxSize::TX_4X4,
        8,
        Some(PredictionMode::UV_CFL_PRED),
    );
    let mut dst = PlaneRegion::new_filled(4, 4, 4, 4, 0, 0, 0);
    let tile = TileRect { x: 0, y: 0, width: 8, height: 8 };
    let ac: Vec<i16> = Vec::new();
    PredictionMode::UV_CFL_PRED.predict_intra(tile, &mut dst, TxSize::TX_4X4, 8, &ac, 0, &edge);
    let expected = ((52 + 53 + 54 + 55 + 67 + 83 + 99 + 115) + 4) / 8;
    for y in 0..4 {
        for x in 0..4 {
            assert_eq!(dst.px(x, y), expected as u16);
        }
    }
}

#[test]
fn cfl_biases_the_dc_value_by_the_scaled_coefficient() {
    let region = patterned_region(8, 8);
    let edge = get_intra_edges(
        &region,
        PlaneOffset { x: 4, y: 4 },
        TxSize::TX_4X4,
        8,
        Some(PredictionMode::UV_CFL_PRED),
    );
    let mut dst = PlaneRegion::new_filled(4, 4, 4, 4, 0, 0, 0);
    let tile = TileRect { x: 0, y: 0, width: 8, height: 8 };
    let ac: Vec<i16> = vec![64; 16];
    PredictionMode::UV_CFL_PRED.predict_intra(tile, &mut dst, TxSize::TX_4X4, 8, &ac, 2, &edge);
    let dc = ((52 + 53 + 54 + 55 + 67 + 83 + 99 + 115) + 4) / 8;
    // alpha * ac = 128 in sixth-bit units, rounded: +2 per pixel.
    let expected = (dc + 2) as u16;
    for y in 0..4 {
        for x in 0..4 {
            assert_eq!(dst.px(x, y), expected);
        }
    }
}

#[test]
fn smooth_and_directional_stay_in_range() {
    let region = patterned_region(8, 8);
    let tile = TileRect { x: 0, y: 0, width: 8, height: 8 };
    let ac: Vec<i16> = Vec::new();
    for mode in [
        PredictionMode::SMOOTH_PRED,
        PredictionMode::SMOOTH_H_PRED,
        PredictionMode::SMOOTH_V_PRED,
        PredictionMode::D45_PRED,
        PredictionMode::D135_PRED,
        PredictionMode::D117_PRED,
        PredictionMode::D153_PRED,
        PredictionMode::D207_PRED,
        PredictionMode::D63_PRED,
    ] {
        let edge = get_intra_edges(&region, PlaneOffset { x: 4, y: 4 }, TxSize::TX_4X4, 8, Some(mode));
        let mut dst = PlaneRegion::new_filled(4, 4, 4, 4, 0, 0, 0);
        PredictionMode::predict_intra(mode, tile, &mut dst, TxSize::TX_4X4, 8, &ac, 0, &edge);
        for y in 0..4 {
            for x in 0..4 {
                assert!(dst.px(x, y) <= 255);
            }
        }
    }
}

#[test]
fn single_reference_zero_vector_copies_the_reference() {
    // A zero motion vector with matching planes: the zero-phase filter
    // is a no-op, so the prediction equals the reference block exactly.
    let plane = patterned_plane(32, 32);
    let expected: Vec<u16> = (0..16)
        .flat_map(|y: usize| (0..16).map(move |x: usize| ((x * 7 + y * 3) % 200) as u16))
        .collect();
    let frame = frame_of_plane(plane);
    let mut frames: Vec<Option<Frame>> = Vec::new();
    frames.push(Some(frame));
    for _ in 1..8 {
        frames.push(None);
    }
    let fi = context_with(frames, vec![0; 7], 8);
    let mut dst = PlaneRegion::new_filled(16, 16, 0, 0, 0, 0, 0);
    let tile = TileRect { x: 0, y: 0, width: 32, height: 32 };
    PredictionMode::NEWMV.predict_inter(
        &fi,
        tile,
        0,
        PlaneOffset { x: 0, y: 0 },
        &mut dst,
        16,
        16,
        [RefType::LAST_FRAME, RefType::INTRA_FRAME],
        [MotionVector { row: 0, col: 0 }, MotionVector { row: 0, col: 0 }],
    );
    for y in 0..16 {
        for x in 0..16 {
            assert_eq!(dst.px(x, y), expected[y * 16 + x]);
        }
    }
}

#[test]
fn single_reference_full_pel_vector_shifts_the_window() {
    let plane = patterned_plane(32, 32);
    let frame = frame_of_plane(plane);
    let mut frames: Vec<Option<Frame>> = Vec::new();
    frames.push(Some(frame));
    for _ in 1..8 {
        frames.push(None);
    }
    let fi = context_with(frames, vec![0; 7], 8);
    let mut dst = PlaneRegion::new_filled(8, 8, 0, 0, 0, 0, 0);
    let tile = TileRect { x: 0, y: 0, width: 32, height: 32 };
    // One full pixel right and two down: col 8 and row 16 in
    // eighth-pixel units.
    PredictionMode::NEWMV.predict_inter(
        &fi,
        tile,
        0,
        PlaneOffset { x: 4, y: 4 },
        &mut dst,
        8,
        8,
        [RefType::LAST_FRAME, RefType::NONE_FRAME],
        [MotionVector { row: 16, col: 8 }, MotionVector { row: 0, col: 0 }],
    );
    for y in 0..8 {
        for x in 0..8 {
            let sx = 4 + x + 1;
            let sy = 4 + y + 2;
            assert_eq!(dst.px(x, y), ((sx * 7 + sy * 3) % 200) as u16);
        }
    }
}

#[test]
fn compound_zero_vectors_average_the_references() {
    // Two constant references, 100 and 200, zero vectors: uniformly
    // 150 at 8-bit depth.
    let p1 = Plane::new_filled(32, 32, 0, 0, 100);
    let p2 = Plane::new_filled(32, 32, 0, 0, 200);
    let mut frames: Vec<Option<Frame>> = Vec::new();
    frames.push(Some(frame_of_plane(p1)));
    frames.push(Some(frame_of_plane(p2)));
    for _ in 2..8 {
        frames.push(None);
    }
    let fi = context_with(frames, vec![0, 1, 0, 0, 0, 0, 0], 8);
    let mut dst = PlaneRegion::new_filled(16, 16, 0, 0, 0, 0, 0);
    let tile = TileRect { x: 0, y: 0, width: 32, height: 32 };
    PredictionMode::GLOBAL_GLOBALMV.predict_inter(
        &fi,
        tile,
        0,
        PlaneOffset { x: 0, y: 0 },
        &mut dst,
        16,
        16,
        [RefType::LAST_FRAME, RefType::LAST2_FRAME],
        [MotionVector { row: 0, col: 0 }, MotionVector { row: 0, col: 0 }],
    );
    for y in 0..16 {
        for x in 0..16 {
            assert_eq!(dst.px(x, y), 150);
        }
    }
}

#[test]
fn missing_reference_leaves_the_destination_untouched() {
    let frames: Vec<Option<Frame>> = (0..8).map(|_| None).collect();
    let fi = context_with(frames, vec![0; 7], 8);
    let mut dst = PlaneRegion::new_filled(8, 8, 0, 0, 0, 0, 77);
    let tile = TileRect { x: 0, y: 0, width: 32, height: 32 };
    PredictionMode::NEARESTMV.predict_inter(
        &fi,
        tile,
        0,
        PlaneOffset { x: 0, y: 0 },
        &mut dst,
        8,
        8,
        [RefType::LAST_FRAME, RefType::NONE_FRAME],
        [MotionVector { row: 0, col: 0 }, MotionVector { row: 0, col: 0 }],
    );
    for y in 0..8 {
        for x in 0..8 {
            assert_eq!(dst.px(x, y), 77);
        }
    }
}

#[test]
fn negative_vector_clamps_at_the_plane_edge() {
    let plane = patterned_plane(32, 32);
    let frame = frame_of_plane(plane);
    let mut frames: Vec<Option<Frame>> = Vec::new();
    frames.push(Some(frame));
    for _ in 1..8 {
        frames.push(None);
    }
    let fi = context_with(frames, vec![0; 7], 8);
    let mut dst = PlaneRegion::new_filled(8, 8, 0, 0, 0, 0, 0);
    let tile = TileRect { x: 0, y: 0, width: 32, height: 32 };
    // Eight full pixels left: columns clamp to the plane's first
    // column until the window re-enters the plane.
    PredictionMode::NEWMV.predict_inter(
        &fi,
        tile,
        0,
        PlaneOffset { x: 0, y: 0 },
        &mut dst,
        8,
        8,
        [RefType::LAST_FRAME, RefType::NONE_FRAME],
        [MotionVector { row: 0, col: -64 }, MotionVector { row: 0, col: 0 }],
    );
    for y in 0..8 {
        for x in 0..8 {
            // Source column x - 8 clamps to 0 for every x here.
            assert_eq!(dst.px(x, y), ((y * 3) % 200) as u16);
        }
    }
}
