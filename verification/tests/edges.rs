use av1core::edge::get_intra_edges;
use av1core::geom::EDGE_RUN;
use av1core::modes::PredictionMode;
use av1core::plane::PlaneOffset;
use av1core::plane::PlaneRegion;
use av1core::transform::TxSize;

fn patterned_region(w: usize, h: usize) -> PlaneRegion {
    let mut region = PlaneRegion::new_filled(w, h, 0, 0, 0, 0, 0);
    for y in 0..h {
        for x in 0..w {
            region.set_px(x, y, (y * 16 + x) as u16);
        }
    }
    region
}

#[test]
fn origin_dc_buffer_is_flat_at_the_neutral_value() {
    // At the region origin the DC mode needs no edge at all, so the
    // whole buffer keeps the bit-depth-scaled neutral value, whatever
    // the transform size.
    for tx in [TxSize::TX_4X4, TxSize::TX_8X8, TxSize::TX_16X16, TxSize::TX_16X8] {
        let region = PlaneRegion::new_filled(64, 64, 0, 0, 0, 0, 99);
        let edge = get_intra_edges(
            &region,
            PlaneOffset { x: 0, y: 0 },
            tx,
            8,
            Some(PredictionMode::DC_PRED),
        );
        assert_eq!(edge.left.len(), EDGE_RUN);
        assert_eq!(edge.above.len(), EDGE_RUN);
        assert_eq!(edge.top_left, 128);
        assert!(edge.left.iter().all(|&v| v == 128));
        assert!(edge.above.iter().all(|&v| v == 128));
    }
}

#[test]
fn origin_dc_buffer_scales_with_bit_depth() {
    let region = PlaneRegion::new_filled(16, 16, 0, 0, 0, 0, 40);
    let edge = get_intra_edges(
        &region,
        PlaneOffset { x: 0, y: 0 },
        TxSize::TX_8X8,
        10,
        Some(PredictionMode::DC_PRED),
    );
    assert_eq!(edge.top_left, 512);
    assert!(edge.left.iter().all(|&v| v == 512));
    assert!(edge.above.iter().all(|&v| v == 512));
}

#[test]
fn interior_edges_copy_the_reconstructed_border() {
    let region = patterned_region(8, 8);
    let edge = get_intra_edges(&region, PlaneOffset { x: 4, y: 4 }, TxSize::TX_4X4, 8, None);

    // Left run, bottom-to-top and right-aligned: rows 7 down to 4 of
    // column 3.
    assert_eq!(edge.left[127], 4 * 16 + 3);
    assert_eq!(edge.left[126], 5 * 16 + 3);
    assert_eq!(edge.left[125], 6 * 16 + 3);
    assert_eq!(edge.left[124], 7 * 16 + 3);

    // The true diagonal pixel.
    assert_eq!(edge.top_left, 3 * 16 + 3);

    // Above run: columns 4 through 7 of row 3.
    assert_eq!(edge.above[0], 3 * 16 + 4);
    assert_eq!(edge.above[1], 3 * 16 + 5);
    assert_eq!(edge.above[2], 3 * 16 + 6);
    assert_eq!(edge.above[3], 3 * 16 + 7);

    // Neither diagonal neighbor is available at (1,1) in minimum
    // units, so both extensions replicate the nearest sample.
    for i in 4..8 {
        assert_eq!(edge.above[i], edge.above[3]);
    }
    for j in 120..124 {
        assert_eq!(edge.left[j], edge.left[124]);
    }
}

#[test]
fn top_edge_fill_uses_left_pixel() {
    let region = patterned_region(8, 8);
    // A block on the top row with a left neighbor: the above run is
    // filled from the pixel to the left.
    let edge = get_intra_edges(
        &region,
        PlaneOffset { x: 4, y: 0 },
        TxSize::TX_4X4,
        8,
        None,
    );
    for i in 0..4 {
        assert_eq!(edge.above[i], 3);
    }
    // Top-left on the top row: the pixel to the left of the block.
    assert_eq!(edge.top_left, 3);
}

#[test]
fn left_edge_fill_uses_above_pixel() {
    let region = patterned_region(8, 8);
    let edge = get_intra_edges(
        &region,
        PlaneOffset { x: 0, y: 4 },
        TxSize::TX_4X4,
        8,
        None,
    );
    // The left run is filled from the pixel directly above-left, which
    // at the left plane edge is row 3, column 0.
    for j in 124..128 {
        assert_eq!(edge.left[j], 3 * 16);
    }
    assert_eq!(edge.top_left, 3 * 16);
}

#[test]
fn horizontal_mode_skips_the_above_run() {
    let region = patterned_region(8, 8);
    let edge = get_intra_edges(
        &region,
        PlaneOffset { x: 4, y: 4 },
        TxSize::TX_4X4,
        8,
        Some(PredictionMode::H_PRED),
    );
    // The left run is built, the above run keeps the neutral value.
    assert_eq!(edge.left[127], 4 * 16 + 3);
    assert!(edge.above.iter().all(|&v| v == 128));
}
