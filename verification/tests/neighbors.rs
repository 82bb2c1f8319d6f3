use av1core::block::BlockSize;
use av1core::neighbors::BlockOffset;
use av1core::neighbors::has_bl;
use av1core::neighbors::has_tr;

#[test]
fn top_right_square_at_origin_and_far_corner() {
    // The base bitmask rule: the smallest square at the superblock
    // origin has a top-right neighbor; the bottom-right-most position
    // within the superblock has none.
    assert!(has_tr(BlockOffset { x: 0, y: 0 }, BlockSize::BLOCK_4X4));
    assert!(!has_tr(BlockOffset { x: 15, y: 15 }, BlockSize::BLOCK_4X4));
}

#[test]
fn top_right_along_first_row() {
    // On the top row of a superblock every aligned block still has a
    // reconstructed neighbor above-right.
    assert!(has_tr(BlockOffset { x: 4, y: 0 }, BlockSize::BLOCK_16X16));
    // One step down the diagonal the neighbor is no longer decoded.
    assert!(!has_tr(BlockOffset { x: 4, y: 4 }, BlockSize::BLOCK_16X16));
}

#[test]
fn bottom_left_cases() {
    assert!(has_bl(BlockOffset { x: 0, y: 0 }, BlockSize::BLOCK_4X4));
    assert!(!has_bl(BlockOffset { x: 15, y: 15 }, BlockSize::BLOCK_4X4));
    // A whole superblock never has a decoded block below-left of it.
    assert!(!has_bl(BlockOffset { x: 0, y: 0 }, BlockSize::BLOCK_64X64));
}

#[test]
fn blocks_wider_than_a_superblock_have_no_neighbors() {
    assert!(!has_tr(BlockOffset { x: 0, y: 0 }, BlockSize::BLOCK_128X128));
    assert!(!has_bl(BlockOffset { x: 0, y: 0 }, BlockSize::BLOCK_128X128));
    assert!(!has_tr(BlockOffset { x: 0, y: 0 }, BlockSize::BLOCK_128X64));
    assert!(!has_bl(BlockOffset { x: 0, y: 0 }, BlockSize::BLOCK_64X128));
}

#[test]
fn tall_block_left_of_footprint_always_has_top_right() {
    // The left hand of two vertical rectangles decodes before the block
    // above-right of it is needed.
    assert!(has_tr(BlockOffset { x: 0, y: 0 }, BlockSize::BLOCK_4X8));
    assert!(has_tr(BlockOffset { x: 2, y: 2 }, BlockSize::BLOCK_4X8));
}

#[test]
fn wide_block_bottom_of_footprint_never_has_top_right() {
    // The bottom of two horizontal rectangles comes before the block to
    // its right in decode order.
    assert!(!has_tr(BlockOffset { x: 0, y: 1 }, BlockSize::BLOCK_8X4));
    assert!(!has_tr(BlockOffset { x: 4, y: 3 }, BlockSize::BLOCK_8X4));
}

#[test]
fn wide_block_top_of_footprint_always_has_bottom_left() {
    assert!(has_bl(BlockOffset { x: 0, y: 0 }, BlockSize::BLOCK_8X4));
    assert!(has_bl(BlockOffset { x: 4, y: 2 }, BlockSize::BLOCK_8X4));
}

#[test]
fn tall_block_right_of_footprint_never_has_bottom_left() {
    assert!(!has_bl(BlockOffset { x: 1, y: 0 }, BlockSize::BLOCK_4X8));
    assert!(!has_bl(BlockOffset { x: 3, y: 4 }, BlockSize::BLOCK_4X8));
}
