use av1core::block::BlockSize;
use av1core::block::PartitionType;
use av1core::block::coded_tx_size;
use av1core::block::get_plane_block_size;
use av1core::block::max_rect_tx_size;
use av1core::refs::RefType;
use av1core::transform::TxSize;

#[test]
fn block_dims_round_trip_every_size() {
    let all = [
        BlockSize::BLOCK_4X4,
        BlockSize::BLOCK_4X8,
        BlockSize::BLOCK_8X4,
        BlockSize::BLOCK_8X8,
        BlockSize::BLOCK_8X16,
        BlockSize::BLOCK_16X8,
        BlockSize::BLOCK_16X16,
        BlockSize::BLOCK_16X32,
        BlockSize::BLOCK_32X16,
        BlockSize::BLOCK_32X32,
        BlockSize::BLOCK_32X64,
        BlockSize::BLOCK_64X32,
        BlockSize::BLOCK_64X64,
        BlockSize::BLOCK_64X128,
        BlockSize::BLOCK_128X64,
        BlockSize::BLOCK_128X128,
        BlockSize::BLOCK_4X16,
        BlockSize::BLOCK_16X4,
        BlockSize::BLOCK_8X32,
        BlockSize::BLOCK_32X8,
        BlockSize::BLOCK_16X64,
        BlockSize::BLOCK_64X16,
    ];
    for b in all {
        let w = b.width();
        let h = b.height();
        assert_eq!(BlockSize::from_width_and_height(w, h), b);
        assert_eq!(w, 1 << b.width_log2());
        assert_eq!(h, 1 << b.height_log2());
        assert_eq!(b.width_mi(), w >> 2);
        assert_eq!(b.height_mi(), h >> 2);
    }
}

#[test]
fn block_width_height_values() {
    assert_eq!(BlockSize::BLOCK_64X16.width(), 64);
    assert_eq!(BlockSize::BLOCK_64X16.height(), 16);
    assert_eq!(BlockSize::BLOCK_4X16.width_log2(), 2);
    assert_eq!(BlockSize::BLOCK_4X16.height_log2(), 4);
    assert_eq!(BlockSize::BLOCK_128X128.width(), 128);
    assert_eq!(BlockSize::BLOCK_128X128.height_mi(), 32);
}

#[test]
fn block_classification() {
    assert!(BlockSize::BLOCK_32X32.is_sqr());
    assert!(!BlockSize::BLOCK_32X16.is_sqr());
    assert!(BlockSize::BLOCK_32X32.cfl_allowed());
    assert!(!BlockSize::BLOCK_32X64.cfl_allowed());
    assert!(!BlockSize::BLOCK_4X4.is_rect_tx_allowed());
    assert!(BlockSize::BLOCK_4X8.is_rect_tx_allowed());
    assert!(!BlockSize::BLOCK_64X128.is_rect_tx_allowed());
    assert!(BlockSize::BLOCK_4X4.is_sub8x8(1, 1));
    assert!(!BlockSize::BLOCK_8X8.is_sub8x8(1, 1));
    assert_eq!(BlockSize::BLOCK_4X8.sub8x8_offset(1, 1), (-1, 0));
    assert_eq!(BlockSize::BLOCK_8X4.sub8x8_offset(1, 1), (0, -1));
}

#[test]
fn block_partial_order() {
    assert!(BlockSize::BLOCK_16X16.greater_than(BlockSize::BLOCK_8X8));
    assert!(BlockSize::BLOCK_16X8.greater_than(BlockSize::BLOCK_8X8));
    // One dimension larger and the other smaller: incomparable.
    assert!(!BlockSize::BLOCK_16X8.greater_than(BlockSize::BLOCK_8X16));
    assert!(!BlockSize::BLOCK_8X16.greater_than(BlockSize::BLOCK_16X8));
    assert!(!BlockSize::BLOCK_8X8.greater_than(BlockSize::BLOCK_8X8));
    assert!(BlockSize::BLOCK_8X8.gte(BlockSize::BLOCK_8X8));
    assert!(!BlockSize::BLOCK_8X16.gte(BlockSize::BLOCK_16X8));
}

#[test]
fn subsize_legal_pairs() {
    assert_eq!(
        BlockSize::BLOCK_64X64.subsize(PartitionType::PARTITION_NONE),
        BlockSize::BLOCK_64X64
    );
    assert_eq!(
        BlockSize::BLOCK_64X64.subsize(PartitionType::PARTITION_SPLIT),
        BlockSize::BLOCK_32X32
    );
    assert_eq!(
        BlockSize::BLOCK_16X16.subsize(PartitionType::PARTITION_HORZ),
        BlockSize::BLOCK_16X8
    );
    assert_eq!(
        BlockSize::BLOCK_16X16.subsize(PartitionType::PARTITION_VERT),
        BlockSize::BLOCK_8X16
    );
    assert_eq!(
        BlockSize::BLOCK_8X8.subsize(PartitionType::PARTITION_HORZ_A),
        BlockSize::BLOCK_8X4
    );
    assert_eq!(
        BlockSize::BLOCK_128X128.subsize(PartitionType::PARTITION_VERT_B),
        BlockSize::BLOCK_64X128
    );
    assert_eq!(
        BlockSize::BLOCK_16X16.subsize(PartitionType::PARTITION_HORZ_4),
        BlockSize::BLOCK_16X4
    );
    assert_eq!(
        BlockSize::BLOCK_64X64.subsize(PartitionType::PARTITION_VERT_4),
        BlockSize::BLOCK_16X64
    );
}

#[test]
fn subsize_illegal_pairs_yield_invalid() {
    assert_eq!(
        BlockSize::BLOCK_4X4.subsize(PartitionType::PARTITION_SPLIT),
        BlockSize::BLOCK_INVALID
    );
    assert_eq!(
        BlockSize::BLOCK_16X8.subsize(PartitionType::PARTITION_HORZ),
        BlockSize::BLOCK_INVALID
    );
    assert_eq!(
        BlockSize::BLOCK_128X128.subsize(PartitionType::PARTITION_HORZ_4),
        BlockSize::BLOCK_INVALID
    );
    assert_eq!(
        BlockSize::BLOCK_8X8.subsize(PartitionType::PARTITION_VERT_4),
        BlockSize::BLOCK_INVALID
    );
}

#[test]
fn subsize_area_fractions() {
    // Half for a two-way split, a quarter for the four-way splits.
    let parent = BlockSize::BLOCK_32X32;
    let area = parent.width() * parent.height();
    let horz = parent.subsize(PartitionType::PARTITION_HORZ);
    assert_eq!(2 * horz.width() * horz.height(), area);
    let split = parent.subsize(PartitionType::PARTITION_SPLIT);
    assert_eq!(4 * split.width() * split.height(), area);
    let strip = parent.subsize(PartitionType::PARTITION_VERT_4);
    assert_eq!(4 * strip.width() * strip.height(), area);
}

#[test]
fn tx_size_per_block() {
    assert_eq!(BlockSize::BLOCK_16X8.tx_size(), TxSize::TX_16X8);
    assert_eq!(BlockSize::BLOCK_64X64.tx_size(), TxSize::TX_64X64);
    assert_eq!(BlockSize::BLOCK_128X128.tx_size(), TxSize::TX_64X64);
    assert_eq!(BlockSize::BLOCK_64X128.tx_size(), TxSize::TX_64X64);
}

#[test]
fn plane_block_and_uv_tx() {
    assert_eq!(
        get_plane_block_size(BlockSize::BLOCK_64X64, 1, 1),
        BlockSize::BLOCK_32X32
    );
    assert_eq!(
        get_plane_block_size(BlockSize::BLOCK_4X4, 1, 1),
        BlockSize::BLOCK_4X4
    );
    assert_eq!(
        get_plane_block_size(BlockSize::BLOCK_64X32, 1, 0),
        BlockSize::BLOCK_32X32
    );
    assert_eq!(
        BlockSize::BLOCK_64X64.largest_uv_tx_size(1, 1),
        TxSize::TX_32X32
    );
    assert_eq!(
        BlockSize::BLOCK_128X128.largest_uv_tx_size(1, 1),
        TxSize::TX_32X32
    );
    assert_eq!(
        BlockSize::BLOCK_8X8.largest_uv_tx_size(1, 1),
        TxSize::TX_4X4
    );
    assert_eq!(max_rect_tx_size(BlockSize::BLOCK_16X64), TxSize::TX_16X64);
    assert_eq!(coded_tx_size(TxSize::TX_64X16), TxSize::TX_32X16);
    assert_eq!(coded_tx_size(TxSize::TX_16X64), TxSize::TX_16X32);
    assert_eq!(coded_tx_size(TxSize::TX_8X8), TxSize::TX_8X8);
}

#[test]
fn tx_dimensions() {
    let all = [
        TxSize::TX_4X4,
        TxSize::TX_8X8,
        TxSize::TX_16X16,
        TxSize::TX_32X32,
        TxSize::TX_64X64,
        TxSize::TX_4X8,
        TxSize::TX_8X4,
        TxSize::TX_8X16,
        TxSize::TX_16X8,
        TxSize::TX_16X32,
        TxSize::TX_32X16,
        TxSize::TX_32X64,
        TxSize::TX_64X32,
        TxSize::TX_4X16,
        TxSize::TX_16X4,
        TxSize::TX_8X32,
        TxSize::TX_32X8,
        TxSize::TX_16X64,
        TxSize::TX_64X16,
    ];
    for t in all {
        assert_eq!(t.width(), 1 << t.width_log2());
        assert_eq!(t.height(), 1 << t.height_log2());
        assert_eq!(t.area(), t.width() * t.height());
        assert_eq!(t.area_log2(), t.width_log2() + t.height_log2());
        assert_eq!(t.width_index(), t.width_log2() - 2);
        assert_eq!(t.height_index(), t.height_log2() - 2);
        assert_eq!(t.width_mi(), t.width() >> 2);
        assert_eq!(t.height_mi(), t.height() >> 2);
        // The block size of equal pixel dimensions.
        let b = t.block_size();
        assert_eq!(b.width(), t.width());
        assert_eq!(b.height(), t.height());
        // Round trip through the dimensions.
        assert_eq!(TxSize::by_dims(t.width(), t.height()), t);
        assert_eq!(t.is_rect(), t.width() != t.height());
    }
}

#[test]
fn tx_sqr_up_idempotent_and_covering() {
    let all = [
        TxSize::TX_4X4,
        TxSize::TX_8X8,
        TxSize::TX_16X16,
        TxSize::TX_32X32,
        TxSize::TX_64X64,
        TxSize::TX_4X8,
        TxSize::TX_8X4,
        TxSize::TX_8X16,
        TxSize::TX_16X8,
        TxSize::TX_16X32,
        TxSize::TX_32X16,
        TxSize::TX_32X64,
        TxSize::TX_64X32,
        TxSize::TX_4X16,
        TxSize::TX_16X4,
        TxSize::TX_8X32,
        TxSize::TX_32X8,
        TxSize::TX_16X64,
        TxSize::TX_64X16,
    ];
    for t in all {
        let up = t.sqr_up();
        assert_eq!(up.sqr_up(), up);
        assert!(!up.is_rect());
        assert!(up.width() >= t.width());
        assert!(up.height() >= t.height());
        let down = t.sqr();
        assert!(!down.is_rect());
        assert!(down.width() <= t.width());
        assert!(down.height() <= t.height());
    }
    assert_eq!(TxSize::TX_16X4.sqr_up(), TxSize::TX_16X16);
    assert_eq!(TxSize::TX_16X4.sqr(), TxSize::TX_4X4);
    assert_eq!(TxSize::TX_32X64.sqr_up(), TxSize::TX_64X64);
    assert_eq!(TxSize::TX_32X64.sqr(), TxSize::TX_32X32);
}

#[test]
fn ref_type_indexing() {
    assert_eq!(RefType::LAST_FRAME.to_index(), 0);
    assert_eq!(RefType::GOLDEN_FRAME.to_index(), 3);
    assert_eq!(RefType::ALTREF_FRAME.to_index(), 6);
    assert!(RefType::LAST_FRAME.is_fwd_ref());
    assert!(RefType::GOLDEN_FRAME.is_fwd_ref());
    assert!(!RefType::BWDREF_FRAME.is_fwd_ref());
    assert!(RefType::BWDREF_FRAME.is_bwd_ref());
    assert!(RefType::ALTREF_FRAME.is_bwd_ref());
    assert!(!RefType::LAST3_FRAME.is_bwd_ref());
}

#[test]
fn need_container_by_extension() {
    assert!(av1core::mux::need_container(b"out.mp4"));
    assert!(av1core::mux::need_container(b"dir/clip.MP4"));
    assert!(av1core::mux::need_container(b"a.Mp4"));
    assert!(!av1core::mux::need_container(b"out.ivf"));
    assert!(!av1core::mux::need_container(b"out.mp4v"));
    assert!(!av1core::mux::need_container(b".mp4"));
    assert!(!av1core::mux::need_container(b"dir/.mp4"));
    assert!(!av1core::mux::need_container(b"mp4"));
}
