use kiss3d_drm::canvas_utils::pixel_reading::{channel_order, map_failed_message, map_result_lost_message, TextureFormatKind, calculate_padded_bytes_per_row, pack_rgb_bottom_up, unpad_rows, ChannelOrder};
use kiss3d_drm::canvas_utils::texture_utils::min_one;

#[test]
fn padded_row_rounds_up_to_256() {
    assert_eq!(calculate_padded_bytes_per_row(10, 4), 256);
    assert_eq!(calculate_padded_bytes_per_row(64, 4), 256);
    assert_eq!(calculate_padded_bytes_per_row(65, 4), 512);
    assert_eq!(calculate_padded_bytes_per_row(0, 4), 0);
    assert_eq!(calculate_padded_bytes_per_row(1920, 4), 7680);
    assert_eq!(calculate_padded_bytes_per_row(100, 3), 512);
}

#[test]
fn padded_row_is_least_multiple_not_below_unpadded() {
    for width in 0..300usize {
        let unpadded = width * 4;
        let padded = calculate_padded_bytes_per_row(width, 4);
        assert_eq!(padded % 256, 0);
        assert!(padded >= unpadded);
        assert!(padded < unpadded + 256);
    }
}

#[test]
fn min_one_clamps_zero() {
    assert_eq!(min_one(0), 1);
    assert_eq!(min_one(1), 1);
    assert_eq!(min_one(640), 640);
}

/// Two rows of two pixels, with four bytes of padding after each row.
fn sample_readback() -> Vec<u8> {
    vec![
        10, 11, 12, 13, 20, 21, 22, 23, 0xee, 0xee, 0xee, 0xee, // top row
        30, 31, 32, 33, 40, 41, 42, 43, 0xee, 0xee, 0xee, 0xee, // bottom row
    ]
}

#[test]
fn rgb_from_bgra_flips_rows_and_swaps_red_blue() {
    let data = sample_readback();
    let mut out = vec![99u8; 5];
    pack_rgb_bottom_up(&data, &mut out, 2, 2, 12, ChannelOrder::Bgra);
    assert_eq!(out, vec![32, 31, 30, 42, 41, 40, 12, 11, 10, 22, 21, 20]);
}

#[test]
fn rgb_from_rgba_flips_rows_and_drops_alpha() {
    let data = sample_readback();
    let mut out = Vec::new();
    pack_rgb_bottom_up(&data, &mut out, 2, 2, 12, ChannelOrder::Rgba);
    assert_eq!(out, vec![30, 31, 32, 40, 41, 42, 10, 11, 12, 20, 21, 22]);
}

#[test]
fn rgb_orders_differ_by_red_blue_swap() {
    let data = sample_readback();
    let mut rgba = Vec::new();
    let mut bgra = Vec::new();
    pack_rgb_bottom_up(&data, &mut rgba, 2, 2, 12, ChannelOrder::Rgba);
    pack_rgb_bottom_up(&data, &mut bgra, 2, 2, 12, ChannelOrder::Bgra);
    for pixel in 0..4 {
        assert_eq!(bgra[pixel * 3], rgba[pixel * 3 + 2]);
        assert_eq!(bgra[pixel * 3 + 1], rgba[pixel * 3 + 1]);
        assert_eq!(bgra[pixel * 3 + 2], rgba[pixel * 3]);
    }
}

#[test]
fn rgb_of_empty_region_is_empty() {
    let mut out = vec![1, 2, 3];
    pack_rgb_bottom_up(&[], &mut out, 0, 0, 0, ChannelOrder::Bgra);
    assert!(out.is_empty());
    pack_rgb_bottom_up(&[], &mut out, 5, 0, 20, ChannelOrder::Rgba);
    assert!(out.is_empty());
}

#[test]
fn rgb_size_is_width_height_three() {
    let width = 70usize;
    let height = 3usize;
    let padded = calculate_padded_bytes_per_row(width, 4);
    let data: Vec<u8> = (0..padded * height).map(|i| (i % 251) as u8).collect();
    let mut out = Vec::new();
    pack_rgb_bottom_up(&data, &mut out, width, height, padded, ChannelOrder::Bgra);
    assert_eq!(out.len(), width * height * 3);
    // first output pixel is the first pixel of the last texture row
    let src = (height - 1) * padded;
    assert_eq!(&out[0..3], &[data[src + 2], data[src + 1], data[src]]);
}

#[test]
fn unpad_strips_row_padding() {
    let data = sample_readback();
    let mut buffer = Vec::new();
    unpad_rows(&data, &mut buffer, 2, 2, 12);
    assert_eq!(buffer, vec![10, 11, 12, 13, 20, 21, 22, 23, 30, 31, 32, 33, 40, 41, 42, 43]);
}

#[test]
fn unpad_without_padding_is_prefix() {
    let data: Vec<u8> = (0..20u8).collect();
    let mut buffer = vec![7u8; 40];
    unpad_rows(&data, &mut buffer, 2, 2, 8);
    assert_eq!(buffer, data[..16].to_vec());
}

#[test]
fn unpad_resizes_buffer() {
    let data = sample_readback();
    let mut buffer = vec![5u8; 2];
    unpad_rows(&data, &mut buffer, 1, 2, 12);
    assert_eq!(buffer, vec![10, 11, 12, 13, 30, 31, 32, 33]);
    let mut empty_target = vec![1u8, 2, 3];
    unpad_rows(&data, &mut empty_target, 0, 2, 12);
    assert!(empty_target.is_empty());
}

#[test]
fn bgra_formats_read_back_blue_first() {
    assert_eq!(channel_order(TextureFormatKind::Bgra8Unorm), ChannelOrder::Bgra);
    assert_eq!(channel_order(TextureFormatKind::Bgra8UnormSrgb), ChannelOrder::Bgra);
    assert_eq!(channel_order(TextureFormatKind::Other), ChannelOrder::Rgba);
}

#[test]
fn map_failure_messages() {
    assert_eq!(map_result_lost_message("receiving on a closed channel"), "Failed to receive buffer map result: receiving on a closed channel");
    assert_eq!(map_failed_message("device lost"), "Failed to map staging buffer: device lost");
}
