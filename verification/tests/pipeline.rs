//! Tests of pixel normalization and scaling, through the public
//! pipeline functions.

use liteview::ascii::{eq_ignore_ascii_case, str_eq};
use liteview::normalize::{frame_to_buffer, CapturedFrame, PixelLayout};
use liteview::scale::{resize_frame, resolution_from_str, resolution_target_size, Resolution};

fn captured(layout: PixelLayout, width: u32, height: u32, data: Vec<u8>) -> CapturedFrame {
    CapturedFrame { layout, width, height, data }
}

#[test]
fn bgra_single_pixel() {
    let f = captured(PixelLayout::Bgra, 1, 1, vec![3, 2, 1, 9]);
    let out = frame_to_buffer(&f).unwrap();
    assert_eq!(out.width, 1);
    assert_eq!(out.height, 1);
    assert_eq!(out.buffer, vec![0x010203]);
}

#[test]
fn bgr0_single_pixel() {
    let f = captured(PixelLayout::Bgr0, 1, 1, vec![3, 2, 1, 0]);
    assert_eq!(frame_to_buffer(&f).unwrap().buffer, vec![0x010203]);
}

#[test]
fn bgrx_single_pixel() {
    let f = captured(PixelLayout::Bgrx, 1, 1, vec![3, 2, 1, 7]);
    assert_eq!(frame_to_buffer(&f).unwrap().buffer, vec![0x010203]);
}

#[test]
fn rgb_single_pixel() {
    let f = captured(PixelLayout::Rgb, 1, 1, vec![1, 2, 3]);
    assert_eq!(frame_to_buffer(&f).unwrap().buffer, vec![0x010203]);
}

#[test]
fn rgbx_single_pixel() {
    let f = captured(PixelLayout::Rgbx, 1, 1, vec![1, 2, 3, 9]);
    assert_eq!(frame_to_buffer(&f).unwrap().buffer, vec![0x010203]);
}

#[test]
fn xbgr_single_pixel() {
    let f = captured(PixelLayout::Xbgr, 1, 1, vec![9, 3, 2, 1]);
    assert_eq!(frame_to_buffer(&f).unwrap().buffer, vec![0x010203]);
}

#[test]
fn normalized_length_matches_dimensions() {
    let f = captured(PixelLayout::Rgb, 3, 2, vec![0; 18]);
    let out = frame_to_buffer(&f).unwrap();
    assert_eq!(out.buffer.len(), (out.width * out.height) as usize);
}

#[test]
fn unsupported_layout_yields_no_frame() {
    let f = captured(PixelLayout::Unsupported, 1, 1, vec![1, 2, 3, 4]);
    assert!(frame_to_buffer(&f).is_none());
}

#[test]
fn byte_length_not_multiple_of_stride_yields_no_frame() {
    let f = captured(PixelLayout::Bgra, 1, 1, vec![1, 2, 3]);
    assert!(frame_to_buffer(&f).is_none());
    let g = captured(PixelLayout::Rgb, 1, 1, vec![1, 2, 3, 4]);
    assert!(frame_to_buffer(&g).is_none());
}

#[test]
fn mismatched_dimension_product_yields_no_frame() {
    let f = captured(PixelLayout::Bgra, 1, 1, vec![0; 8]);
    assert!(frame_to_buffer(&f).is_none());
    let g = captured(PixelLayout::Bgra, 2, 2, vec![0; 8]);
    assert!(frame_to_buffer(&g).is_none());
}

#[test]
fn zero_width_yields_no_frame() {
    let f = captured(PixelLayout::Bgra, 0, 4, vec![]);
    assert!(frame_to_buffer(&f).is_none());
}

#[test]
fn checkerboard_normalizes_and_passes_through_unscaled() {
    // Two rows of a red/blue checkerboard, handed over as BGRA bytes.
    let red = [0u8, 0, 255, 255];
    let blue = [255u8, 0, 0, 255];
    let mut data = Vec::new();
    for px in [red, blue, red, blue] {
        data.extend_from_slice(&px);
    }
    let f = captured(PixelLayout::Bgra, 2, 2, data);
    let out = frame_to_buffer(&f).unwrap();
    assert_eq!(out.buffer, vec![0xFF0000, 0x0000FF, 0xFF0000, 0x0000FF]);
    // The `Captured` class asks for no scaling at all.
    assert!(resolution_target_size(Resolution::Captured, out.width, out.height).is_none());
}

#[test]
fn target_size_720p_of_16_by_9_source() {
    let (w, h) = resolution_target_size(Resolution::P720, 1920, 1080).unwrap();
    assert_eq!((w, h), (1280, 720));
}

#[test]
fn target_size_all_classes() {
    assert_eq!(resolution_target_size(Resolution::P480, 1920, 1080).unwrap().0, 640);
    assert_eq!(resolution_target_size(Resolution::P1080, 1920, 1080).unwrap(), (1920, 1080));
    assert_eq!(resolution_target_size(Resolution::P1440, 1920, 1080).unwrap(), (2560, 1440));
    assert_eq!(resolution_target_size(Resolution::P2160, 1920, 1080).unwrap(), (3840, 2160));
    assert_eq!(resolution_target_size(Resolution::P4320, 1920, 1080).unwrap(), (7680, 4320));
}

#[test]
fn target_height_is_floored_to_one_row() {
    // A pathologically wide source scales to a height below one row,
    // which is clamped.
    let (w, h) = resolution_target_size(Resolution::P480, 4_000_000, 1).unwrap();
    assert_eq!(w, 640);
    assert_eq!(h, 1);
}

#[test]
fn resolution_names_parse() {
    assert_eq!(resolution_from_str("captured"), Resolution::Captured);
    assert_eq!(resolution_from_str("480p"), Resolution::P480);
    assert_eq!(resolution_from_str("720p"), Resolution::P720);
    assert_eq!(resolution_from_str("1080p"), Resolution::P1080);
    assert_eq!(resolution_from_str("1440p"), Resolution::P1440);
    assert_eq!(resolution_from_str("2160p"), Resolution::P2160);
    assert_eq!(resolution_from_str("4320p"), Resolution::P4320);
    assert_eq!(resolution_from_str("8k"), Resolution::Captured);
    assert_eq!(resolution_from_str(""), Resolution::Captured);
}

#[test]
fn resize_degenerate_source_gives_black_buffer_of_requested_size() {
    let out = resize_frame(0, 5, &[], 3, 2);
    assert_eq!(out, vec![0; 6]);
    let out = resize_frame(4, 0, &[1, 2, 3, 4], 2, 2);
    assert_eq!(out, vec![0; 4]);
}

#[test]
fn resize_degenerate_destination_gives_empty_buffer() {
    let out = resize_frame(2, 2, &[1, 2, 3, 4], 0, 3);
    assert!(out.is_empty());
    let out = resize_frame(2, 2, &[1, 2, 3, 4], 3, 0);
    assert!(out.is_empty());
}

#[test]
fn resize_downscales_by_nearest_sample() {
    // A 4x2 source to 2x1: columns 0 and 1 of row 0 are kept.
    let src = [10, 20, 30, 40, 50, 60, 70, 80];
    let out = resize_frame(4, 2, &src, 2, 1);
    assert_eq!(out, vec![10, 20]);
    // A 4x1 source to 2x1 picks x * 3 / 2.
    let out = resize_frame(4, 1, &[1, 2, 3, 4], 2, 1);
    assert_eq!(out, vec![1, 2]);
}

#[test]
fn resize_upscale_repeats_nearest_samples() {
    // A 2x1 source to 4x1: x * 1 / 4 stays at the first sample.
    let out = resize_frame(2, 1, &[7, 9], 4, 1);
    assert_eq!(out, vec![7, 7, 7, 7]);
}

#[test]
fn string_comparison_helpers() {
    assert!(str_eq("720p", "720p"));
    assert!(!str_eq("720p", "720P"));
    assert!(!str_eq("720p", "720"));
    assert!(eq_ignore_ascii_case("720P", "720p"));
    assert!(eq_ignore_ascii_case("CapTureD", "captured"));
    assert!(!eq_ignore_ascii_case("captured", "capture"));
}

#[test]
fn resize_out_of_range_sample_is_black() {
    // The source claims 3x3 but delivers two pixels; samples past the
    // end come out black instead of faulting.
    let out = resize_frame(3, 3, &[5, 6], 3, 3);
    assert_eq!(out.len(), 9);
    assert_eq!(out[0], 5);
    assert_eq!(out[8], 0);
}
