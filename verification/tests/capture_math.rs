//! Tests for the frame capture pipeline's arithmetic: buffer sizing, copy
//! layout, and frame assembly from raw bytes.

use gym_bridge::capture::{
    publish_captured, solid_pixels, staging_buffer_size, texture_image_layout, CaptureError,
    Frame, TextureExtent,
};
use gym_bridge::state::{AIGymSettings, AIGymState};

#[test]
fn staging_buffer_size_matches_dimensions() {
    assert_eq!(staging_buffer_size(512, 512), 512 * 512 * 4);
    assert_eq!(staging_buffer_size(1, 1), 4);
    assert_eq!(staging_buffer_size(33, 7), 33 * 7 * 4);
}

#[test]
fn layout_single_row_has_no_row_stride() {
    let layout = texture_image_layout(
        TextureExtent { width: 256, height: 1, depth_or_array_layers: 1 },
        4,
    );
    assert_eq!(layout.offset, 0);
    assert_eq!(layout.bytes_per_row, None);
    assert_eq!(layout.rows_per_image, None);
}

#[test]
fn layout_multi_row_strides_by_width_times_block_size() {
    let layout = texture_image_layout(
        TextureExtent { width: 512, height: 512, depth_or_array_layers: 1 },
        4,
    );
    assert_eq!(layout.bytes_per_row, Some(512 * 4));
    assert_eq!(layout.rows_per_image, None);
}

#[test]
fn layout_multi_layer_sets_rows_per_image() {
    let layout = texture_image_layout(
        TextureExtent { width: 64, height: 32, depth_or_array_layers: 6 },
        4,
    );
    assert_eq!(layout.bytes_per_row, Some(64 * 4));
    assert_eq!(layout.rows_per_image, Some(32));
}

#[test]
fn layout_zero_width_has_no_row_stride() {
    let layout = texture_image_layout(
        TextureExtent { width: 0, height: 2, depth_or_array_layers: 1 },
        4,
    );
    assert_eq!(layout.bytes_per_row, None);
}

#[test]
fn frame_from_raw_accepts_exact_buffer() {
    let pixels = vec![7u8; 3 * 2 * 4];
    let frame = Frame::from_raw(3, 2, pixels.clone()).expect("exact buffer accepted");
    assert_eq!(frame.width, 3);
    assert_eq!(frame.height, 2);
    assert_eq!(frame.pixels, pixels);
}

#[test]
fn frame_from_raw_rejects_wrong_length() {
    assert!(Frame::from_raw(3, 2, vec![7u8; 3 * 2 * 4 - 1]).is_none());
    assert!(Frame::from_raw(3, 2, vec![7u8; 3 * 2 * 4 + 1]).is_none());
}

#[test]
fn frame_from_raw_rejects_zero_dimension() {
    assert!(Frame::from_raw(0, 2, Vec::new()).is_none());
    assert!(Frame::from_raw(2, 0, Vec::new()).is_none());
}

#[test]
fn solid_pixels_fills_every_byte() {
    let v = solid_pixels(5, 3, 1, 2, 3, 4);
    assert_eq!(v.len(), 5 * 3 * 4);
    for p in 0..5 * 3 {
        assert_eq!(&v[4 * p..4 * p + 4], &[1, 2, 3, 4]);
    }
}

#[test]
fn publish_captured_rejects_mismatched_buffer() {
    let mut st: AIGymState<u8> = AIGymState::new();
    let r = publish_captured(&mut st, 4, 4, vec![0u8; 5]);
    assert_eq!(r, Err(CaptureError::BadFrameData));
    assert!(st.frame.is_none());
}

#[test]
fn publish_captured_overwrites_previous_frame() {
    let mut st: AIGymState<u8> = AIGymState::new();
    publish_captured(&mut st, 2, 2, vec![1u8; 16]).expect("first frame");
    publish_captured(&mut st, 2, 2, vec![9u8; 16]).expect("second frame");
    let f = st.frame.as_ref().expect("a frame is held");
    assert_eq!(f.pixels, vec![9u8; 16]);
}

#[test]
fn settings_reject_zero_dimensions() {
    assert!(AIGymSettings::new(0, 512).is_none());
    assert!(AIGymSettings::new(512, 0).is_none());
    let s = AIGymSettings::new(512, 512).expect("ordinary size accepted");
    assert_eq!((s.width, s.height), (512, 512));
}
