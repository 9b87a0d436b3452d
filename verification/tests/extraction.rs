// The extraction pipeline's decision logic on concrete values: timestamp
// translation, the decode/flush loop's acceptance, conversion-plan
// resolution, and stride-aware packing.

use video_capture_wasm::decode::DecodeLoop;
use video_capture_wasm::error::VideoErrorCode;
use video_capture_wasm::packer::pack_frame;
use video_capture_wasm::pipeline::{
    pack_converted_frame, select_stream, success_result, validate_source_len,
};
use video_capture_wasm::request::{
    ExtractionRequest, PixelFormat, ScalingMethod, bytes_per_pixel, resolve_conversion,
};
use video_capture_wasm::timing::{TimeBase, compute_target_ts, seek_bounds};

fn millis_timebase() -> TimeBase {
    TimeBase::new(1, 1000).expect("positive timebase parts")
}

#[test]
fn time_translation_truncates_toward_zero() {
    // 25 ticks per second: 1.5 s lands between ticks 37 and 38.
    let tb = TimeBase::new(1, 25).expect("positive timebase parts");
    let ts = compute_target_ts(1_500_000, tb).expect("nonnegative time");
    assert_eq!(ts, 37);
}

#[test]
fn time_zero_has_target_zero() {
    let ts = compute_target_ts(0, millis_timebase()).expect("nonnegative time");
    assert_eq!(ts, 0);
}

#[test]
fn negative_time_is_invalid_input() {
    // Policy: a negative time is rejected, not clamped to the stream start.
    let err = compute_target_ts(-5_000_000, millis_timebase()).unwrap_err();
    assert_eq!(err.code, VideoErrorCode::InvalidInput);
    assert_eq!(err.code.get_code(), 5);
}

#[test]
fn seek_window_spans_start_to_target() {
    assert_eq!(seek_bounds(3000), (0, 3000));
}

#[test]
fn time_zero_accepts_first_decodable_frame() {
    // Undefined pts is accepted immediately.
    let mut undefined = DecodeLoop::new(0, 0);
    assert!(undefined.offer_frame(None));

    // So is the very first frame with pts >= 0.
    let mut defined = DecodeLoop::new(0, 0);
    assert!(defined.offer_frame(Some(0)));
}

#[test]
fn loop_accepts_first_frame_at_or_after_target() {
    let mut lp = DecodeLoop::new(3, 3000);
    assert!(lp.wants_packet(3));
    assert!(!lp.wants_packet(2));
    assert!(!lp.offer_frame(Some(2920)));
    assert!(!lp.offer_frame(Some(2960)));
    assert!(lp.offer_frame(Some(3000)));
}

#[test]
fn target_beyond_duration_yields_frame_not_found() {
    // A 10 s stream in milliseconds; the request lies far beyond it.
    let tb = millis_timebase();
    let target = compute_target_ts(9_999_000_000, tb).expect("nonnegative time");
    let mut lp = DecodeLoop::new(0, target);
    let mut pts: i64 = 0;
    while pts < 10_000 {
        assert!(!lp.offer_frame(Some(pts)));
        pts += 40;
    }
    lp.begin_drain();
    assert!(!lp.offer_frame(Some(9_960)));
    lp.mark_exhausted();
    let err = lp.not_found_error();
    assert_eq!(err.code, VideoErrorCode::FrameNotFound);
    assert_eq!(err.code.get_code(), 4);
}

#[test]
fn empty_source_is_invalid_input() {
    let err = validate_source_len(0).unwrap_err();
    assert_eq!(err.code, VideoErrorCode::InvalidInput);
    assert!(validate_source_len(1).is_ok());
}

#[test]
fn container_without_video_stream_is_rejected() {
    let err = select_stream(None).unwrap_err();
    assert_eq!(err.code, VideoErrorCode::NoVideoStream);
    assert_eq!(select_stream(Some(2)).expect("stream present"), 2);
}

#[test]
fn defaults_resolve_to_rgb24_at_source_dimensions() {
    let req = ExtractionRequest::defaults();
    let plan = resolve_conversion(&req, 640, 480).expect("positive dimensions");
    assert_eq!(plan.format, PixelFormat::Rgb24);
    assert_eq!(plan.width, 640);
    assert_eq!(plan.height, 480);
    assert_eq!(plan.method, ScalingMethod::Bilinear);
}

#[test]
fn zero_output_dimension_is_invalid_input() {
    let req = ExtractionRequest {
        pixel_format: None,
        scaling_method: None,
        width: Some(0),
        height: None,
    };
    let err = resolve_conversion(&req, 640, 480).unwrap_err();
    assert_eq!(err.code, VideoErrorCode::InvalidInput);
}

#[test]
fn scaling_method_does_not_change_geometry() {
    let mut a = ExtractionRequest::defaults();
    a.width = Some(320);
    a.pixel_format = Some(PixelFormat::Rgba);
    let mut b = a;
    b.scaling_method = Some(ScalingMethod::Bicubic);
    let plan_a = resolve_conversion(&a, 640, 480).expect("positive dimensions");
    let plan_b = resolve_conversion(&b, 640, 480).expect("positive dimensions");
    assert_eq!(plan_a.width, plan_b.width);
    assert_eq!(plan_a.height, plan_b.height);
    assert_eq!(plan_a.format, plan_b.format);
    assert_eq!(plan_a.method, ScalingMethod::Bilinear);
    assert_eq!(plan_b.method, ScalingMethod::Bicubic);
}

#[test]
fn bytes_per_pixel_per_format() {
    assert_eq!(bytes_per_pixel(PixelFormat::Rgb24), 3);
    assert_eq!(bytes_per_pixel(PixelFormat::Bgr24), 3);
    assert_eq!(bytes_per_pixel(PixelFormat::Rgba), 4);
    assert_eq!(bytes_per_pixel(PixelFormat::Gray8), 1);
}

#[test]
fn packing_removes_stride_padding() {
    // Two 2-pixel RGB24 rows padded to a stride of 8 bytes.
    let data = vec![
        1, 2, 3, 4, 5, 6, 0xAA, 0xAA, //
        7, 8, 9, 10, 11, 12, 0xAA, 0xAA,
    ];
    let out = pack_frame(&data, 2, 2, PixelFormat::Rgb24, 8).expect("consistent geometry");
    assert_eq!(out, vec![1, 2, 3, 4, 5, 6, 7, 8, 9, 10, 11, 12]);
}

#[test]
fn packing_is_identity_without_padding() {
    let data = vec![9, 8, 7, 6, 5, 4];
    let out = pack_frame(&data, 3, 2, PixelFormat::Gray8, 3).expect("consistent geometry");
    assert_eq!(out, data);
}

#[test]
fn packed_length_is_exact() {
    let data = vec![0u8; 1024];
    let out = pack_frame(&data, 5, 4, PixelFormat::Rgba, 32).expect("consistent geometry");
    assert_eq!(out.len(), 5 * 4 * 4);
}

#[test]
fn packing_is_deterministic() {
    let mut data = Vec::new();
    let mut i: usize = 0;
    while i < 200 {
        data.push((i % 251) as u8);
        i += 1;
    }
    let once = pack_frame(&data, 7, 6, PixelFormat::Rgb24, 33).expect("consistent geometry");
    let twice = pack_frame(&data, 7, 6, PixelFormat::Rgb24, 33).expect("consistent geometry");
    assert_eq!(once, twice);
}

#[test]
fn short_data_is_a_backend_error() {
    let data = vec![0u8; 10];
    let err = pack_frame(&data, 2, 2, PixelFormat::Rgb24, 8).unwrap_err();
    assert_eq!(err.code, VideoErrorCode::BackendError);
}

#[test]
fn narrow_stride_is_a_backend_error() {
    let data = vec![0u8; 64];
    let err = pack_frame(&data, 4, 2, PixelFormat::Rgb24, 8).unwrap_err();
    assert_eq!(err.code, VideoErrorCode::BackendError);
}

#[test]
fn seek_scenario_lands_before_target_and_advances() {
    // A synthetic 10 s stream, millisecond timebase, one keyframe every
    // 2 s, 25 frames per second; the request asks for 3.0 s.
    let tb = millis_timebase();
    let target = compute_target_ts(3_000_000, tb).expect("nonnegative time");
    assert_eq!(target, 3000);
    let (seek_from, seek_to) = seek_bounds(target);
    assert_eq!(seek_from, 0);
    assert_eq!(seek_to, 3000);

    // The backward seek lands on the 2.0 s keyframe; decode advances
    // frame by frame until the first pts at or after the target.
    let mut lp = DecodeLoop::new(0, target);
    let mut accepted_pts = None;
    let mut pts: i64 = 2000;
    while pts < 10_000 {
        if lp.offer_frame(Some(pts)) {
            accepted_pts = Some(pts);
            break;
        }
        pts += 40;
    }
    assert_eq!(accepted_pts, Some(3000));

    // The accepted frame is converted at source resolution in RGB24 and
    // packed without stride padding.
    let req = ExtractionRequest::defaults();
    let plan = resolve_conversion(&req, 320, 240).expect("positive dimensions");
    let stride = 1024; // padded well past the 960 visible bytes per row
    let data = vec![0x5Au8; 240 * stride];
    let frame = pack_converted_frame(&data, &plan, stride).expect("consistent geometry");
    assert_eq!(frame.width, 320);
    assert_eq!(frame.height, 240);
    assert_eq!(frame.format, PixelFormat::Rgb24);
    assert_eq!(frame.buffer.len(), 320 * 240 * 3);

    let result = success_result(frame);
    assert!(result.is_success());
    assert_eq!(result.get_buffer().len(), 320 * 240 * 3);
}

#[test]
fn undefined_pts_accepts_even_with_late_target() {
    // A source that never sets presentation timestamps returns its very
    // first decoded frame whatever the target: undefined pts is accepted
    // immediately. Flagged as a correctness risk and pinned down here.
    let mut lp = DecodeLoop::new(0, i64::MAX);
    assert!(lp.offer_frame(None));
}

#[test]
fn zero_height_packs_to_an_empty_buffer() {
    let data: Vec<u8> = Vec::new();
    let out = pack_frame(&data, 4, 0, PixelFormat::Rgb24, 12).expect("consistent geometry");
    assert!(out.is_empty());
}
