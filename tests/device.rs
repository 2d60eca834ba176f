use camera_backend::{
    fps_for, rgb_to_jpeg, yuyv_to_jpeg, CaptureError, DeviceOpenError, FormatError, NegotiationStep,
    Negotiator, PixelFormat,
};

#[test]
fn preferred_format_is_asked_first() {
    let n = Negotiator::new(640, 480, 12_000);
    let req = n.request();
    assert_eq!(req.format, PixelFormat::Mjpeg);
    assert_eq!((req.width, req.height, req.fps), (640, 480, 12));
    match n.on_result(Ok(())) {
        NegotiationStep::Ready(cam) => assert_eq!(cam.pixel_format(), PixelFormat::Mjpeg),
        other => panic!("unexpected {:?}", other),
    }
}

#[test]
fn refused_preferred_falls_back_to_raw() {
    let n = Negotiator::new(4, 2, 30_000);
    let n = match n.on_result(Err("no MJPG".to_string())) {
        NegotiationStep::Retry(n) => n,
        other => panic!("unexpected {:?}", other),
    };
    let req = n.request();
    assert_eq!(req.format, PixelFormat::Yuyv);
    assert_eq!((req.width, req.height, req.fps), (4, 2, 30));
    let cam = match n.on_result(Ok(())) {
        NegotiationStep::Ready(cam) => cam,
        other => panic!("unexpected {:?}", other),
    };
    assert_eq!(cam.pixel_format(), PixelFormat::Yuyv);
    let raw = vec![128u8; 16];
    let jpeg = cam.frame_to_jpeg(&raw).unwrap();
    assert_eq!(jpeg, yuyv_to_jpeg(&raw, 4, 2).unwrap());
    assert_ne!(jpeg, raw);
    match cam.frame_to_jpeg(&raw[..15]) {
        Err(CaptureError::Format(e)) => assert_eq!(e, FormatError { actual: 15, expected: 16 }),
        other => panic!("unexpected {:?}", other),
    }
    assert_eq!((cam.width(), cam.height()), (4, 2));
}

#[test]
fn both_refusals_are_reported() {
    let n = Negotiator::new(4, 2, 30_000);
    let n = match n.on_result(Err("no MJPG".to_string())) {
        NegotiationStep::Retry(n) => n,
        other => panic!("unexpected {:?}", other),
    };
    match n.on_result(Err("no YUYV".to_string())) {
        NegotiationStep::Failed(e) => assert_eq!(
            e,
            DeviceOpenError { preferred: "no MJPG".to_string(), fallback: "no YUYV".to_string() }
        ),
        other => panic!("unexpected {:?}", other),
    }
}

#[test]
fn compressed_frames_pass_through() {
    let cam = match Negotiator::new(4, 2, 1_000).on_result(Ok(())) {
        NegotiationStep::Ready(cam) => cam,
        other => panic!("unexpected {:?}", other),
    };
    let bytes = vec![0xFF, 0xD8, 1, 2, 3];
    assert_eq!(cam.frame_to_jpeg(&bytes).unwrap(), bytes);
}

#[test]
fn frame_rate_rounds_to_whole_fps() {
    assert_eq!(fps_for(0), 1);
    assert_eq!(fps_for(999), 1);
    assert_eq!(fps_for(1_000), 1);
    assert_eq!(fps_for(12_499), 12);
    assert_eq!(fps_for(12_500), 13);
    assert_eq!(fps_for(60_000), 60);
    assert_eq!(fps_for(u64::MAX), u32::MAX);
}

#[test]
fn raw_frame_encodes_to_a_decodable_image() {
    let raw = vec![128u8; 16 * 8 * 2];
    let jpeg = yuyv_to_jpeg(&raw, 16, 8).unwrap();
    let img = image::load_from_memory(&jpeg).unwrap();
    assert_eq!((img.width(), img.height()), (16, 8));
}

#[test]
fn rgb_encodes_round_trip_to_same_size() {
    let rgb: Vec<u8> = (0..(33 * 17 * 3)).map(|i| (i % 251) as u8).collect();
    let jpeg = rgb_to_jpeg(&rgb, 33, 17, 80).unwrap();
    assert_eq!(&jpeg[0..2], &[0xFF, 0xD8]);
    let img = image::load_from_memory(&jpeg).unwrap();
    assert_eq!((img.width(), img.height()), (33, 17));
}

#[test]
fn short_raw_frame_reports_both_lengths() {
    match yuyv_to_jpeg(&[0u8; 10], 4, 2) {
        Err(CaptureError::Format(e)) => assert_eq!(e, FormatError { actual: 10, expected: 16 }),
        other => panic!("unexpected {:?}", other),
    }
}
