use camera_backend::{generate_frame, render_mock_rgb, Camera, MockCamera};

fn pixel(rgb: &[u8], width: usize, x: usize, y: usize) -> [u8; 3] {
    let i = 3 * (y * width + x);
    [rgb[i], rgb[i + 1], rgb[i + 2]]
}

#[test]
fn gradient_values_follow_the_formula() {
    let rgb = render_mock_rgb(20, 10, 0);
    assert_eq!(rgb.len(), 20 * 10 * 3);
    assert_eq!(pixel(&rgb, 20, 1, 0), [12, 0, 6]);
    let rgb = render_mock_rgb(20, 10, 7);
    assert_eq!(pixel(&rgb, 20, 1, 0), [19, 3, 8]);
    let rgb = render_mock_rgb(20, 10, 1000);
    assert_eq!(pixel(&rgb, 20, 3, 5), [18, 117, 77]);
}

#[test]
fn stripes_are_white_every_tenth_of_the_width() {
    let rgb = render_mock_rgb(20, 10, 3);
    for y in 0..10 {
        for x in (0..20).step_by(2) {
            assert_eq!(pixel(&rgb, 20, x, y), [255, 255, 255]);
        }
    }
}

#[test]
fn narrow_frames_are_all_stripe() {
    let rgb = render_mock_rgb(5, 2, 9);
    assert!(rgb.iter().all(|&c| c == 255));
}

#[test]
fn counter_starts_at_zero_and_counts_captures() {
    let mut cam = MockCamera::new(16, 8);
    assert_eq!(cam.counter(), 0);
    for expected in 1..=5u64 {
        assert!(cam.capture_frame().is_ok());
        assert_eq!(cam.counter(), expected);
    }
    assert_eq!(cam.next_frame_number(), 6);
}

#[test]
fn capture_through_the_trait_counts_too() {
    let mut cam = MockCamera::new(8, 8);
    let frame = Camera::capture_frame(&mut cam).unwrap();
    assert_eq!(&frame[0..2], &[0xFF, 0xD8]);
    assert_eq!(cam.counter(), 1);
}

#[test]
fn generated_frame_decodes_to_its_size() {
    let jpeg = generate_frame(64, 48, 12).unwrap();
    let img = image::load_from_memory(&jpeg).unwrap();
    assert_eq!((img.width(), img.height()), (64, 48));
}

#[test]
fn too_wide_frame_fails_to_encode() {
    assert!(generate_frame(70000, 1, 0).is_err());
}
