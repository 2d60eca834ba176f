use camera_backend::{
    chunk_for, error_chunk, frame_chunk, frame_period_nanos, CaptureError, FormatError, StreamAction,
    StreamPhase, StreamScheduler,
};

fn failure() -> CaptureError {
    CaptureError::Format(FormatError { actual: 0, expected: 2 })
}

#[test]
fn image_part_is_framed_exactly() {
    let chunk = frame_chunk(&vec![1, 2, 3]);
    let mut expected = b"--frame\r\nContent-Type: image/jpeg\r\nContent-Length: 3\r\n\r\n".to_vec();
    expected.extend_from_slice(&[1, 2, 3]);
    expected.extend_from_slice(b"\r\n");
    assert_eq!(chunk, expected);
}

#[test]
fn content_length_counts_every_byte() {
    let frame = vec![7u8; 1234];
    let chunk = frame_chunk(&frame);
    let text = String::from_utf8_lossy(&chunk[..70]).to_string();
    assert!(text.contains("Content-Length: 1234\r\n\r\n"));
    assert_eq!(chunk.len(), 9 + 26 + 16 + 4 + 4 + 1234 + 2);
}

#[test]
fn empty_frame_has_zero_length() {
    let chunk = frame_chunk(&vec![]);
    assert!(String::from_utf8(chunk).unwrap().ends_with("Content-Length: 0\r\n\r\n\r\n"));
}

#[test]
fn error_part_is_plain_text() {
    assert_eq!(
        error_chunk(),
        b"--frame\r\nContent-Type: text/plain\r\nContent-Length: 12\r\n\r\ncamera-error\r\n".to_vec()
    );
    assert_eq!(chunk_for(&Err(failure())), error_chunk());
    assert_eq!(chunk_for(&Ok(vec![9])), frame_chunk(&vec![9]));
}

#[test]
fn one_failed_tick_out_of_ten() {
    let period = frame_period_nanos(10_000);
    let mut s = StreamScheduler::new(10_000, 0);
    let mut chunks = Vec::new();
    let mut now = 0u64;
    for tick in 0..10u64 {
        assert_eq!(s.poll(now), StreamAction::Capture);
        let result = if tick == 4 { Err(failure()) } else { Ok(vec![tick as u8]) };
        chunks.push(s.complete(&result));
        assert_eq!(s.phase(), StreamPhase::Idle);
        now += period;
    }
    let errors: Vec<usize> = (0..10).filter(|&i| chunks[i] == error_chunk()).collect();
    assert_eq!(errors, vec![4]);
    for (i, c) in chunks.iter().enumerate() {
        if i != 4 {
            assert_eq!(c, &frame_chunk(&vec![i as u8]));
        }
    }
    assert_eq!(s.poll(now), StreamAction::Capture);
}

#[test]
fn one_hertz_ticks_are_a_second_apart() {
    let mut s = StreamScheduler::new(1_000, 5);
    assert_eq!(s.period(), 1_000_000_000);
    let mut clock = 5u64;
    let mut fired = Vec::new();
    while fired.len() < 3 {
        match s.poll(clock) {
            StreamAction::Capture => {
                fired.push(clock);
                s.complete(&Ok(vec![]));
            }
            StreamAction::WaitUntil(t) => {
                assert!(t > clock);
                clock += 250_000_000;
            }
            StreamAction::Finished => panic!("finished early"),
        }
    }
    assert_eq!(fired, vec![5, 1_000_000_005, 2_000_000_005]);
    for w in fired.windows(2) {
        assert!(w[1] - w[0] >= 1_000_000_000);
    }
}

#[test]
fn slow_rate_is_raised_to_one_hertz() {
    assert_eq!(frame_period_nanos(0), 1_000_000_000);
    assert_eq!(frame_period_nanos(500), 1_000_000_000);
    assert_eq!(frame_period_nanos(12_000), 83_333_333);
    assert_eq!(frame_period_nanos(60_000), 16_666_666);
}

#[test]
fn late_capture_does_not_skip_ticks() {
    let mut s = StreamScheduler::new(1_000, 0);
    assert_eq!(s.poll(0), StreamAction::Capture);
    s.complete(&Ok(vec![]));
    assert_eq!(s.poll(3_500_000_000), StreamAction::Capture);
    assert_eq!(s.next_tick(), 2_000_000_000);
    s.complete(&Ok(vec![]));
    assert_eq!(s.poll(3_500_000_000), StreamAction::Capture);
    assert_eq!(s.next_tick(), 3_000_000_000);
}

#[test]
fn cancelled_stream_requests_nothing() {
    let mut s = StreamScheduler::new(12_000, 0);
    assert_eq!(s.poll(0), StreamAction::Capture);
    s.complete(&Ok(vec![]));
    s.cancel();
    assert_eq!(s.phase(), StreamPhase::Stopped);
    assert_eq!(s.poll(10_000_000_000), StreamAction::Finished);
    assert_eq!(s.poll(20_000_000_000), StreamAction::Finished);
}
