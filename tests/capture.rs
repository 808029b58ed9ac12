use doubao_voice_input::capture::{AudioCapture, CaptureError, FrameAccumulator};

#[test]
fn capture_start_twice_fails() {
    let mut c = AudioCapture::new();
    assert!(!c.is_recording());
    assert_eq!(c.start(), Ok(()));
    assert!(c.is_recording());
    assert_eq!(c.start(), Err(CaptureError::AlreadyRecording));
    assert!(c.is_recording());
    c.stop();
    assert!(!c.is_recording());
    c.stop();
    assert!(!c.is_recording());
    assert_eq!(c.start(), Ok(()));
}

#[test]
fn capture_volume_is_latest_reading() {
    let mut c = AudioCapture::new();
    assert_eq!(c.get_volume(), 0);
    c.set_volume(40);
    c.set_volume(7);
    assert_eq!(c.get_volume(), 7);
    c.set_volume(100);
    assert_eq!(c.get_volume(), 100);
}

#[test]
fn accumulator_cuts_whole_frames() {
    let mut a = FrameAccumulator::new(3);
    let frames = a.push_samples(&[1, 2]);
    assert!(frames.is_empty());
    let frames = a.push_samples(&[3, 4, 5, 6, 7, 8, 9]);
    assert_eq!(frames, vec![vec![1, 2, 3], vec![4, 5, 6], vec![7, 8, 9]]);
    let frames = a.push_samples(&[10]);
    assert!(frames.is_empty());
    let frames = a.push_samples(&[11, 12, 13]);
    assert_eq!(frames, vec![vec![10, 11, 12]]);
}

#[test]
fn accumulator_split_does_not_change_frames() {
    let data: Vec<i16> = (0..50).collect();
    let mut one = FrameAccumulator::new(7);
    let all = one.push_samples(&data);
    let mut two = FrameAccumulator::new(7);
    let mut parts = two.push_samples(&data[..13]);
    parts.extend(two.push_samples(&data[13..31]));
    parts.extend(two.push_samples(&data[31..]));
    assert_eq!(all, parts);
    assert_eq!(all.len(), 7);
    assert_eq!(all[6], (42..49).collect::<Vec<i16>>());
}
