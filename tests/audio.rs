use doubao_voice_input::audio::{
    downmix, pcm_le_bytes, process_frame, resample_nearest, volume_level, CaptureFormat,
    TARGET_FRAME_SAMPLES,
};

#[test]
fn native_frame_sizes() {
    let f = CaptureFormat { sample_rate: 48000, channels: 2 };
    assert_eq!(f.samples_per_native_frame(), 1920);
    let g = CaptureFormat { sample_rate: 44100, channels: 1 };
    assert_eq!(g.samples_per_native_frame(), 882);
    let h = CaptureFormat { sample_rate: 16000, channels: 1 };
    assert_eq!(h.samples_per_native_frame(), TARGET_FRAME_SAMPLES);
}

#[test]
fn downmix_averages_toward_zero() {
    assert_eq!(downmix(&[1, 2, -1, -2, 32767, 32767, -32768, -32768], 2), vec![1, -1, 32767, -32768]);
    assert_eq!(downmix(&[3, 4, 5], 3), vec![4]);
    assert_eq!(downmix(&[-7, 0], 2), vec![-3]);
}

#[test]
fn downmix_keeps_mono_and_partial_group() {
    assert_eq!(downmix(&[5, -5, 9], 1), vec![5, -5, 9]);
    assert_eq!(downmix(&[4, 4, 9], 2), vec![4, 4]);
}

#[test]
fn volume_silence_is_zero() {
    assert_eq!(volume_level(&[0; 320]), 0);
    assert_eq!(volume_level(&[]), 0);
}

#[test]
fn volume_full_scale_is_hundred() {
    assert_eq!(volume_level(&[32767; 320]), 100);
    assert_eq!(volume_level(&[-32768, 32767, -32768, 32767]), 100);
}

#[test]
fn volume_exact_levels() {
    assert_eq!(volume_level(&[1000; 10]), 10);
    assert_eq!(volume_level(&[999; 10]), 9);
    assert_eq!(volume_level(&[3000, -4000]), 35);
    assert_eq!(volume_level(&[10000, 10000]), 100);
    assert_eq!(volume_level(&[9999]), 99);
}

#[test]
fn resample_picks_nearest_index() {
    let src: Vec<i16> = (0..960).map(|i| i as i16).collect();
    let out = resample_nearest(&src, 320);
    assert_eq!(out.len(), 320);
    for (i, s) in out.iter().enumerate() {
        assert_eq!(*s, (i * 3) as i16);
    }
    let src: Vec<i16> = (0..882).map(|i| i as i16).collect();
    let out = resample_nearest(&src, 320);
    assert_eq!(out[1], 2);
    assert_eq!(out[160], 441);
    assert_eq!(out[319], (319 * 882 / 320) as i16);
}

#[test]
fn resample_keeps_frame_of_target_length() {
    let src = vec![7i16, -1, 3];
    assert_eq!(resample_nearest(&src, 3), src);
    assert_eq!(resample_nearest(&[1, 2], 4), vec![1, 1, 2, 2]);
}

#[test]
fn pcm_bytes_are_little_endian() {
    assert_eq!(pcm_le_bytes(&[0x1234, -1, -32768, 1]), vec![0x34, 0x12, 0xff, 0xff, 0x00, 0x80, 0x01, 0x00]);
    assert_eq!(pcm_le_bytes(&[]), Vec::<u8>::new());
}

#[test]
fn process_stereo_48k_frame() {
    let f = CaptureFormat { sample_rate: 48000, channels: 2 };
    let mut frame = Vec::new();
    for i in 0..960 {
        frame.push(2000 + (i % 3) as i16);
        frame.push(2000 + (i % 3) as i16);
    }
    let out = process_frame(&f, &frame);
    assert_eq!(out.volume, 20);
    assert_eq!(out.pcm.len(), 640);
    assert_eq!(&out.pcm[0..4], &[0xd0, 0x07, 0xd0, 0x07]);
}

#[test]
fn process_mono_16k_frame_is_passthrough() {
    let f = CaptureFormat { sample_rate: 16000, channels: 1 };
    let frame: Vec<i16> = (0..320).map(|i| (i as i16) - 160).collect();
    let out = process_frame(&f, &frame);
    let expected: Vec<u8> = frame.iter().flat_map(|s| s.to_le_bytes()).collect();
    assert_eq!(out.pcm, expected);
    assert!(out.volume <= 100);
}
