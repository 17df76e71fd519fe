//! The capture buffer, mono downmix, sample-rate conversion and the
//! capture-thread protocol, on concrete streams.

use wakascribe::buffer::{downmix, SampleBuffer, MAX_BUFFER_SAMPLES};
use wakascribe::capture::{CaptureService, DEFAULT_SAMPLE_RATE};
use wakascribe::resample::resample_audio;

#[test]
fn append_keeps_existing_content() {
    let mut buf = SampleBuffer::new();
    buf.append_mono(&[1, 2, 3]);
    buf.append_mono(&[4, 5]);
    assert_eq!(buf.snapshot(), vec![1, 2, 3, 4, 5]);
    assert_eq!(buf.len(), 5);
}

#[test]
fn append_saturates_at_the_cap() {
    let mut buf = SampleBuffer::new();
    let big = vec![7i32; MAX_BUFFER_SAMPLES + 10];
    buf.append_mono(&big);
    assert_eq!(buf.len(), MAX_BUFFER_SAMPLES);
    // once full, further appends are dropped silently
    buf.append_mono(&[42, 42, 42]);
    assert_eq!(buf.len(), MAX_BUFFER_SAMPLES);
    let out = buf.take_all();
    assert_eq!(out.len(), MAX_BUFFER_SAMPLES);
    assert_eq!(out[0], 7);
    assert_eq!(out[MAX_BUFFER_SAMPLES - 1], 7);
}

#[test]
fn downmix_stereo_frame_is_the_mean() {
    assert_eq!(downmix(&[3, 5], 2), vec![4]);
    assert_eq!(downmix(&[-3, -5], 2), vec![-4]);
    // rounding is toward negative infinity
    assert_eq!(downmix(&[3, 4], 2), vec![3]);
    assert_eq!(downmix(&[-3, -4], 2), vec![-4]);
}

#[test]
fn downmix_mono_is_identity() {
    assert_eq!(downmix(&[5, -6, 7], 1), vec![5, -6, 7]);
}

#[test]
fn downmix_short_tail_divides_by_channel_count() {
    // the trailing lone sample is still divided by the channel count
    assert_eq!(downmix(&[10, 20, 30], 2), vec![15, 15]);
}

#[test]
fn resample_equal_rates_is_identity() {
    let input = vec![1, -2, 3, -4];
    assert_eq!(resample_audio(&input, 48000, 48000), input);
}

#[test]
fn resample_empty_is_empty() {
    let input: Vec<i32> = Vec::new();
    assert_eq!(resample_audio(&input, 48000, 16000), Vec::<i32>::new());
}

#[test]
fn resample_doubles_and_interpolates() {
    let out = resample_audio(&[0, 10], 8000, 16000);
    assert_eq!(out, vec![0, 5, 10, 10]);
}

#[test]
fn resample_output_length_is_ceiling() {
    let input = vec![0i32; 48000];
    let out = resample_audio(&input, 48000, 16000);
    assert_eq!(out.len(), 16000);
    let out2 = resample_audio(&[0, 0, 0], 48000, 16000);
    assert_eq!(out2.len(), 1);
}

#[test]
fn capture_round_trip_returns_all_samples_at_start_rate() {
    let mut svc = CaptureService::new();
    svc.on_stream_opened(48000, 1);
    assert!(svc.is_recording());
    // two seconds of synthetic samples, fed in callback-sized runs
    let chunk = vec![11i32; 4800];
    for _ in 0..20 {
        svc.on_frames(&chunk);
    }
    let (samples, rate) = svc.handle_stop();
    assert_eq!(rate, 48000);
    assert_eq!(samples.len(), 96000);
    assert!(!svc.is_recording());
}

#[test]
fn snapshot_reads_without_interrupting_capture() {
    let mut svc = CaptureService::new();
    svc.on_stream_opened(16000, 1);
    svc.on_frames(&[1, 2, 3]);
    let (snap, rate) = svc.handle_snapshot();
    assert_eq!(snap, vec![1, 2, 3]);
    assert_eq!(rate, 16000);
    // capture went on: the buffer is still there and still grows
    svc.on_frames(&[4]);
    let (all, _) = svc.handle_stop();
    assert_eq!(all, vec![1, 2, 3, 4]);
}

#[test]
fn stop_without_session_yields_empty_default() {
    let mut svc = CaptureService::new();
    let (samples, rate) = svc.handle_stop();
    assert!(samples.is_empty());
    assert_eq!(rate, DEFAULT_SAMPLE_RATE);
    let (snap, snap_rate) = svc.handle_snapshot();
    assert!(snap.is_empty());
    assert_eq!(snap_rate, DEFAULT_SAMPLE_RATE);
}

#[test]
fn frames_are_downmixed_before_storage() {
    let mut svc = CaptureService::new();
    svc.on_stream_opened(44100, 2);
    svc.on_frames(&[3, 5, -3, -5]);
    let (samples, rate) = svc.handle_stop();
    assert_eq!(samples, vec![4, -4]);
    assert_eq!(rate, 44100);
}

#[test]
fn start_clears_stale_state() {
    let mut svc = CaptureService::new();
    svc.on_stream_opened(16000, 1);
    svc.on_frames(&[9, 9]);
    svc.on_stream_opened(48000, 1);
    let (samples, rate) = svc.handle_stop();
    assert!(samples.is_empty());
    assert_eq!(rate, 48000);
}

#[test]
fn failed_start_leaves_no_session() {
    let mut svc = CaptureService::new();
    svc.on_stream_opened(16000, 1);
    svc.on_start_failed();
    assert!(!svc.is_recording());
    svc.on_frames(&[1, 2]);
    let (samples, rate) = svc.handle_stop();
    assert!(samples.is_empty());
    assert_eq!(rate, DEFAULT_SAMPLE_RATE);
}
