use noor_rtc::audio_math::capture_read_size;
use noor_rtc::audio_math::{output_stream_plan, StreamPlan};
use noor_rtc::audio_math::input_stream_plan;
use noor_rtc::audio_math::find_device_by_name;
use noor_rtc::audio_math::{
    capture_scratch_size, choose_buffer_size, choose_sample_rate, deinterleave, encoded_frame_duration,
    encoder_frame_size, get_opus_samples_count, host_time_to_secs_nanos, interleave_stereo, output_ideal_buffer_size,
    resampler_chunk_size, supports_sample_rate, upmix_mono, Chunk,
};

#[test]
fn opus_sample_counts() {
    assert_eq!(get_opus_samples_count(48_000, 2, 10), 960);
    assert_eq!(get_opus_samples_count(48_000, 2, 20), 1920);
    assert_eq!(get_opus_samples_count(44_100, 1, 10), 440);
    assert_eq!(get_opus_samples_count(48_000, 2, 60), 5760);
}

#[test]
fn buffer_size_choice() {
    assert_eq!(choose_buffer_size(Some((64, 4096)), 480), Some(480));
    assert_eq!(choose_buffer_size(Some((512, 4096)), 480), Some(512));
    assert_eq!(choose_buffer_size(Some((16, 256)), 480), Some(16));
    assert_eq!(choose_buffer_size(None, 480), None);
    assert_eq!(output_ideal_buffer_size(true), 480);
    assert_eq!(output_ideal_buffer_size(false), 441);
}

#[test]
fn sample_rate_choice() {
    assert!(supports_sample_rate(&[(8_000, 16_000), (44_100, 48_000)], 48_000));
    assert!(!supports_sample_rate(&[(8_000, 16_000)], 48_000));
    assert!(!supports_sample_rate(&[], 48_000));
    assert_eq!(choose_sample_rate(true, 48_000, 44_100), 48_000);
    assert_eq!(choose_sample_rate(false, 48_000, 44_100), 44_100);
}

#[test]
fn resampler_chunks() {
    assert_eq!(resampler_chunk_size(48_000, 2, Chunk::TenMs), 480);
    assert_eq!(resampler_chunk_size(48_000, 2, Chunk::FiveMs), 240);
    assert_eq!(resampler_chunk_size(48_000, 2, Chunk::TwoAndHalfMs), 120);
    assert_eq!(resampler_chunk_size(44_100, 1, Chunk::TenMs), 440);
}

#[test]
fn deinterleave_stereo_and_mono() {
    let (l, r, n) = deinterleave(&[1, 2, 3, 4, 5], 2);
    assert_eq!(l, vec![1, 3]);
    assert_eq!(r, vec![2, 4]);
    assert_eq!(n, 2);
    let (l, r, n) = deinterleave(&[7, 8], 1);
    assert_eq!(l, vec![7, 8]);
    assert_eq!(r, vec![7, 8]);
    assert_eq!(n, 2);
}

#[test]
fn interleave_and_upmix() {
    assert_eq!(interleave_stereo(&[1, 3], &[2, 4]), vec![1, 2, 3, 4]);
    assert_eq!(upmix_mono(&[5, 6]), vec![5, 5, 6, 6]);
}

#[test]
fn frame_sizes_and_durations() {
    assert_eq!(encoder_frame_size(480, 2), 960);
    assert_eq!(capture_scratch_size(48_000, 2), 9600);
    assert_eq!(encoded_frame_duration(1920, 2, 48_000), (960, 20));
}

#[test]
fn host_time_split() {
    assert_eq!(host_time_to_secs_nanos(2_500_000_000, 1, 1), (2, 500_000_000));
    assert_eq!(host_time_to_secs_nanos(3, 125, 3), (0, 125));
}

#[test]
fn capture_read_waits_for_half_a_frame() {
    assert_eq!(capture_read_size(960, 2, 479), None);
    assert_eq!(capture_read_size(960, 2, 480), Some((480, 480)));
    assert_eq!(capture_read_size(960, 1, 1000), Some((480, 960)));
}

#[test]
fn output_stream_plan_prefers_48k() {
    assert_eq!(
        output_stream_plan(&[(8_000, 96_000)], 48_000, Some((64, 4096))),
        StreamPlan { buffer_size: Some(480), channels: 2, sample_rate: 48_000 }
    );
    assert_eq!(
        output_stream_plan(&[(44_100, 44_100)], 44_100, Some((512, 4096))),
        StreamPlan { buffer_size: Some(512), channels: 2, sample_rate: 44_100 }
    );
    assert_eq!(
        output_stream_plan(&[(8_000, 96_000)], 44_100, Some((64, 4096))),
        StreamPlan { buffer_size: Some(441), channels: 2, sample_rate: 48_000 }
    );
    assert_eq!(output_stream_plan(&[], 44_100, None), StreamPlan { buffer_size: None, channels: 2, sample_rate: 44_100 });
}

#[test]
fn input_stream_plan_is_mono() {
    assert_eq!(
        input_stream_plan(48_000, 240, &[(16_000, 48_000)], 44_100, Some((128, 1024))),
        StreamPlan { buffer_size: Some(240), channels: 1, sample_rate: 48_000 }
    );
    assert_eq!(
        input_stream_plan(48_000, 64, &[(16_000, 44_100)], 44_100, Some((128, 1024))),
        StreamPlan { buffer_size: Some(128), channels: 1, sample_rate: 44_100 }
    );
}

#[test]
fn device_lookup_by_name() {
    let names = vec!["Built-in".to_string(), "USB Mic".to_string(), "USB Mic".to_string()];
    assert_eq!(find_device_by_name(&names, "USB Mic"), Some(1));
    assert_eq!(find_device_by_name(&names, "Headset"), None);
}
