use noor_rtc::media::AudioMedia;
use noor_rtc::payload::{audio_media_from_params, h264_payload_type, is_screen_track, opus_payload_type, CodecKind, PayloadInfo};

fn p(pt: u8, codec: CodecKind, clock_rate: u32, channels: Option<u8>) -> PayloadInfo {
    PayloadInfo { pt, codec, clock_rate, channels }
}

#[test]
fn audio_media_defaults_to_48k_stereo() {
    assert_eq!(audio_media_from_params(&[]), AudioMedia { clock_rate: 48_000, channels: 2 });
}

#[test]
fn audio_media_takes_last_payload() {
    let params = [p(111, CodecKind::Opus, 48_000, Some(2)), p(9, CodecKind::Other, 8_000, Some(1))];
    assert_eq!(audio_media_from_params(&params), AudioMedia { clock_rate: 8_000, channels: 1 });
    let params = [p(111, CodecKind::Opus, 24_000, None)];
    assert_eq!(audio_media_from_params(&params), AudioMedia { clock_rate: 24_000, channels: 2 });
}

#[test]
fn screen_track_needs_h264() {
    assert!(!is_screen_track(&[p(96, CodecKind::Other, 90_000, None)]));
    assert!(is_screen_track(&[p(96, CodecKind::Other, 90_000, None), p(102, CodecKind::H264, 90_000, None)]));
    assert!(!is_screen_track(&[]));
}

#[test]
fn payload_types_pick_first_match() {
    let params = [
        p(100, CodecKind::Opus, 24_000, Some(2)),
        p(111, CodecKind::Opus, 48_000, Some(2)),
        p(112, CodecKind::Opus, 48_000, Some(1)),
        p(102, CodecKind::H264, 90_000, None),
        p(108, CodecKind::H264, 90_000, None),
    ];
    assert_eq!(opus_payload_type(&params), Some(111));
    assert_eq!(h264_payload_type(&params), Some(102));
    assert_eq!(opus_payload_type(&params[3..]), None);
    assert_eq!(h264_payload_type(&params[..3]), None);
}
