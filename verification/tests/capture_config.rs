use noor_rtc::{CapturerConfig, Priority, Resolution};

#[test]
fn default_config_is_balanced_nominal() {
    let c = CapturerConfig::default();
    assert_eq!(*c.priority(), Priority::Balanced);
    assert_eq!(*c.resolution(), Resolution::Nominal);
    assert_eq!(c.fps(), None);
    assert_eq!(c.effective_fps(), 24);
    assert_eq!(c.suggested_max_qp(), 40);
    assert!(!c.is_high_fps());
}

#[test]
fn effective_fps_table() {
    let mut c = CapturerConfig::default();
    let cases = [
        (Resolution::Best, Priority::Motion, 60, 40),
        (Resolution::Nominal, Priority::Motion, 30, 40),
        (Resolution::Low, Priority::Motion, 24, 51),
        (Resolution::Best, Priority::Quality, 30, 20),
        (Resolution::Nominal, Priority::Quality, 20, 45),
        (Resolution::Low, Priority::Quality, 15, 51),
        (Resolution::Best, Priority::Balanced, 60, 30),
        (Resolution::Nominal, Priority::Balanced, 24, 40),
        (Resolution::Low, Priority::Balanced, 20, 40),
    ];
    for (r, p, fps, qp) in cases {
        c.set_resolution(r);
        c.set_priority(p);
        assert_eq!(c.effective_fps(), fps);
        assert_eq!(c.suggested_max_qp(), qp);
        assert_eq!(c.is_high_fps(), fps > 30);
    }
}

#[test]
fn forced_fps_wins() {
    let mut c = CapturerConfig::default();
    c.set_fps(Some(90));
    assert_eq!(c.fps(), Some(90));
    assert_eq!(c.effective_fps(), 90);
    assert!(c.is_high_fps());
    c.set_fps(None);
    assert_eq!(c.effective_fps(), 24);
}

#[test]
fn key_frame_interval_is_two_seconds() {
    assert_eq!(noor_rtc::max_key_frame_interval(30), 60);
    assert_eq!(noor_rtc::max_key_frame_interval(24), 48);
}

#[test]
fn target_bitrate_is_below_estimate() {
    assert_eq!(noor_rtc::encoder_target_bitrate(1_000_000), 850_000);
    assert_eq!(noor_rtc::encoder_target_bitrate(150_000), 0);
}
