use noor_rtc::bytes_pool::BytesPool;
use noor_rtc::commands::{AddPeerPayload, RawSignal, RemovePeerPayload, SetSignalPayload};
use noor_rtc::devices::{default_device_name, describe_device, enumerate, AudioDeviceType, DeviceInfo};
use noor_rtc::engine::IcePolicy;
use noor_rtc::ids::{CallId, UserId};
use noor_rtc::media::{jitter_config_for, track_resampler_config, voice_activity_of, AudioMedia, MediaExtra, MediaType};
use noor_rtc::net::{filter_host_addresses, gather_plan, GatherError};
use noor_rtc::peer_loop::{classify_media, fit_to_length, is_sendable_encoded_frame, should_write_media, CaptureLoopState};
use noor_rtc::peer_queue::PeerQueue;
use noor_rtc::peer_state::{ice_change_report, ice_state_name, ConnectionState, IceState, PeerState};
use noor_rtc::processing::{echo_cancel_level, noise_cancel_level, stream_delay_ms, EchoCancelLevel, NoiseCancelLevel};
use noor_rtc::screen_share::{check_capture_allowed, display_item, sharable_displays, DisplayInfo, Error, SharableKind};
use noor_rtc::audio_math::Chunk;

#[test]
fn pool_hands_out_zeroed_buffers_and_refills() {
    let mut pool = BytesPool::new(2, 8);
    for _ in 0..5 {
        let b = pool.get_bytes_mut();
        assert_eq!(b.len(), 8);
        assert!(b.iter().all(|x| *x == 0));
    }
}

#[test]
fn payloads_split() {
    let p = SetSignalPayload { user_id: "u".into(), call_id: "c".into(), sdp: Some("{}".into()), candidate: Some("x".into()) };
    match p.into_parts() {
        Ok((u, c, RawSignal::Sdp(s))) => {
            assert_eq!(u.0, "u");
            assert_eq!(c.0, "c");
            assert_eq!(s, "{}");
        }
        _ => panic!("expected sdp"),
    }
    let p = SetSignalPayload { user_id: "u".into(), call_id: "c".into(), sdp: None, candidate: Some("x".into()) };
    assert!(matches!(p.into_parts(), Ok((_, _, RawSignal::Candidate(_)))));
    let p = SetSignalPayload { user_id: "u".into(), call_id: "c".into(), sdp: None, candidate: None };
    assert!(p.into_parts().is_err());
    let (u, c, io) = AddPeerPayload { user_id: "a".into(), call_id: "b".into(), initial_offerer: true }.into_parts();
    assert_eq!((u.0.as_str(), c.0.as_str(), io), ("a", "b", true));
    let (u, c) = RemovePeerPayload { user_id: "a".into(), call_id: "b".into() }.into_parts();
    assert_eq!((u.0.as_str(), c.0.as_str()), ("a", "b"));
    assert_eq!(ConnectionState::Connected.as_str(), "connected");
    assert_eq!(ConnectionState::Connecting.as_str(), "connecting");
    assert_eq!(ConnectionState::Disconnected.as_str(), "disconnected");
}

#[test]
fn device_list() {
    assert_eq!(default_device_name(None), "");
    let d = describe_device(DeviceInfo { name: "Mic".into(), has_input_configs: true }, "Mic", "Out");
    assert_eq!(d.kind, AudioDeviceType::Input);
    assert!(d.default);
    let list = enumerate(
        vec![
            DeviceInfo { name: "Mic".into(), has_input_configs: true },
            DeviceInfo { name: "Spk".into(), has_input_configs: false },
            DeviceInfo { name: "Other".into(), has_input_configs: false },
        ],
        Some("Mic".into()),
        Some("Spk".into()),
    );
    assert_eq!(list.len(), 3);
    assert!(list[0].default && list[1].default && !list[2].default);
    assert_eq!(list[1].kind, AudioDeviceType::Output);
    assert_eq!(list[2].name, "Other");
}

#[test]
fn display_titles() {
    let item = display_item(DisplayInfo { display_id: 3, width: 1440, height: 900 }, 3);
    assert_eq!(item.title, "Primary Display (1440x900)");
    assert_eq!(item.id, 3);
    assert_eq!(item.kind, SharableKind::Display);
    let item = display_item(DisplayInfo { display_id: 4, width: 0, height: 7 }, 3);
    assert_eq!(item.title, "Display (0x7)");
    assert!(matches!(sharable_displays(false, &[], 0), Err(Error::PermissionDenied)));
    let items = sharable_displays(true, &[DisplayInfo { display_id: 1, width: 10, height: 20 }], 1).ok().unwrap();
    assert_eq!(items[0].title, "Primary Display (10x20)");
    assert_eq!(check_capture_allowed(false, true), Err(Error::NotSupported));
    assert_eq!(check_capture_allowed(true, false), Err(Error::PermissionDenied));
    assert_eq!(check_capture_allowed(true, true), Ok(()));
    assert_eq!(Error::NotSupported.message(), "Screen share requires at least macOS 12.3");
}

#[test]
fn host_addresses_and_gathering() {
    let addrs = [[127, 0, 0, 1], [169, 254, 1, 1], [192, 168, 1, 5], [255, 255, 255, 255], [10, 0, 0, 2]];
    assert_eq!(filter_host_addresses(&addrs), Ok(vec![[192, 168, 1, 5], [10, 0, 0, 2]]));
    assert_eq!(filter_host_addresses(&[[127, 0, 0, 1]]), Err(GatherError::IceNoNetworkInterface));
    let p = gather_plan(IcePolicy::Relay);
    assert!(p.relayed && !p.host_and_reflexive);
    let p = gather_plan(IcePolicy::Local);
    assert!(!p.relayed && p.host_and_reflexive);
    let p = gather_plan(IcePolicy::All);
    assert!(p.relayed && p.host_and_reflexive);
}

#[test]
fn processing_levels() {
    assert_eq!(echo_cancel_level("lowest"), EchoCancelLevel::Lowest);
    assert_eq!(echo_cancel_level("lower"), EchoCancelLevel::Lower);
    assert_eq!(echo_cancel_level("low"), EchoCancelLevel::Low);
    assert_eq!(echo_cancel_level("high"), EchoCancelLevel::High);
    assert_eq!(echo_cancel_level("?"), EchoCancelLevel::Moderate);
    assert_eq!(noise_cancel_level("moderate"), NoiseCancelLevel::Moderate);
    assert_eq!(noise_cancel_level("high"), NoiseCancelLevel::High);
    assert_eq!(noise_cancel_level("very_high"), NoiseCancelLevel::VeryHigh);
    assert_eq!(noise_cancel_level(""), NoiseCancelLevel::VeryHigh);
    assert_eq!(stream_delay_ms(40), 80);
}

#[test]
fn peer_state_and_ice_reports() {
    let mut s = PeerState::new(false);
    assert!(!s.has_connected_once());
    s.set_ice_connection_state(IceState::Connected);
    assert!(s.has_connected_once());
    s.set_ice_connection_state(IceState::Disconnected);
    assert!(s.has_connected_once());
    assert_eq!(*s.ice_connection_state(), IceState::Disconnected);
    s.set_got_first_offer();
    s.set_got_first_answer();
    assert!(s.got_first_offer() && s.got_first_answer());
    s.set_connection_state(ConnectionState::Connected);
    assert_eq!(*s.connection_state(), ConnectionState::Connected);
    assert_eq!(ice_change_report(IceState::Checking, ConnectionState::Connecting), Some(ConnectionState::Connecting));
    assert_eq!(ice_change_report(IceState::Connected, ConnectionState::Connecting), None);
    assert_eq!(ice_change_report(IceState::Connected, ConnectionState::Connected), Some(ConnectionState::Connected));
    assert_eq!(ice_change_report(IceState::New, ConnectionState::Connected), None);
    assert_eq!(ice_state_name(IceState::Completed), "Completed");
}

#[test]
fn peer_loop_decisions() {
    assert_eq!(classify_media("0", None, None), None);
    assert_eq!(classify_media("0", Some("0"), Some("s")), Some(MediaType::Voice));
    assert_eq!(classify_media("s", Some("0"), Some("s")), Some(MediaType::Screen));
    assert!(should_write_media(3, ConnectionState::Connected));
    assert!(!should_write_media(0, ConnectionState::Connected));
    assert!(!should_write_media(3, ConnectionState::Connecting));
    assert!(is_sendable_encoded_frame(3) && !is_sendable_encoded_frame(2));
    assert_eq!(fit_to_length(&[1, 2, 3], 5, 0), vec![1, 2, 3, 0, 0]);
    assert_eq!(fit_to_length(&[1, 2, 3], 2, 0), vec![1, 2]);
    let mut c = CaptureLoopState::new();
    assert!(!c.forwards_frames());
    c.started();
    assert!(c.forwards_frames());
    c.request_keyframe();
    assert!(c.take_keyframe_request());
    assert!(!c.take_keyframe_request());
    c.stopped();
    assert!(!c.forwards_frames());
}

#[test]
fn ids_and_queue() {
    let a = UserId::from("x".to_string());
    assert!(a.same_as(&UserId("x".into())));
    assert_eq!(a.clone(), a);
    assert_eq!(a.to_display_string(), "x");
    assert!(CallId("c".into()).same_as(&CallId("c".into())));
    let mut q = PeerQueue::init();
    q.add(&a, true);
    q.add(&UserId("y".into()), false);
    assert_eq!(q.len(), 2);
    let first = q.next().unwrap();
    assert_eq!(first.user_id.0, "x");
    assert!(first.initial_offerer);
    let rest = q.drain();
    assert_eq!(rest.len(), 1);
    assert!(q.next().is_none());
    q.add(&a, false);
    q.clear();
    assert_eq!(q.len(), 0);
}

#[test]
fn media_configs() {
    let m = AudioMedia { clock_rate: 48_000, channels: 2 };
    let c = jitter_config_for(UserId("u".into()), m);
    assert_eq!((c.sample_rate, c.channels), (48_000, 2));
    let r = track_resampler_config(AudioMedia { clock_rate: 16_000, channels: 1 });
    assert_eq!(r.output_sample_rate, 48_000);
    assert_eq!(r.chunk, Chunk::TenMs);
    assert!(r.needs_resampling());
    assert_eq!(r.chunk_size(), 160);
    assert!(voice_activity_of(None));
    assert!(!voice_activity_of(Some(MediaExtra::Audio { voice_activity: false })));
}
