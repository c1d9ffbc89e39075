use noor_rtc::media::{AudioMedia, MediaType};
use noor_rtc::payload::{CodecKind, PayloadInfo};
use noor_rtc::peer_link::{network_input_action, NetworkInputAction, PeerLink, SignalAction, StateReport};
use noor_rtc::signal::SignalKind;
use noor_rtc::peer_state::{ConnectionState, IceState};

fn opus() -> PayloadInfo {
    PayloadInfo { pt: 111, codec: CodecKind::Opus, clock_rate: 48_000, channels: Some(2) }
}

fn h264() -> PayloadInfo {
    PayloadInfo { pt: 114, codec: CodecKind::H264, clock_rate: 90_000, channels: None }
}

#[test]
fn new_link_sends_nothing() {
    let l: PeerLink<u32> = PeerLink::new();
    assert_eq!(l.state(), ConnectionState::Connecting);
    assert_eq!(l.ice_state(), IceState::New);
    assert_eq!(l.write_target(MediaType::Voice, 100), None);
    assert_eq!(l.data_channel(), None);
    assert_eq!(l.keyframe_target(), None);
}

#[test]
fn ice_connected_waits_for_connection() {
    let mut l: PeerLink<u32> = PeerLink::new();
    assert_eq!(
        l.on_ice_change(IceState::Checking),
        Some(StateReport { state: ConnectionState::Connecting, ice: Some(IceState::Checking) })
    );
    assert_eq!(l.on_ice_change(IceState::Connected), None);
    assert_eq!(l.ice_state(), IceState::Connected);
    assert_eq!(l.on_connected(), StateReport { state: ConnectionState::Connected, ice: None });
    assert_eq!(
        l.on_ice_change(IceState::Connected),
        Some(StateReport { state: ConnectionState::Connected, ice: Some(IceState::Connected) })
    );
    assert_eq!(l.on_ice_change(IceState::Completed), None);
    assert_eq!(
        l.on_ice_change(IceState::Disconnected),
        Some(StateReport { state: ConnectionState::Connecting, ice: Some(IceState::Disconnected) })
    );
}

#[test]
fn tracks_and_media_routing() {
    let mut l: PeerLink<u32> = PeerLink::new();
    assert_eq!(l.media_type_of("0"), None);
    assert_eq!(l.on_audio_added("0".to_string(), &[opus()]), AudioMedia { clock_rate: 48_000, channels: 2 });
    l.on_video_added("1".to_string(), &[PayloadInfo { pt: 96, codec: CodecKind::Other, clock_rate: 90_000, channels: None }]);
    assert_eq!(l.keyframe_target(), None);
    l.on_video_added("s".to_string(), &[h264()]);
    assert_eq!(l.keyframe_target(), Some("s".to_string()));
    assert_eq!(l.media_type_of("0"), Some(MediaType::Voice));
    assert_eq!(l.media_type_of("s"), Some(MediaType::Screen));
    // nothing is written before the connection is up
    assert_eq!(l.write_target(MediaType::Voice, 10), None);
    l.on_connected();
    assert_eq!(l.write_target(MediaType::Voice, 10), Some("0".to_string()));
    assert_eq!(l.write_target(MediaType::Screen, 10), Some("s".to_string()));
    assert_eq!(l.write_target(MediaType::Screen, 0), None);
}

#[test]
fn answer_settles_our_offer_once() {
    let mut l: PeerLink<u32> = PeerLink::new();
    assert!(!l.on_answer());
    l.offer_sent("0".to_string(), "s".to_string(), 7);
    assert_eq!(l.data_channel(), Some(7));
    assert!(l.on_answer());
    assert!(!l.on_answer());
}

#[test]
fn channel_opens() {
    let mut l: PeerLink<u32> = PeerLink::new();
    l.on_channel_open(3);
    assert_eq!(l.data_channel(), Some(3));
}

#[test]
fn network_input_is_checked() {
    assert_eq!(network_input_action(&[]), NetworkInputAction::DropEmpty);
    // first byte outside every datagram kind
    assert_eq!(network_input_action(&[255, 1, 2, 3]), NetworkInputAction::DropUnparsable);
    // a DTLS record
    assert_eq!(network_input_action(&[22, 254, 253, 0, 0]), NetworkInputAction::Deliver);
}

#[test]
fn remote_signals_are_routed() {
    let mut l: PeerLink<u32> = PeerLink::new();
    assert_eq!(l.on_remote_signal(SignalKind::Candidate), SignalAction::AddRemoteCandidate);
    assert_eq!(l.on_remote_signal(SignalKind::SdpOffer), SignalAction::AcceptOfferAndSendAnswer);
    assert_eq!(l.on_remote_signal(SignalKind::SdpAnswer), SignalAction::IgnoreAnswer);
    l.offer_sent("0".to_string(), "s".to_string(), 1);
    assert_eq!(l.on_remote_signal(SignalKind::Candidate), SignalAction::AddRemoteCandidate);
    assert_eq!(l.on_remote_signal(SignalKind::SdpAnswer), SignalAction::AcceptAnswerAndAddMedia);
    assert_eq!(l.on_remote_signal(SignalKind::SdpAnswer), SignalAction::IgnoreAnswer);
}
