use noor_rtc::engine::{screen_start_bwe, screen_stop_bwe, BweCfg};
use noor_rtc::engine::{
    clamp_screen_bitrate, ice_policy_from_setting, reconnect_delay_ms, EngineSession, IcePolicy, IncomingSignal,
    Reconnect, ReconnectCase, SessionError, StateChange,
};
use noor_rtc::engine::ReconnectDecision;
use noor_rtc::ids::{CallId, UserId};
use noor_rtc::peer_state::{ConnectionState, IceState};
use noor_rtc::signal::{Sdp, Signal};

fn uid(s: &str) -> UserId {
    UserId(s.to_string())
}
fn cid(s: &str) -> CallId {
    CallId(s.to_string())
}

#[test]
fn peers_only_in_current_call() {
    let mut s = EngineSession::init();
    assert!(matches!(s.add_peer(uid("u"), true, &cid("c")), Err(SessionError::NotCurrentCall)));
    assert!(!s.join(cid("c")));
    assert!(s.is_current_call(&cid("c")));
    let added = s.add_peer(uid("u"), true, &cid("c")).ok().unwrap();
    assert_eq!(added.peer_id, 0);
    assert!(added.start_initial_timers);
    assert!(matches!(s.add_peer(uid("v"), false, &cid("other")), Err(SessionError::NotCurrentCall)));
    let (id, st) = s.peer(&uid("u")).unwrap();
    assert_eq!(id, 0);
    assert!(st.is_initial_offerer());
    assert_eq!(*st.connection_state(), ConnectionState::Connecting);
}

#[test]
fn readding_a_peer_gives_a_new_id() {
    let mut s = EngineSession::init();
    s.join(cid("c"));
    s.add_peer(uid("u"), false, &cid("c")).ok().unwrap();
    let again = s.add_peer(uid("u"), false, &cid("c")).ok().unwrap();
    assert_eq!(again.peer_id, 1);
    assert_eq!(s.peer(&uid("u")).unwrap().0, 1);
}

#[test]
fn signal_before_peer_is_held_and_released() {
    let mut s = EngineSession::init();
    s.join(cid("c"));
    let r = s.set_incoming_signal(uid("u"), &cid("c"), Signal::Sdp(Sdp::Offer("o".into())));
    assert!(matches!(r, IncomingSignal::Held));
    let added = s.add_peer(uid("u"), false, &cid("c")).ok().unwrap();
    assert_eq!(added.pending_signals.unwrap().len(), 1);
}

#[test]
fn signal_for_other_call_dropped() {
    let mut s = EngineSession::init();
    s.join(cid("c"));
    let r = s.set_incoming_signal(uid("u"), &cid("x"), Signal::Candidate("c".into()));
    assert!(matches!(r, IncomingSignal::NotCurrentCall));
}

#[test]
fn second_offer_recreates_peer() {
    let mut s = EngineSession::init();
    s.join(cid("c"));
    s.add_peer(uid("u"), false, &cid("c")).ok().unwrap();
    match s.set_incoming_signal(uid("u"), &cid("c"), Signal::Sdp(Sdp::Offer("1".into()))) {
        IncomingSignal::Deliver { recreated, .. } => assert!(recreated.is_none()),
        _ => panic!("expected delivery"),
    }
    assert!(s.peer(&uid("u")).unwrap().1.got_first_offer());
    match s.set_incoming_signal(uid("u"), &cid("c"), Signal::Sdp(Sdp::Offer("2".into()))) {
        IncomingSignal::Deliver { recreated: Some(a), .. } => assert_eq!(a.peer_id, 1),
        _ => panic!("expected recreation"),
    }
    let (id, st) = s.peer(&uid("u")).unwrap();
    assert_eq!(id, 1);
    assert!(st.got_first_offer());
}

#[test]
fn answer_is_recorded() {
    let mut s = EngineSession::init();
    s.join(cid("c"));
    s.add_peer(uid("u"), true, &cid("c")).ok().unwrap();
    s.set_incoming_signal(uid("u"), &cid("c"), Signal::Sdp(Sdp::Answer("a".into())));
    assert!(s.peer(&uid("u")).unwrap().1.got_first_answer());
}

#[test]
fn reconnect_decisions() {
    let mut s = EngineSession::init();
    s.join(cid("c"));
    s.add_peer(uid("u"), true, &cid("c")).ok().unwrap();
    // stale peer id
    assert!(matches!(s.maybe_reconnect(uid("u"), &cid("c"), 5, ReconnectCase::Disconnect), Reconnect::Nothing));
    // ICE not disconnected: no restart
    assert!(matches!(s.maybe_reconnect(uid("u"), &cid("c"), 0, ReconnectCase::TryIceRestart), Reconnect::Nothing));
    match s.peer_connection_state_change(&uid("u"), 0, ConnectionState::Connecting, Some(IceState::Disconnected)) {
        StateChange::Emit { call_id, start_ice_timers } => {
            assert_eq!(call_id.0, "c");
            assert!(start_ice_timers);
        }
        StateChange::Ignored => panic!("expected emit"),
    }
    assert!(matches!(s.maybe_reconnect(uid("u"), &cid("c"), 0, ReconnectCase::TryIceRestart), Reconnect::RestartIce));
    match s.maybe_reconnect(uid("u"), &cid("c"), 0, ReconnectCase::InitialFailure) {
        Reconnect::Recreated(a) => {
            assert_eq!(a.peer_id, 1);
            assert!(a.start_initial_timers);
        }
        _ => panic!("expected recreation"),
    }
}

#[test]
fn connected_peer_is_not_reconnected() {
    let mut s = EngineSession::init();
    s.join(cid("c"));
    s.add_peer(uid("u"), true, &cid("c")).ok().unwrap();
    s.peer_connection_state_change(&uid("u"), 0, ConnectionState::Connected, Some(IceState::Connected));
    assert!(s.peer(&uid("u")).unwrap().1.has_connected_once());
    assert!(matches!(s.maybe_reconnect(uid("u"), &cid("c"), 0, ReconnectCase::Disconnect), Reconnect::Nothing));
    // once connected, an initial failure no longer recreates
    s.peer_connection_state_change(&uid("u"), 0, ConnectionState::Connecting, None);
    assert!(matches!(s.maybe_reconnect(uid("u"), &cid("c"), 0, ReconnectCase::InitialFailure), Reconnect::Nothing));
}

#[test]
fn state_change_from_old_peer_ignored() {
    let mut s = EngineSession::init();
    s.join(cid("c"));
    s.add_peer(uid("u"), true, &cid("c")).ok().unwrap();
    s.add_peer(uid("u"), true, &cid("c")).ok().unwrap();
    assert!(matches!(
        s.peer_connection_state_change(&uid("u"), 0, ConnectionState::Connected, None),
        StateChange::Ignored
    ));
}

#[test]
fn leave_clears_everything() {
    let mut s = EngineSession::init();
    s.join(cid("c"));
    s.add_peer(uid("u"), true, &cid("c")).ok().unwrap();
    s.leave();
    assert!(s.current_call().is_none());
    assert!(s.peer(&uid("u")).is_none());
    assert!(s.join(cid("d")) == false);
    assert!(matches!(s.remove_peer(&uid("u"), &cid("c")), Err(SessionError::NotCurrentCall)));
    assert!(s.remove_peer(&uid("u"), &cid("d")).is_ok());
}

#[test]
fn delays_policies_and_bitrates() {
    assert_eq!(reconnect_delay_ms(ReconnectCase::DidNotGetFirstSignal), 3000);
    assert_eq!(reconnect_delay_ms(ReconnectCase::InitialFailure), 10000);
    assert_eq!(reconnect_delay_ms(ReconnectCase::TryIceRestart), 1000);
    assert_eq!(reconnect_delay_ms(ReconnectCase::Disconnect), 4000);
    assert_eq!(ice_policy_from_setting("relay"), IcePolicy::Relay);
    assert_eq!(ice_policy_from_setting("local"), IcePolicy::Local);
    assert_eq!(ice_policy_from_setting("all"), IcePolicy::All);
    assert_eq!(ice_policy_from_setting("weird"), IcePolicy::All);
    assert_eq!(clamp_screen_bitrate(1), 500_000);
    assert_eq!(clamp_screen_bitrate(2_000_000), 2_000_000);
    assert_eq!(clamp_screen_bitrate(50_000_000), 10_000_000);
}

#[test]
fn decision_query_matches_action() {
    let mut s = EngineSession::init();
    s.join(cid("c"));
    s.add_peer(uid("u"), true, &cid("c")).ok().unwrap();
    assert!(s.can_assign_peer_id());
    assert_eq!(s.reconnect_decision(&uid("u"), &cid("c"), 0, ReconnectCase::DidNotGetFirstSignal), ReconnectDecision::Recreate);
    assert_eq!(s.reconnect_decision(&uid("u"), &cid("x"), 0, ReconnectCase::Disconnect), ReconnectDecision::Nothing);
    assert_eq!(s.reconnect_decision(&uid("u"), &cid("c"), 0, ReconnectCase::TryIceRestart), ReconnectDecision::Nothing);
    s.set_incoming_signal(uid("u"), &cid("c"), Signal::Sdp(Sdp::Answer("a".into())));
    assert_eq!(s.reconnect_decision(&uid("u"), &cid("c"), 0, ReconnectCase::DidNotGetFirstSignal), ReconnectDecision::Nothing);
    assert_eq!(s.reconnect_decision(&uid("u"), &cid("c"), 0, ReconnectCase::InitialFailure), ReconnectDecision::Recreate);
}

#[test]
fn screen_share_estimator_settings() {
    let start = screen_start_bwe();
    assert!(matches!(start[0], BweCfg::Reset(900_000)));
    assert!(matches!(start[1], BweCfg::Desired(1_000_000)));
    assert!(matches!(start[2], BweCfg::Current(800_000)));
    let stop = screen_stop_bwe();
    assert!(matches!(stop[0], BweCfg::Reset(80_000)));
    assert!(matches!(stop[1], BweCfg::Desired(80_000)));
}

#[test]
fn outgoing_signals_need_a_call() {
    let mut s = EngineSession::init();
    let signal = noor_rtc::signal::Signal::Candidate("candidate:1".to_string());
    assert!(s.route_outgoing_signal(uid("u"), signal).is_none());
    s.join(cid("c"));
    let signal = noor_rtc::signal::Signal::Candidate("candidate:1".to_string());
    match s.route_outgoing_signal(uid("u"), signal) {
        Some((u, c, sig)) => {
            assert_eq!(u, uid("u"));
            assert_eq!(c, cid("c"));
            assert!(sig.is_candidate());
        }
        None => panic!("signal dropped within a call"),
    }
}
