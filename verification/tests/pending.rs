use noor_rtc::ids::UserId;
use noor_rtc::pending::PendingSignals;
use noor_rtc::signal::{Sdp, Signal};

fn offer() -> Signal {
    Signal::Sdp(Sdp::Offer("o".to_string()))
}
fn answer() -> Signal {
    Signal::Sdp(Sdp::Answer("a".to_string()))
}
fn cand(s: &str) -> Signal {
    Signal::Candidate(s.to_string())
}
fn uid(s: &str) -> UserId {
    UserId(s.to_string())
}

#[test]
fn candidate_first_is_dropped() {
    let mut p = PendingSignals::init();
    p.add(&uid("u"), cand("c1"));
    assert!(p.remove(&uid("u")).is_none());
}

#[test]
fn offer_then_candidates_are_released_to_answerer() {
    let mut p = PendingSignals::init();
    p.add(&uid("u"), offer());
    p.add(&uid("u"), cand("c1"));
    p.add(&uid("u"), answer()); // a second description is dropped
    p.add(&uid("u"), cand("c2"));
    let q = p.drain(&uid("u"), false).expect("released");
    let kinds: Vec<bool> = q.iter().map(|s| s.is_candidate()).collect();
    assert_eq!(kinds, vec![false, true, true]);
    assert!(p.remove(&uid("u")).is_none());
}

#[test]
fn initial_offerer_discards_held_offer() {
    let mut p = PendingSignals::init();
    p.add(&uid("u"), offer());
    assert!(p.drain(&uid("u"), true).is_none());
    assert!(p.remove(&uid("u")).is_none());
}

#[test]
fn held_answer_is_discarded() {
    let mut p = PendingSignals::init();
    p.add(&uid("u"), answer());
    assert!(p.drain(&uid("u"), false).is_none());
}

#[test]
fn users_are_kept_apart_and_reset_clears() {
    let mut p = PendingSignals::init();
    p.add(&uid("a"), offer());
    p.add(&uid("b"), offer());
    assert_eq!(p.remove(&uid("a")).unwrap().len(), 1);
    p.reset();
    assert!(p.remove(&uid("b")).is_none());
}
