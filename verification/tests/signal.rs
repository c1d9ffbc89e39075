use noor_rtc::signal::{candidate_json_from_quoted, candidate_object_from_quoted, sdp_json_from_quoted};
use noor_rtc::signal::{candidate_object_text, parse_candidate, sdp_from_json, str_contains_char, Sdp, SdpJson, SdpType, Signal, SignalKind};

#[test]
fn kinds_of_signals() {
    let o = Signal::Sdp(Sdp::Offer("v=0".to_string()));
    let a = Signal::Sdp(Sdp::Answer("v=0".to_string()));
    let c = Signal::Candidate("candidate:1".to_string());
    assert!(o.is_sdp() && o.is_sdp_offer() && !o.is_sdp_answer() && !o.is_candidate());
    assert!(a.is_sdp() && a.is_sdp_answer() && !a.is_sdp_offer());
    assert!(c.is_candidate() && !c.is_sdp());
    assert_eq!(o.kind(), SignalKind::SdpOffer);
    assert_eq!(a.kind(), SignalKind::SdpAnswer);
    assert_eq!(c.kind(), SignalKind::Candidate);
}

#[test]
fn offer_json() {
    let o = Signal::Sdp(Sdp::Offer("v=0\r\no=- 1".to_string()));
    assert_eq!(
        o.to_json(),
        r#"{"type":"sdp","sdp":{"type":"offer","sdp":"v=0\r\no=- 1"}}"#
    );
}

#[test]
fn answer_json() {
    let a = Signal::Sdp(Sdp::Answer("x".to_string()));
    assert_eq!(a.to_json(), r#"{"type":"sdp","sdp":{"type":"answer","sdp":"x"}}"#);
}

#[test]
fn candidate_json_is_double_encoded_without_attribute_prefix() {
    let c = Signal::Candidate("a=candidate:1 1 udp 2130706431 10.0.0.2 5000 typ host".to_string());
    let json = c.to_json();
    let outer: serde_json::Value = serde_json::from_str(&json).unwrap();
    assert_eq!(outer["type"], "candidate");
    let inner_text = outer["candidate"].as_str().unwrap();
    assert_eq!(
        inner_text,
        r#"{"candidate":"candidate:1 1 udp 2130706431 10.0.0.2 5000 typ host","usernameFragment":null,"sdpMid":null,"sdpMLineIndex":0}"#
    );
}

#[test]
fn every_attribute_prefix_is_removed() {
    let c = Signal::Candidate("aa=b a=".to_string());
    let json = c.to_json();
    let outer: serde_json::Value = serde_json::from_str(&json).unwrap();
    let inner: serde_json::Value = serde_json::from_str(outer["candidate"].as_str().unwrap()).unwrap();
    assert_eq!(inner["candidate"], "ab ");
}

#[test]
fn sdp_from_json_parts() {
    match Sdp::from_json(SdpJson { sdp_type: SdpType::Answer, sdp_string: "s".to_string() }) {
        Sdp::Answer(s) => assert_eq!(s, "s"),
        _ => panic!("wrong kind"),
    }
    match Sdp::from_json(SdpJson { sdp_type: SdpType::Offer, sdp_string: "t".to_string() }) {
        Sdp::Offer(s) => assert_eq!(s, "t"),
        _ => panic!("wrong kind"),
    }
}

#[test]
fn candidate_object_unwrapped_from_string() {
    let raw = r#""{\"candidate\":\"c\"}""#;
    assert_eq!(candidate_object_text(raw).unwrap(), r#"{"candidate":"c"}"#);
    let plain = r#"{"candidate":"c"}"#;
    assert_eq!(candidate_object_text(plain).unwrap(), plain);
    assert!(candidate_object_text("\"{broken").is_none());
}

#[test]
fn contains_char() {
    assert!(str_contains_char("ab{c", '{'));
    assert!(!str_contains_char("abc", '{'));
}

#[test]
fn framing_around_quoted_text() {
    assert_eq!(sdp_json_from_quoted(SdpType::Offer, "\"x\""), r#"{"type":"sdp","sdp":{"type":"offer","sdp":"x"}}"#);
    assert_eq!(sdp_json_from_quoted(SdpType::Answer, "\"y\""), r#"{"type":"sdp","sdp":{"type":"answer","sdp":"y"}}"#);
    assert_eq!(
        candidate_object_from_quoted("\"c\""),
        r#"{"candidate":"c","usernameFragment":null,"sdpMid":null,"sdpMLineIndex":0}"#
    );
    assert_eq!(candidate_json_from_quoted("\"o\""), r#"{"type":"candidate","candidate":"o"}"#);
}

#[test]
fn json_escapes_quotes_backslashes_and_controls() {
    let o = Signal::Sdp(Sdp::Offer("a\"b\\c\u{1}\u{8}\u{c}\t\u{1f}\u{7f}\u{e9}".to_string()));
    assert_eq!(
        o.to_json(),
        "{\"type\":\"sdp\",\"sdp\":{\"type\":\"offer\",\"sdp\":\"a\\\"b\\\\c\\u0001\\b\\f\\t\\u001f\u{7f}\u{e9}\"}}"
    );
}

fn offer_text() -> String {
    let mut rtc = str0m::Rtc::new(std::time::Instant::now());
    let mut changes = rtc.sdp_api();
    changes.add_media(str0m::media::MediaKind::Audio, str0m::media::Direction::SendRecv, None, None, None);
    let (offer, _pending) = changes.apply().expect("an offer");
    offer.to_sdp_string()
}

#[test]
fn sdp_from_json_checks_the_sdp() {
    let text = offer_text();
    match sdp_from_json(SdpJson { sdp_type: SdpType::Offer, sdp_string: text.clone() }) {
        Some(Sdp::Offer(s)) => assert_eq!(s, text),
        _ => panic!("offer not accepted"),
    }
    match sdp_from_json(SdpJson { sdp_type: SdpType::Answer, sdp_string: text.clone() }) {
        Some(Sdp::Answer(s)) => assert_eq!(s, text),
        _ => panic!("answer not accepted"),
    }
    assert!(sdp_from_json(SdpJson { sdp_type: SdpType::Offer, sdp_string: "not sdp".to_string() }).is_none());
    assert!(sdp_from_json(SdpJson { sdp_type: SdpType::Answer, sdp_string: "not sdp".to_string() }).is_none());
}

#[test]
fn candidates_are_parsed_from_json() {
    let plain = r#"{"candidate":"candidate:12044049749558888150 1 udp 2130706175 1.2.3.4 9876 typ host","sdpMid":null,"sdpMLineIndex":0,"usernameFragment":null}"#;
    let c = parse_candidate(plain).expect("a candidate");
    assert!(c.to_string().contains("1.2.3.4 9876 typ host"));
    let wrapped = serde_json::to_string(plain).unwrap();
    assert!(parse_candidate(&wrapped).is_some());
    let other = r#"{"candidate":"candidate:1 1 udp 2130706175 5.6.7.8 4000 typ host","usernameFragment":"abc"}"#;
    let c2 = parse_candidate(other).expect("another candidate");
    let expected: str0m::Candidate = serde_json::from_str(other).unwrap();
    assert_eq!(c2.to_string(), expected.to_string());
    assert!(c2.to_string().contains("5.6.7.8 4000 typ host"));
    assert_eq!(c2.ufrag(), Some("abc"));
    assert!(parse_candidate(r#"{"candidate":"nonsense"}"#).is_none());
    assert!(parse_candidate("\"{broken").is_none());
}
