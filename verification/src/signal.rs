//! Signalling messages (SDP offers and answers, ICE candidates) and their JSON form.
//!
//! A signal carries the text the peer connection works with: the SDP of an offer or
//! answer, or the `candidate:` line of an ICE candidate.
use vstd::prelude::*;
use crate::text::push_char;

verus! {

/// Which side of the offer/answer exchange an SDP belongs to.
#[derive(Clone, Copy, Debug, PartialEq, Eq, Structural)]
pub enum SdpType {
    Offer,
    Answer,
}

/// A session description, by its SDP text.
#[derive(Debug)]
pub enum Sdp {
    Offer(String),
    Answer(String),
}

/// A message exchanged through the signalling server.
#[derive(Debug)]
pub enum Signal {
    Sdp(Sdp),
    /// An ICE candidate, by its candidate line.
    Candidate(String),
}

/// The kind of a signal.
#[derive(Clone, Copy, Debug, PartialEq, Eq, Structural)]
pub enum SignalKind {
    SdpOffer,
    SdpAnswer,
    Candidate,
}

impl View for Signal {
    type V = (SignalKind, Seq<char>);

    open spec fn view(&self) -> (SignalKind, Seq<char>) {
        match self {
            Signal::Sdp(Sdp::Offer(s)) => (SignalKind::SdpOffer, s@),
            Signal::Sdp(Sdp::Answer(s)) => (SignalKind::SdpAnswer, s@),
            Signal::Candidate(c) => (SignalKind::Candidate, c@),
        }
    }
}

/// A signal as the data channel carries it: `{"type":"sdp",..}` or
/// `{"type":"candidate",..}`.
pub enum SignalJson {
    Sdp { sdp: String },
    Candidate { candidate: String },
}

/// The candidate object of the candidate message: the candidate line, the ICE
/// username fragment, the media id and the media line index.
pub struct CandidateJsonStr {
    pub candidate: String,
    pub username_fragment: Option<String>,
    pub sdp_mid: Option<String>,
    pub sdp_m_line_index: Option<usize>,
}

/// A parsed `{"type": ..., "sdp": ...}` session description message.
pub struct SdpJson {
    pub sdp_type: SdpType,
    pub sdp_string: String,
}

/// A lowercase hexadecimal digit (`0 <= d < 16`).
pub open spec fn hex_digit(d: int) -> char {
    seq!['0', '1', '2', '3', '4', '5', '6', '7', '8', '9', 'a', 'b', 'c', 'd', 'e', 'f'][d]
}

/// How serde_json writes one character inside a string literal: a quote and a
/// backslash are escaped with a backslash; backspace, tab, line feed, form feed
/// and carriage return as `\b`, `\t`, `\n`, `\f`, `\r`; any other control
/// character below U+0020 as `\u00` and two lowercase hex digits; every other
/// character as it is.
pub open spec fn json_escape_char(c: char) -> Seq<char> {
    if c == '"' {
        seq!['\\', '"']
    } else if c == '\\' {
        seq!['\\', '\\']
    } else if c == '\u{8}' {
        seq!['\\', 'b']
    } else if c == '\t' {
        seq!['\\', 't']
    } else if c == '\n' {
        seq!['\\', 'n']
    } else if c == '\u{c}' {
        seq!['\\', 'f']
    } else if c == '\r' {
        seq!['\\', 'r']
    } else if (c as u32) < 0x20 {
        seq!['\\', 'u', '0', '0', hex_digit((c as u32) as int / 16), hex_digit((c as u32) as int % 16)]
    } else {
        seq![c]
    }
}

/// The characters of `s`, each written as `json_escape_char` writes it.
pub open spec fn json_escaped(s: Seq<char>) -> Seq<char>
    decreases s.len(),
{
    if s.len() == 0 {
        Seq::empty()
    } else {
        json_escaped(s.drop_last()) + json_escape_char(s.last())
    }
}

/// The JSON string literal serde_json writes for a string: the escaped characters
/// between double quotes.
pub open spec fn json_quoted(s: Seq<char>) -> Seq<char> {
    seq!['"'] + json_escaped(s) + seq!['"']
}

/// The string a JSON string literal denotes, or `None` when `s` is not one.
pub uninterp spec fn json_string_value(s: Seq<char>) -> Option<Seq<char>>;

/// `serde_json::to_string` on a string slice.  The contract claims the result is the
/// quoted, escaped JSON literal of `s`, as `json_quoted` states it (serde_json's
/// compact formatter and its escape table); serializing a string into
/// a byte vector has no error path in serde_json's source, so the empty fallback for
/// its `Err` arm is never taken.
#[verifier::external_body]
fn to_json_string_literal(s: &str) -> (r: String)
    ensures
        r@ == json_quoted(s@),
{
    match serde_json::to_string(s) {
        Ok(quoted) => quoted,
        Err(_) => String::new(),
    }
}

/// `serde_json::from_str::<String>`: reads a JSON string literal.  The contract claims
/// the result is `Some` exactly when `json_string_value` is, with that value.
#[verifier::external_body]
fn parse_json_string_literal(s: &str) -> (r: Option<String>)
    ensures
        r is Some <==> json_string_value(s@) is Some,
        r matches Some(v) ==> v@ == json_string_value(s@)->0,
{
    serde_json::from_str::<String>(s).ok()
}

/// `s` with every `a=` removed, scanning left to right (as `str::replace` does).
pub open spec fn strip_attribute_prefix(s: Seq<char>) -> Seq<char>
    decreases s.len(),
{
    if s.len() == 0 {
        s
    } else if s.len() >= 2 && s[0] == 'a' && s[1] == '=' {
        strip_attribute_prefix(s.skip(2))
    } else {
        seq![s[0]] + strip_attribute_prefix(s.skip(1))
    }
}

/// The candidate object a browser expects, serialized: the line without `a=`, no
/// username fragment, no media id, media line index 0.
pub open spec fn spec_candidate_object_json(line: Seq<char>) -> Seq<char> {
    "{\"candidate\":"@ + json_quoted(strip_attribute_prefix(line))
        + ",\"usernameFragment\":null,\"sdpMid\":null,\"sdpMLineIndex\":0}"@
}

/// The JSON a signal is sent to the other side as.
pub open spec fn spec_signal_json(kind: SignalKind, text: Seq<char>) -> Seq<char> {
    match kind {
        SignalKind::SdpOffer => "{\"type\":\"sdp\",\"sdp\":{\"type\":\"offer\",\"sdp\":"@ + json_quoted(text) + "}}"@,
        SignalKind::SdpAnswer => "{\"type\":\"sdp\",\"sdp\":{\"type\":\"answer\",\"sdp\":"@ + json_quoted(text) + "}}"@,
        SignalKind::Candidate => "{\"type\":\"candidate\",\"candidate\":"@ + json_quoted(spec_candidate_object_json(text))
            + "}"@,
    }
}

fn strip_a_eq(s: &str) -> (r: String)
    ensures
        r@ == strip_attribute_prefix(s@),
{
    let n = s.unicode_len();
    let mut out = String::new();
    let mut i: usize = 0;
    assert(s@.skip(0) =~= s@);
    assert(out@ + strip_attribute_prefix(s@) =~= strip_attribute_prefix(s@));
    while i < n
        invariant
            n == s@.len(),
            i <= n,
            out@ + strip_attribute_prefix(s@.skip(i as int)) == strip_attribute_prefix(s@),
        decreases n - i,
    {
        let ghost rest = s@.skip(i as int);
        let c = s.get_char(i);
        if c == 'a' && i + 1 < n && s.get_char(i + 1) == '=' {
            assert(rest.skip(2) == s@.skip(i + 2));
            i = i + 2;
        } else {
            assert(rest.skip(1) == s@.skip(i + 1));
            assert(rest[0] == c);
            push_char(&mut out, c);
            assert(out@ == (out@.drop_last()) + seq![c]);
            i = i + 1;
        }
    }
    assert(s@.skip(n as int) == Seq::<char>::empty());
    out
}

impl Signal {
    pub fn kind(&self) -> (k: SignalKind)
        ensures
            k == self@.0,
    {
        match self {
            Signal::Sdp(Sdp::Offer(_)) => SignalKind::SdpOffer,
            Signal::Sdp(Sdp::Answer(_)) => SignalKind::SdpAnswer,
            Signal::Candidate(_) => SignalKind::Candidate,
        }
    }

    pub fn is_sdp(&self) -> (b: bool)
        ensures
            b == (self@.0 != SignalKind::Candidate),
    {
        matches!(self, Signal::Sdp(_))
    }

    pub fn is_candidate(&self) -> (b: bool)
        ensures
            b == (self@.0 == SignalKind::Candidate),
    {
        matches!(self, Signal::Candidate(_))
    }

    pub fn is_sdp_offer(&self) -> (b: bool)
        ensures
            b == (self@.0 == SignalKind::SdpOffer),
    {
        matches!(self, Signal::Sdp(Sdp::Offer(_)))
    }

    pub fn is_sdp_answer(&self) -> (b: bool)
        ensures
            b == (self@.0 == SignalKind::SdpAnswer),
    {
        matches!(self, Signal::Sdp(Sdp::Answer(_)))
    }

    /// The JSON sent to the other side: `{"type":"sdp","sdp":{"type":..,"sdp":..}}`
    /// for a session description; for a candidate, `{"type":"candidate","candidate":..}`
    /// whose value is the candidate object serialized once more as a string.
    pub fn to_json(&self) -> (json: String)
        ensures
            json@ == spec_signal_json(self@.0, self@.1),
    {
        match self {
            Signal::Sdp(Sdp::Offer(sdp)) => {
                let quoted = to_json_string_literal(sdp.as_str());
                sdp_json_from_quoted(SdpType::Offer, quoted.as_str())
            },
            Signal::Sdp(Sdp::Answer(sdp)) => {
                let quoted = to_json_string_literal(sdp.as_str());
                sdp_json_from_quoted(SdpType::Answer, quoted.as_str())
            },
            Signal::Candidate(line) => {
                let stripped = strip_a_eq(line.as_str());
                let quoted_line = to_json_string_literal(stripped.as_str());
                let object = candidate_object_from_quoted(quoted_line.as_str());
                let quoted_object = to_json_string_literal(object.as_str());
                candidate_json_from_quoted(quoted_object.as_str())
            },
        }
    }
}

/// The session-description message around an SDP already written as a JSON string
/// literal.
pub fn sdp_json_from_quoted(sdp_type: SdpType, quoted_sdp: &str) -> (json: String)
    ensures
        json@ == (match sdp_type {
            SdpType::Offer => "{\"type\":\"sdp\",\"sdp\":{\"type\":\"offer\",\"sdp\":"@ + quoted_sdp@ + "}}"@,
            SdpType::Answer => "{\"type\":\"sdp\",\"sdp\":{\"type\":\"answer\",\"sdp\":"@ + quoted_sdp@ + "}}"@,
        }),
{
    let mut out = match sdp_type {
        SdpType::Offer => String::from_str("{\"type\":\"sdp\",\"sdp\":{\"type\":\"offer\",\"sdp\":"),
        SdpType::Answer => String::from_str("{\"type\":\"sdp\",\"sdp\":{\"type\":\"answer\",\"sdp\":"),
    };
    out.append(quoted_sdp);
    out.append("}}");
    out
}

/// The candidate object around a candidate line already written as a JSON string
/// literal.
pub fn candidate_object_from_quoted(quoted_line: &str) -> (json: String)
    ensures
        json@ == "{\"candidate\":"@ + quoted_line@ + ",\"usernameFragment\":null,\"sdpMid\":null,\"sdpMLineIndex\":0}"@,
{
    let mut object = String::from_str("{\"candidate\":");
    object.append(quoted_line);
    object.append(",\"usernameFragment\":null,\"sdpMid\":null,\"sdpMLineIndex\":0}");
    object
}

/// The candidate message around a candidate object already written as a JSON
/// string literal.
pub fn candidate_json_from_quoted(quoted_object: &str) -> (json: String)
    ensures
        json@ == "{\"type\":\"candidate\",\"candidate\":"@ + quoted_object@ + "}"@,
{
    let mut out = String::from_str("{\"type\":\"candidate\",\"candidate\":");
    out.append(quoted_object);
    out.append("}");
    out
}

impl Sdp {
    /// The session description a parsed SDP message stands for.
    pub fn from_json(parsed: SdpJson) -> (sdp: Sdp)
        ensures
            match parsed.sdp_type {
                SdpType::Offer => sdp matches Sdp::Offer(s) && s@ == parsed.sdp_string@,
                SdpType::Answer => sdp matches Sdp::Answer(s) && s@ == parsed.sdp_string@,
            },
    {
        match parsed.sdp_type {
            SdpType::Answer => Sdp::Answer(parsed.sdp_string),
            SdpType::Offer => Sdp::Offer(parsed.sdp_string),
        }
    }
}

/// Whether `s` holds the character `c`.
pub fn str_contains_char(s: &str, c: char) -> (b: bool)
    ensures
        b == s@.contains(c),
{
    let n = s.unicode_len();
    let mut i: usize = 0;
    while i < n
        invariant
            n == s@.len(),
            i <= n,
            forall|k: int| 0 <= k < i ==> s@[k] != c,
        decreases n - i,
    {
        if s.get_char(i) == c {
            return true;
        }
        i = i + 1;
    }
    false
}

/// The candidate JSON object in a signal's `candidate` field: taken as it is when it
/// is an object, or read out of the JSON string literal it was wrapped in (a value
/// starting with `"`).  `None` when that literal is not valid JSON.
pub open spec fn spec_candidate_object_text(raw: Seq<char>) -> Option<Seq<char>> {
    if raw.len() > 0 && raw[0] == '"' {
        json_string_value(raw)
    } else {
        Some(raw)
    }
}

/// Unwraps the JSON object of an ICE candidate received from the other side.  Only
/// JSON candidates are supported: the value must contain `{`.
pub fn candidate_object_text(raw: &str) -> (r: Option<String>)
    requires
        raw@.contains('{'),
    ensures
        match spec_candidate_object_text(raw@) {
            Some(t) => r matches Some(v) && v@ == t,
            None => r is None,
        },
{
    let n = raw.unicode_len();
    if n > 0 && raw.get_char(0) == '"' {
        parse_json_string_literal(raw)
    } else {
        Some(String::from_str(raw))
    }
}

/// Whether str0m reads `sdp` as a session description offer.
pub uninterp spec fn offer_sdp_parses(sdp: Seq<char>) -> bool;

/// Whether str0m reads `sdp` as a session description answer.
pub uninterp spec fn answer_sdp_parses(sdp: Seq<char>) -> bool;

/// The candidate str0m reads from the candidate object `json` (its `candidate`
/// line, and its `usernameFragment` when given), or `None` when it reads none.
pub uninterp spec fn candidate_json_value(json: Seq<char>) -> Option<str0m::Candidate>;

/// `str0m::change::SdpOffer::from_sdp_string`: the contract claims it succeeds
/// exactly when `offer_sdp_parses` holds of the text; the parsed offer is not kept.
#[verifier::external_body]
fn offer_parses(sdp: &str) -> (ok: bool)
    ensures
        ok == offer_sdp_parses(sdp@),
{
    str0m::change::SdpOffer::from_sdp_string(sdp).is_ok()
}

/// `str0m::change::SdpAnswer::from_sdp_string`: the contract claims it succeeds
/// exactly when `answer_sdp_parses` holds of the text; the parsed answer is not kept.
#[verifier::external_body]
fn answer_parses(sdp: &str) -> (ok: bool)
    ensures
        ok == answer_sdp_parses(sdp@),
{
    str0m::change::SdpAnswer::from_sdp_string(sdp).is_ok()
}

/// The session description a parsed SDP message stands for, when its SDP text is
/// one the peer connection can take (an offer or an answer, as the message says);
/// `None` otherwise.
pub fn sdp_from_json(parsed: SdpJson) -> (r: Option<Sdp>)
    ensures
        match parsed.sdp_type {
            SdpType::Offer => if offer_sdp_parses(parsed.sdp_string@) {
                r matches Some(Sdp::Offer(s)) && s@ == parsed.sdp_string@
            } else {
                r is None
            },
            SdpType::Answer => if answer_sdp_parses(parsed.sdp_string@) {
                r matches Some(Sdp::Answer(s)) && s@ == parsed.sdp_string@
            } else {
                r is None
            },
        },
{
    let ok = match parsed.sdp_type {
        SdpType::Offer => offer_parses(parsed.sdp_string.as_str()),
        SdpType::Answer => answer_parses(parsed.sdp_string.as_str()),
    };
    if ok {
        Some(Sdp::from_json(parsed))
    } else {
        None
    }
}

/// The candidate type of str0m.
#[verifier::external_type_specification]
#[verifier::external_body]
pub struct ExCandidate(str0m::Candidate);

/// `serde_json::from_str::<str0m::Candidate>`: reads a candidate object.  The
/// contract claims the result is the candidate named `candidate_json_value` of the
/// text (a parse of the text alone); what that candidate holds is not spelled out.
#[verifier::external_body]
fn parse_candidate_json(json: &str) -> (r: Option<str0m::Candidate>)
    ensures
        r == candidate_json_value(json@),
{
    serde_json::from_str::<str0m::Candidate>(json).ok()
}

/// The candidate a value received from the other side yields: the candidate read
/// from its object (unwrapped from a JSON string when it is one); `None` when the
/// wrapping string or the object does not parse.
pub open spec fn spec_parse_candidate(raw: Seq<char>) -> Option<str0m::Candidate> {
    match spec_candidate_object_text(raw) {
        Some(t) => candidate_json_value(t),
        None => None,
    }
}

/// Parses an ICE candidate received from the other side as JSON: the object is
/// taken as it is, or read out of the JSON string it was wrapped in, then parsed as
/// a candidate.  `None` when either step fails.  Only JSON candidates are
/// supported: the value must contain `{`.
pub fn parse_candidate(raw: &str) -> (r: Option<str0m::Candidate>)
    requires
        raw@.contains('{'),
    ensures
        r == spec_parse_candidate(raw@),
{
    match candidate_object_text(raw) {
        Some(text) => parse_candidate_json(text.as_str()),
        None => None,
    }
}

} // verus!
