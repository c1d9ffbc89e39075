//! The decisions of one peer connection's run loop, apart from the WebRTC stack
//! that carries them out: which tracks it knows, what it reports to the engine
//! when the connection changes, where outgoing media and data go, and whether a
//! remote answer matches an offer of ours.
//!
//! The run loop feeds each event of the WebRTC stack to a `PeerLink` and performs
//! what comes back.  The data channel's identifier is the stack's own type: the
//! link only keeps it.
use vstd::prelude::*;
use crate::media::{AudioMedia, MediaType};
use crate::payload::{audio_media_from_params, is_h264, is_screen_track, spec_audio_media, PayloadInfo};
use crate::peer_loop::classify_media;
use crate::peer_state::{ice_change_report, spec_ice_connection_state, ConnectionState, IceState};
use crate::signal::SignalKind;

verus! {

/// A connection state change a peer reports to the engine, with the ICE state that
/// caused it, if one did.
#[derive(Clone, Copy, Debug, PartialEq, Eq, Structural)]
pub struct StateReport {
    pub state: ConnectionState,
    pub ice: Option<IceState>,
}

/// What becomes of bytes received on the peer's socket.
#[derive(Clone, Copy, Debug, PartialEq, Eq, Structural)]
pub enum NetworkInputAction {
    /// Nothing was received: dropped (an empty datagram would fail in the stack).
    DropEmpty,
    /// Not a STUN, DTLS, RTP or RTCP datagram: dropped with a warning.
    DropUnparsable,
    /// Handed to the peer connection.
    Deliver,
}

/// What the peer does with a signal from the other side.
#[derive(Clone, Copy, Debug, PartialEq, Eq, Structural)]
pub enum SignalAction {
    /// Add the remote ICE candidate.
    AddRemoteCandidate,
    /// Accept the offer and send the answer back.
    AcceptOfferAndSendAnswer,
    /// Accept the answer to our pending offer and announce the audio track.
    AcceptAnswerAndAddMedia,
    /// No offer of ours is pending: the answer is ignored with a warning.
    IgnoreAnswer,
}

/// Whether str0m reads `bytes` as a datagram it handles (STUN, DTLS, RTP or RTCP).
pub uninterp spec fn datagram_parses(bytes: Seq<u8>) -> bool;

/// `str0m::net::DatagramRecv::try_from` on received bytes: the contract claims it
/// succeeds exactly when `datagram_parses` holds of them; the parsed datagram is
/// not kept.
#[verifier::external_body]
fn parses_as_datagram(bytes: &[u8]) -> (ok: bool)
    ensures
        ok == datagram_parses(bytes@),
{
    str0m::net::DatagramRecv::try_from(bytes).is_ok()
}

/// Bytes received on the socket: empty ones are dropped, ones the stack cannot
/// read as a datagram are dropped, the rest are delivered.
pub fn network_input_action(bytes: &[u8]) -> (a: NetworkInputAction)
    ensures
        a == (if bytes@.len() == 0 {
            NetworkInputAction::DropEmpty
        } else if !datagram_parses(bytes@) {
            NetworkInputAction::DropUnparsable
        } else {
            NetworkInputAction::Deliver
        }),
{
    if bytes.len() == 0 {
        NetworkInputAction::DropEmpty
    } else if !parses_as_datagram(bytes) {
        NetworkInputAction::DropUnparsable
    } else {
        NetworkInputAction::Deliver
    }
}

/// What a peer connection's run loop knows.
pub struct PeerLink<C> {
    state: ConnectionState,
    ice_state: IceState,
    audio_mid: Option<String>,
    screen_mid: Option<String>,
    channel: Option<C>,
    pending_offer: bool,
}

/// The contents of a `PeerLink`, with the track ids as character sequences.
pub struct PeerLinkView<C> {
    pub state: ConnectionState,
    pub ice_state: IceState,
    pub audio_mid: Option<Seq<char>>,
    pub screen_mid: Option<Seq<char>>,
    pub channel: Option<C>,
    pub pending_offer: bool,
}

pub open spec fn opt_view(s: Option<String>) -> Option<Seq<char>> {
    match s {
        Some(x) => Some(x@),
        None => None,
    }
}

impl<C> View for PeerLink<C> {
    type V = PeerLinkView<C>;

    closed spec fn view(&self) -> PeerLinkView<C> {
        PeerLinkView {
            state: self.state,
            ice_state: self.ice_state,
            audio_mid: opt_view(self.audio_mid),
            screen_mid: opt_view(self.screen_mid),
            channel: self.channel,
            pending_offer: self.pending_offer,
        }
    }
}

/// The report an ICE state change causes while the connection is in `current`.
pub open spec fn spec_ice_report(ice: IceState, current: ConnectionState) -> Option<StateReport> {
    match spec_ice_connection_state(ice) {
        Some(s) => if s == ConnectionState::Connected && current != ConnectionState::Connected {
            None
        } else {
            Some(StateReport { state: s, ice: Some(ice) })
        },
        None => None,
    }
}

/// Where outgoing media of kind `kind` goes: the track of that kind, when there is
/// data and the connection is up.
pub open spec fn spec_write_target<C>(v: PeerLinkView<C>, kind: MediaType, data_len: int) -> Option<Seq<char>> {
    if data_len > 0 && v.state == ConnectionState::Connected {
        match kind {
            MediaType::Voice => v.audio_mid,
            MediaType::Screen => v.screen_mid,
        }
    } else {
        None
    }
}

fn clone_mid(m: &Option<String>) -> (r: Option<String>)
    ensures
        opt_view(r) == opt_view(*m),
{
    match m {
        Some(s) => Some(s.clone()),
        None => None,
    }
}

impl<C: Copy> PeerLink<C> {
    /// A new connection: connecting, ICE new, no tracks, no data channel, no offer.
    pub fn new() -> (l: Self)
        ensures
            l@ == (PeerLinkView::<C> {
                state: ConnectionState::Connecting,
                ice_state: IceState::New,
                audio_mid: None,
                screen_mid: None,
                channel: None,
                pending_offer: false,
            }),
    {
        PeerLink {
            state: ConnectionState::Connecting,
            ice_state: IceState::New,
            audio_mid: None,
            screen_mid: None,
            channel: None,
            pending_offer: false,
        }
    }

    /// The initial offerer added its audio track, its screen track and the data
    /// channel, and sent the offer: an answer is now expected.
    pub fn offer_sent(&mut self, audio_mid: String, screen_mid: String, channel: C)
        ensures
            final(self)@ == (PeerLinkView::<C> {
                audio_mid: Some(audio_mid@),
                screen_mid: Some(screen_mid@),
                channel: Some(channel),
                pending_offer: true,
                ..old(self)@
            }),
    {
        self.audio_mid = Some(audio_mid);
        self.screen_mid = Some(screen_mid);
        self.channel = Some(channel);
        self.pending_offer = true;
    }

    /// The connection came up: reported as connected.
    pub fn on_connected(&mut self) -> (report: StateReport)
        ensures
            final(self)@ == (PeerLinkView::<C> { state: ConnectionState::Connected, ..old(self)@ }),
            report == (StateReport { state: ConnectionState::Connected, ice: None }),
    {
        self.state = ConnectionState::Connected;
        StateReport { state: ConnectionState::Connected, ice: None }
    }

    /// The ICE state changed: it is recorded, and checking or disconnected is
    /// reported as connecting, connected as connected once the connection itself
    /// is up.
    pub fn on_ice_change(&mut self, ice: IceState) -> (report: Option<StateReport>)
        ensures
            final(self)@ == (PeerLinkView::<C> { ice_state: ice, ..old(self)@ }),
            report == spec_ice_report(ice, old(self)@.state),
    {
        self.ice_state = ice;
        match ice_change_report(ice, self.state) {
            Some(s) => Some(StateReport { state: s, ice: Some(ice) }),
            None => None,
        }
    }

    /// The remote side added an audio track: it becomes the voice track, and its
    /// format is what the engine decodes.
    pub fn on_audio_added(&mut self, mid: String, params: &[PayloadInfo]) -> (media: AudioMedia)
        ensures
            final(self)@ == (PeerLinkView::<C> { audio_mid: Some(mid@), ..old(self)@ }),
            media == spec_audio_media(params@),
    {
        self.audio_mid = Some(mid);
        audio_media_from_params(params)
    }

    /// The remote side added a video track: it becomes the screen track when it
    /// carries H.264.
    pub fn on_video_added(&mut self, mid: String, params: &[PayloadInfo])
        ensures
            final(self)@ == (if exists|i: int| 0 <= i < params@.len() && is_h264(#[trigger] params@[i]) {
                PeerLinkView::<C> { screen_mid: Some(mid@), ..old(self)@ }
            } else {
                old(self)@
            }),
    {
        if is_screen_track(params) {
            self.screen_mid = Some(mid);
        }
    }

    /// The data channel opened.
    pub fn on_channel_open(&mut self, channel: C)
        ensures
            final(self)@ == (PeerLinkView::<C> { channel: Some(channel), ..old(self)@ }),
    {
        self.channel = Some(channel);
    }

    /// The track incoming media with id `mid` belongs to; none before the voice
    /// track is known.  Media of any other track cannot arrive.
    pub fn media_type_of(&self, mid: &str) -> (r: Option<MediaType>)
        requires
            self@.audio_mid matches Some(a) ==> (a == mid@ || self@.screen_mid == Some(mid@)),
        ensures
            r == (match self@.audio_mid {
                None => None,
                Some(a) => if a == mid@ { Some(MediaType::Voice) } else { Some(MediaType::Screen) },
            }),
    {
        let audio = match &self.audio_mid {
            Some(a) => Some(a.as_str()),
            None => None,
        };
        let screen = match &self.screen_mid {
            Some(s) => Some(s.as_str()),
            None => None,
        };
        classify_media(mid, audio, screen)
    }

    /// A remote answer arrived: it is accepted when it answers an offer of ours,
    /// which it then settles; otherwise it is ignored.
    pub fn on_answer(&mut self) -> (accepted: bool)
        ensures
            accepted == old(self)@.pending_offer,
            final(self)@ == (PeerLinkView::<C> { pending_offer: false, ..old(self)@ }),
    {
        let accepted = self.pending_offer;
        self.pending_offer = false;
        accepted
    }

    /// A signal arrived from the other side: a candidate is added, an offer is
    /// accepted and answered, and an answer is accepted only when it answers an
    /// offer of ours, which it then settles.
    pub fn on_remote_signal(&mut self, kind: SignalKind) -> (a: SignalAction)
        ensures
            a == (match kind {
                SignalKind::Candidate => SignalAction::AddRemoteCandidate,
                SignalKind::SdpOffer => SignalAction::AcceptOfferAndSendAnswer,
                SignalKind::SdpAnswer => if old(self)@.pending_offer {
                    SignalAction::AcceptAnswerAndAddMedia
                } else {
                    SignalAction::IgnoreAnswer
                },
            }),
            final(self)@ == (if kind == SignalKind::SdpAnswer {
                PeerLinkView::<C> { pending_offer: false, ..old(self)@ }
            } else {
                old(self)@
            }),
    {
        match kind {
            SignalKind::Candidate => SignalAction::AddRemoteCandidate,
            SignalKind::SdpOffer => SignalAction::AcceptOfferAndSendAnswer,
            SignalKind::SdpAnswer => {
                if self.on_answer() {
                    SignalAction::AcceptAnswerAndAddMedia
                } else {
                    SignalAction::IgnoreAnswer
                }
            },
        }
    }

    /// The track outgoing media of `kind` with `data_len` bytes is written to, if
    /// it is sent at all: there must be data, the connection must be up, and the
    /// track must be known.
    pub fn write_target(&self, kind: MediaType, data_len: usize) -> (r: Option<String>)
        ensures
            opt_view(r) == spec_write_target(self@, kind, data_len as int),
    {
        if data_len == 0 || self.state != ConnectionState::Connected {
            return None;
        }
        match kind {
            MediaType::Voice => clone_mid(&self.audio_mid),
            MediaType::Screen => clone_mid(&self.screen_mid),
        }
    }

    /// The data channel text is sent on, once it opened.
    pub fn data_channel(&self) -> (c: Option<C>)
        ensures
            c == self@.channel,
    {
        self.channel
    }

    /// The voice track, once known.
    pub fn audio_track(&self) -> (r: Option<String>)
        ensures
            opt_view(r) == self@.audio_mid,
    {
        clone_mid(&self.audio_mid)
    }

    /// The track a key frame is requested on: the screen track, once known.
    pub fn keyframe_target(&self) -> (r: Option<String>)
        ensures
            opt_view(r) == self@.screen_mid,
    {
        clone_mid(&self.screen_mid)
    }

    /// The connection state last reported by the connection itself.
    pub fn state(&self) -> (s: ConnectionState)
        ensures
            s == self@.state,
    {
        self.state
    }

    /// The last ICE state.
    pub fn ice_state(&self) -> (s: IceState)
        ensures
            s == self@.ice_state,
    {
        self.ice_state
    }
}

} // verus!
