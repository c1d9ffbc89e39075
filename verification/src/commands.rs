//! Payloads of the commands the application window sends to the engine, and of the
//! events the engine sends back.
use vstd::prelude::*;
use crate::ids::{CallId, UserId};
use crate::peer_state::ConnectionState;

verus! {

/// A signal from the window, before it is parsed: its SDP or candidate JSON text.
pub enum RawSignal {
    Sdp(String),
    Candidate(String),
}

/// `rtc_set_signal`: a signal for a user in a call.
pub struct SetSignalPayload {
    pub user_id: String,
    pub call_id: String,
    pub sdp: Option<String>,
    pub candidate: Option<String>,
}

/// `rtc_add_peer`: connect to a user in a call.
pub struct AddPeerPayload {
    pub user_id: String,
    pub call_id: String,
    pub initial_offerer: bool,
}

/// `rtc_remove_peer`: disconnect from a user in a call.
pub struct RemovePeerPayload {
    pub user_id: String,
    pub call_id: String,
}

/// Event sent to the window when a peer's connection state changes.
pub struct PeerStateChangeEventPayload {
    pub user_id: UserId,
    pub call_id: CallId,
    pub state: ConnectionState,
}

impl SetSignalPayload {
    /// The user, the call, and the signal text: the SDP when there is one, else the
    /// candidate; a payload with neither is refused.
    pub fn into_parts(self) -> (r: Result<(UserId, CallId, RawSignal), ()>)
        ensures
            match (self.sdp, self.candidate) {
                (Some(sdp), _) => r matches Ok((u, c, RawSignal::Sdp(s)))
                    && u@ == self.user_id@ && c@ == self.call_id@ && s@ == sdp@,
                (None, Some(cand)) => r matches Ok((u, c, RawSignal::Candidate(s)))
                    && u@ == self.user_id@ && c@ == self.call_id@ && s@ == cand@,
                (None, None) => r is Err,
            },
    {
        let user_id = UserId(self.user_id);
        let call_id = CallId(self.call_id);
        if let Some(sdp) = self.sdp {
            Ok((user_id, call_id, RawSignal::Sdp(sdp)))
        } else if let Some(candidate) = self.candidate {
            Ok((user_id, call_id, RawSignal::Candidate(candidate)))
        } else {
            Err(())
        }
    }
}

impl AddPeerPayload {
    /// The user, the call, and whether this side sends the first offer.
    pub fn into_parts(self) -> (r: (UserId, CallId, bool))
        ensures
            r.0@ == self.user_id@,
            r.1@ == self.call_id@,
            r.2 == self.initial_offerer,
    {
        (UserId(self.user_id), CallId(self.call_id), self.initial_offerer)
    }
}

impl RemovePeerPayload {
    /// The user and the call.
    pub fn into_parts(self) -> (r: (UserId, CallId))
        ensures
            r.0@ == self.user_id@,
            r.1@ == self.call_id@,
    {
        (UserId(self.user_id), CallId(self.call_id))
    }
}

impl ConnectionState {
    /// The name the window knows the state by.
    pub fn as_str(&self) -> (s: &'static str)
        ensures
            s@ == (match *self {
                ConnectionState::Connected => "connected"@,
                ConnectionState::Connecting => "connecting"@,
                ConnectionState::Disconnected => "disconnected"@,
            }),
    {
        match self {
            ConnectionState::Connected => "connected",
            ConnectionState::Connecting => "connecting",
            ConnectionState::Disconnected => "disconnected",
        }
    }
}

} // verus!
