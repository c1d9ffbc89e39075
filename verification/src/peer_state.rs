//! Connection states of a peer, as the engine tracks them.
use vstd::prelude::*;

verus! {

/// Connection state reported to the application window.
#[derive(Clone, Copy, Debug, PartialEq, Eq, Structural)]
pub enum ConnectionState {
    Connected,
    Connecting,
    Disconnected,
}

/// ICE connection state of a peer connection.
#[derive(Clone, Copy, Debug, PartialEq, Eq, Structural)]
pub enum IceState {
    New,
    Checking,
    Connected,
    Completed,
    Disconnected,
}

/// What the engine knows of one peer.
#[derive(Clone, Copy, Debug, PartialEq, Eq, Structural)]
pub struct PeerState {
    pub initial_offerer: bool,
    pub got_first_offer: bool,
    pub got_first_answer: bool,
    pub connection_state: ConnectionState,
    pub ice_connection_state: IceState,
    /// Whether the ICE connection was ever reported connected.
    pub established_once: bool,
}

impl PeerState {
    pub open spec fn spec_new(initial_offerer: bool) -> PeerState {
        PeerState {
            initial_offerer,
            got_first_offer: false,
            got_first_answer: false,
            connection_state: ConnectionState::Connecting,
            ice_connection_state: IceState::New,
            established_once: false,
        }
    }

    pub open spec fn spec_initial_offerer(&self) -> bool {
        self.initial_offerer
    }

    pub open spec fn spec_got_first_offer(&self) -> bool {
        self.got_first_offer
    }

    pub open spec fn spec_got_first_answer(&self) -> bool {
        self.got_first_answer
    }

    pub open spec fn spec_connection_state(&self) -> ConnectionState {
        self.connection_state
    }

    pub open spec fn spec_ice_state(&self) -> IceState {
        self.ice_connection_state
    }

    pub open spec fn spec_established_once(&self) -> bool {
        self.established_once
    }

    /// A fresh peer: connecting, ICE new, no offer or answer seen.
    pub fn new(initial_offerer: bool) -> (s: Self)
        ensures
            s == Self::spec_new(initial_offerer),
    {
        PeerState {
            initial_offerer,
            got_first_offer: false,
            got_first_answer: false,
            connection_state: ConnectionState::Connecting,
            ice_connection_state: IceState::New,
            established_once: false,
        }
    }

    pub fn got_first_offer(&self) -> (b: bool)
        ensures
            b == self.got_first_offer,
    {
        self.got_first_offer
    }

    pub fn set_got_first_offer(&mut self)
        ensures
            *final(self) == (PeerState { got_first_offer: true, ..*old(self) }),
    {
        self.got_first_offer = true;
    }

    pub fn got_first_answer(&self) -> (b: bool)
        ensures
            b == self.got_first_answer,
    {
        self.got_first_answer
    }

    pub fn set_got_first_answer(&mut self)
        ensures
            *final(self) == (PeerState { got_first_answer: true, ..*old(self) }),
    {
        self.got_first_answer = true;
    }

    pub fn is_initial_offerer(&self) -> (b: bool)
        ensures
            b == self.initial_offerer,
    {
        self.initial_offerer
    }

    pub fn connection_state(&self) -> (s: &ConnectionState)
        ensures
            *s == self.connection_state,
    {
        &self.connection_state
    }

    pub fn set_connection_state(&mut self, state: ConnectionState)
        ensures
            *final(self) == (PeerState { connection_state: state, ..*old(self) }),
    {
        self.connection_state = state;
    }

    pub fn ice_connection_state(&self) -> (s: &IceState)
        ensures
            *s == self.ice_connection_state,
    {
        &self.ice_connection_state
    }

    /// Records the ICE state; a connected ICE state marks the peer as having been
    /// established once, which is never undone.
    pub fn set_ice_connection_state(&mut self, state: IceState)
        ensures
            *final(self) == (PeerState {
                ice_connection_state: state,
                established_once: old(self).established_once || state == IceState::Connected,
                ..*old(self)
            }),
    {
        if state == IceState::Connected {
            self.established_once = true;
        }
        self.ice_connection_state = state;
    }

    pub fn has_connected_once(&self) -> (b: bool)
        ensures
            b == self.established_once,
    {
        self.established_once
    }
}

/// The connection state an ICE state change is reported as, if any: checking and
/// disconnected mean connecting, connected means connected.
pub open spec fn spec_ice_connection_state(ice: IceState) -> Option<ConnectionState> {
    match ice {
        IceState::Checking | IceState::Disconnected => Some(ConnectionState::Connecting),
        IceState::Connected => Some(ConnectionState::Connected),
        _ => None,
    }
}

/// The state a peer reports to the engine when its ICE state changes while its own
/// connection state is `current`: a connected ICE state is not reported before the
/// peer connection itself has connected.
pub fn ice_change_report(ice: IceState, current: ConnectionState) -> (r: Option<ConnectionState>)
    ensures
        r == (match spec_ice_connection_state(ice) {
            Some(s) => if s == ConnectionState::Connected && current != ConnectionState::Connected {
                None
            } else {
                Some(s)
            },
            None => None,
        }),
{
    let state: Option<ConnectionState> = match ice {
        IceState::Checking | IceState::Disconnected => Some(ConnectionState::Connecting),
        IceState::Connected => Some(ConnectionState::Connected),
        _ => None,
    };
    match state {
        Some(connection_state) => {
            if connection_state == ConnectionState::Connected && current != ConnectionState::Connected {
                None
            } else {
                Some(connection_state)
            }
        },
        None => None,
    }
}

/// Name of an ICE state in statistics.
pub fn ice_state_name(ice: IceState) -> (s: &'static str)
    ensures
        s@ == (match ice {
            IceState::New => "New"@,
            IceState::Checking => "Checking"@,
            IceState::Disconnected => "Disconnected"@,
            IceState::Completed => "Completed"@,
            IceState::Connected => "Connected"@,
        }),
{
    match ice {
        IceState::New => "New",
        IceState::Checking => "Checking",
        IceState::Disconnected => "Disconnected",
        IceState::Completed => "Completed",
        IceState::Connected => "Connected",
    }
}

} // verus!
