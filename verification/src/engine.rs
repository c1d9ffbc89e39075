//! The engine's call session: which call it is in, its peers, and the decisions it
//! takes on commands, signals and connection events.
//!
//! The session is the state of the engine's event loop.  Each operation takes an
//! event, updates the session and tells the caller what to do (create a peer, hand
//! it a signal, start a timer, restart ICE); the caller does the asynchronous work.
use vstd::prelude::*;
use crate::assoc::{assoc_map, has_key, keys_distinct, lemma_assoc_absent, lemma_assoc_empty, lemma_assoc_lookup, lemma_assoc_push, lemma_assoc_remove, lemma_assoc_update};
use crate::ids::{CallId, UserId};
use crate::peer_queue::PeerQueue;
use crate::peer_state::{ConnectionState, IceState, PeerState};
use crate::pending::{spec_should_apply, signals_view, PendingSignals, SignalView};
use crate::signal::{Signal, SignalKind};
use crate::text::str_equals;
use std::collections::VecDeque;

verus! {

/// Identifies one peer connection; a user's peer gets a new one each time it is
/// created, so events of a replaced peer can be told apart.
pub type PeerId = u16;

/// Waits after which a peer's connection is checked again.
pub const RECONNECT_WHEN_NO_SIGNAL: u64 = 3_000;
pub const RECONNECT_ON_INITIAL_FAILURE: u64 = 10_000;
pub const ICE_RESTART_AFTER_ICE_DISCONNECTED: u64 = 1_000;
pub const RECONNECT_AFTER_ICE_DISCONNECTED: u64 = 4_000;

/// Bounds on the screen-share bitrate, in bits per second.
pub const MIN_SCREEN_BITRATE_BPS: u64 = 500_000;
pub const MAX_SCREEN_BITRATE_BPS: u64 = 10_000_000;

/// Why a peer's connection is checked again after a wait.
#[derive(Clone, Copy, Debug, PartialEq, Eq, Structural)]
pub enum ReconnectCase {
    /// The initial offerer got neither offer nor answer.
    DidNotGetFirstSignal,
    /// The first connection attempt did not succeed.
    InitialFailure,
    /// ICE disconnected: try an ICE restart.
    TryIceRestart,
    /// ICE stayed disconnected: recreate the peer.
    Disconnect,
}

/// Which ICE candidates to gather.
#[derive(Clone, Copy, Debug, PartialEq, Eq, Structural)]
pub enum IcePolicy {
    /// Relayed (TURN) candidates only.
    Relay,
    /// Host, server-reflexive and relayed candidates.
    All,
    /// Host and server-reflexive candidates.
    Local,
}

/// Refusal of a peer command.
#[derive(Clone, Copy, Debug, PartialEq, Eq, Structural)]
pub enum SessionError {
    /// The command names another call than the current one (or there is none).
    NotCurrentCall,
}

/// A peer that was just created: its id, the signals held for it that it should
/// apply, and whether to start the timers that watch a first connection (only the
/// initial offerer does).
pub struct AddedPeer {
    pub peer_id: PeerId,
    pub pending_signals: Option<VecDeque<Signal>>,
    pub start_initial_timers: bool,
}

/// What happens to an incoming signal.
pub enum IncomingSignal {
    /// It belongs to another call and is dropped.
    NotCurrentCall,
    /// Hand it to the user's peer; `recreated` tells of a peer that an offer replaced.
    Deliver { signal: Signal, recreated: Option<AddedPeer> },
    /// The user has no peer yet: the signal is held (or dropped) as pending.
    Held,
}

/// What a reconnect timer leads to.
pub enum Reconnect {
    Nothing,
    RestartIce,
    /// The peer was replaced by a new one.
    Recreated(AddedPeer),
}

/// What a peer's state change leads to.
pub enum StateChange {
    /// A stale event (no call, no such peer, or a replaced peer): nothing happens.
    Ignored,
    /// Tell the window about the new state in this call; when ICE disconnected,
    /// start the ICE-restart and disconnect timers.
    Emit { call_id: CallId, start_ice_timers: bool },
}

/// The decision of a reconnect timer, from the peer's state.
#[derive(Clone, Copy, Debug, PartialEq, Eq, Structural)]
pub enum ReconnectDecision {
    Nothing,
    RestartIce,
    Recreate,
}

/// Whether a reconnect timer of `case` acts on a peer in state `st`: nothing once
/// connected; a missing first signal is acted on only when no offer or answer came
/// and the peer never connected; an initial failure only when it never connected; an
/// ICE restart only while ICE is disconnected; a long disconnect always recreates.
pub open spec fn spec_reconnect_decision(st: PeerState, case: ReconnectCase) -> ReconnectDecision {
    if st.connection_state == ConnectionState::Connected {
        ReconnectDecision::Nothing
    } else {
        match case {
            ReconnectCase::DidNotGetFirstSignal => if st.got_first_offer || st.got_first_answer || st.established_once {
                ReconnectDecision::Nothing
            } else {
                ReconnectDecision::Recreate
            },
            ReconnectCase::InitialFailure => if st.established_once {
                ReconnectDecision::Nothing
            } else {
                ReconnectDecision::Recreate
            },
            ReconnectCase::TryIceRestart => if st.ice_connection_state != IceState::Disconnected {
                ReconnectDecision::Nothing
            } else {
                ReconnectDecision::RestartIce
            },
            ReconnectCase::Disconnect => ReconnectDecision::Recreate,
        }
    }
}

/// The wait before a reconnect check of `case`, in milliseconds.
pub open spec fn spec_reconnect_delay_ms(case: ReconnectCase) -> u64 {
    match case {
        ReconnectCase::DidNotGetFirstSignal => RECONNECT_WHEN_NO_SIGNAL,
        ReconnectCase::InitialFailure => RECONNECT_ON_INITIAL_FAILURE,
        ReconnectCase::TryIceRestart => ICE_RESTART_AFTER_ICE_DISCONNECTED,
        ReconnectCase::Disconnect => RECONNECT_AFTER_ICE_DISCONNECTED,
    }
}

pub fn reconnect_delay_ms(case: ReconnectCase) -> (ms: u64)
    ensures
        ms == spec_reconnect_delay_ms(case),
{
    match case {
        ReconnectCase::DidNotGetFirstSignal => RECONNECT_WHEN_NO_SIGNAL,
        ReconnectCase::InitialFailure => RECONNECT_ON_INITIAL_FAILURE,
        ReconnectCase::TryIceRestart => ICE_RESTART_AFTER_ICE_DISCONNECTED,
        ReconnectCase::Disconnect => RECONNECT_AFTER_ICE_DISCONNECTED,
    }
}

/// The screen-share bitrate to use for a network estimate: the estimate held between
/// `MIN_SCREEN_BITRATE_BPS` and `MAX_SCREEN_BITRATE_BPS`.
pub fn clamp_screen_bitrate(bps: u64) -> (r: u64)
    ensures
        r == (if bps < MIN_SCREEN_BITRATE_BPS {
            MIN_SCREEN_BITRATE_BPS
        } else if bps > MAX_SCREEN_BITRATE_BPS {
            MAX_SCREEN_BITRATE_BPS
        } else {
            bps
        }),
{
    let at_least = if bps < MIN_SCREEN_BITRATE_BPS { MIN_SCREEN_BITRATE_BPS } else { bps };
    if at_least > MAX_SCREEN_BITRATE_BPS { MAX_SCREEN_BITRATE_BPS } else { at_least }
}

/// The ICE policy a settings value selects: `relay`, `local`, `all`, and all for
/// anything else.
pub fn ice_policy_from_setting(setting: &str) -> (p: IcePolicy)
    ensures
        p == (if setting@ == "relay"@ {
            IcePolicy::Relay
        } else if setting@ == "local"@ {
            IcePolicy::Local
        } else {
            IcePolicy::All
        }),
{
    if str_equals(setting, "relay") {
        IcePolicy::Relay
    } else if str_equals(setting, "local") {
        IcePolicy::Local
    } else if str_equals(setting, "all") {
        IcePolicy::All
    } else {
        IcePolicy::All
    }
}

struct PeerRecord {
    user_id: UserId,
    peer_id: PeerId,
    state: PeerState,
}

spec fn record_view(r: PeerRecord) -> (Seq<char>, (PeerId, PeerState)) {
    (r.user_id@, (r.peer_id, r.state))
}

/// The state of the engine's event loop.
pub struct EngineSession {
    call_id: Option<CallId>,
    peers: Vec<PeerRecord>,
    pending_signals: PendingSignals,
    peer_queue: PeerQueue,
    next_peer_id: PeerId,
}

/// The session after leaving the call: no call, no peers, nothing pending or queued.
pub open spec fn spec_left(s: &EngineSession, before: &EngineSession) -> bool {
    &&& s.spec_call() is None
    &&& s.spec_peers() == Map::<Seq<char>, (PeerId, PeerState)>::empty()
    &&& s.spec_pending() == Map::<Seq<char>, Seq<SignalView>>::empty()
    &&& s.spec_queue().len() == 0
    &&& s.spec_next_peer_id() == before.spec_next_peer_id()
}

impl EngineSession {
    closed spec fn es(&self) -> Seq<(Seq<char>, (PeerId, PeerState))> {
        self.peers@.map_values(|r: PeerRecord| record_view(r))
    }

    /// The current call, if any.
    pub closed spec fn spec_call(&self) -> Option<Seq<char>> {
        match self.call_id {
            Some(c) => Some(c@),
            None => None,
        }
    }

    /// Each user's peer: its id and state.
    pub closed spec fn spec_peers(&self) -> Map<Seq<char>, (PeerId, PeerState)> {
        assoc_map(self.es())
    }

    /// Signals held for users without a peer.
    pub closed spec fn spec_pending(&self) -> Map<Seq<char>, Seq<SignalView>> {
        self.pending_signals@
    }

    pub closed spec fn spec_queue(&self) -> Seq<(Seq<char>, bool)> {
        self.peer_queue@
    }

    /// The id the next created peer gets.
    pub closed spec fn spec_next_peer_id(&self) -> PeerId {
        self.next_peer_id
    }

    /// Whether `call` is the current call.
    pub open spec fn spec_is_current(&self, call: Seq<char>) -> bool {
        self.spec_call() == Some(call)
    }

    /// One peer per user; every peer id is below the next one, so no two peers share
    /// an id; pending signals are well formed.
    pub closed spec fn wf(&self) -> bool {
        &&& keys_distinct(self.es())
        &&& forall|i: int| 0 <= i < self.es().len() ==> (#[trigger] self.es()[i]).1.0 < self.next_peer_id
        &&& forall|i: int, j: int| 0 <= i < self.es().len() && 0 <= j < self.es().len() && i != j
            ==> (#[trigger] self.es()[i]).1.0 != (#[trigger] self.es()[j]).1.0
        &&& self.pending_signals.wf()
    }

    /// Every peer's id is below the next id.
    pub proof fn lemma_peer_ids_below_next(&self)
        requires
            self.wf(),
        ensures
            forall|u: Seq<char>| #[trigger] self.spec_peers().contains_key(u) ==> self.spec_peers()[u].0 < self.spec_next_peer_id(),
    {
        assert forall|u: Seq<char>| #[trigger] self.spec_peers().contains_key(u) implies self.spec_peers()[u].0 < self.spec_next_peer_id() by {
            let es = self.es();
            let i = choose|i: int| 0 <= i < es.len() && #[trigger] es[i].0 == u;
            lemma_assoc_lookup(es, i);
        }
    }

    /// Two users never have peers with the same id.
    pub proof fn lemma_peer_ids_distinct(&self, u: Seq<char>, v: Seq<char>)
        requires
            self.wf(),
            self.spec_peers().contains_key(u),
            self.spec_peers().contains_key(v),
            u != v,
        ensures
            self.spec_peers()[u].0 != self.spec_peers()[v].0,
    {
        let es = self.es();
        let i = choose|i: int| 0 <= i < es.len() && #[trigger] es[i].0 == u;
        let j = choose|j: int| 0 <= j < es.len() && #[trigger] es[j].0 == v;
        lemma_assoc_lookup(es, i);
        lemma_assoc_lookup(es, j);
    }

    /// A session outside any call.
    pub fn init() -> (s: Self)
        ensures
            s.wf(),
            s.spec_call() is None,
            s.spec_peers() == Map::<Seq<char>, (PeerId, PeerState)>::empty(),
            s.spec_pending() == Map::<Seq<char>, Seq<SignalView>>::empty(),
            s.spec_queue().len() == 0,
            s.spec_next_peer_id() == 0,
    {
        let s = EngineSession {
            call_id: None,
            peers: Vec::new(),
            pending_signals: PendingSignals::init(),
            peer_queue: PeerQueue::init(),
            next_peer_id: 0,
        };
        assert(s.es() =~= Seq::<(Seq<char>, (PeerId, PeerState))>::empty());
        proof { lemma_assoc_empty::<Seq<char>, (PeerId, PeerState)>(); }
        s
    }

    /// Whether another peer id can be handed out (ids are 16-bit and never reused).
    pub fn can_assign_peer_id(&self) -> (b: bool)
        ensures
            b == (self.spec_next_peer_id() < u16::MAX),
    {
        self.next_peer_id < u16::MAX
    }

    /// Whether `call_id` is the current call.
    pub fn is_current_call(&self, call_id: &CallId) -> (b: bool)
        ensures
            b == self.spec_is_current(call_id@),
    {
        match &self.call_id {
            Some(c) => c.same_as(call_id),
            None => false,
        }
    }

    /// The current call, if any (signals can only be sent within one).
    pub fn current_call(&self) -> (c: Option<CallId>)
        ensures
            match c {
                Some(id) => self.spec_call() == Some(id@),
                None => self.spec_call() is None,
            },
    {
        match &self.call_id {
            Some(c) => Some(c.clone()),
            None => None,
        }
    }

    /// A signal a peer asks to send to the other side: within a call it goes out
    /// addressed to the user in the current call; outside any call it is dropped,
    /// and the engine goes on with its next command.
    pub fn route_outgoing_signal(&self, user_id: UserId, signal: Signal) -> (r: Option<(UserId, CallId, Signal)>)
        ensures
            match r {
                Some((u, c, s)) => self.spec_call() == Some(c@) && u@ == user_id@ && s@ == signal@,
                None => self.spec_call() is None,
            },
    {
        match self.current_call() {
            Some(call_id) => Some((user_id, call_id, signal)),
            None => None,
        }
    }

    /// Leaves the call: every peer, held signal and queued peer is dropped.
    pub fn leave(&mut self)
        requires
            old(self).wf(),
        ensures
            final(self).wf(),
            spec_left(final(self), old(self)),
    {
        self.peers = Vec::new();
        self.pending_signals.reset();
        self.peer_queue.clear();
        self.call_id = None;
        assert(self.es() =~= Seq::<(Seq<char>, (PeerId, PeerState))>::empty());
        proof { lemma_assoc_empty::<Seq<char>, (PeerId, PeerState)>(); }
    }

    /// Joins a call, leaving the current one first.  Returns whether a call was
    /// already current.
    pub fn join(&mut self, call_id: CallId) -> (was_in_call: bool)
        requires
            old(self).wf(),
        ensures
            final(self).wf(),
            was_in_call == (old(self).spec_call() is Some),
            final(self).spec_call() == Some(call_id@),
            final(self).spec_peers() == Map::<Seq<char>, (PeerId, PeerState)>::empty(),
            final(self).spec_pending() == Map::<Seq<char>, Seq<SignalView>>::empty(),
            final(self).spec_queue().len() == 0,
            final(self).spec_next_peer_id() == old(self).spec_next_peer_id(),
    {
        let was_in_call = self.call_id.is_some();
        self.leave();
        self.call_id = Some(call_id);
        was_in_call
    }

    fn find_peer(&self, user_id: &UserId) -> (r: Option<usize>)
        ensures
            match r {
                Some(i) => i < self.es().len() && self.es()[i as int].0 == user_id@,
                None => !has_key(self.es(), user_id@),
            },
    {
        let mut i: usize = 0;
        while i < self.peers.len()
            invariant
                i <= self.peers@.len(),
                forall|k: int| 0 <= k < i ==> self.es()[k].0 != user_id@,
            decreases self.peers@.len() - i,
        {
            if self.peers[i].user_id.same_as(user_id) {
                return Some(i);
            }
            i = i + 1;
        }
        None
    }

    /// Looks up a user's peer: its id and state.
    pub fn peer(&self, user_id: &UserId) -> (r: Option<(PeerId, PeerState)>)
        requires
            self.wf(),
        ensures
            match r {
                Some(p) => self.spec_peers().contains_key(user_id@) && self.spec_peers()[user_id@] == p,
                None => !self.spec_peers().contains_key(user_id@),
            },
    {
        let ghost es = self.es();
        match self.find_peer(user_id) {
            Some(i) => {
                proof { lemma_assoc_lookup(es, i as int); }
                Some((self.peers[i].peer_id, self.peers[i].state))
            },
            None => {
                proof { lemma_assoc_absent(es, user_id@); }
                None
            },
        }
    }

    /// Replaces the state of the peer at `i`.
    fn set_state_at(&mut self, i: usize, state: PeerState)
        requires
            old(self).wf(),
            i < old(self).es().len(),
        ensures
            final(self).wf(),
            final(self).spec_peers() == old(self).spec_peers().insert(
                old(self).es()[i as int].0,
                (old(self).es()[i as int].1.0, state),
            ),
            final(self).es()[i as int].0 == old(self).es()[i as int].0,
            final(self).spec_call() == old(self).spec_call(),
            final(self).spec_pending() == old(self).spec_pending(),
            final(self).spec_queue() == old(self).spec_queue(),
            final(self).spec_next_peer_id() == old(self).spec_next_peer_id(),
            final(self).pending_signals == old(self).pending_signals,
    {
        let ghost es = self.es();
        let mut r = self.peers.remove(i);
        r.state = state;
        let ghost v = (r.peer_id, state);
        self.peers.insert(i, r);
        proof {
            lemma_assoc_update(es, i as int, v);
            assert(self.es() =~= es.update(i as int, (es[i as int].0, v)));
            assert forall|a: int| 0 <= a < self.es().len() implies (#[trigger] self.es()[a]).1.0 == es[a].1.0 by {}
        }
    }

    /// Removes the peer at `i`.
    fn remove_at(&mut self, i: usize)
        requires
            old(self).wf(),
            i < old(self).es().len(),
        ensures
            final(self).wf(),
            final(self).spec_peers() == old(self).spec_peers().remove(old(self).es()[i as int].0),
            final(self).spec_call() == old(self).spec_call(),
            final(self).spec_pending() == old(self).spec_pending(),
            final(self).spec_queue() == old(self).spec_queue(),
            final(self).spec_next_peer_id() == old(self).spec_next_peer_id(),
            final(self).pending_signals == old(self).pending_signals,
    {
        let ghost es = self.es();
        let _ = self.peers.remove(i);
        proof {
            lemma_assoc_remove(es, i as int);
            assert(self.es() =~= es.remove(i as int));
            assert forall|a: int| 0 <= a < self.es().len() implies #[trigger] self.es()[a] == es[if a < i { a } else { a + 1 }] by {}
        }
    }

    /// Takes a fresh peer id.
    fn new_peer_id(&mut self) -> (id: PeerId)
        requires
            old(self).wf(),
            old(self).spec_next_peer_id() < u16::MAX,
        ensures
            final(self).wf(),
            id == old(self).spec_next_peer_id(),
            final(self).spec_next_peer_id() == id + 1,
            final(self).es() == old(self).es(),
            final(self).spec_peers() == old(self).spec_peers(),
            final(self).spec_call() == old(self).spec_call(),
            final(self).spec_pending() == old(self).spec_pending(),
            final(self).spec_queue() == old(self).spec_queue(),
            final(self).pending_signals == old(self).pending_signals,
    {
        let id = self.next_peer_id;
        self.next_peer_id = self.next_peer_id + 1;
        id
    }

    /// Creates (or replaces) a user's peer in the current call.  The peer gets the
    /// next id and a fresh state; the signals held for the user are released to it
    /// when they start with an offer and this side is not the initial offerer, and
    /// dropped otherwise.  A command for another call is refused.
    pub fn add_peer(&mut self, user_id: UserId, initial_offerer: bool, call_id: &CallId) -> (r: Result<AddedPeer, SessionError>)
        requires
            old(self).wf(),
            old(self).spec_is_current(call_id@) ==> old(self).spec_next_peer_id() < u16::MAX,
        ensures
            final(self).wf(),
            Self::spec_add_peer(old(self), final(self), user_id@, initial_offerer, call_id@, r),
    {
        if !self.is_current_call(call_id) {
            return Err(SessionError::NotCurrentCall);
        }
        let id = self.new_peer_id();
        let pending = self.pending_signals.drain(&user_id, initial_offerer);
        let state = PeerState::new(initial_offerer);
        let ghost es = self.es();
        match self.find_peer(&user_id) {
            Some(i) => {
                proof { lemma_assoc_lookup(es, i as int); }
                let mut rec = self.peers.remove(i);
                rec.peer_id = id;
                rec.state = state;
                let ghost v = (id, state);
                self.peers.insert(i, rec);
                proof {
                    lemma_assoc_update(es, i as int, v);
                    assert(self.es() =~= es.update(i as int, (es[i as int].0, v)));
                    assert forall|a: int| 0 <= a < self.es().len() && a != i implies (#[trigger] self.es()[a]).1.0 == es[a].1.0 by {}
                }
            },
            None => {
                proof { lemma_assoc_absent(es, user_id@); }
                let ghost k = user_id@;
                let rec = PeerRecord { user_id, peer_id: id, state };
                self.peers.push(rec);
                proof {
                    lemma_assoc_push(es, k, (id, state));
                    assert(self.es() =~= es.push((k, (id, state))));
                }
            },
        }
        Ok(AddedPeer { peer_id: id, pending_signals: pending, start_initial_timers: initial_offerer })
    }

    /// The session after `add_peer(user, initial_offerer, call)` returned `r`.
    pub open spec fn spec_add_peer(
        old_s: &EngineSession,
        new_s: &EngineSession,
        user: Seq<char>,
        initial_offerer: bool,
        call: Seq<char>,
        r: Result<AddedPeer, SessionError>,
    ) -> bool {
        if !old_s.spec_is_current(call) {
            &&& r == Err::<AddedPeer, SessionError>(SessionError::NotCurrentCall)
            &&& new_s.spec_call() == old_s.spec_call()
            &&& new_s.spec_peers() == old_s.spec_peers()
            &&& new_s.spec_pending() == old_s.spec_pending()
            &&& new_s.spec_queue() == old_s.spec_queue()
            &&& new_s.spec_next_peer_id() == old_s.spec_next_peer_id()
        } else {
            &&& r matches Ok(added)
            &&& added.peer_id == old_s.spec_next_peer_id()
            &&& added.start_initial_timers == initial_offerer
            &&& (added.pending_signals is Some <==> (old_s.spec_pending().contains_key(user)
                && spec_should_apply(old_s.spec_pending()[user], initial_offerer)))
            &&& (added.pending_signals matches Some(q) ==> signals_view(q@) == old_s.spec_pending()[user])
            &&& new_s.spec_call() == old_s.spec_call()
            &&& new_s.spec_peers() == old_s.spec_peers().insert(user, (added.peer_id, PeerState::spec_new(initial_offerer)))
            &&& new_s.spec_pending() == old_s.spec_pending().remove(user)
            &&& new_s.spec_queue() == old_s.spec_queue()
            &&& new_s.spec_next_peer_id() == old_s.spec_next_peer_id() + 1
        }
    }

    /// Removes a user's peer and whatever was held for the user; a command for
    /// another call is refused.
    pub fn remove_peer(&mut self, user_id: &UserId, call_id: &CallId) -> (r: Result<(), SessionError>)
        requires
            old(self).wf(),
        ensures
            final(self).wf(),
            Self::spec_remove_peer(old(self), final(self), user_id@, call_id@, r),
    {
        if !self.is_current_call(call_id) {
            return Err(SessionError::NotCurrentCall);
        }
        let ghost es = self.es();
        match self.find_peer(user_id) {
            Some(i) => {
                proof { lemma_assoc_lookup(es, i as int); }
                self.remove_at(i);
            },
            None => {
                proof {
                    lemma_assoc_absent(es, user_id@);
                    assert(self.spec_peers() =~= old(self).spec_peers().remove(user_id@));
                }
            },
        }
        let _ = self.pending_signals.remove(user_id);
        Ok(())
    }

    /// The session after `remove_peer(user, call)` returned `r`.
    pub open spec fn spec_remove_peer(
        old_s: &EngineSession,
        new_s: &EngineSession,
        user: Seq<char>,
        call: Seq<char>,
        r: Result<(), SessionError>,
    ) -> bool {
        &&& new_s.spec_call() == old_s.spec_call()
        &&& new_s.spec_queue() == old_s.spec_queue()
        &&& new_s.spec_next_peer_id() == old_s.spec_next_peer_id()
        &&& if !old_s.spec_is_current(call) {
            &&& r == Err::<(), SessionError>(SessionError::NotCurrentCall)
            &&& new_s.spec_peers() == old_s.spec_peers()
            &&& new_s.spec_pending() == old_s.spec_pending()
        } else {
            &&& r == Ok::<(), SessionError>(())
            &&& new_s.spec_peers() == old_s.spec_peers().remove(user)
            &&& new_s.spec_pending() == old_s.spec_pending().remove(user)
        }
    }
}

impl EngineSession {
    /// Whether an incoming offer replaces the user's existing peer: it does when the
    /// peer already got an offer before.
    pub open spec fn spec_recreates_on_signal(&self, user: Seq<char>, kind: SignalKind) -> bool {
        &&& kind == SignalKind::SdpOffer
        &&& self.spec_peers().contains_key(user)
        &&& self.spec_peers()[user].1.got_first_offer
    }

    /// The peer state after a signal of `kind` reached it.
    pub open spec fn spec_note_signal(st: PeerState, kind: SignalKind) -> PeerState {
        if kind == SignalKind::SdpOffer {
            PeerState { got_first_offer: true, ..st }
        } else if kind == SignalKind::SdpAnswer {
            PeerState { got_first_answer: true, ..st }
        } else {
            st
        }
    }

    /// Records in the user's peer state that a signal of `kind` arrived.
    fn note_signal(&mut self, user_id: &UserId, kind: SignalKind)
        requires
            old(self).wf(),
        ensures
            final(self).wf(),
            final(self).spec_peers() == (if old(self).spec_peers().contains_key(user_id@) {
                old(self).spec_peers().insert(
                    user_id@,
                    (old(self).spec_peers()[user_id@].0, Self::spec_note_signal(old(self).spec_peers()[user_id@].1, kind)),
                )
            } else {
                old(self).spec_peers()
            }),
            final(self).spec_call() == old(self).spec_call(),
            final(self).spec_pending() == old(self).spec_pending(),
            final(self).spec_queue() == old(self).spec_queue(),
            final(self).spec_next_peer_id() == old(self).spec_next_peer_id(),
    {
        let ghost es = self.es();
        match self.find_peer(user_id) {
            Some(i) => {
                proof { lemma_assoc_lookup(es, i as int); }
                let mut st = self.peers[i].state;
                if kind == SignalKind::SdpOffer {
                    st.set_got_first_offer();
                } else if kind == SignalKind::SdpAnswer {
                    st.set_got_first_answer();
                }
                if kind == SignalKind::SdpOffer || kind == SignalKind::SdpAnswer {
                    self.set_state_at(i, st);
                } else {
                    assert(self.spec_peers() =~= old(self).spec_peers().insert(
                        user_id@,
                        (old(self).spec_peers()[user_id@].0, Self::spec_note_signal(old(self).spec_peers()[user_id@].1, kind)),
                    ));
                }
            },
            None => {
                proof { lemma_assoc_absent(es, user_id@); }
            },
        }
    }

    /// Routes a signal from the signalling server.  A signal for another call is
    /// dropped.  An offer for a user whose peer already got an offer recreates the
    /// peer first.  The signal then goes to the user's peer, or is held until the
    /// peer exists.  Finally the peer state records a first offer or answer.
    pub fn set_incoming_signal(&mut self, user_id: UserId, call_id: &CallId, signal: Signal) -> (r: IncomingSignal)
        requires
            old(self).wf(),
            old(self).spec_is_current(call_id@) && old(self).spec_recreates_on_signal(user_id@, signal@.0)
                ==> old(self).spec_next_peer_id() < u16::MAX,
        ensures
            final(self).wf(),
            ({
                let u = user_id@;
                let kind = signal@.0;
                if !old(self).spec_is_current(call_id@) {
                    &&& r is NotCurrentCall
                    &&& final(self).spec_peers() == old(self).spec_peers()
                    &&& final(self).spec_pending() == old(self).spec_pending()
                    &&& final(self).spec_next_peer_id() == old(self).spec_next_peer_id()
                } else if old(self).spec_recreates_on_signal(u, kind) {
                    let st = PeerState::spec_new(old(self).spec_peers()[u].1.initial_offerer);
                    &&& r matches IncomingSignal::Deliver { signal: s, recreated: Some(added) }
                    &&& s@ == signal@
                    &&& added.peer_id == old(self).spec_next_peer_id()
                    &&& added.pending_signals is None
                    &&& added.start_initial_timers == old(self).spec_peers()[u].1.initial_offerer
                    &&& final(self).spec_peers() == old(self).spec_peers().insert(u, (added.peer_id, Self::spec_note_signal(st, kind)))
                    &&& final(self).spec_pending() == old(self).spec_pending().remove(u)
                    &&& final(self).spec_next_peer_id() == old(self).spec_next_peer_id() + 1
                } else if old(self).spec_peers().contains_key(u) {
                    &&& r matches IncomingSignal::Deliver { signal: s, recreated: None }
                    &&& s@ == signal@
                    &&& final(self).spec_peers() == old(self).spec_peers().insert(
                        u,
                        (old(self).spec_peers()[u].0, Self::spec_note_signal(old(self).spec_peers()[u].1, kind)),
                    )
                    &&& final(self).spec_pending() == old(self).spec_pending()
                    &&& final(self).spec_next_peer_id() == old(self).spec_next_peer_id()
                } else {
                    &&& r is Held
                    &&& final(self).spec_peers() == old(self).spec_peers()
                    &&& final(self).spec_pending() == (if old(self).spec_pending().contains_key(u) {
                        if kind == SignalKind::Candidate {
                            old(self).spec_pending().insert(u, old(self).spec_pending()[u].push(signal@))
                        } else {
                            old(self).spec_pending()
                        }
                    } else {
                        if kind != SignalKind::Candidate {
                            old(self).spec_pending().insert(u, seq![signal@])
                        } else {
                            old(self).spec_pending()
                        }
                    })
                    &&& final(self).spec_next_peer_id() == old(self).spec_next_peer_id()
                }
            }),
            final(self).spec_call() == old(self).spec_call(),
            final(self).spec_queue() == old(self).spec_queue(),
    {
        if !self.is_current_call(call_id) {
            return IncomingSignal::NotCurrentCall;
        }
        let kind = signal.kind();
        let is_sdp_offer = kind == SignalKind::SdpOffer;
        let mut recreated: Option<AddedPeer> = None;
        if let Some((_, st)) = self.peer(&user_id) {
            if is_sdp_offer && st.got_first_offer() {
                let _ = self.remove_peer(&user_id, call_id);
                proof {
                    assert(!self.spec_pending().contains_key(user_id@));
                }
                let added = self.add_peer(user_id.clone(), st.is_initial_offerer(), call_id);
                match added {
                    Ok(a) => {
                        recreated = Some(a);
                    },
                    Err(_) => {},
                }
            }
        }
        let has_peer = self.peer(&user_id).is_some();
        let r = if has_peer {
            IncomingSignal::Deliver { signal, recreated }
        } else {
            self.pending_signals.add(&user_id, signal);
            IncomingSignal::Held
        };
        self.note_signal(&user_id, kind);
        proof {
            if old(self).spec_recreates_on_signal(user_id@, kind) {
                assert(final(self).spec_pending() =~= old(self).spec_pending().remove(user_id@));
                assert(final(self).spec_peers() =~= old(self).spec_peers().insert(
                    user_id@,
                    (old(self).spec_next_peer_id(), Self::spec_note_signal(PeerState::spec_new(old(self).spec_peers()[user_id@].1.initial_offerer), kind)),
                ));
            }
        }
        r
    }
}

impl EngineSession {
    /// The decision a reconnect timer of `case` takes for the peer `peer_id` of a user
    /// in call `call`: nothing when the call or the peer changed in the meantime,
    /// otherwise as the peer's state says.
    pub open spec fn spec_reconnect(&self, user: Seq<char>, call: Seq<char>, peer_id: PeerId, case: ReconnectCase) -> ReconnectDecision {
        if !self.spec_is_current(call) || !self.spec_peers().contains_key(user) || self.spec_peers()[user].0 != peer_id {
            ReconnectDecision::Nothing
        } else {
            spec_reconnect_decision(self.spec_peers()[user].1, case)
        }
    }

    /// The decision `maybe_reconnect` would take, without acting on it.
    pub fn reconnect_decision(&self, user_id: &UserId, call_id: &CallId, peer_id: PeerId, case: ReconnectCase) -> (d: ReconnectDecision)
        requires
            self.wf(),
        ensures
            d == self.spec_reconnect(user_id@, call_id@, peer_id, case),
    {
        if !self.is_current_call(call_id) {
            return ReconnectDecision::Nothing;
        }
        let (id, st) = match self.peer(user_id) {
            Some(p) => p,
            None => return ReconnectDecision::Nothing,
        };
        if id != peer_id || st.connection_state == ConnectionState::Connected {
            return ReconnectDecision::Nothing;
        }
        match case {
            ReconnectCase::DidNotGetFirstSignal => {
                if st.got_first_offer || st.got_first_answer || st.established_once {
                    ReconnectDecision::Nothing
                } else {
                    ReconnectDecision::Recreate
                }
            },
            ReconnectCase::InitialFailure => {
                if st.established_once {
                    ReconnectDecision::Nothing
                } else {
                    ReconnectDecision::Recreate
                }
            },
            ReconnectCase::TryIceRestart => {
                if st.ice_connection_state != IceState::Disconnected {
                    ReconnectDecision::Nothing
                } else {
                    ReconnectDecision::RestartIce
                }
            },
            ReconnectCase::Disconnect => ReconnectDecision::Recreate,
        }
    }

    /// Acts on a reconnect timer that fired.  A recreated peer is removed and added
    /// again with the same offerer role.
    pub fn maybe_reconnect(&mut self, user_id: UserId, call_id: &CallId, peer_id: PeerId, case: ReconnectCase) -> (r: Reconnect)
        requires
            old(self).wf(),
            old(self).spec_reconnect(user_id@, call_id@, peer_id, case) == ReconnectDecision::Recreate
                ==> old(self).spec_next_peer_id() < u16::MAX,
        ensures
            final(self).wf(),
            final(self).spec_call() == old(self).spec_call(),
            final(self).spec_queue() == old(self).spec_queue(),
            ({
                let u = user_id@;
                match old(self).spec_reconnect(u, call_id@, peer_id, case) {
                    ReconnectDecision::Nothing => {
                        &&& r is Nothing
                        &&& final(self).spec_peers() == old(self).spec_peers()
                        &&& final(self).spec_pending() == old(self).spec_pending()
                        &&& final(self).spec_next_peer_id() == old(self).spec_next_peer_id()
                    },
                    ReconnectDecision::RestartIce => {
                        &&& r is RestartIce
                        &&& final(self).spec_peers() == old(self).spec_peers()
                        &&& final(self).spec_pending() == old(self).spec_pending()
                        &&& final(self).spec_next_peer_id() == old(self).spec_next_peer_id()
                    },
                    ReconnectDecision::Recreate => {
                        let io = old(self).spec_peers()[u].1.initial_offerer;
                        &&& r matches Reconnect::Recreated(added)
                        &&& added.peer_id == old(self).spec_next_peer_id()
                        &&& added.pending_signals is None
                        &&& added.start_initial_timers == io
                        &&& final(self).spec_peers() == old(self).spec_peers().insert(u, (added.peer_id, PeerState::spec_new(io)))
                        &&& final(self).spec_pending() == old(self).spec_pending().remove(u)
                        &&& final(self).spec_next_peer_id() == old(self).spec_next_peer_id() + 1
                    },
                }
            }),
    {
        if !self.is_current_call(call_id) {
            return Reconnect::Nothing;
        }
        let (id, peer_state) = match self.peer(&user_id) {
            Some(p) => p,
            None => return Reconnect::Nothing,
        };
        if id != peer_id {
            return Reconnect::Nothing;
        }
        if *peer_state.connection_state() == ConnectionState::Connected {
            return Reconnect::Nothing;
        }
        let initial_offerer = peer_state.is_initial_offerer();
        let recreate = match case {
            ReconnectCase::DidNotGetFirstSignal => {
                if peer_state.got_first_offer() || peer_state.got_first_answer() {
                    return Reconnect::Nothing;
                }
                if peer_state.has_connected_once() {
                    return Reconnect::Nothing;
                }
                true
            },
            ReconnectCase::InitialFailure => {
                if peer_state.has_connected_once() {
                    return Reconnect::Nothing;
                }
                true
            },
            ReconnectCase::TryIceRestart => {
                if *peer_state.ice_connection_state() != IceState::Disconnected {
                    return Reconnect::Nothing;
                }
                false
            },
            ReconnectCase::Disconnect => true,
        };
        if !recreate {
            return Reconnect::RestartIce;
        }
        let _ = self.remove_peer(&user_id, call_id);
        proof {
            assert(!self.spec_pending().contains_key(user_id@));
        }
        match self.add_peer(user_id, initial_offerer, call_id) {
            Ok(added) => {
                proof {
                    assert(final(self).spec_peers() =~= old(self).spec_peers().insert(
                        user_id@,
                        (added.peer_id, PeerState::spec_new(initial_offerer)),
                    ));
                }
                Reconnect::Recreated(added)
            },
            Err(_) => Reconnect::Nothing,
        }
    }

    /// Handles a state change reported by a user's peer `peer_id`.  Without a call,
    /// without a peer for the user, or from a replaced peer, it is ignored.  Otherwise
    /// the window is told, the peer state records the connection state (and the ICE
    /// state, when given), and an ICE disconnect starts the reconnect timers.
    pub fn peer_connection_state_change(
        &mut self,
        user_id: &UserId,
        peer_id: PeerId,
        state: ConnectionState,
        ice_state: Option<IceState>,
    ) -> (r: StateChange)
        requires
            old(self).wf(),
        ensures
            final(self).wf(),
            final(self).spec_call() == old(self).spec_call(),
            final(self).spec_pending() == old(self).spec_pending(),
            final(self).spec_queue() == old(self).spec_queue(),
            final(self).spec_next_peer_id() == old(self).spec_next_peer_id(),
            ({
                let u = user_id@;
                if old(self).spec_call() is None || !old(self).spec_peers().contains_key(u)
                    || old(self).spec_peers()[u].0 != peer_id {
                    &&& r is Ignored
                    &&& final(self).spec_peers() == old(self).spec_peers()
                } else {
                    let st0 = PeerState { connection_state: state, ..old(self).spec_peers()[u].1 };
                    let st1 = match ice_state {
                        Some(ice) => PeerState {
                            ice_connection_state: ice,
                            established_once: st0.established_once || ice == IceState::Connected,
                            ..st0
                        },
                        None => st0,
                    };
                    &&& r matches StateChange::Emit { call_id: c, start_ice_timers }
                    &&& old(self).spec_call() == Some(c@)
                    &&& start_ice_timers == (ice_state == Some(IceState::Disconnected))
                    &&& final(self).spec_peers() == old(self).spec_peers().insert(u, (peer_id, st1))
                }
            }),
    {
        let call_id = match self.current_call() {
            Some(c) => c,
            None => return StateChange::Ignored,
        };
        let ghost es = self.es();
        let i = match self.find_peer(user_id) {
            Some(i) => i,
            None => {
                proof { lemma_assoc_absent(es, user_id@); }
                return StateChange::Ignored;
            },
        };
        proof { lemma_assoc_lookup(es, i as int); }
        if self.peers[i].peer_id != peer_id {
            return StateChange::Ignored;
        }
        let mut st = self.peers[i].state;
        st.set_connection_state(state);
        if let Some(ice) = ice_state {
            st.set_ice_connection_state(ice);
        }
        self.set_state_at(i, st);
        let start_ice_timers = match ice_state {
            Some(IceState::Disconnected) => true,
            _ => false,
        };
        StateChange::Emit { call_id, start_ice_timers }
    }
}

impl EngineSession {
    /// The id the next peer gets differs from every current peer's id, so the events
    /// and timers of a replaced peer can never be mistaken for the new peer's.
    pub proof fn law_next_peer_id_is_fresh(&self)
        requires
            self.wf(),
        ensures
            forall|u: Seq<char>| #[trigger] self.spec_peers().contains_key(u) ==> self.spec_peers()[u].0 != self.spec_next_peer_id(),
    {
        self.lemma_peer_ids_below_next();
    }

    /// A reconnect timer started for a peer that has since been replaced does nothing.
    pub proof fn law_stale_timer_does_nothing(&self, user: Seq<char>, call: Seq<char>, stale_id: PeerId, case: ReconnectCase)
        requires
            self.spec_peers().contains_key(user),
            self.spec_peers()[user].0 != stale_id,
        ensures
            self.spec_reconnect(user, call, stale_id, case) == ReconnectDecision::Nothing,
    {
    }

    /// Adding a user's peer and then removing it leaves the session without that
    /// peer and without signals held for that user, every other peer untouched.
    pub proof fn law_remove_undoes_add(
        s0: &EngineSession,
        s1: &EngineSession,
        s2: &EngineSession,
        user: Seq<char>,
        initial_offerer: bool,
        call: Seq<char>,
        r1: Result<AddedPeer, SessionError>,
        r2: Result<(), SessionError>,
    )
        requires
            s0.spec_is_current(call),
            Self::spec_add_peer(s0, s1, user, initial_offerer, call, r1),
            Self::spec_remove_peer(s1, s2, user, call, r2),
        ensures
            r2 == Ok::<(), SessionError>(()),
            s2.spec_peers() == s0.spec_peers().remove(user),
            s2.spec_pending() == s0.spec_pending().remove(user),
            s2.spec_call() == s0.spec_call(),
    {
        assert(s2.spec_peers() =~= s0.spec_peers().remove(user));
        assert(s2.spec_pending() =~= s0.spec_pending().remove(user));
    }
}

/// A connected peer is never torn down or restarted by a reconnect timer.
pub proof fn law_connected_peer_left_alone(st: PeerState, case: ReconnectCase)
    requires
        st.connection_state == ConnectionState::Connected,
    ensures
        spec_reconnect_decision(st, case) == ReconnectDecision::Nothing,
{
}

/// A long ICE disconnect always replaces the peer: when the disconnect timer fires
/// for a peer that is not connected, whatever else it got or did, it is recreated.
pub proof fn law_long_disconnect_recreates(st: PeerState)
    requires
        st.connection_state != ConnectionState::Connected,
    ensures
        spec_reconnect_decision(st, ReconnectCase::Disconnect) == ReconnectDecision::Recreate,
{
}

/// Only a timer of the ICE-restart case asks for an ICE restart, and only while
/// ICE is disconnected; the other cases never restart ICE.
pub proof fn law_ice_restart_only_when_disconnected(st: PeerState, case: ReconnectCase)
    ensures
        spec_reconnect_decision(st, case) == ReconnectDecision::RestartIce
            <==> (case == ReconnectCase::TryIceRestart && st.connection_state != ConnectionState::Connected
                && st.ice_connection_state == IceState::Disconnected),
{
}

impl EngineSession {
    /// Only an SDP offer can replace a user's peer: a candidate or an answer always
    /// goes to the existing peer, and an offer replaces it only when that peer
    /// already got an offer before.
    pub proof fn law_only_offer_recreates(&self, user: Seq<char>, kind: SignalKind)
        ensures
            self.spec_recreates_on_signal(user, kind) ==> kind == SignalKind::SdpOffer,
            self.spec_recreates_on_signal(user, kind) ==> self.spec_peers().contains_key(user)
                && self.spec_peers()[user].1.got_first_offer,
            kind == SignalKind::SdpOffer && self.spec_peers().contains_key(user) && self.spec_peers()[user].1.got_first_offer
                ==> self.spec_recreates_on_signal(user, kind),
    {
    }

    /// A signal reaching a peer records only its own kind: an offer marks that an
    /// offer came, an answer that an answer came, a candidate changes nothing; the
    /// connection and ICE states are never touched.
    pub proof fn law_signal_records_its_kind(st: PeerState, kind: SignalKind)
        ensures
            Self::spec_note_signal(st, kind).got_first_offer == (st.got_first_offer || kind == SignalKind::SdpOffer),
            Self::spec_note_signal(st, kind).got_first_answer == (st.got_first_answer || kind == SignalKind::SdpAnswer),
            Self::spec_note_signal(st, kind).initial_offerer == st.initial_offerer,
            Self::spec_note_signal(st, kind).connection_state == st.connection_state,
            Self::spec_note_signal(st, kind).ice_connection_state == st.ice_connection_state,
            Self::spec_note_signal(st, kind).established_once == st.established_once,
    {
    }
}

/// A bandwidth-estimator setting for all peers, in bits per second.
#[derive(Clone, Copy, Debug, PartialEq, Eq, Structural)]
pub enum BweCfg {
    Desired(u64),
    Current(u64),
    Reset(u64),
}

/// Estimator settings when a screen share starts: reset to 900 kbps, aim for
/// 1 Mbps, start from 800 kbps.
pub fn screen_start_bwe() -> (cfgs: [BweCfg; 3])
    ensures
        cfgs@ == seq![BweCfg::Reset(900_000), BweCfg::Desired(1_000_000), BweCfg::Current(800_000)],
{
    [BweCfg::Reset(900_000), BweCfg::Desired(1_000_000), BweCfg::Current(800_000)]
}

/// Estimator settings when a screen share stops: back to 80 kbps for voice.
pub fn screen_stop_bwe() -> (cfgs: [BweCfg; 2])
    ensures
        cfgs@ == seq![BweCfg::Reset(80_000), BweCfg::Desired(80_000)],
{
    [BweCfg::Reset(80_000), BweCfg::Desired(80_000)]
}

} // verus!
