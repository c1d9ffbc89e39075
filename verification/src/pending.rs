//! Signals that arrive for a peer before the peer exists.
use vstd::prelude::*;
use crate::assoc::{assoc_map, has_key, keys_distinct, lemma_assoc_absent, lemma_assoc_empty, lemma_assoc_lookup, lemma_assoc_push, lemma_assoc_remove, lemma_assoc_update};
use crate::ids::UserId;
use crate::signal::{Signal, SignalKind};
use std::collections::VecDeque;

verus! {

/// A signal as plain values: its kind and its text.
pub type SignalView = (SignalKind, Seq<char>);

struct PendingEntry {
    user_id: UserId,
    signals: VecDeque<Signal>,
}

/// A queue of signals as plain values.
pub open spec fn signals_view(q: Seq<Signal>) -> Seq<SignalView> {
    q.map_values(|s: Signal| s@)
}

spec fn entry_view(e: PendingEntry) -> (Seq<char>, Seq<SignalView>) {
    (e.user_id@, signals_view(e.signals@))
}

/// A pending queue the peer can start from: a session description first, then only
/// candidates.
pub open spec fn well_ordered_signals(q: Seq<SignalView>) -> bool {
    &&& q.len() > 0
    &&& q[0].0 != SignalKind::Candidate
    &&& forall|i: int| 1 <= i < q.len() ==> #[trigger] q[i].0 == SignalKind::Candidate
}

/// Whether the pending signals of a user are handed to a newly created peer: only an
/// offer received while this side is not the initial offerer is useful; an answer to
/// an offer this side has not sent would fail.
pub open spec fn spec_should_apply(q: Seq<SignalView>, initial_offerer: bool) -> bool {
    q.len() > 0 && q[0].0 == SignalKind::SdpOffer && !initial_offerer
}

/// Held signals are handed to a new peer only when they start with an offer and
/// the peer is not the initial offerer: a held answer (to an offer the new peer has
/// not sent) or a held candidate alone is never released, nor anything to an
/// initial offerer.
pub proof fn law_only_offers_are_released(q: Seq<SignalView>, initial_offerer: bool)
    ensures
        spec_should_apply(q, initial_offerer) <==> (q.len() > 0 && q[0].0 == SignalKind::SdpOffer && !initial_offerer),
        q.len() > 0 && q[0].0 == SignalKind::SdpAnswer ==> !spec_should_apply(q, initial_offerer),
        initial_offerer ==> !spec_should_apply(q, initial_offerer),
{
}

/// Signals held per user until that user's peer is created.
pub struct PendingSignals {
    entries: Vec<PendingEntry>,
}

impl View for PendingSignals {
    type V = Map<Seq<char>, Seq<SignalView>>;

    closed spec fn view(&self) -> Map<Seq<char>, Seq<SignalView>> {
        assoc_map(self.entries@.map_values(|e: PendingEntry| entry_view(e)))
    }
}

impl PendingSignals {
    closed spec fn es(&self) -> Seq<(Seq<char>, Seq<SignalView>)> {
        self.entries@.map_values(|e: PendingEntry| entry_view(e))
    }

    /// One entry per user, and every held queue starts with a session description
    /// followed only by candidates.
    pub closed spec fn wf(&self) -> bool {
        &&& keys_distinct(self.es())
        &&& forall|i: int| 0 <= i < self.es().len() ==> well_ordered_signals(#[trigger] self.es()[i].1)
    }

    /// Every queue of held signals starts with a session description and holds only
    /// candidates after it.
    pub proof fn law_held_signals_start_with_description(&self)
        requires
            self.wf(),
        ensures
            forall|k: Seq<char>| #[trigger] self@.contains_key(k) ==> well_ordered_signals(self@[k]),
    {
        assert forall|k: Seq<char>| #[trigger] self@.contains_key(k) implies well_ordered_signals(self@[k]) by {
            let es = self.es();
            let i = choose|i: int| 0 <= i < es.len() && #[trigger] es[i].0 == k;
            lemma_assoc_lookup(es, i);
        }
    }

    /// No signals held.
    pub fn init() -> (p: Self)
        ensures
            p.wf(),
            p@ == Map::<Seq<char>, Seq<SignalView>>::empty(),
    {
        let p = PendingSignals { entries: Vec::new() };
        assert(p.es() =~= Seq::<(Seq<char>, Seq<SignalView>)>::empty());
        proof { lemma_assoc_empty::<Seq<char>, Seq<SignalView>>(); }
        p
    }

    fn find(&self, user_id: &UserId) -> (r: Option<usize>)
        ensures
            match r {
                Some(i) => i < self.es().len() && self.es()[i as int].0 == user_id@,
                None => !has_key(self.es(), user_id@),
            },
    {
        let mut i: usize = 0;
        while i < self.entries.len()
            invariant
                i <= self.entries@.len(),
                forall|k: int| 0 <= k < i ==> self.es()[k].0 != user_id@,
            decreases self.entries@.len() - i,
        {
            if self.entries[i].user_id.same_as(user_id) {
                return Some(i);
            }
            i = i + 1;
        }
        None
    }

    /// Holds a signal for a user without a peer.  A user's first held signal must be
    /// a session description and later ones candidates; anything else is dropped.
    pub fn add(&mut self, user_id: &UserId, signal: Signal)
        requires
            old(self).wf(),
        ensures
            final(self).wf(),
            final(self)@ == (if old(self)@.contains_key(user_id@) {
                if signal@.0 == SignalKind::Candidate {
                    old(self)@.insert(user_id@, old(self)@[user_id@].push(signal@))
                } else {
                    old(self)@
                }
            } else {
                if signal@.0 != SignalKind::Candidate {
                    old(self)@.insert(user_id@, seq![signal@])
                } else {
                    old(self)@
                }
            }),
    {
        let ghost es = self.es();
        match self.find(user_id) {
            Some(i) => {
                proof { lemma_assoc_lookup(es, i as int); }
                if signal.is_candidate() {
                    let mut e = self.entries.remove(i);
                    let ghost sv = signal@;
                    e.signals.push_back(signal);
                    let ghost new_v = es[i as int].1.push(sv);
                    assert(signals_view(e.signals@) =~= new_v);
                    self.entries.insert(i, e);
                    proof {
                        lemma_assoc_update(es, i as int, new_v);
                        assert(self.es() =~= es.update(i as int, (es[i as int].0, new_v)));
                    }
                }
            },
            None => {
                proof { lemma_assoc_absent(es, user_id@); }
                if signal.is_sdp() {
                    let ghost sv = signal@;
                    let mut q: VecDeque<Signal> = VecDeque::new();
                    q.push_back(signal);
                    let e = PendingEntry { user_id: user_id.clone(), signals: q };
                    assert(signals_view(e.signals@) =~= seq![sv]);
                    self.entries.push(e);
                    proof {
                        lemma_assoc_push(es, user_id@, seq![sv]);
                        assert(self.es() =~= es.push((user_id@, seq![sv])));
                    }
                }
            },
        }
    }

    fn should_return(&self, user_id: &UserId, initial_offerer: bool, is_drain_all: bool) -> (b: bool)
        requires
            self.wf(),
        ensures
            b == (self@.contains_key(user_id@) && ({
                let q = self@[user_id@];
                match q[0].0 {
                    SignalKind::SdpOffer => !initial_offerer,
                    SignalKind::SdpAnswer => false,
                    SignalKind::Candidate => !is_drain_all,
                }
            })),
    {
        let ghost es = self.es();
        match self.find(user_id) {
            Some(i) => {
                proof { lemma_assoc_lookup(es, i as int); }
                let q = &self.entries[i].signals;
                assert(q@.len() > 0);
                let front = &q[0];
                assert(front@ == es[i as int].1[0]);
                match front {
                    Signal::Sdp(crate::signal::Sdp::Offer(_)) => !initial_offerer,
                    Signal::Sdp(crate::signal::Sdp::Answer(_)) => false,
                    Signal::Candidate(_) => !is_drain_all,
                }
            },
            None => false,
        }
    }

    /// Takes a user's held signals when a peer is created for it: they are returned
    /// only when they start with an offer and this side is not the initial offerer;
    /// either way nothing stays held for the user.
    pub fn drain(&mut self, user_id: &UserId, initial_offerer: bool) -> (r: Option<VecDeque<Signal>>)
        requires
            old(self).wf(),
        ensures
            final(self).wf(),
            final(self)@ == old(self)@.remove(user_id@),
            r is Some <==> (old(self)@.contains_key(user_id@) && spec_should_apply(old(self)@[user_id@], initial_offerer)),
            r matches Some(q) ==> signals_view(q@) == old(self)@[user_id@],
    {
        let should_return = self.should_return(user_id, initial_offerer, true);
        proof { self.law_held_signals_start_with_description(); }
        let removed = self.remove(user_id);
        if should_return {
            removed
        } else {
            None
        }
    }

    /// Takes a user's held signals, whatever they are.
    pub fn remove(&mut self, user_id: &UserId) -> (r: Option<VecDeque<Signal>>)
        requires
            old(self).wf(),
        ensures
            final(self).wf(),
            final(self)@ == old(self)@.remove(user_id@),
            r is Some <==> old(self)@.contains_key(user_id@),
            r matches Some(q) ==> signals_view(q@) == old(self)@[user_id@],
    {
        let ghost es = self.es();
        match self.find(user_id) {
            Some(i) => {
                proof { lemma_assoc_lookup(es, i as int); }
                let e = self.entries.remove(i);
                proof {
                    lemma_assoc_remove(es, i as int);
                    assert(self.es() =~= es.remove(i as int));
                    assert forall|k: int| 0 <= k < self.es().len() implies well_ordered_signals(#[trigger] self.es()[k].1) by {
                        let k2 = if k < i { k } else { k + 1 };
                        assert(self.es()[k] == es[k2]);
                    }
                }
                Some(e.signals)
            },
            None => {
                proof {
                    lemma_assoc_absent(es, user_id@);
                    assert(self@ =~= old(self)@.remove(user_id@));
                }
                None
            },
        }
    }

    /// Drops everything held.
    pub fn reset(&mut self)
        ensures
            final(self).wf(),
            final(self)@ == Map::<Seq<char>, Seq<SignalView>>::empty(),
    {
        self.entries = Vec::new();
        assert(self.es() =~= Seq::<(Seq<char>, Seq<SignalView>)>::empty());
        proof { lemma_assoc_empty::<Seq<char>, Seq<SignalView>>(); }
    }
}

} // verus!
