//! Queue of peers waiting to be connected, in arrival order.
use vstd::prelude::*;
use crate::ids::UserId;
use std::collections::VecDeque;

verus! {

/// A peer to connect to, and whether this side sends the first offer.
pub struct PeerInit {
    pub user_id: UserId,
    pub initial_offerer: bool,
}

/// A peer entry as plain values: the user's identifier and the offerer flag.
pub open spec fn peer_init_view(p: PeerInit) -> (Seq<char>, bool) {
    (p.user_id@, p.initial_offerer)
}

/// First-in first-out queue of peers to connect.
pub struct PeerQueue {
    queue: VecDeque<PeerInit>,
}

impl View for PeerQueue {
    type V = Seq<(Seq<char>, bool)>;

    closed spec fn view(&self) -> Seq<(Seq<char>, bool)> {
        self.queue@.map_values(|p: PeerInit| peer_init_view(p))
    }
}

impl PeerQueue {
    /// An empty queue.
    pub fn init() -> (q: Self)
        ensures
            q@ == Seq::<(Seq<char>, bool)>::empty(),
    {
        let q = PeerQueue { queue: VecDeque::new() };
        assert(q@ =~= Seq::<(Seq<char>, bool)>::empty());
        q
    }

    /// Appends a peer at the back.
    pub fn add(&mut self, user_id: &UserId, initial_offerer: bool)
        ensures
            final(self)@ == old(self)@.push((user_id@, initial_offerer)),
    {
        let entry = PeerInit { user_id: user_id.clone(), initial_offerer };
        self.queue.push_back(entry);
        assert(self@ =~= old(self)@.push((user_id@, initial_offerer)));
    }

    /// Takes the peer at the front, if any.
    pub fn next(&mut self) -> (p: Option<PeerInit>)
        ensures
            match p {
                Some(e) => old(self)@.len() > 0 && peer_init_view(e) == old(self)@[0]
                    && final(self)@ == old(self)@.drop_first(),
                None => old(self)@.len() == 0 && final(self)@ == old(self)@,
            },
    {
        let p = self.queue.pop_front();
        proof {
            if p is Some {
                assert(self@ =~= old(self)@.drop_first());
            }
        }
        p
    }

    /// Takes all queued peers, front first, leaving the queue empty.
    pub fn drain(&mut self) -> (all: VecDeque<PeerInit>)
        ensures
            all@.map_values(|p: PeerInit| peer_init_view(p)) == old(self)@,
            final(self)@ == Seq::<(Seq<char>, bool)>::empty(),
    {
        let mut all: VecDeque<PeerInit> = VecDeque::new();
        let ghost orig = self.queue@;
        while self.queue.len() > 0
            invariant
                all@ + self.queue@ == orig,
            decreases self.queue@.len(),
        {
            match self.queue.pop_front() {
                Some(p) => {
                    all.push_back(p);
                },
                None => {},
            }
        }
        assert(all@ =~= orig);
        assert(self@ =~= Seq::<(Seq<char>, bool)>::empty());
        all
    }

    /// Empties the queue.
    pub fn clear(&mut self)
        ensures
            final(self)@ == Seq::<(Seq<char>, bool)>::empty(),
    {
        self.queue.clear();
        assert(self@ =~= Seq::<(Seq<char>, bool)>::empty());
    }

    pub fn len(&self) -> (n: usize)
        ensures
            n == self@.len(),
    {
        self.queue.len()
    }
}

} // verus!
