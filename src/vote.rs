//! Votes of players, such as "ready to start" or "leave the game".
use vstd::prelude::*;
use crate::player::PlayerId;

verus! {

/// A change to a vote.
#[derive(Debug, Clone, Copy, PartialEq, Eq, Structural)]
pub enum VoteEvent {
    /// The player votes (true) or takes back its vote (false).
    Value(PlayerId, bool),
    /// The player's vote is flipped.
    Flip(PlayerId),
    /// The vote starts over.
    Reset,
}

/// The players that voted for something, and how many players there are.
#[derive(Debug)]
pub struct PlayerVote {
    player_ids: Vec<PlayerId>,
    total_amount_of_players: usize,
}

/// The voters after `e`.
pub open spec fn voters_after(voters: Set<PlayerId>, e: VoteEvent) -> Set<PlayerId> {
    match e {
        VoteEvent::Value(id, true) => voters.insert(id),
        VoteEvent::Value(id, false) => voters.remove(id),
        VoteEvent::Flip(id) => if voters.contains(id) {
            voters.remove(id)
        } else {
            voters.insert(id)
        },
        VoteEvent::Reset => Set::empty(),
    }
}

impl PlayerVote {
    /// The players that voted.
    pub closed spec fn voters(&self) -> Set<PlayerId> {
        self.player_ids@.to_set()
    }

    /// The number of players taking part.
    pub closed spec fn total(&self) -> usize {
        self.total_amount_of_players
    }

    pub closed spec fn wf(&self) -> bool {
        self.player_ids@.no_duplicates()
    }

    /// No votes, no players.
    pub fn new() -> (r: Self)
        ensures
            r.wf(),
            r.voters() == Set::<PlayerId>::empty(),
            r.total() == 0,
    {
        let r = PlayerVote { player_ids: Vec::new(), total_amount_of_players: 0 };
        assert(r.voters() =~= Set::<PlayerId>::empty());
        r
    }

    /// How many players voted.
    pub fn voted_amount(&self) -> (r: usize)
        requires
            self.wf(),
        ensures
            r == self.voters().len(),
    {
        proof {
            self.player_ids@.unique_seq_to_set();
        }
        self.player_ids.len()
    }

    pub fn total_amount(&self) -> (r: usize)
        ensures
            r == self.total(),
    {
        self.total_amount_of_players
    }

    pub fn set_total_amount(&mut self, amount: usize)
        requires
            old(self).wf(),
        ensures
            final(self).wf(),
            final(self).voters() == old(self).voters(),
            final(self).total() == amount,
    {
        self.total_amount_of_players = amount;
    }

    /// Whether `id` voted.
    pub fn contains(&self, id: PlayerId) -> (r: bool)
        ensures
            r == self.voters().contains(id),
    {
        self.position(id).is_some()
    }

    fn position(&self, id: PlayerId) -> (r: Option<usize>)
        ensures
            match r {
                Some(i) => i < self.player_ids@.len() && self.player_ids@[i as int] == id,
                None => !self.player_ids@.contains(id),
            },
            r is Some <==> self.voters().contains(id),
    {
        let mut i: usize = 0;
        while i < self.player_ids.len()
            invariant
                i <= self.player_ids@.len(),
                forall|j: int| 0 <= j < i ==> self.player_ids@[j] != id,
            decreases self.player_ids@.len() - i,
        {
            if self.player_ids[i] == id {
                return Some(i);
            }
            i = i + 1;
        }
        None
    }

    fn add(&mut self, id: PlayerId)
        requires
            old(self).wf(),
        ensures
            final(self).wf(),
            final(self).voters() == old(self).voters().insert(id),
            final(self).total() == old(self).total(),
    {
        if self.position(id).is_none() {
            self.player_ids.push(id);
            proof {
                old(self).player_ids@.lemma_push_to_set_commute(id);
                assert forall|a: int, b: int| 0 <= a < b < self.player_ids@.len() implies self.player_ids@[a]
                    != self.player_ids@[b] by {
                    if b == self.player_ids@.len() - 1 {
                        assert(old(self).player_ids@.contains(self.player_ids@[a]));
                    }
                }
            }
        } else {
            assert(self.voters() =~= old(self).voters().insert(id));
        }
    }

    fn take_back(&mut self, id: PlayerId)
        requires
            old(self).wf(),
        ensures
            final(self).wf(),
            final(self).voters() == old(self).voters().remove(id),
            final(self).total() == old(self).total(),
    {
        match self.position(id) {
            Some(i) => {
                let ghost s = self.player_ids@;
                self.player_ids.remove(i);
                proof {
                    let t = self.player_ids@;
                    assert(t =~= s.remove(i as int));
                    assert forall|x: PlayerId| #[trigger] t.contains(x) <==> (s.contains(x) && x != id) by {
                        if t.contains(x) {
                            let k = choose|k: int| 0 <= k < t.len() && t[k] == x;
                            if k < i {
                                assert(s[k] == x);
                            } else {
                                assert(s[k + 1] == x);
                            }
                        }
                        if s.contains(x) && x != id {
                            let k = choose|k: int| 0 <= k < s.len() && s[k] == x;
                            if k < i {
                                assert(t[k] == x);
                            } else {
                                assert(t[k - 1] == x);
                            }
                        }
                    }
                    assert(self.voters() =~= old(self).voters().remove(id));
                }
            },
            None => {
                assert(self.voters() =~= old(self).voters().remove(id));
            },
        }
    }

    /// Applies `vote_event` to the vote.
    pub fn register_vote(&mut self, vote_event: &VoteEvent)
        requires
            old(self).wf(),
        ensures
            final(self).wf(),
            final(self).voters() == voters_after(old(self).voters(), *vote_event),
            final(self).total() == (if *vote_event is Reset {
                0
            } else {
                old(self).total()
            }),
    {
        match vote_event {
            VoteEvent::Value(id, true) => self.add(*id),
            VoteEvent::Value(id, false) => self.take_back(*id),
            VoteEvent::Flip(id) => {
                if self.contains(*id) {
                    self.take_back(*id);
                } else {
                    self.add(*id);
                }
            },
            VoteEvent::Reset => self.reset(),
        }
    }

    /// Clears the votes and the number of players.
    pub fn reset(&mut self)
        ensures
            final(self).wf(),
            final(self).voters() == Set::<PlayerId>::empty(),
            final(self).total() == 0,
    {
        self.player_ids.clear();
        self.total_amount_of_players = 0;
        assert(self.voters() =~= Set::<PlayerId>::empty());
    }
}

impl Default for PlayerVote {
    fn default() -> (r: Self)
        ensures
            r.wf(),
            r.voters() == Set::<PlayerId>::empty(),
            r.total() == 0,
    {
        PlayerVote::new()
    }
}

} // verus!
