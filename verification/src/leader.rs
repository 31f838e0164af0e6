//! The recognised leader, the timer that watches it, and the revote.

use crate::gossip::{Action, ActionView, GossipMessages, GossipView, Notice, NoticeView};
use crate::identity::{copy_peer, peer_view, PeerId};
use crate::search::{first_index, lemma_first_index_is};
use crate::trun_sync::Turn;
use crate::validator::{validator_waits, Validator, ValidatorView};
use crate::wrongdoer::WrongDoer;
use vstd::prelude::*;

verus! {

/// Seconds a leader has to produce its block once the timer runs.
pub const LEADER_PATIENCE: i64 = 59;

/// Whether the leader is being timed.
#[derive(Debug, Clone, Copy, PartialEq, Eq, Structural)]
pub enum LeaderTime {
    On,
    Off,
}

impl LeaderTime {
    /// Starts the timer.
    pub fn start(&mut self)
        ensures
            *final(self) == LeaderTime::On,
    {
        *self = LeaderTime::On;
    }

    /// Stops the timer.
    pub fn off(&mut self)
        ensures
            *final(self) == LeaderTime::Off,
    {
        *self = LeaderTime::Off;
    }
}

/// The node's view of who leads, and of a revote in progress.
#[derive(Debug, PartialEq, Eq)]
pub struct Leader {
    pub peerid: Option<PeerId>,
    pub timer: LeaderTime,
    pub time: Option<i64>,
    pub in_check: bool,
    pub votes: Vec<PeerId>,
}

/// The view of a [`Leader`].
pub struct LeaderView {
    pub peerid: Option<Seq<char>>,
    pub timer: LeaderTime,
    pub time: Option<i64>,
    pub in_check: bool,
    pub votes: Seq<Seq<char>>,
}

impl DeepView for Leader {
    type V = LeaderView;

    open spec fn deep_view(&self) -> LeaderView {
        LeaderView {
            peerid: peer_view(self.peerid),
            timer: self.timer,
            time: self.time,
            in_check: self.in_check,
            votes: self.votes.deep_view(),
        }
    }
}

impl View for Leader {
    type V = LeaderView;

    open spec fn view(&self) -> LeaderView {
        self.deep_view()
    }
}

impl Clone for Leader {
    fn clone(&self) -> (r: Self)
        ensures
            r@ == self@,
    {
        let votes = self.votes.clone();
        assert(votes.deep_view() =~= self.votes.deep_view());
        Leader {
            peerid: copy_peer(&self.peerid),
            timer: self.timer,
            time: self.time,
            in_check: self.in_check,
            votes,
        }
    }
}

/// The moment a timer started at `now` runs out; it stops at the largest
/// moment there is.
pub open spec fn deadline(now: i64) -> i64 {
    if now <= i64::MAX - LEADER_PATIENCE {
        (now + LEADER_PATIENCE) as i64
    } else {
        i64::MAX
    }
}

/// The votes a registry of `count` validators needs for a decision: more
/// than half.
pub open spec fn quorum(count: nat) -> nat {
    count / 2 + 1
}

/// How often `candidate` stands in the tally.
pub open spec fn count_in(votes: Seq<Seq<char>>, candidate: Seq<char>) -> nat
    decreases votes.len(),
{
    if votes.len() == 0 {
        0
    } else {
        count_in(votes.drop_last(), candidate) + if votes.last() == candidate {
            1nat
        } else {
            0nat
        }
    }
}

/// The place in the tally of the candidate that leads among the first `n`
/// votes: the one named most often in the whole tally, and of several
/// such the one voted for first.
pub open spec fn leading(votes: Seq<Seq<char>>, n: nat) -> int
    decreases n,
{
    if n <= 1 {
        0
    } else {
        let before = leading(votes, (n - 1) as nat);
        if count_in(votes, votes[n - 1]) > count_in(votes, votes[before]) {
            n - 1
        } else {
            before
        }
    }
}

/// The winner of a tally that is not empty.
pub open spec fn winner(votes: Seq<Seq<char>>) -> Seq<char> {
    votes[leading(votes, votes.len())]
}

/// The leading place is a place of the tally; no candidate among the
/// first `n` votes is named more often than the one there, and none that
/// is named as often was voted for before it.
pub proof fn lemma_leading(votes: Seq<Seq<char>>, n: nat)
    requires
        1 <= n <= votes.len(),
    ensures
        0 <= leading(votes, n) < n,
        forall|j: int|
            0 <= j < n ==> count_in(votes, #[trigger] votes[j]) <= count_in(
                votes,
                votes[leading(votes, n)],
            ),
        forall|j: int|
            0 <= j < leading(votes, n) ==> count_in(votes, #[trigger] votes[j]) < count_in(
                votes,
                votes[leading(votes, n)],
            ),
    decreases n,
{
    if n > 1 {
        lemma_leading(votes, (n - 1) as nat);
    }
}

impl Leader {
    /// A leader record around the peer that leads, if one is known.
    pub fn new(peerid: Option<PeerId>) -> (r: Self)
        ensures
            r@ == (LeaderView {
                peerid: peer_view(peerid),
                timer: LeaderTime::Off,
                time: None,
                in_check: false,
                votes: Seq::empty(),
            }),
    {
        let r = Leader {
            peerid,
            timer: LeaderTime::Off,
            time: None,
            in_check: false,
            votes: Vec::new(),
        };
        assert(r.votes.deep_view() =~= Seq::<Seq<char>>::empty());
        r
    }

    /// Marks a revote as in progress.
    pub fn check_start(&mut self)
        ensures
            final(self)@ == (LeaderView { in_check: true, ..old(self)@ }),
    {
        self.in_check = true;
    }

    /// What starting the timer at `now` makes of a leader record: the
    /// timer runs, and a deadline that was not set is 59 seconds away.
    pub open spec fn spec_timer_start(l: LeaderView, now: i64) -> LeaderView {
        LeaderView {
            timer: LeaderTime::On,
            time: if l.time is Some {
                l.time
            } else {
                Some(deadline(now))
            },
            ..l
        }
    }

    /// Starts timing the leader. A deadline that is set already stays.
    pub fn timer_start(&mut self, now: i64)
        ensures
            final(self)@ == Leader::spec_timer_start(old(self)@, now),
    {
        self.timer.start();
        if self.time.is_none() {
            let end = if now <= i64::MAX - LEADER_PATIENCE {
                now + LEADER_PATIENCE
            } else {
                i64::MAX
            };
            self.time = Some(end);
        }
    }

    /// A leader record once `peerid` is settled as leader: no timer, no
    /// deadline, no revote, an empty tally.
    pub open spec fn spec_update(peerid: Option<Seq<char>>) -> LeaderView {
        LeaderView {
            peerid,
            timer: LeaderTime::Off,
            time: None,
            in_check: false,
            votes: Seq::empty(),
        }
    }

    /// Settles who leads. The timer stops, a revote in progress ends and
    /// its tally is dropped.
    pub fn update(&mut self, peerid: Option<PeerId>)
        ensures
            final(self)@ == Leader::spec_update(peer_view(peerid)),
    {
        self.timer.off();
        self.time = None;
        self.peerid = peerid;
        self.in_check = false;
        self.votes = Vec::new();
        assert(self.votes.deep_view() =~= Seq::<Seq<char>>::empty());
    }

    /// Whether the deadline has passed at `now`.
    pub open spec fn spec_expired(l: LeaderView, now: i64) -> bool {
        l.time is Some && now > l.time->0
    }

    /// Tells whether the deadline has passed at `now`.
    pub fn expired(&self, now: i64) -> (r: bool)
        ensures
            r == Leader::spec_expired(self@, now),
    {
        match self.time {
            Some(t) => now > t,
            None => false,
        }
    }

    /// Tells whether `peer` is the recognised leader.
    pub fn is_leader(&self, peer: &PeerId) -> (r: bool)
        ensures
            r == (self@.peerid == Some(peer@)),
    {
        match &self.peerid {
            Some(p) => p.same(peer),
            None => false,
        }
    }
}


/// What a step of the revote leaves behind.
pub struct Voting {
    pub leader: LeaderView,
    pub validators: Seq<ValidatorView>,
    pub turn: Turn,
    pub actions: Seq<ActionView>,
}

/// The vote for `candidate`, and the word to the operator.
pub open spec fn nomination(candidate: Seq<char>) -> Seq<ActionView> {
    seq![
        ActionView::Publish(GossipView::LeaderVote(candidate)),
        ActionView::Notify(NoticeView::Leader(candidate)),
    ]
}

impl Leader {
    /// What nominating decides: the first validator of the registry that
    /// waits no more is put forward, and the revote goes on; where there
    /// is none, the node puts itself forward, takes the lead and its turn.
    pub open spec fn spec_nominate(
        l: LeaderView,
        validators: Seq<ValidatorView>,
        local: Seq<char>,
        turn: Turn,
    ) -> Voting {
        let i = first_index(validator_waits(validators), 0u64);
        if i < validators.len() {
            Voting { leader: l, validators, turn, actions: nomination(validators[i].peerid) }
        } else {
            Voting {
                leader: Leader::spec_update(Some(local)),
                validators,
                turn: Turn { shift: true, waiting: 0 },
                actions: nomination(local),
            }
        }
    }

    /// Puts a candidate forward: the first validator that waits no more,
    /// or else this node, which then takes the lead and its turn. The
    /// actions are the vote to publish and the word to the operator.
    pub fn find_and_post_new_leader(
        &mut self,
        validators: &Vec<Validator>,
        peerid: &PeerId,
        turn: &mut Turn,
    ) -> (actions: Vec<Action>)
        ensures
            final(self)@ == Leader::spec_nominate(
                old(self)@,
                validators.deep_view(),
                peerid@,
                *old(turn),
            ).leader,
            *final(turn) == Leader::spec_nominate(
                old(self)@,
                validators.deep_view(),
                peerid@,
                *old(turn),
            ).turn,
            actions.deep_view() == Leader::spec_nominate(
                old(self)@,
                validators.deep_view(),
                peerid@,
                *old(turn),
            ).actions,
    {
        let ghost waits = validator_waits(validators.deep_view());
        let mut i: usize = 0;
        let mut found = false;
        while i < validators.len() && !found
            invariant
                i <= validators.len(),
                forall|j: int| 0 <= j < i ==> waits[j] != 0u64,
                waits == validator_waits(validators.deep_view()),
                found ==> i < validators.len() && waits[i as int] == 0u64,
            decreases validators.len() - i, (if found { 0int } else { 1int }),
        {
            if validators[i].waiting == 0 {
                found = true;
            } else {
                i += 1;
            }
        }
        proof {
            lemma_first_index_is(waits, 0u64, i as int);
        }
        let candidate = if i < validators.len() {
            validators[i].peerid.clone()
        } else {
            self.update(Some(peerid.clone()));
            turn.on();
            peerid.clone()
        };
        let mut actions: Vec<Action> = Vec::new();
        actions.push(Action::Publish(GossipMessages::LeaderVote(candidate.clone())));
        actions.push(Action::Notify(Notice::Leader(candidate)));
        assert(actions.deep_view() =~= nomination(candidate@));
        actions
    }

    /// What starting a revote decides: the leader that went missing is
    /// evicted, the revote is marked as in progress, and a candidate is
    /// put forward as [`Leader::spec_nominate`] says.
    pub open spec fn spec_start_voting(
        l: LeaderView,
        validators: Seq<ValidatorView>,
        local: Seq<char>,
        turn: Turn,
    ) -> Voting {
        let remaining = match l.peerid {
            Some(p) => WrongDoer::spec_remove(validators, p, local),
            None => validators,
        };
        let notes = match l.peerid {
            Some(p) => seq![ActionView::Notify(NoticeView::LeaderRemoved(p))],
            None => Seq::empty(),
        };
        let next = Leader::spec_nominate(
            LeaderView { in_check: true, ..l },
            remaining,
            local,
            turn,
        );
        Voting { actions: notes + next.actions, ..next }
    }

    /// Starts a revote: marks it as in progress, evicts the leader that
    /// went missing from the registry, and puts a candidate forward.
    pub fn start_voting(
        &mut self,
        validators: &mut Vec<Validator>,
        peerid: &PeerId,
        turn: &mut Turn,
    ) -> (actions: Vec<Action>)
        ensures
            final(self)@ == Leader::spec_start_voting(
                old(self)@,
                old(validators).deep_view(),
                peerid@,
                *old(turn),
            ).leader,
            final(validators).deep_view() == Leader::spec_start_voting(
                old(self)@,
                old(validators).deep_view(),
                peerid@,
                *old(turn),
            ).validators,
            *final(turn) == Leader::spec_start_voting(
                old(self)@,
                old(validators).deep_view(),
                peerid@,
                *old(turn),
            ).turn,
            actions.deep_view() == Leader::spec_start_voting(
                old(self)@,
                old(validators).deep_view(),
                peerid@,
                *old(turn),
            ).actions,
    {
        self.check_start();
        let mut actions: Vec<Action> = Vec::new();
        let missing = copy_peer(&self.peerid);
        match missing {
            Some(p) => {
                let gone = WrongDoer::remove(validators, &p, peerid);
                actions.push(Action::Notify(Notice::LeaderRemoved(gone)));
                assert(actions.deep_view() =~= seq![
                    ActionView::Notify(NoticeView::LeaderRemoved(p@)),
                ]);
            },
            None => {
                assert(actions.deep_view() =~= Seq::<ActionView>::empty());
            },
        }
        let more = self.find_and_post_new_leader(validators, peerid, turn);
        crate::gossip::append_actions(&mut actions, more);
        actions
    }

    fn tally(votes: &Vec<PeerId>, candidate: &PeerId) -> (r: usize)
        ensures
            r == count_in(votes.deep_view(), candidate@),
    {
        let mut r: usize = 0;
        let mut i: usize = 0;
        assert(votes.deep_view().take(0) =~= Seq::<Seq<char>>::empty());
        while i < votes.len()
            invariant
                i <= votes.len(),
                r <= i,
                r == count_in(votes.deep_view().take(i as int), candidate@),
            decreases votes.len() - i,
        {
            proof {
                let next = votes.deep_view().take(i + 1);
                assert(next.drop_last() =~= votes.deep_view().take(i as int));
                assert(next.last() == votes[i as int]@);
            }
            if votes[i].same(candidate) {
                r += 1;
            }
            i += 1;
        }
        assert(votes.deep_view().take(i as int) =~= votes.deep_view());
        r
    }

    fn leading_place(votes: &Vec<PeerId>) -> (r: usize)
        requires
            votes.len() >= 1,
        ensures
            r == leading(votes.deep_view(), votes.len() as nat),
            r < votes.len(),
    {
        let mut best: usize = 0;
        let mut best_count: usize = Leader::tally(votes, &votes[0]);
        let mut n: usize = 1;
        while n < votes.len()
            invariant
                1 <= n <= votes.len(),
                best < n,
                best == leading(votes.deep_view(), n as nat),
                best_count == count_in(votes.deep_view(), votes.deep_view()[best as int]),
            decreases votes.len() - n,
        {
            let c = Leader::tally(votes, &votes[n]);
            if c > best_count {
                best = n;
                best_count = c;
            }
            n += 1;
        }
        best
    }

    /// What a vote decides. The vote joins the tally. Once the tally
    /// holds a quorum of the `count` validators, its winner is installed
    /// as leader: the node takes its turn where that is itself, and times
    /// the new leader where it is another. Below the quorum nothing but
    /// the tally changes.
    pub open spec fn spec_check_votes(
        l: LeaderView,
        count: nat,
        vote: Seq<char>,
        local: Seq<char>,
        turn: Turn,
        now: i64,
    ) -> Voting {
        let votes = l.votes.push(vote);
        if votes.len() >= quorum(count) {
            let chosen = winner(votes);
            if chosen == local {
                Voting {
                    leader: Leader::spec_update(Some(chosen)),
                    validators: Seq::empty(),
                    turn: Turn { shift: true, waiting: 0 },
                    actions: seq![ActionView::Notify(NoticeView::Leader(chosen))],
                }
            } else {
                Voting {
                    leader: Leader::spec_timer_start(Leader::spec_update(Some(chosen)), now),
                    validators: Seq::empty(),
                    turn,
                    actions: seq![ActionView::Notify(NoticeView::Leader(chosen))],
                }
            }
        } else {
            Voting {
                leader: LeaderView { votes, ..l },
                validators: Seq::empty(),
                turn,
                actions: Seq::empty(),
            }
        }
    }

    /// Counts a vote of the revote: see [`Leader::spec_check_votes`].
    /// The leader changes only once the tally holds more than half as
    /// many votes as there are validators.
    pub fn check_votes(
        &mut self,
        validators: &Vec<Validator>,
        vote: PeerId,
        peerid: &PeerId,
        turn: &mut Turn,
        now: i64,
    ) -> (actions: Vec<Action>)
        ensures
            final(self)@ == Leader::spec_check_votes(
                old(self)@,
                validators.len() as nat,
                vote@,
                peerid@,
                *old(turn),
                now,
            ).leader,
            *final(turn) == Leader::spec_check_votes(
                old(self)@,
                validators.len() as nat,
                vote@,
                peerid@,
                *old(turn),
                now,
            ).turn,
            actions.deep_view() == Leader::spec_check_votes(
                old(self)@,
                validators.len() as nat,
                vote@,
                peerid@,
                *old(turn),
                now,
            ).actions,
            old(self)@.votes.len() + 1 < quorum(validators.len() as nat) ==> final(self)@.peerid
                == old(self)@.peerid,
    {
        let ghost before = self.votes.deep_view();
        self.votes.push(vote);
        assert(self.votes.deep_view() =~= before.push(vote@));
        let mut actions: Vec<Action> = Vec::new();
        if self.votes.len() > validators.len() / 2 {
            let place = Leader::leading_place(&self.votes);
            let chosen = self.votes[place].clone();
            assert(chosen@ == winner(self.votes.deep_view()));
            let own = chosen.same(peerid);
            actions.push(Action::Notify(Notice::Leader(chosen.clone())));
            assert(actions.deep_view() =~= seq![ActionView::Notify(NoticeView::Leader(chosen@))]);
            self.update(Some(chosen));
            if own {
                turn.on();
            } else {
                self.timer_start(now);
            }
        } else {
            assert(actions.deep_view() =~= Seq::<ActionView>::empty());
        }
        actions
    }
}

} // verus!
