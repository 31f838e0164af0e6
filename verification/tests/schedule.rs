use centichain_validator::gossip::{Action, GossipMessages, Notice};
use centichain_validator::identity::{PeerId, Public};
use centichain_validator::leader::{Leader, LeaderTime};
use centichain_validator::message::BlockMessage;
use centichain_validator::trun_sync::{Sync, Turn};
use centichain_validator::validator::{Relay, Validator};
use centichain_validator::waiting::{patience_of, Waiting};
use centichain_validator::wrongdoer::WrongDoer;

fn peer(name: &str) -> PeerId {
    PeerId::new(name.to_string())
}

fn validator(name: &str, waiting: u64) -> Validator {
    Validator { peerid: peer(name), relay: peer("relay"), wallet: Public { bytes: [1u8; 32] }, waiting }
}

fn waits(validators: &Vec<Validator>) -> Vec<u64> {
    validators.iter().map(|v| v.waiting).collect()
}

fn names(validators: &Vec<Validator>) -> Vec<String> {
    validators.iter().map(|v| v.peerid.id.clone()).collect()
}

fn vote(leader: &mut Leader, validators: &Vec<Validator>, candidate: &str, turn: &mut Turn) -> Vec<Action> {
    leader.check_votes(validators, peer(candidate), &peer("me"), turn, 1000)
}

#[test]
fn two_validators_rotate() {
    let mut validators = vec![validator("v0", 0), validator("v1", 1)];
    let mut turn = Turn::new();
    Waiting::update(&mut validators, &peer("v0"), &mut turn, &Sync::Synced);
    assert_eq!(waits(&validators), vec![2, 0]);
    assert_eq!(names(&validators), vec!["v0", "v1"]);
}

#[test]
fn rotation_floors_at_zero_and_resets_the_maker() {
    let mut validators =
        vec![validator("a", 3), validator("b", 0), validator("c", 1), validator("d", 7)];
    let mut turn = Turn { shift: false, waiting: 3 };
    Waiting::update(&mut validators, &peer("d"), &mut turn, &Sync::Synced);
    assert_eq!(waits(&validators), vec![2, 0, 0, 4]);
    assert_eq!(turn, Turn { shift: false, waiting: 2 });
    Waiting::update(&mut validators, &peer("nobody"), &mut turn, &Sync::NotSynced);
    assert_eq!(waits(&validators), vec![1, 0, 0, 3]);
    assert_eq!(turn, Turn { shift: false, waiting: 2 });
    let mut none: Vec<Validator> = Vec::new();
    Waiting::update(&mut none, &peer("a"), &mut turn, &Sync::Synced);
    assert!(none.is_empty());
    assert_eq!(turn, Turn { shift: false, waiting: 1 });
}

#[test]
fn a_new_validator_waits_for_everyone() {
    let validators = vec![validator("a", 3), validator("b", 0)];
    assert_eq!(Waiting::new(&validators), 2);
    assert_eq!(Waiting::new(&Vec::new()), 0);
    let v = Validator::new(&validators, peer("c"), peer("r"), Public { bytes: [2u8; 32] });
    assert_eq!(
        v,
        Validator { peerid: peer("c"), relay: peer("r"), wallet: Public { bytes: [2u8; 32] }, waiting: 2 }
    );
    assert_eq!(patience_of(3), 3);
    assert_eq!(patience_of(70_000), u16::MAX);
}

#[test]
fn relay_learns_its_parts() {
    let mut relay = Relay::new(None, None, "addr".to_string());
    assert!(!relay.is_peer(&peer("r")));
    relay.update(Some(peer("r")), None);
    assert!(relay.is_peer(&peer("r")));
    assert!(!relay.is_peer(&peer("x")));
    assert_eq!(relay.wallet, None);
    relay.update(None, Some(Public { bytes: [3u8; 32] }));
    assert_eq!(relay.peerid, Some(peer("r")));
    assert_eq!(relay.wallet, Some(Public { bytes: [3u8; 32] }));
    assert_eq!(relay.addr, "addr");
}

#[test]
fn eviction_removes_the_peer_but_never_the_node() {
    let mut validators = vec![validator("a", 1), validator("b", 2), validator("a", 3), validator("me", 4)];
    let gone = WrongDoer::remove(&mut validators, &peer("a"), &peer("me"));
    assert_eq!(gone, peer("a"));
    assert_eq!(validators, vec![validator("b", 2), validator("me", 4)]);
    let own = WrongDoer::remove(&mut validators, &peer("me"), &peer("me"));
    assert_eq!(own, peer("me"));
    assert_eq!(validators, vec![validator("b", 2), validator("me", 4)]);
    WrongDoer::remove(&mut validators, &peer("stranger"), &peer("me"));
    assert_eq!(validators, vec![validator("b", 2), validator("me", 4)]);
}

#[test]
fn leader_timer() {
    let mut timer = LeaderTime::Off;
    timer.start();
    assert_eq!(timer, LeaderTime::On);
    timer.off();
    assert_eq!(timer, LeaderTime::Off);

    let mut leader = Leader::new(Some(peer("l")));
    assert_eq!(leader.peerid, Some(peer("l")));
    assert_eq!(leader.timer, LeaderTime::Off);
    assert_eq!(leader.time, None);
    assert!(!leader.in_check);
    assert!(leader.votes.is_empty());
    assert!(leader.is_leader(&peer("l")));
    assert!(!leader.is_leader(&peer("x")));
    assert!(!leader.expired(i64::MAX));

    leader.timer_start(100);
    assert_eq!(leader.timer, LeaderTime::On);
    assert_eq!(leader.time, Some(159));
    assert!(!leader.expired(159));
    assert!(leader.expired(160));
    leader.timer_start(500);
    assert_eq!(leader.time, Some(159));

    leader.check_start();
    assert!(leader.in_check);
    leader.votes.push(peer("v"));
    leader.update(Some(peer("n")));
    assert_eq!(leader, Leader::new(Some(peer("n"))));

    let mut late = Leader::new(None);
    late.timer_start(i64::MAX - 3);
    assert_eq!(late.time, Some(i64::MAX));
    assert!(!Leader::new(None).is_leader(&peer("l")));
}

#[test]
fn revote_nominates_the_first_eligible_validator() {
    let mut validators =
        vec![validator("gone", 0), validator("a", 2), validator("b", 0), validator("c", 0)];
    let mut leader = Leader::new(Some(peer("gone")));
    leader.timer_start(10);
    let mut turn = Turn { shift: false, waiting: 3 };
    let actions = leader.start_voting(&mut validators, &peer("me"), &mut turn);
    assert_eq!(
        actions,
        vec![
            Action::Notify(Notice::LeaderRemoved(peer("gone"))),
            Action::Publish(GossipMessages::LeaderVote(peer("b"))),
            Action::Notify(Notice::Leader(peer("b"))),
        ]
    );
    assert_eq!(names(&validators), vec!["a", "b", "c"]);
    assert!(leader.in_check);
    assert_eq!(leader.peerid, Some(peer("gone")));
    assert_eq!(leader.timer, LeaderTime::On);
    assert_eq!(leader.time, Some(69));
    assert_eq!(turn, Turn { shift: false, waiting: 3 });
}

#[test]
fn revote_without_candidates_makes_the_node_lead() {
    let mut validators = vec![validator("gone", 0), validator("a", 2)];
    let mut leader = Leader::new(Some(peer("gone")));
    let mut turn = Turn { shift: false, waiting: 3 };
    let actions = leader.start_voting(&mut validators, &peer("me"), &mut turn);
    assert_eq!(
        actions,
        vec![
            Action::Notify(Notice::LeaderRemoved(peer("gone"))),
            Action::Publish(GossipMessages::LeaderVote(peer("me"))),
            Action::Notify(Notice::Leader(peer("me"))),
        ]
    );
    assert_eq!(names(&validators), vec!["a"]);
    assert_eq!(leader, Leader::new(Some(peer("me"))));
    assert_eq!(turn, Turn { shift: true, waiting: 0 });
}

#[test]
fn revote_without_a_leader_evicts_nobody() {
    let mut validators = vec![validator("a", 0)];
    let mut leader = Leader::new(None);
    let mut turn = Turn::new();
    let actions = leader.start_voting(&mut validators, &peer("me"), &mut turn);
    assert_eq!(
        actions,
        vec![
            Action::Publish(GossipMessages::LeaderVote(peer("a"))),
            Action::Notify(Notice::Leader(peer("a"))),
        ]
    );
    assert_eq!(names(&validators), vec!["a"]);
    assert!(leader.in_check);
    assert_eq!(leader.peerid, None);
    let more = leader.find_and_post_new_leader(&validators, &peer("me"), &mut turn);
    assert_eq!(more, actions);
}

#[test]
fn leader_changes_only_at_quorum() {
    let validators =
        vec![validator("a", 0), validator("b", 1), validator("c", 2), validator("d", 3)];
    let mut leader = Leader::new(None);
    leader.check_start();
    let mut turn = Turn { shift: false, waiting: 2 };

    assert!(vote(&mut leader, &validators, "a", &mut turn).is_empty());
    assert_eq!(leader.peerid, None);
    assert!(leader.in_check);
    assert_eq!(leader.votes, vec![peer("a")]);

    assert!(vote(&mut leader, &validators, "b", &mut turn).is_empty());
    assert_eq!(leader.peerid, None);
    assert!(leader.in_check);
    assert_eq!(leader.votes, vec![peer("a"), peer("b")]);
    assert_eq!(turn, Turn { shift: false, waiting: 2 });

    let actions = vote(&mut leader, &validators, "b", &mut turn);
    assert_eq!(actions, vec![Action::Notify(Notice::Leader(peer("b")))]);
    assert_eq!(leader.peerid, Some(peer("b")));
    assert!(!leader.in_check);
    assert!(leader.votes.is_empty());
    assert_eq!(leader.timer, LeaderTime::On);
    assert_eq!(leader.time, Some(1059));
    assert_eq!(turn, Turn { shift: false, waiting: 2 });
}

#[test]
fn winning_the_vote_gives_the_turn() {
    let validators = vec![validator("a", 0), validator("b", 1), validator("c", 2)];
    let mut leader = Leader::new(Some(peer("old")));
    leader.check_start();
    leader.timer_start(5);
    let mut turn = Turn { shift: false, waiting: 2 };
    assert!(vote(&mut leader, &validators, "me", &mut turn).is_empty());
    assert_eq!(leader.peerid, Some(peer("old")));
    let actions = vote(&mut leader, &validators, "me", &mut turn);
    assert_eq!(actions, vec![Action::Notify(Notice::Leader(peer("me")))]);
    assert_eq!(leader, Leader::new(Some(peer("me"))));
    assert_eq!(turn, Turn { shift: true, waiting: 0 });
}

#[test]
fn ties_go_to_the_candidate_voted_for_first() {
    let validators: Vec<Validator> = (0..6).map(|i| validator(&format!("v{}", i), i)).collect();
    let mut leader = Leader::new(None);
    leader.check_start();
    let mut turn = Turn::new();
    assert!(vote(&mut leader, &validators, "x", &mut turn).is_empty());
    assert!(vote(&mut leader, &validators, "y", &mut turn).is_empty());
    assert!(vote(&mut leader, &validators, "y", &mut turn).is_empty());
    let actions = vote(&mut leader, &validators, "x", &mut turn);
    assert_eq!(actions, vec![Action::Notify(Notice::Leader(peer("x")))]);
    assert_eq!(leader.peerid, Some(peer("x")));

    let mut second = Leader::new(None);
    second.check_start();
    assert!(vote(&mut second, &validators, "x", &mut turn).is_empty());
    assert!(vote(&mut second, &validators, "y", &mut turn).is_empty());
    assert!(vote(&mut second, &validators, "z", &mut turn).is_empty());
    let actions = vote(&mut second, &validators, "z", &mut turn);
    assert_eq!(actions, vec![Action::Notify(Notice::Leader(peer("z")))]);
}

#[test]
fn an_empty_registry_decides_on_the_first_vote() {
    let mut leader = Leader::new(None);
    leader.check_start();
    let mut turn = Turn::new();
    let actions = vote(&mut leader, &Vec::new(), "a", &mut turn);
    assert_eq!(actions, vec![Action::Notify(Notice::Leader(peer("a")))]);
    assert_eq!(leader.peerid, Some(peer("a")));
}

#[test]
fn next_leader_is_drawn_among_the_eligible() {
    let validators =
        vec![validator("a", 0), validator("b", 2), validator("c", 0), validator("d", 0)];
    for (draw, expected) in [(0u32, "a"), (1, "c"), (2, "d"), (3, "a"), (4, "c"), (u32::MAX, "a")] {
        let mut turn = Turn { shift: true, waiting: 0 };
        let mut leader = Leader::new(None);
        leader.check_start();
        let next = BlockMessage::find_next_leader(&validators, &peer("me"), &mut turn, &mut leader, draw);
        assert_eq!(next, peer(expected));
        assert_eq!(turn, Turn { shift: false, waiting: 4 });
        assert_eq!(leader, Leader::new(Some(peer(expected))));
    }
}

#[test]
fn without_eligible_validators_the_node_leads_on() {
    let validators = vec![validator("a", 1), validator("b", 2)];
    let mut turn = Turn { shift: false, waiting: 5 };
    let mut leader = Leader::new(Some(peer("old")));
    let next = BlockMessage::find_next_leader(&validators, &peer("me"), &mut turn, &mut leader, 7);
    assert_eq!(next, peer("me"));
    assert_eq!(turn, Turn { shift: true, waiting: 0 });
    assert_eq!(leader, Leader::new(None));
}

#[test]
fn relay_addresses_name_a_host() {
    let host = |addr: &str| Relay::new(None, None, addr.to_string()).host();
    assert_eq!(host("/ip4/12.34.56.78/tcp/33369"), Some("12.34.56.78".to_string()));
    assert_eq!(host("/ip4/12.34.56.78"), Some("12.34.56.78".to_string()));
    assert_eq!(host("/ip4/h/"), Some("h".to_string()));
    assert_eq!(host("/ip4//tcp/1"), None);
    assert_eq!(host("/ip4/"), None);
    assert_eq!(host("/ip4"), None);
    assert_eq!(host("/ip6/::1/tcp/1"), None);
    assert_eq!(host("12.34.56.78"), None);
    assert_eq!(host(""), None);
    assert_eq!(
        Relay::url(&"1.2.3.4".to_string(), "/trx"),
        "http://1.2.3.4:33369/trx"
    );
}
