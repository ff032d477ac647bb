use skitspel::{PlayerId, PlayerVote, VoteEvent};

#[test]
fn votes_are_counted_once_per_player() {
    let mut v = PlayerVote::default();
    v.set_total_amount(3);
    v.register_vote(&VoteEvent::Value(PlayerId(1), true));
    v.register_vote(&VoteEvent::Value(PlayerId(1), true));
    v.register_vote(&VoteEvent::Value(PlayerId(2), true));
    assert_eq!(v.voted_amount(), 2);
    assert_eq!(v.total_amount(), 3);
    assert!(v.contains(PlayerId(1)));
    v.register_vote(&VoteEvent::Value(PlayerId(1), false));
    assert_eq!(v.voted_amount(), 1);
    assert!(!v.contains(PlayerId(1)));
    v.register_vote(&VoteEvent::Value(PlayerId(7), false));
    assert_eq!(v.voted_amount(), 1);
}

#[test]
fn flip_toggles_a_vote() {
    let mut v = PlayerVote::new();
    v.register_vote(&VoteEvent::Flip(PlayerId(5)));
    assert!(v.contains(PlayerId(5)));
    v.register_vote(&VoteEvent::Flip(PlayerId(5)));
    assert!(!v.contains(PlayerId(5)));
    assert_eq!(v.voted_amount(), 0);
}

#[test]
fn reset_clears_votes_and_total() {
    let mut v = PlayerVote::new();
    v.set_total_amount(4);
    v.register_vote(&VoteEvent::Value(PlayerId(1), true));
    v.register_vote(&VoteEvent::Reset);
    assert_eq!(v.voted_amount(), 0);
    assert_eq!(v.total_amount(), 0);
    v.register_vote(&VoteEvent::Value(PlayerId(2), true));
    v.reset();
    assert_eq!(v.voted_amount(), 0);
}
