use skitspel::{ActionEvent, Player, PlayerAction, PlayerId, PlayerIdGenerator};

#[test]
fn generator_starts_at_one_and_increases() {
    let mut g = PlayerIdGenerator::default();
    assert_eq!(g.peek(), 1);
    let mut last = 0u64;
    for expected in 1..=50u64 {
        let id = g.generate();
        assert_eq!(id, PlayerId(expected));
        assert!(id.value() > last);
        last = id.value();
    }
    assert_eq!(g.peek(), 51);
}

#[test]
fn player_id_from_u64() {
    assert_eq!(PlayerId::from(17u64), PlayerId(17));
    assert!(PlayerId(3) < PlayerId(4));
}

#[test]
fn new_player_has_no_action() {
    let p = Player::new(PlayerId(1), "Alice".to_string(), 3);
    assert_eq!(p.id(), PlayerId(1));
    assert_eq!(p.name(), "Alice");
    assert_eq!(p.color(), 3);
    assert_eq!(p.score(), 0);
    assert!(p.has_no_action());
    assert_eq!(p.movement_x(), 0);
    assert_eq!(p.movement_y(), 0);
}

#[test]
fn update_action_presses_and_releases() {
    let mut p = Player::new(PlayerId(1), "A".to_string(), 0);
    p.update_action(&ActionEvent::RightPressed);
    assert_eq!(p.movement_x(), 1);
    p.update_action(&ActionEvent::LeftPressed);
    assert_eq!(p.movement_x(), 0);
    p.update_action(&ActionEvent::RightReleased);
    assert_eq!(p.movement_x(), -1);
    p.update_action(&ActionEvent::UpPressed);
    assert_eq!(p.movement_y(), 1);
    p.update_action(&ActionEvent::UpReleased);
    p.update_action(&ActionEvent::DownPressed);
    assert_eq!(p.movement_y(), -1);
    p.update_action(&ActionEvent::APressed);
    p.update_action(&ActionEvent::BPressed);
    assert!(p.a_is_pressed());
    assert!(p.b_is_pressed());
    p.update_action(&ActionEvent::AReleased);
    assert!(!p.a_is_pressed());
    assert!(!p.has_no_action());
    p.reset_action();
    assert!(p.has_no_action());
}

#[test]
fn previous_action_is_read_once() {
    let mut p = Player::new(PlayerId(1), "A".to_string(), 0);
    assert_eq!(p.previous_action_once(), None);
    p.update_action(&ActionEvent::BPressed);
    assert_eq!(p.previous_action_once(), Some(ActionEvent::BPressed));
    assert_eq!(p.previous_action_once(), None);
    p.update_action(&ActionEvent::NoAction);
    assert_eq!(p.previous_action_once(), Some(ActionEvent::NoAction));
}

#[test]
fn score_and_color_changes() {
    let mut p = Player::new(PlayerId(2), "B".to_string(), 1);
    p.increment_score();
    p.increment_score();
    assert_eq!(p.score(), 2);
    p.reset_score();
    assert_eq!(p.score(), 0);
    p.set_color(8);
    assert_eq!(p.color(), 8);
}

#[test]
fn player_action_default_is_idle() {
    let a = PlayerAction::default();
    assert!(a.is_idle());
    assert_eq!(a.prev_action, ActionEvent::NoAction);
    assert!(!a.new_action_since_last_read);
}
