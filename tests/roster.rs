use skitspel::network::Delivery;
use skitspel::roster::apply_general_message;
use skitspel::{
    handle_action_message, handle_general_message, ActionEvent, ConnectedPlayers,
    DisconnectedPlayers, EventMessage, EventTimer, GameState, GeneralEvent, NetworkContext,
    NetworkEvent, PlayerId, Players, MAX_PLAYERS,
};

fn connected(id: u64, name: &str) -> EventMessage {
    EventMessage {
        player_id: PlayerId(id),
        event: NetworkEvent::General(GeneralEvent::Connected(name.to_string())),
    }
}

fn disconnected(id: u64) -> EventMessage {
    EventMessage { player_id: PlayerId(id), event: NetworkEvent::General(GeneralEvent::Disconnected) }
}

#[test]
fn connect_adds_player_and_newcomer() {
    let mut players = Players::new();
    let mut newcomers = ConnectedPlayers::new();
    let mut gone = DisconnectedPlayers::new();
    let s = apply_general_message(connected(1, "Alice"), 4, &mut players, &mut newcomers, &mut gone, GameState::StartMenu);
    assert_eq!(s, GameState::StartMenu);
    assert_eq!(players.len(), 1);
    let p = players.get(PlayerId(1)).unwrap();
    assert_eq!(p.name(), "Alice");
    assert_eq!(p.color(), 4);
    assert!(newcomers.contains(PlayerId(1)));
    assert_eq!(gone.len(), 0);
}

#[test]
fn too_few_players_go_back_to_start_menu() {
    let mut players = Players::new();
    let mut newcomers = ConnectedPlayers::new();
    let mut gone = DisconnectedPlayers::new();
    let mut s = GameState::StartMenu;
    s = apply_general_message(connected(1, "A"), 0, &mut players, &mut newcomers, &mut gone, s);
    s = apply_general_message(connected(2, "B"), 1, &mut players, &mut newcomers, &mut gone, s);
    s = apply_general_message(connected(3, "C"), 2, &mut players, &mut newcomers, &mut gone, s);
    s = apply_general_message(disconnected(1), 0, &mut players, &mut newcomers, &mut gone, GameState::HockeyGame);
    assert_eq!(s, GameState::HockeyGame);
    s = apply_general_message(disconnected(2), 0, &mut players, &mut newcomers, &mut gone, s);
    assert_eq!(s, GameState::StartMenu);
    assert_eq!(players.len(), 1);
    assert!(gone.contains(PlayerId(1)) && gone.contains(PlayerId(2)));
}

#[test]
fn invalid_message_changes_nothing() {
    let mut players = Players::new();
    let mut newcomers = ConnectedPlayers::new();
    let mut gone = DisconnectedPlayers::new();
    let msg = EventMessage { player_id: PlayerId(1), event: NetworkEvent::Invalid(vec![5]) };
    let s = apply_general_message(msg, 0, &mut players, &mut newcomers, &mut gone, GameState::PushGame);
    assert_eq!(s, GameState::PushGame);
    assert_eq!(players.len(), 0);
}

#[test]
fn general_events_reach_the_roster_with_random_colors() {
    let mut ctx: NetworkContext<u8> = NetworkContext::new();
    let a = ctx.generate_player_id();
    let b = ctx.generate_player_id();
    ctx.handle_message(connected(a.0, "Alice"), Some(0)).ok().unwrap();
    ctx.handle_message(connected(b.0, "Bob"), Some(0)).ok().unwrap();
    let mut players = Players::new();
    let mut newcomers = ConnectedPlayers::new();
    let mut gone = DisconnectedPlayers::new();
    let s = handle_general_message(&mut ctx, &mut players, &mut newcomers, &mut gone, GameState::StartMenu);
    assert_eq!(s, GameState::StartMenu);
    assert_eq!(players.len(), 2);
    assert_eq!(newcomers.len(), 2);
    assert_eq!(players.get(a).unwrap().name(), "Alice");
    assert!(players.get(a).unwrap().color() < MAX_PLAYERS);
    assert!(players.get(b).unwrap().color() < MAX_PLAYERS);
    assert!(ctx.iter_common().is_empty());

    ctx.handle_message(disconnected(a.0), None).ok().unwrap();
    let s = handle_general_message(&mut ctx, &mut players, &mut newcomers, &mut gone, GameState::AchtungGame);
    assert_eq!(s, GameState::StartMenu);
    assert_eq!(newcomers.len(), 0);
    assert!(gone.contains(a));
    assert!(players.get(a).is_none());
}

#[test]
fn paced_actions_update_players() {
    let mut ctx: NetworkContext<u8> = NetworkContext::new();
    let a = ctx.generate_player_id();
    ctx.handle_message(connected(a.0, "A"), Some(0)).ok().unwrap();
    let mut players = Players::new();
    let mut newcomers = ConnectedPlayers::new();
    let mut gone = DisconnectedPlayers::new();
    handle_general_message(&mut ctx, &mut players, &mut newcomers, &mut gone, GameState::StartMenu);
    let m = EventMessage { player_id: a, event: NetworkEvent::Action(ActionEvent::RightPressed) };
    assert_eq!(ctx.handle_message(m, None).ok(), Some(Delivery::Queued));
    let mut timer = EventTimer::default();
    handle_action_message(&mut ctx, 10_000, &mut timer, &mut players);
    assert!(players.get(a).unwrap().has_no_action());
    handle_action_message(&mut ctx, 90_000, &mut timer, &mut players);
    assert_eq!(players.get(a).unwrap().movement_x(), 1);
}

#[test]
fn idle_player_with_no_action_is_left_alone() {
    let mut ctx: NetworkContext<u8> = NetworkContext::new();
    let a = ctx.generate_player_id();
    ctx.handle_message(connected(a.0, "A"), Some(0)).ok().unwrap();
    let mut players = Players::new();
    let mut newcomers = ConnectedPlayers::new();
    let mut gone = DisconnectedPlayers::new();
    handle_general_message(&mut ctx, &mut players, &mut newcomers, &mut gone, GameState::StartMenu);
    let mut timer = EventTimer::default();
    handle_action_message(&mut ctx, 100_000, &mut timer, &mut players);
    let mut p = players.remove(a).unwrap();
    assert_eq!(p.previous_action_once(), None);
}
