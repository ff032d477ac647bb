use skitspel::network::{Delivery, NetworkContext, EVENT_CHANNEL_BUF_SIZE};
use skitspel::{
    decode_message, ActionEvent, EventMessage, EventTimer, GeneralEvent, NetworkEvent, PlayerId,
};

type Ctx = NetworkContext<u32>;

fn connect(ctx: &mut Ctx, name: &str, sink: u32) -> PlayerId {
    let id = ctx.generate_player_id();
    let r = ctx.handle_message(
        EventMessage {
            player_id: id,
            event: NetworkEvent::General(GeneralEvent::Connected(name.to_string())),
        },
        Some(sink),
    );
    assert_eq!(r.ok(), Some(Delivery::Queued));
    id
}

fn send(ctx: &mut Ctx, id: PlayerId, bytes: &[u8]) -> Delivery {
    let msg = EventMessage { player_id: id, event: decode_message(bytes) };
    match ctx.handle_message(msg, None) {
        Ok(d) => d,
        Err(_) => panic!("an action or invalid message must never wait"),
    }
}

fn disconnect(ctx: &mut Ctx, id: PlayerId) {
    let msg = EventMessage { player_id: id, event: NetworkEvent::General(GeneralEvent::Disconnected) };
    assert_eq!(ctx.handle_message(msg, None).ok(), Some(Delivery::Queued));
}

#[test]
fn connect_appears_on_general_queue() {
    let mut ctx = Ctx::new();
    let id = connect(&mut ctx, "Alice", 1);
    assert!(ctx.is_connected(id));
    let general = ctx.iter_common();
    assert_eq!(
        general,
        vec![EventMessage {
            player_id: id,
            event: NetworkEvent::General(GeneralEvent::Connected("Alice".to_string())),
        }]
    );
    assert!(ctx.iter_common().is_empty());
}

#[test]
fn one_action_per_interval_oldest_first() {
    let mut ctx = Ctx::new();
    let id = connect(&mut ctx, "Alice", 1);
    assert_eq!(send(&mut ctx, id, &[0, 2]), Delivery::Queued);
    assert_eq!(send(&mut ctx, id, &[0, 3]), Delivery::Queued);
    let mut timer = EventTimer::default();
    assert_eq!(ctx.iter_action(40_000, &mut timer), None);
    assert_eq!(
        ctx.iter_action(60_000, &mut timer),
        Some(vec![(id, ActionEvent::RightPressed)])
    );
    assert_eq!(ctx.iter_action(99_999, &mut timer), None);
    assert_eq!(
        ctx.iter_action(1, &mut timer),
        Some(vec![(id, ActionEvent::RightReleased)])
    );
    assert_eq!(
        ctx.iter_action(100_000, &mut timer),
        Some(vec![(id, ActionEvent::NoAction)])
    );
}

#[test]
fn every_connected_player_gets_one_pair() {
    let mut ctx = Ctx::new();
    let a = connect(&mut ctx, "A", 1);
    let b = connect(&mut ctx, "B", 2);
    send(&mut ctx, b, &[0, 8]);
    send(&mut ctx, b, &[0, 9]);
    send(&mut ctx, a, &[0, 4]);
    assert_eq!(
        ctx.next_actions(),
        vec![(a, ActionEvent::DownPressed), (b, ActionEvent::APressed)]
    );
    assert_eq!(
        ctx.next_actions(),
        vec![(a, ActionEvent::NoAction), (b, ActionEvent::AReleased)]
    );
}

#[test]
fn full_action_queue_drops_newest() {
    let mut ctx = Ctx::new();
    let id = connect(&mut ctx, "A", 1);
    for _ in 0..EVENT_CHANNEL_BUF_SIZE {
        assert_eq!(send(&mut ctx, id, &[0, 0]), Delivery::Queued);
    }
    assert_eq!(send(&mut ctx, id, &[0, 1]), Delivery::Dropped);
    for _ in 0..EVENT_CHANNEL_BUF_SIZE {
        assert_eq!(ctx.next_actions(), vec![(id, ActionEvent::UpPressed)]);
    }
    assert_eq!(ctx.next_actions(), vec![(id, ActionEvent::NoAction)]);
}

#[test]
fn disconnect_removes_player_from_snapshot() {
    let mut ctx = Ctx::new();
    let a = connect(&mut ctx, "A", 1);
    let b = connect(&mut ctx, "B", 2);
    send(&mut ctx, a, &[0, 6]);
    disconnect(&mut ctx, a);
    assert!(!ctx.is_connected(a));
    assert!(ctx.is_connected(b));
    assert_eq!(ctx.connected_players(), vec![b]);
    let mut timer = EventTimer::default();
    assert_eq!(
        ctx.iter_action(100_000, &mut timer),
        Some(vec![(b, ActionEvent::NoAction)])
    );
    let general = ctx.iter_common();
    assert_eq!(general.len(), 3);
    assert_eq!(
        general[2],
        EventMessage { player_id: a, event: NetworkEvent::General(GeneralEvent::Disconnected) }
    );
}

#[test]
fn invalid_message_reported_and_session_goes_on() {
    let mut ctx = Ctx::new();
    let id = connect(&mut ctx, "A", 1);
    ctx.iter_common();
    assert_eq!(send(&mut ctx, id, &[5]), Delivery::Queued);
    assert_eq!(
        ctx.iter_common(),
        vec![EventMessage { player_id: id, event: NetworkEvent::Invalid(vec![5]) }]
    );
    assert!(ctx.is_connected(id));
    assert_eq!(send(&mut ctx, id, &[0, 10]), Delivery::Queued);
    assert_eq!(ctx.next_actions(), vec![(id, ActionEvent::BPressed)]);
}

#[test]
fn full_general_queue_drops_invalid_and_holds_back_lifecycle() {
    let mut ctx = Ctx::new();
    let id = connect(&mut ctx, "A", 1);
    for _ in 1..EVENT_CHANNEL_BUF_SIZE {
        assert_eq!(send(&mut ctx, id, &[9]), Delivery::Queued);
    }
    assert_eq!(send(&mut ctx, id, &[9]), Delivery::Dropped);
    assert_eq!(send(&mut ctx, id, &[0, 0]), Delivery::Queued);
    let other = ctx.generate_player_id();
    let msg = EventMessage {
        player_id: other,
        event: NetworkEvent::General(GeneralEvent::Connected("B".to_string())),
    };
    let back = ctx.handle_message(msg.clone(), Some(7));
    assert_eq!(back.err(), Some((msg.clone(), Some(7))));
    assert!(!ctx.is_connected(other));
    assert_eq!(ctx.iter_common().len(), EVENT_CHANNEL_BUF_SIZE);
    assert_eq!(ctx.handle_message(msg, Some(7)).ok(), Some(Delivery::Queued));
    assert!(ctx.is_connected(other));
}

#[test]
fn reconnect_of_same_id_starts_with_empty_queue() {
    let mut ctx = Ctx::new();
    let id = connect(&mut ctx, "A", 1);
    send(&mut ctx, id, &[0, 2]);
    let r = ctx.handle_message(
        EventMessage {
            player_id: id,
            event: NetworkEvent::General(GeneralEvent::Connected("A".to_string())),
        },
        Some(2),
    );
    assert_eq!(r.ok(), Some(Delivery::Queued));
    assert_eq!(ctx.connected_players(), vec![id]);
    assert_eq!(ctx.next_actions(), vec![(id, ActionEvent::NoAction)]);
}

#[test]
fn lifecycle_connected_exactly_between_connect_and_disconnect() {
    let mut ctx = Ctx::new();
    let id = ctx.generate_player_id();
    assert!(!ctx.is_connected(id));
    let r = ctx.handle_message(
        EventMessage {
            player_id: id,
            event: NetworkEvent::General(GeneralEvent::Connected("A".to_string())),
        },
        Some(3),
    );
    assert!(r.is_ok());
    assert!(ctx.is_connected(id));
    send(&mut ctx, id, &[0, 0]);
    assert!(ctx.is_connected(id));
    disconnect(&mut ctx, id);
    assert!(!ctx.is_connected(id));
    disconnect(&mut ctx, id);
    assert!(!ctx.is_connected(id));
    assert!(ctx.connected_players().is_empty());
}

#[test]
fn ids_come_from_the_context_generator() {
    let mut ctx = Ctx::new();
    assert_eq!(ctx.next_player_id(), 1);
    assert_eq!(ctx.generate_player_id(), PlayerId(1));
    assert_eq!(ctx.generate_player_id(), PlayerId(2));
    assert_eq!(ctx.next_player_id(), 3);
}

#[test]
fn timer_fires_once_per_interval_and_carries_over() {
    let mut timer = EventTimer::default();
    assert!(!timer.tick(99_999));
    assert!(timer.tick(1));
    assert!(!timer.tick(50_000));
    assert!(timer.tick(130_000));
    assert!(!timer.tick(19_999));
    assert!(timer.tick(1));
    let mut short = EventTimer::with_period(10);
    assert!(short.tick(25));
    assert!(!short.tick(4));
    assert!(short.tick(1));
}
