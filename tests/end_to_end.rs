use skitspel::{
    ActionEvent, ClientSession, ClientStep, EventMessage, EventTimer, GeneralEvent, NetworkContext,
    NetworkEvent, PlayerId,
};

/// The server side of one client: its handler decisions fed into the
/// dispatcher, with the sink standing in for the outbound half.
struct Wire {
    ctx: NetworkContext<u32>,
    timer: EventTimer,
}

impl Wire {
    fn new() -> Self {
        Wire { ctx: NetworkContext::new(), timer: EventTimer::default() }
    }

    fn open(&mut self) -> ClientSession {
        ClientSession::new(self.ctx.generate_player_id())
    }

    fn deliver(&mut self, step: ClientStep) {
        let (msg, sink) = match step {
            ClientStep::Register(msg) => (msg, Some(1)),
            ClientStep::Forward(msg) | ClientStep::Deregister(msg) => (msg, None),
            ClientStep::Abort | ClientStep::Ignore => return,
        };
        assert!(self.ctx.handle_message(msg, sink).is_ok());
    }

    fn receive(&mut self, session: &mut ClientSession, bytes: &[u8]) {
        let step = session.on_message(bytes);
        self.deliver(step);
    }

    fn close(&mut self, session: &mut ClientSession) {
        let step = session.on_end();
        self.deliver(step);
    }

    fn tick_interval(&mut self) -> Option<Vec<(PlayerId, ActionEvent)>> {
        self.ctx.iter_action(100_000, &mut self.timer)
    }
}

fn connect_bytes(name: &str) -> Vec<u8> {
    let mut data = vec![1u8];
    data.extend_from_slice(name.as_bytes());
    data
}

#[test]
fn scenario_alice_connects() {
    let mut wire = Wire::new();
    let mut alice = wire.open();
    wire.receive(&mut alice, &connect_bytes("Alice"));
    let general = wire.ctx.iter_common();
    assert_eq!(
        general,
        vec![EventMessage {
            player_id: alice.player_id(),
            event: NetworkEvent::General(GeneralEvent::Connected("Alice".to_string())),
        }]
    );
}

#[test]
fn scenario_press_then_release_within_one_interval() {
    let mut wire = Wire::new();
    let mut p = wire.open();
    wire.receive(&mut p, &connect_bytes("P"));
    wire.receive(&mut p, &[0, 2]);
    wire.receive(&mut p, &[0, 3]);
    let id = p.player_id();
    assert_eq!(wire.tick_interval(), Some(vec![(id, ActionEvent::RightPressed)]));
    assert_eq!(wire.tick_interval(), Some(vec![(id, ActionEvent::RightReleased)]));
}

#[test]
fn scenario_abrupt_close_leaves_snapshot() {
    let mut wire = Wire::new();
    let mut a = wire.open();
    let mut b = wire.open();
    wire.receive(&mut a, &connect_bytes("A"));
    wire.receive(&mut b, &connect_bytes("B"));
    wire.close(&mut a);
    let general = wire.ctx.iter_common();
    assert_eq!(
        general.last(),
        Some(&EventMessage {
            player_id: a.player_id(),
            event: NetworkEvent::General(GeneralEvent::Disconnected),
        })
    );
    assert_eq!(wire.tick_interval(), Some(vec![(b.player_id(), ActionEvent::NoAction)]));
    assert_eq!(wire.tick_interval(), Some(vec![(b.player_id(), ActionEvent::NoAction)]));
}

#[test]
fn scenario_unknown_tag_reported_and_connection_stays() {
    let mut wire = Wire::new();
    let mut p = wire.open();
    wire.receive(&mut p, &connect_bytes("P"));
    wire.ctx.iter_common();
    wire.receive(&mut p, &[5]);
    assert_eq!(
        wire.ctx.iter_common(),
        vec![EventMessage { player_id: p.player_id(), event: NetworkEvent::Invalid(vec![5]) }]
    );
    wire.receive(&mut p, &[0, 8]);
    assert_eq!(wire.tick_interval(), Some(vec![(p.player_id(), ActionEvent::APressed)]));
}
