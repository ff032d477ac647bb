//! Decisions of the handler of one client connection.
//!
//! The handler first waits for a connect message, then registers the player
//! and forwards every further message, and deregisters the player once the
//! stream ends, whether it was closed or failed. Reading from the socket and
//! sending into the ingress queue happen around these decisions.
use vstd::prelude::*;
use crate::event::{decode_message, decoded, EventMessage, EventView, GeneralEvent, MessageView, NetworkEvent};
use crate::player::PlayerId;

verus! {

/// Where a connection stands.
#[derive(Debug, Clone, Copy, PartialEq, Eq, Structural)]
pub enum ClientPhase {
    /// The upgrade succeeded; the first message must be a connect.
    AwaitingConnect,
    /// The player is registered; messages are forwarded.
    Serving,
    /// The handler is done.
    Closed,
}

/// What the handler does next.
#[derive(Debug, Clone, PartialEq, Eq)]
pub enum ClientStep {
    /// Give up on the connection without emitting anything.
    Abort,
    /// Send this connect event, together with the outbound half of the
    /// connection, into the ingress queue.
    Register(EventMessage),
    /// Send this event into the ingress queue.
    Forward(EventMessage),
    /// Send this disconnect event into the ingress queue; the handler is done.
    Deregister(EventMessage),
    /// Nothing to do: the handler was already done.
    Ignore,
}

/// The mathematical value of a `ClientStep`.
pub enum StepView {
    Abort,
    Register(MessageView),
    Forward(MessageView),
    Deregister(MessageView),
    Ignore,
}

impl View for ClientStep {
    type V = StepView;

    open spec fn view(&self) -> StepView {
        match self {
            ClientStep::Abort => StepView::Abort,
            ClientStep::Register(m) => StepView::Register(m@),
            ClientStep::Forward(m) => StepView::Forward(m@),
            ClientStep::Deregister(m) => StepView::Deregister(m@),
            ClientStep::Ignore => StepView::Ignore,
        }
    }
}

/// The state of the handler of one connection.
#[derive(Debug)]
pub struct ClientSession {
    player_id: PlayerId,
    phase: ClientPhase,
}

/// Phase and step after message `data` arrived in phase `phase`.
pub open spec fn on_message_spec(phase: ClientPhase, id: PlayerId, data: Seq<u8>) -> (ClientPhase, StepView) {
    match phase {
        ClientPhase::AwaitingConnect => match decoded(data) {
            EventView::Connected(name) => (
                ClientPhase::Serving,
                StepView::Register(MessageView { player_id: id, event: EventView::Connected(name) }),
            ),
            _ => (ClientPhase::Closed, StepView::Abort),
        },
        ClientPhase::Serving => (
            ClientPhase::Serving,
            StepView::Forward(MessageView { player_id: id, event: decoded(data) }),
        ),
        ClientPhase::Closed => (ClientPhase::Closed, StepView::Ignore),
    }
}

/// Phase and step after the stream ended (closed or failed) in `phase`.
pub open spec fn on_end_spec(phase: ClientPhase, id: PlayerId) -> (ClientPhase, StepView) {
    match phase {
        ClientPhase::AwaitingConnect => (ClientPhase::Closed, StepView::Abort),
        ClientPhase::Serving => (
            ClientPhase::Closed,
            StepView::Deregister(MessageView { player_id: id, event: EventView::Disconnected }),
        ),
        ClientPhase::Closed => (ClientPhase::Closed, StepView::Ignore),
    }
}

impl ClientSession {
    pub closed spec fn id(&self) -> PlayerId {
        self.player_id
    }

    pub closed spec fn phase_of(&self) -> ClientPhase {
        self.phase
    }

    /// The handler of a connection whose upgrade succeeded, for player `player_id`.
    pub fn new(player_id: PlayerId) -> (r: Self)
        ensures
            r.id() == player_id,
            r.phase_of() == ClientPhase::AwaitingConnect,
    {
        ClientSession { player_id, phase: ClientPhase::AwaitingConnect }
    }

    pub fn player_id(&self) -> (r: PlayerId)
        ensures
            r == self.id(),
    {
        self.player_id
    }

    pub fn phase(&self) -> (r: ClientPhase)
        ensures
            r == self.phase_of(),
    {
        self.phase
    }

    /// A message arrived: the first must be a connect, which registers the
    /// player; anything else first aborts. Once registered, every message
    /// is decoded and forwarded, malformed ones as `Invalid`.
    pub fn on_message(&mut self, data: &[u8]) -> (r: ClientStep)
        ensures
            final(self).id() == old(self).id(),
            (final(self).phase_of(), r@) == on_message_spec(old(self).phase_of(), old(self).id(), data@),
    {
        match self.phase {
            ClientPhase::AwaitingConnect => match decode_message(data) {
                NetworkEvent::General(GeneralEvent::Connected(name)) => {
                    self.phase = ClientPhase::Serving;
                    ClientStep::Register(
                        EventMessage {
                            player_id: self.player_id,
                            event: NetworkEvent::General(GeneralEvent::Connected(name)),
                        },
                    )
                },
                _ => {
                    self.phase = ClientPhase::Closed;
                    ClientStep::Abort
                },
            },
            ClientPhase::Serving => ClientStep::Forward(
                EventMessage { player_id: self.player_id, event: decode_message(data) },
            ),
            ClientPhase::Closed => ClientStep::Ignore,
        }
    }

    /// The stream ended, closed or failed. A registered player is always
    /// deregistered; before that, the handler just gives up.
    pub fn on_end(&mut self) -> (r: ClientStep)
        ensures
            final(self).id() == old(self).id(),
            (final(self).phase_of(), r@) == on_end_spec(old(self).phase_of(), old(self).id()),
    {
        match self.phase {
            ClientPhase::AwaitingConnect => {
                self.phase = ClientPhase::Closed;
                ClientStep::Abort
            },
            ClientPhase::Serving => {
                self.phase = ClientPhase::Closed;
                ClientStep::Deregister(
                    EventMessage {
                        player_id: self.player_id,
                        event: NetworkEvent::General(GeneralEvent::Disconnected),
                    },
                )
            },
            ClientPhase::Closed => ClientStep::Ignore,
        }
    }
}

/// Phase and step after one input: a message, or `None` for the end of the
/// stream.
pub open spec fn on_input_spec(phase: ClientPhase, id: PlayerId, input: Option<Seq<u8>>) -> (
    ClientPhase,
    StepView,
) {
    match input {
        Some(data) => on_message_spec(phase, id, data),
        None => on_end_spec(phase, id),
    }
}

/// Phase and steps of a handler of player `id` that received `inputs`.
pub open spec fn run_spec(id: PlayerId, inputs: Seq<Option<Seq<u8>>>) -> (ClientPhase, Seq<StepView>)
    decreases inputs.len(),
{
    if inputs.len() == 0 {
        (ClientPhase::AwaitingConnect, Seq::empty())
    } else {
        let (phase, steps) = run_spec(id, inputs.drop_last());
        let (next, step) = on_input_spec(phase, id, inputs.last());
        (next, steps.push(step))
    }
}

/// How many of `steps` register the player.
pub open spec fn registrations(steps: Seq<StepView>) -> nat
    decreases steps.len(),
{
    if steps.len() == 0 {
        0
    } else {
        registrations(steps.drop_last()) + if steps.last() is Register {
            1nat
        } else {
            0nat
        }
    }
}

/// How many of `steps` deregister the player.
pub open spec fn deregistrations(steps: Seq<StepView>) -> nat
    decreases steps.len(),
{
    if steps.len() == 0 {
        0
    } else {
        deregistrations(steps.drop_last()) + if steps.last() is Deregister {
            1nat
        } else {
            0nat
        }
    }
}

/// Whatever a client sends, its handler registers the player at most once,
/// and once the stream has ended (closed or failed) it has deregistered the
/// player exactly as many times as it registered it; while it serves, the
/// player is registered and not yet deregistered.
pub proof fn lemma_registered_players_are_deregistered(id: PlayerId, inputs: Seq<Option<Seq<u8>>>)
    ensures
        ({
            let (phase, steps) = run_spec(id, inputs);
            &&& registrations(steps) <= 1
            &&& phase == ClientPhase::AwaitingConnect ==> registrations(steps) == 0
                && deregistrations(steps) == 0
            &&& phase == ClientPhase::Serving ==> registrations(steps) == 1 && deregistrations(steps)
                == 0
            &&& phase == ClientPhase::Closed ==> deregistrations(steps) == registrations(steps)
            &&& inputs.len() > 0 && inputs.last() is None ==> phase == ClientPhase::Closed
        }),
    decreases inputs.len(),
{
    if inputs.len() > 0 {
        lemma_registered_players_are_deregistered(id, inputs.drop_last());
        let (phase, steps) = run_spec(id, inputs.drop_last());
        let (next, step) = on_input_spec(phase, id, inputs.last());
        let all = steps.push(step);
        assert(all.drop_last() =~= steps);
    }
}

} // verus!
