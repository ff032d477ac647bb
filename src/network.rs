//! The session context: per-player action queues, their outbound sinks, and
//! the general queue of lifecycle and diagnostic events.
//!
//! One dispatcher feeds the context with every client event, in arrival
//! order; the simulation loop drains it once per tick. Both go through the
//! same lock, so every operation here is a plain sequential step.
use vstd::prelude::*;
use crate::action::ActionEvent;
use crate::event::{EventMessage, EventView, GeneralEvent, MessageView, NetworkEvent};
use crate::player::{PlayerId, PlayerIdGenerator};
use crate::timer::EventTimer;

verus! {

/// Capacity of the general queue and of each player's action queue.
pub const EVENT_CHANNEL_BUF_SIZE: usize = 20;

/// What became of an event that the dispatcher accepted.
#[derive(Debug, Clone, Copy, PartialEq, Eq, Structural)]
pub enum Delivery {
    /// It was put on its queue.
    Queued,
    /// Its queue was full and it was discarded.
    Dropped,
}

/// The action queue and the outbound sink of one connected player.
struct ClientChannel<S> {
    id: PlayerId,
    actions: Vec<ActionEvent>,
    sink: S,
}

/// The mathematical value of one player's entry.
pub struct ChannelView<S> {
    pub id: PlayerId,
    pub actions: Seq<ActionEvent>,
    pub sink: S,
}

/// The mathematical value of the session context.
pub struct SessionView<S> {
    /// Lifecycle and diagnostic events, oldest first.
    pub general: Seq<MessageView>,
    /// One entry per connected player, in the order they connected.
    pub channels: Seq<ChannelView<S>>,
    /// The id that the next generated player id takes.
    pub next_id: u64,
}

/// Shared state between the dispatcher and the simulation loop. `S` is the
/// type of the outbound half of a client connection.
pub struct NetworkContext<S> {
    common_client_channel: Vec<EventMessage>,
    client_channels: Vec<ClientChannel<S>>,
    id_generator: PlayerIdGenerator,
}

pub open spec fn has_player<S>(chs: Seq<ChannelView<S>>, id: PlayerId) -> bool {
    exists|i: int| 0 <= i < chs.len() && chs[i].id == id
}

/// The position of the entry of `id`; meaningful where `has_player` holds.
pub open spec fn slot_of<S>(chs: Seq<ChannelView<S>>, id: PlayerId) -> int {
    choose|i: int| 0 <= i < chs.len() && chs[i].id == id
}

pub open spec fn unique_ids<S>(chs: Seq<ChannelView<S>>) -> bool {
    forall|i: int, j: int| 0 <= i < j < chs.len() ==> chs[i].id != chs[j].id
}

/// Each player has at most one entry, and no queue is over capacity.
pub open spec fn session_wf<S>(s: SessionView<S>) -> bool {
    &&& s.general.len() <= EVENT_CHANNEL_BUF_SIZE
    &&& unique_ids(s.channels)
    &&& forall|i: int|
        0 <= i < s.channels.len() ==> #[trigger] s.channels[i].actions.len()
            <= EVENT_CHANNEL_BUF_SIZE
}

pub open spec fn is_lifecycle(e: EventView) -> bool {
    e is Connected || e is Disconnected
}

/// A connect or disconnect must reach the general queue; while that queue is
/// full the event waits.
pub open spec fn must_wait<S>(s: SessionView<S>, m: MessageView) -> bool {
    is_lifecycle(m.event) && s.general.len() >= EVENT_CHANNEL_BUF_SIZE
}

/// The entries after `id` connected with outbound half `sink`: a fresh,
/// empty action queue, in place of an earlier entry of `id` if there is one.
pub open spec fn registered<S>(chs: Seq<ChannelView<S>>, id: PlayerId, sink: S) -> Seq<ChannelView<S>> {
    let fresh = ChannelView { id, actions: Seq::empty(), sink };
    if has_player(chs, id) {
        chs.update(slot_of(chs, id), fresh)
    } else {
        chs.push(fresh)
    }
}

/// The entries after action `a` of `id` was offered: appended to its queue
/// when there is room, discarded otherwise.
pub open spec fn action_routed<S>(chs: Seq<ChannelView<S>>, id: PlayerId, a: ActionEvent) -> Seq<ChannelView<S>> {
    let i = slot_of(chs, id);
    if has_player(chs, id) && chs[i].actions.len() < EVENT_CHANNEL_BUF_SIZE {
        chs.update(i, ChannelView { actions: chs[i].actions.push(a), ..chs[i] })
    } else {
        chs
    }
}

/// The entries after `id` disconnected: its entry is gone.
pub open spec fn unregistered<S>(chs: Seq<ChannelView<S>>, id: PlayerId) -> Seq<ChannelView<S>> {
    if has_player(chs, id) {
        chs.remove(slot_of(chs, id))
    } else {
        chs
    }
}

/// The session after the dispatcher handled `m` (where it need not wait).
/// `sink` is the outbound half that a connect event hands over.
pub open spec fn dispatched<S>(s: SessionView<S>, m: MessageView, sink: Option<S>) -> SessionView<S> {
    match m.event {
        EventView::Connected(_) => SessionView {
            general: s.general.push(m),
            channels: registered(s.channels, m.player_id, sink->Some_0),
            ..s
        },
        EventView::Action(a) => SessionView {
            channels: action_routed(s.channels, m.player_id, a),
            ..s
        },
        EventView::Invalid(_) => SessionView {
            general: if s.general.len() < EVENT_CHANNEL_BUF_SIZE {
                s.general.push(m)
            } else {
                s.general
            },
            ..s
        },
        EventView::Disconnected => SessionView {
            general: s.general.push(m),
            channels: unregistered(s.channels, m.player_id),
            ..s
        },
    }
}

/// Whether the dispatcher queues or drops `m` (where it need not wait).
pub open spec fn delivery_of<S>(s: SessionView<S>, m: MessageView) -> Delivery {
    match m.event {
        EventView::Action(_) => if s.channels[slot_of(s.channels, m.player_id)].actions.len()
            < EVENT_CHANNEL_BUF_SIZE {
            Delivery::Queued
        } else {
            Delivery::Dropped
        },
        EventView::Invalid(_) => if s.general.len() < EVENT_CHANNEL_BUF_SIZE {
            Delivery::Queued
        } else {
            Delivery::Dropped
        },
        _ => Delivery::Queued,
    }
}

/// The action read from an entry: the oldest queued one, or `NoAction`.
pub open spec fn front_action<S>(c: ChannelView<S>) -> ActionEvent {
    if c.actions.len() > 0 {
        c.actions[0]
    } else {
        ActionEvent::NoAction
    }
}

/// An entry after one action was read from it.
pub open spec fn popped<S>(c: ChannelView<S>) -> ChannelView<S> {
    ChannelView {
        actions: if c.actions.len() > 0 {
            c.actions.drop_first()
        } else {
            c.actions
        },
        ..c
    }
}

/// What one reading of actions yields: one pair per connected player, in
/// entry order.
pub open spec fn actions_read<S>(s: SessionView<S>) -> Seq<(PlayerId, ActionEvent)> {
    s.channels.map_values(|c: ChannelView<S>| (c.id, front_action(c)))
}

/// The session after one reading of actions.
pub open spec fn after_read<S>(s: SessionView<S>) -> SessionView<S> {
    SessionView { channels: s.channels.map_values(|c: ChannelView<S>| popped(c)), ..s }
}

impl<S> View for NetworkContext<S> {
    type V = SessionView<S>;

    closed spec fn view(&self) -> SessionView<S> {
        SessionView {
            general: self.common_client_channel@.map_values(|m: EventMessage| m@),
            channels: self.client_channels@.map_values(
                |c: ClientChannel<S>| ChannelView { id: c.id, actions: c.actions@, sink: c.sink },
            ),
            next_id: self.id_generator.next_id(),
        }
    }
}

impl<S> NetworkContext<S> {
    pub open spec fn wf(&self) -> bool {
        session_wf(self@)
    }

    /// An empty context whose first player id is 1.
    pub fn new() -> (r: Self)
        ensures
            r.wf(),
            r@.general.len() == 0,
            r@.channels.len() == 0,
            r@.next_id == 1,
    {
        let r = NetworkContext {
            common_client_channel: Vec::new(),
            client_channels: Vec::new(),
            id_generator: PlayerIdGenerator::default(),
        };
        assert(r@.general =~= Seq::empty());
        assert(r@.channels =~= Seq::empty());
        r
    }

    /// A fresh player id, from the context's generator.
    pub fn generate_player_id(&mut self) -> (r: PlayerId)
        requires
            old(self)@.next_id < u64::MAX,
        ensures
            r.0 == old(self)@.next_id,
            final(self)@ == (SessionView { next_id: (old(self)@.next_id + 1) as u64, ..old(self)@ }),
    {
        let r = self.id_generator.generate();
        assert(self@.general =~= old(self)@.general);
        assert(self@.channels =~= old(self)@.channels);
        r
    }

    /// The id that the next generated player id takes.
    pub fn next_player_id(&self) -> (r: u64)
        ensures
            r == self@.next_id,
    {
        self.id_generator.peek()
    }

    fn find_slot(&self, id: PlayerId) -> (r: Option<usize>)
        requires
            self.wf(),
        ensures
            match r {
                Some(i) => {
                    &&& i < self@.channels.len()
                    &&& self@.channels[i as int].id == id
                    &&& has_player(self@.channels, id)
                    &&& slot_of(self@.channels, id) == i
                },
                None => !has_player(self@.channels, id),
            },
    {
        let mut i: usize = 0;
        while i < self.client_channels.len()
            invariant
                self.wf(),
                i <= self.client_channels@.len(),
                self@.channels.len() == self.client_channels@.len(),
                forall|j: int| 0 <= j < i ==> self@.channels[j].id != id,
            decreases self.client_channels@.len() - i,
        {
            if self.client_channels[i].id == id {
                proof {
                    assert(self@.channels[i as int].id == id);
                    let k = slot_of(self@.channels, id);
                    assert(self@.channels[k].id == id);
                    assert(k == i);
                }
                return Some(i);
            }
            i = i + 1;
        }
        None
    }

    /// Whether `id` is currently connected.
    pub fn is_connected(&self, id: PlayerId) -> (r: bool)
        requires
            self.wf(),
        ensures
            r == has_player(self@.channels, id),
    {
        self.find_slot(id).is_some()
    }

    /// The connected players, in the order they connected.
    pub fn connected_players(&self) -> (r: Vec<PlayerId>)
        ensures
            r@ == self@.channels.map_values(|c: ChannelView<S>| c.id),
    {
        let mut r: Vec<PlayerId> = Vec::new();
        let mut i: usize = 0;
        while i < self.client_channels.len()
            invariant
                i <= self.client_channels@.len(),
                self@.channels.len() == self.client_channels@.len(),
                r@ == self@.channels.subrange(0, i as int).map_values(|c: ChannelView<S>| c.id),
            decreases self.client_channels@.len() - i,
        {
            r.push(self.client_channels[i].id);
            i = i + 1;
            assert(r@ =~= self@.channels.subrange(0, i as int).map_values(|c: ChannelView<S>| c.id));
        }
        assert(self@.channels.subrange(0, i as int) =~= self@.channels);
        r
    }
}


impl<S> NetworkContext<S> {
    /// One step of the dispatcher: routes one event from the ingress queue.
    ///
    /// A connect creates the player's empty action queue and stores its
    /// outbound half `sink`; a disconnect removes both. An action is offered
    /// to its player's queue and dropped when that is full; an invalid
    /// message is offered to the general queue and dropped when that is
    /// full. Connects and disconnects always go to the general queue: while
    /// it is full, nothing changes and the event and sink come back in `Err`
    /// to be offered again later.
    pub fn handle_message(&mut self, msg: EventMessage, sink: Option<S>) -> (r: Result<
        Delivery,
        (EventMessage, Option<S>),
    >)
        requires
            old(self).wf(),
            msg@.event is Connected ==> sink is Some,
            msg@.event is Action ==> has_player(old(self)@.channels, msg.player_id),
        ensures
            final(self).wf(),
            must_wait(old(self)@, msg@) ==> r == Err::<Delivery, (EventMessage, Option<S>)>(
                (msg, sink),
            ) && final(self)@ == old(self)@,
            !must_wait(old(self)@, msg@) ==> r == Ok::<Delivery, (EventMessage, Option<S>)>(
                delivery_of(old(self)@, msg@),
            ) && final(self)@ == dispatched(old(self)@, msg@, sink),
    {
        let ghost before = self@;
        let id = msg.player_id;
        match &msg.event {
            NetworkEvent::General(GeneralEvent::Connected(_)) => {
                if self.common_client_channel.len() >= EVENT_CHANNEL_BUF_SIZE {
                    return Err((msg, sink));
                }
                let fresh = ClientChannel { id, actions: Vec::new(), sink: sink.unwrap() };
                let ghost fresh_view = ChannelView { id, actions: Seq::<ActionEvent>::empty(), sink: fresh.sink };
                assert(fresh.actions@ =~= Seq::<ActionEvent>::empty());
                match self.find_slot(id) {
                    Some(i) => {
                        self.client_channels.set(i, fresh);
                        assert(self@.channels =~= before.channels.update(i as int, fresh_view));
                    },
                    None => {
                        self.client_channels.push(fresh);
                        assert(self@.channels =~= before.channels.push(fresh_view));
                    },
                }
                self.common_client_channel.push(msg);
                assert(self@.general =~= before.general.push(msg@));
                Ok(Delivery::Queued)
            },
            NetworkEvent::General(GeneralEvent::Disconnected) => {
                if self.common_client_channel.len() >= EVENT_CHANNEL_BUF_SIZE {
                    return Err((msg, sink));
                }
                match self.find_slot(id) {
                    Some(i) => {
                        self.client_channels.remove(i);
                        assert(self@.channels =~= before.channels.remove(i as int));
                    },
                    None => {},
                }
                self.common_client_channel.push(msg);
                assert(self@.general =~= before.general.push(msg@));
                Ok(Delivery::Queued)
            },
            NetworkEvent::Action(a) => {
                let a = *a;
                match self.find_slot(id) {
                    Some(i) => {
                        if self.client_channels[i].actions.len() < EVENT_CHANNEL_BUF_SIZE {
                            self.client_channels[i].actions.push(a);
                            assert(self@.channels =~= before.channels.update(
                                i as int,
                                ChannelView { actions: before.channels[i as int].actions.push(a), ..before.channels[i as int] },
                            ));
                            Ok(Delivery::Queued)
                        } else {
                            assert(self@.channels =~= before.channels);
                            Ok(Delivery::Dropped)
                        }
                    },
                    None => Ok(Delivery::Dropped),
                }
            },
            NetworkEvent::Invalid(_) => {
                if self.common_client_channel.len() < EVENT_CHANNEL_BUF_SIZE {
                    self.common_client_channel.push(msg);
                    assert(self@.general =~= before.general.push(msg@));
                    Ok(Delivery::Queued)
                } else {
                    Ok(Delivery::Dropped)
                }
            },
        }
    }
}

impl<S> NetworkContext<S> {
    /// Drains the general queue: every queued lifecycle or diagnostic event,
    /// oldest first. Never waits.
    pub fn iter_common(&mut self) -> (r: Vec<EventMessage>)
        requires
            old(self).wf(),
        ensures
            final(self).wf(),
            r@.map_values(|m: EventMessage| m@) == old(self)@.general,
            final(self)@ == (SessionView { general: Seq::empty(), ..old(self)@ }),
    {
        let ghost before = self@;
        let mut drained: Vec<EventMessage> = Vec::new();
        drained.append(&mut self.common_client_channel);
        assert(drained@.map_values(|m: EventMessage| m@) =~= before.general);
        assert(self@.general =~= Seq::<MessageView>::empty());
        assert(self@.channels =~= before.channels);
        drained
    }

    /// Reads one action per connected player, in entry order: the oldest
    /// queued one, taken off its queue, or `NoAction` where none is queued.
    pub fn next_actions(&mut self) -> (r: Vec<(PlayerId, ActionEvent)>)
        requires
            old(self).wf(),
        ensures
            final(self).wf(),
            r@ == actions_read(old(self)@),
            final(self)@ == after_read(old(self)@),
    {
        let ghost before = self@;
        let mut r: Vec<(PlayerId, ActionEvent)> = Vec::new();
        let n = self.client_channels.len();
        let mut i: usize = 0;
        while i < n
            invariant
                session_wf(before),
                n == before.channels.len(),
                n == self.client_channels@.len(),
                i <= n,
                self@.general == before.general,
                self@.next_id == before.next_id,
                r@.len() == i,
                forall|k: int| 0 <= k < i ==> r@[k] == (before.channels[k].id, front_action(before.channels[k])),
                forall|k: int| 0 <= k < i ==> self@.channels[k] == popped(before.channels[k]),
                forall|k: int| i <= k < n ==> self@.channels[k] == before.channels[k],
            decreases n - i,
        {
            let id = self.client_channels[i].id;
            let ghost mid = self.client_channels@;
            let ghost mid_view = self@;
            let e = if self.client_channels[i].actions.len() > 0 {
                self.client_channels[i].actions.remove(0)
            } else {
                ActionEvent::NoAction
            };
            proof {
                let c = before.channels[i as int];
                if c.actions.len() > 0 {
                    assert(self@.channels[i as int].actions =~= c.actions.drop_first());
                } else {
                    assert(self@.channels[i as int].actions =~= c.actions);
                }
                assert(self@.channels[i as int] == popped(c));
                assert(self.client_channels@.len() == mid.len());
                assert forall|k: int| 0 <= k < n && k != i implies self@.channels[k] == mid_view.channels[k] by {
                    assert(self.client_channels@[k] == mid[k]);
                }
                assert forall|k: int| 0 <= k < i implies self@.channels[k] == popped(before.channels[k]) by {
                    assert(mid_view.channels[k] == popped(before.channels[k]));
                }
            }
            r.push((id, e));
            i = i + 1;
        }
        assert(r@ =~= actions_read(before));
        assert(self@.channels =~= after_read(before).channels);
        r
    }

    /// Lets `delta_micros` pass on the tick gate `event_timer`. When an
    /// interval ended, reads one action per connected player as
    /// `next_actions` does; otherwise yields nothing and changes nothing.
    pub fn iter_action(&mut self, delta_micros: u64, event_timer: &mut EventTimer) -> (r: Option<
        Vec<(PlayerId, ActionEvent)>,
    >)
        requires
            old(self).wf(),
            old(event_timer).wf(),
        ensures
            final(self).wf(),
            final(event_timer).wf(),
            final(event_timer).period() == old(event_timer).period(),
            final(event_timer).elapsed() == (old(event_timer).elapsed() + delta_micros) % (old(
                event_timer,
            ).period() as int),
            r is Some <==> old(event_timer).elapsed() + delta_micros >= old(event_timer).period(),
            r matches Some(v) ==> v@ == actions_read(old(self)@) && final(self)@ == after_read(
                old(self)@,
            ),
            r is None ==> final(self)@ == old(self)@,
    {
        if event_timer.tick(delta_micros) {
            Some(self.next_actions())
        } else {
            None
        }
    }
}

/// Actions and invalid messages never wait: the dispatcher offers them to
/// their queue and drops them when it is full, so only connects and
/// disconnects can hold it up.
pub proof fn lemma_routing_never_waits<S>(s: SessionView<S>, m: MessageView)
    requires
        m.event is Action || m.event is Invalid,
    ensures
        !must_wait(s, m),
{
}

/// Within one reading of actions, a connected player gets exactly one pair:
/// its oldest queued action (`NoAction` if none is queued), and the rest of
/// its queue stays, in order, for later readings.
pub proof fn lemma_one_action_per_interval<S>(s: SessionView<S>, id: PlayerId)
    requires
        session_wf(s),
        has_player(s.channels, id),
    ensures
        ({
            let out = actions_read(s);
            let i = slot_of(s.channels, id);
            let q = s.channels[i].actions;
            &&& 0 <= i < out.len()
            &&& out[i] == (id, if q.len() > 0 { q[0] } else { ActionEvent::NoAction })
            &&& forall|k: int| 0 <= k < out.len() && out[k].0 == id ==> k == i
            &&& after_read(s).channels[i].actions == (if q.len() > 0 { q.drop_first() } else { q })
            &&& after_read(s).channels[i].id == id
        }),
{
    let i = slot_of(s.channels, id);
    assert(s.channels[i].id == id);
}

/// How one dispatched event changes whether `p` is connected: a connect of
/// `p` makes it connected, a disconnect of `p` makes it not, and any other
/// event leaves that as it was.
pub proof fn lemma_dispatch_membership<S>(s: SessionView<S>, m: MessageView, sink: Option<S>, p: PlayerId)
    requires
        session_wf(s),
        !must_wait(s, m),
        m.event is Action ==> has_player(s.channels, m.player_id),
    ensures
        session_wf(dispatched(s, m, sink)),
        has_player(dispatched(s, m, sink).channels, p) <==> (m.player_id == p && m.event is Connected)
            || (has_player(s.channels, p) && !(m.player_id == p && m.event is Disconnected)),
{
    let chs = s.channels;
    let q = m.player_id;
    let t = dispatched(s, m, sink);
    if has_player(chs, q) {
        assert(chs[slot_of(chs, q)].id == q);
    }
    match m.event {
        EventView::Connected(_) => {
            let fresh = ChannelView { id: q, actions: Seq::<ActionEvent>::empty(), sink: sink->Some_0 };
            if has_player(chs, q) {
                let i = slot_of(chs, q);
                assert(t.channels[i].id == q);
                if has_player(chs, p) && p != q {
                    let j = choose|j: int| 0 <= j < chs.len() && chs[j].id == p;
                    assert(t.channels[j].id == p);
                }
            } else {
                assert(t.channels[chs.len() as int].id == q);
                if has_player(chs, p) {
                    let j = choose|j: int| 0 <= j < chs.len() && chs[j].id == p;
                    assert(t.channels[j].id == p);
                }
            }
        },
        EventView::Action(a) => {
            if has_player(chs, p) {
                let j = choose|j: int| 0 <= j < chs.len() && chs[j].id == p;
                assert(t.channels[j].id == p);
            }
        },
        EventView::Invalid(_) => {},
        EventView::Disconnected => {
            if has_player(chs, q) {
                let i = slot_of(chs, q);
                if has_player(chs, p) && p != q {
                    let j = choose|j: int| 0 <= j < chs.len() && chs[j].id == p;
                    if j < i {
                        assert(t.channels[j].id == p);
                    } else {
                        assert(t.channels[j - 1].id == p);
                    }
                }
                if has_player(t.channels, q) {
                    let j = choose|j: int| 0 <= j < t.channels.len() && t.channels[j].id == q;
                    if j < i {
                        assert(chs[j].id == q);
                    } else {
                        assert(chs[j + 1].id == q);
                    }
                }
            }
        },
    }
}

/// The player is connected after event `k` was handled exactly when one of
/// the first `k` events connected it and no later one among them
/// disconnected it.
pub open spec fn connected_by(ms: Seq<MessageView>, k: int, p: PlayerId) -> bool {
    exists|j: int|
        0 <= j < k && (#[trigger] ms[j]).player_id == p && ms[j].event is Connected && forall|l: int|
            j < l < k ==> !((#[trigger] ms[l]).player_id == p && ms[l].event is Disconnected)
}

/// Lifecycle consistency: over any run of the dispatcher that starts without
/// `p`, `p` has an action queue and an outbound sink (both live in its one
/// entry) exactly between a connect of `p` and the next disconnect of `p`,
/// and never after that disconnect.
pub proof fn lemma_lifecycle<S>(
    states: Seq<SessionView<S>>,
    ms: Seq<MessageView>,
    sinks: Seq<Option<S>>,
    p: PlayerId,
)
    requires
        states.len() == ms.len() + 1,
        sinks.len() == ms.len(),
        session_wf(states[0]),
        !has_player(states[0].channels, p),
        forall|k: int|
            0 <= k < ms.len() ==> {
                &&& !must_wait(states[k], #[trigger] ms[k])
                &&& ms[k].event is Action ==> has_player(states[k].channels, ms[k].player_id)
                &&& states[k + 1] == dispatched(states[k], ms[k], sinks[k])
            },
    ensures
        forall|k: int|
            0 <= k < states.len() ==> (has_player(#[trigger] states[k].channels, p) <==> connected_by(
                ms,
                k,
                p,
            )),
{
    assert forall|k: int| 0 <= k < states.len() implies session_wf(#[trigger] states[k]) && (has_player(
        states[k].channels,
        p,
    ) <==> connected_by(ms, k, p)) by {
        lemma_lifecycle_prefix(states, ms, sinks, p, k);
    }
}

proof fn lemma_lifecycle_prefix<S>(
    states: Seq<SessionView<S>>,
    ms: Seq<MessageView>,
    sinks: Seq<Option<S>>,
    p: PlayerId,
    k: int,
)
    requires
        states.len() == ms.len() + 1,
        sinks.len() == ms.len(),
        session_wf(states[0]),
        !has_player(states[0].channels, p),
        forall|k: int|
            0 <= k < ms.len() ==> {
                &&& !must_wait(states[k], #[trigger] ms[k])
                &&& ms[k].event is Action ==> has_player(states[k].channels, ms[k].player_id)
                &&& states[k + 1] == dispatched(states[k], ms[k], sinks[k])
            },
        0 <= k < states.len(),
    ensures
        session_wf(states[k]),
        has_player(states[k].channels, p) <==> connected_by(ms, k, p),
    decreases k,
{
    if k > 0 {
        lemma_lifecycle_prefix(states, ms, sinks, p, k - 1);
        let m = ms[k - 1];
        lemma_dispatch_membership(states[k - 1], m, sinks[k - 1], p);
        if m.player_id == p && m.event is Connected {
            assert(connected_by(ms, k, p)) by {
                assert(ms[k - 1].player_id == p);
            }
        } else if m.player_id == p && m.event is Disconnected {
            if connected_by(ms, k, p) {
                let j = choose|j: int|
                    0 <= j < k && (#[trigger] ms[j]).player_id == p && ms[j].event is Connected
                        && forall|l: int|
                        j < l < k ==> !((#[trigger] ms[l]).player_id == p && ms[l].event is Disconnected);
                assert(j != k - 1);
                assert(!(ms[k - 1].player_id == p && ms[k - 1].event is Disconnected));
            }
        } else {
            if connected_by(ms, k, p) {
                let j = choose|j: int|
                    0 <= j < k && (#[trigger] ms[j]).player_id == p && ms[j].event is Connected
                        && forall|l: int|
                        j < l < k ==> !((#[trigger] ms[l]).player_id == p && ms[l].event is Disconnected);
                assert(j != k - 1);
                assert(connected_by(ms, k - 1, p));
            }
            if connected_by(ms, k - 1, p) {
                let j = choose|j: int|
                    0 <= j < k - 1 && (#[trigger] ms[j]).player_id == p && ms[j].event is Connected
                        && forall|l: int|
                        j < l < k - 1 ==> !((#[trigger] ms[l]).player_id == p && ms[l].event is Disconnected);
                assert(forall|l: int| j < l < k ==> !((#[trigger] ms[l]).player_id == p && ms[l].event is Disconnected));
                assert(connected_by(ms, k, p));
            }
        }
    }
}

} // verus!
