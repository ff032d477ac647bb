//! The simulation loop's side of the session: the authoritative player
//! records, kept up to date from the general events and the paced actions
//! that the session context hands out.
use vstd::prelude::*;
use rand::Rng;
use crate::action::{ActionEvent, PlayerAction};
use crate::event::{EventMessage, EventView, GeneralEvent, MessageView, NetworkEvent};
use crate::network::{actions_read, after_read, NetworkContext, SessionView};
use crate::timer::EventTimer;
use crate::player::{Player, PlayerId, PlayerView, MAX_PLAYERS};

verus! {

/// All possible states of the game.
#[derive(Clone, Copy, Eq, PartialEq, Structural, Debug, Hash)]
pub enum GameState {
    /// Players are joining.
    StartMenu,
    /// A game is being picked.
    GameSelectionMenu,
    PushGame,
    HockeyGame,
    VolleyBallGame,
    AchtungGame,
}

/// Players by id, each at most once.
#[derive(Debug)]
pub struct Players {
    entries: Vec<Player>,
}

/// Players that connected during the current tick.
pub type ConnectedPlayers = Players;

pub open spec fn roster_has(s: Seq<PlayerView>, id: PlayerId) -> bool {
    exists|i: int| 0 <= i < s.len() && s[i].id == id
}

/// The position of the record of `id`; meaningful where `roster_has` holds.
pub open spec fn roster_slot(s: Seq<PlayerView>, id: PlayerId) -> int {
    choose|i: int| 0 <= i < s.len() && s[i].id == id
}

pub open spec fn roster_wf(s: Seq<PlayerView>) -> bool {
    forall|i: int, j: int| 0 <= i < j < s.len() ==> s[i].id != s[j].id
}

/// The records after `p` was stored, in place of an earlier record of its id.
pub open spec fn roster_inserted(s: Seq<PlayerView>, p: PlayerView) -> Seq<PlayerView> {
    if roster_has(s, p.id) {
        s.update(roster_slot(s, p.id), p)
    } else {
        s.push(p)
    }
}

/// The records after the one of `id` was taken out.
pub open spec fn roster_removed(s: Seq<PlayerView>, id: PlayerId) -> Seq<PlayerView> {
    if roster_has(s, id) {
        s.remove(roster_slot(s, id))
    } else {
        s
    }
}

impl Players {
    pub closed spec fn records(&self) -> Seq<PlayerView> {
        self.entries@.map_values(|p: Player| p@)
    }

    pub open spec fn wf(&self) -> bool {
        roster_wf(self.records())
    }

    pub fn new() -> (r: Self)
        ensures
            r.wf(),
            r.records() == Seq::<PlayerView>::empty(),
    {
        let r = Players { entries: Vec::new() };
        assert(r.records() =~= Seq::<PlayerView>::empty());
        r
    }

    pub fn len(&self) -> (r: usize)
        ensures
            r == self.records().len(),
    {
        self.entries.len()
    }

    fn find(&self, id: PlayerId) -> (r: Option<usize>)
        requires
            self.wf(),
        ensures
            match r {
                Some(i) => {
                    &&& i < self.records().len()
                    &&& roster_has(self.records(), id)
                    &&& roster_slot(self.records(), id) == i
                },
                None => !roster_has(self.records(), id),
            },
    {
        let mut i: usize = 0;
        while i < self.entries.len()
            invariant
                self.wf(),
                i <= self.entries@.len(),
                self.records().len() == self.entries@.len(),
                forall|j: int| 0 <= j < i ==> self.records()[j].id != id,
            decreases self.entries@.len() - i,
        {
            if self.entries[i].id() == id {
                proof {
                    assert(self.records()[i as int].id == id);
                    let k = roster_slot(self.records(), id);
                    assert(self.records()[k].id == id);
                }
                return Some(i);
            }
            i = i + 1;
        }
        None
    }

    pub fn contains(&self, id: PlayerId) -> (r: bool)
        requires
            self.wf(),
        ensures
            r == roster_has(self.records(), id),
    {
        self.find(id).is_some()
    }

    /// The record of `id`, if there is one.
    pub fn get(&self, id: PlayerId) -> (r: Option<&Player>)
        requires
            self.wf(),
        ensures
            match r {
                Some(p) => roster_has(self.records(), id) && p@ == self.records()[roster_slot(
                    self.records(),
                    id,
                )],
                None => !roster_has(self.records(), id),
            },
    {
        match self.find(id) {
            Some(i) => Some(&self.entries[i]),
            None => None,
        }
    }

    /// Stores `player`, replacing an earlier record of its id.
    pub fn insert(&mut self, player: Player)
        requires
            old(self).wf(),
        ensures
            final(self).wf(),
            final(self).records() == roster_inserted(old(self).records(), player@),
    {
        let ghost s = self.records();
        let ghost p = player@;
        match self.find(player.id()) {
            Some(i) => {
                self.entries.set(i, player);
                assert(self.records() =~= s.update(i as int, p));
            },
            None => {
                self.entries.push(player);
                assert(self.records() =~= s.push(p));
            },
        }
    }

    /// Takes out the record of `id`, if there is one.
    pub fn remove(&mut self, id: PlayerId) -> (r: Option<Player>)
        requires
            old(self).wf(),
        ensures
            final(self).wf(),
            final(self).records() == roster_removed(old(self).records(), id),
            r is Some <==> roster_has(old(self).records(), id),
    {
        let ghost s = self.records();
        match self.find(id) {
            Some(i) => {
                let p = self.entries.remove(i);
                assert(self.records() =~= s.remove(i as int));
                Some(p)
            },
            None => None,
        }
    }

    /// Forgets every record.
    pub fn clear(&mut self)
        ensures
            final(self).wf(),
            final(self).records() == Seq::<PlayerView>::empty(),
    {
        self.entries.clear();
        assert(self.records() =~= Seq::<PlayerView>::empty());
    }

    /// The ids of the records, in the order they are kept.
    pub fn ids(&self) -> (r: Vec<PlayerId>)
        ensures
            r@ == self.records().map_values(|p: PlayerView| p.id),
    {
        let mut r: Vec<PlayerId> = Vec::new();
        let mut i: usize = 0;
        while i < self.entries.len()
            invariant
                i <= self.entries@.len(),
                self.records().len() == self.entries@.len(),
                r@ == self.records().subrange(0, i as int).map_values(|p: PlayerView| p.id),
            decreases self.entries@.len() - i,
        {
            r.push(self.entries[i].id());
            i = i + 1;
            assert(r@ =~= self.records().subrange(0, i as int).map_values(|p: PlayerView| p.id));
        }
        assert(self.records().subrange(0, i as int) =~= self.records());
        r
    }

    /// Applies `action_event` to the record of `id`, if there is one.
    pub fn update_action(&mut self, id: PlayerId, action_event: ActionEvent)
        requires
            old(self).wf(),
        ensures
            final(self).wf(),
            final(self).records() == action_applied(old(self).records(), id, action_event),
    {
        let ghost s = self.records();
        match self.find(id) {
            Some(i) => {
                self.entries[i].update_action(&action_event);
                assert(self.records() =~= s.update(
                    i as int,
                    PlayerView { action: s[i as int].action.applied(action_event), ..s[i as int] },
                ));
            },
            None => {},
        }
    }
}

/// The records after `e` was applied to the record of `id`.
pub open spec fn action_applied(s: Seq<PlayerView>, id: PlayerId, e: ActionEvent) -> Seq<PlayerView> {
    if roster_has(s, id) {
        let i = roster_slot(s, id);
        s.update(i, PlayerView { action: s[i].action.applied(e), ..s[i] })
    } else {
        s
    }
}

/// Players that disconnected during the current tick.
#[derive(Debug)]
pub struct DisconnectedPlayers {
    ids: Vec<PlayerId>,
}

impl DisconnectedPlayers {
    pub closed spec fn set(&self) -> Set<PlayerId> {
        self.ids@.to_set()
    }

    pub closed spec fn wf(&self) -> bool {
        self.ids@.no_duplicates()
    }

    pub fn new() -> (r: Self)
        ensures
            r.wf(),
            r.set() == Set::<PlayerId>::empty(),
    {
        let r = DisconnectedPlayers { ids: Vec::new() };
        assert(r.set() =~= Set::<PlayerId>::empty());
        r
    }

    pub fn len(&self) -> (r: usize)
        requires
            self.wf(),
        ensures
            r == self.set().len(),
    {
        proof {
            self.ids@.unique_seq_to_set();
        }
        self.ids.len()
    }

    pub fn contains(&self, id: PlayerId) -> (r: bool)
        ensures
            r == self.set().contains(id),
    {
        let mut i: usize = 0;
        while i < self.ids.len()
            invariant
                i <= self.ids@.len(),
                forall|j: int| 0 <= j < i ==> self.ids@[j] != id,
            decreases self.ids@.len() - i,
        {
            if self.ids[i] == id {
                assert(self.ids@[i as int] == id);
                return true;
            }
            i = i + 1;
        }
        false
    }

    /// The ids, each once.
    pub fn ids(&self) -> (r: Vec<PlayerId>)
        requires
            self.wf(),
        ensures
            r@.no_duplicates(),
            r@.to_set() == self.set(),
    {
        self.ids.clone()
    }

    pub fn insert(&mut self, id: PlayerId)
        requires
            old(self).wf(),
        ensures
            final(self).wf(),
            final(self).set() == old(self).set().insert(id),
    {
        if !self.contains(id) {
            self.ids.push(id);
            proof {
                old(self).ids@.lemma_push_to_set_commute(id);
                assert forall|a: int, b: int| 0 <= a < b < self.ids@.len() implies self.ids@[a]
                    != self.ids@[b] by {
                    if b == self.ids@.len() - 1 {
                        assert(old(self).ids@.contains(self.ids@[a]));
                    }
                }
            }
        } else {
            assert(self.set() =~= old(self).set().insert(id));
        }
    }

    pub fn clear(&mut self)
        ensures
            final(self).wf(),
            final(self).set() == Set::<PlayerId>::empty(),
    {
        self.ids.clear();
        assert(self.set() =~= Set::<PlayerId>::empty());
    }
}

/// Relies on `rand::Rng::gen_range` over `rand::thread_rng()`: a number in
/// `0..n`, which must not be empty.
#[verifier::external_body]
fn random_below(n: usize) -> (r: usize)
    requires
        n > 0,
    ensures
        r < n,
{
    rand::thread_rng().gen_range(0..n)
}

/// The records that the simulation loop keeps, as values.
pub struct RosterView {
    /// Every connected player.
    pub players: Seq<PlayerView>,
    /// Players that connected during the current tick.
    pub connected: Seq<PlayerView>,
    /// Players that disconnected during the current tick.
    pub disconnected: Set<PlayerId>,
    pub state: GameState,
}

/// The records after general event `m`: a connect adds a fresh player of
/// colour `color` to the players and to this tick's newcomers; a disconnect
/// removes the player, notes it as gone, and sends the game back to the
/// start menu when fewer than two players remain. Other events change
/// nothing.
pub open spec fn general_applied(r: RosterView, m: MessageView, color: usize) -> RosterView {
    match m.event {
        EventView::Connected(name) => {
            let p = PlayerView {
                id: m.player_id,
                score: 0,
                name,
                color,
                action: PlayerAction::idle(),
            };
            RosterView {
                players: roster_inserted(r.players, p),
                connected: roster_inserted(r.connected, p),
                ..r
            }
        },
        EventView::Disconnected => {
            let players = roster_removed(r.players, m.player_id);
            RosterView {
                players,
                disconnected: r.disconnected.insert(m.player_id),
                state: if players.len() < 2 && r.state != GameState::StartMenu {
                    GameState::StartMenu
                } else {
                    r.state
                },
                ..r
            }
        },
        _ => r,
    }
}

/// The records after the general events `ms`, in order, the newcomer among
/// them at position `k` getting colour `colors[k]`.
pub open spec fn general_folded(r: RosterView, ms: Seq<MessageView>, colors: Seq<usize>) -> RosterView
    decreases ms.len(),
{
    if ms.len() == 0 || colors.len() != ms.len() {
        r
    } else {
        general_applied(
            general_folded(r, ms.drop_last(), colors.drop_last()),
            ms.last(),
            colors.last(),
        )
    }
}

pub open spec fn roster_of(
    players: &Players,
    connected: &ConnectedPlayers,
    disconnected: &DisconnectedPlayers,
    state: GameState,
) -> RosterView {
    RosterView {
        players: players.records(),
        connected: connected.records(),
        disconnected: disconnected.set(),
        state,
    }
}

/// Applies one general event to the records, a newcomer getting colour
/// `color`; returns the game state that follows.
pub fn apply_general_message(
    msg: EventMessage,
    color: usize,
    players: &mut Players,
    connected: &mut ConnectedPlayers,
    disconnected: &mut DisconnectedPlayers,
    state: GameState,
) -> (next: GameState)
    requires
        old(players).wf(),
        old(connected).wf(),
        old(disconnected).wf(),
    ensures
        final(players).wf(),
        final(connected).wf(),
        final(disconnected).wf(),
        roster_of(final(players), final(connected), final(disconnected), next) == general_applied(
            roster_of(old(players), old(connected), old(disconnected), state),
            msg@,
            color,
        ),
{
    let id = msg.player_id;
    match msg.event {
        NetworkEvent::General(GeneralEvent::Connected(name)) => {
            let newcomer = Player::new(id, name.clone(), color);
            players.insert(Player::new(id, name, color));
            connected.insert(newcomer);
            state
        },
        NetworkEvent::General(GeneralEvent::Disconnected) => {
            players.remove(id);
            disconnected.insert(id);
            if players.len() < 2 && state != GameState::StartMenu {
                GameState::StartMenu
            } else {
                state
            }
        },
        _ => state,
    }
}

/// Once per tick: forgets last tick's newcomers and leavers, then drains the
/// general queue of `ctx` and applies every event in order, each newcomer
/// getting a random colour. Returns the game state that follows.
pub fn handle_general_message<S>(
    ctx: &mut NetworkContext<S>,
    players: &mut Players,
    connected: &mut ConnectedPlayers,
    disconnected: &mut DisconnectedPlayers,
    state: GameState,
) -> (next: GameState)
    requires
        old(ctx).wf(),
        old(players).wf(),
        old(connected).wf(),
        old(disconnected).wf(),
    ensures
        final(ctx).wf(),
        final(ctx)@ == (SessionView { general: Seq::empty(), ..old(ctx)@ }),
        final(players).wf(),
        final(connected).wf(),
        final(disconnected).wf(),
        exists|colors: Seq<usize>|
            {
                &&& colors.len() == old(ctx)@.general.len()
                &&& forall|k: int| 0 <= k < colors.len() ==> #[trigger] colors[k] < MAX_PLAYERS
                &&& roster_of(final(players), final(connected), final(disconnected), next)
                    == general_folded(
                    RosterView {
                        players: old(players).records(),
                        connected: Seq::empty(),
                        disconnected: Set::empty(),
                        state,
                    },
                    old(ctx)@.general,
                    colors,
                )
            },
{
    connected.clear();
    disconnected.clear();
    let ghost start = roster_of(players, connected, disconnected, state);
    let msgs = ctx.iter_common();
    let ghost ms = msgs@.map_values(|m: EventMessage| m@);
    let ghost mut colors: Seq<usize> = Seq::empty();
    let mut next = state;
    let n = msgs.len();
    let mut rest = msgs;
    proof {
        assert(ms.subrange(0, 0) =~= Seq::<MessageView>::empty());
    }
    let mut i: usize = 0;
    while i < n
        invariant
            n == ms.len(),
            i <= n,
            rest@.len() == n - i,
            forall|k: int| 0 <= k < n - i ==> (#[trigger] rest@[k])@ == ms[i + k],
            players.wf(),
            connected.wf(),
            disconnected.wf(),
            colors.len() == i,
            forall|k: int| 0 <= k < colors.len() ==> #[trigger] colors[k] < MAX_PLAYERS,
            roster_of(players, connected, disconnected, next) == general_folded(
                start,
                ms.subrange(0, i as int),
                colors,
            ),
        decreases n - i,
    {
        let msg = rest.remove(0);
        let color = random_below(MAX_PLAYERS);
        let ghost before = roster_of(players, connected, disconnected, next);
        next = apply_general_message(msg, color, players, connected, disconnected, next);
        proof {
            let c2 = colors.push(color);
            let m2 = ms.subrange(0, i + 1);
            assert(m2.drop_last() =~= ms.subrange(0, i as int));
            assert(c2.drop_last() =~= colors);
            assert(m2.last() == ms[i as int]);
            colors = c2;
        }
        i = i + 1;
    }
    assert(ms.subrange(0, n as int) =~= ms);
    next
}

/// What one paced action does to the records: nothing when the player is
/// unknown, or holds no button and the action is `NoAction`; otherwise the
/// action is applied to the player.
pub open spec fn paced_action_applied(s: Seq<PlayerView>, id: PlayerId, e: ActionEvent) -> Seq<PlayerView> {
    if roster_has(s, id) && s[roster_slot(s, id)].action.no_button_held() && e
        == ActionEvent::NoAction {
        s
    } else {
        action_applied(s, id, e)
    }
}

/// The records after the paced actions `acts`, in order.
pub open spec fn paced_actions_folded(s: Seq<PlayerView>, acts: Seq<(PlayerId, ActionEvent)>) -> Seq<
    PlayerView,
>
    decreases acts.len(),
{
    if acts.len() == 0 {
        s
    } else {
        let prev = paced_actions_folded(s, acts.drop_last());
        paced_action_applied(prev, acts.last().0, acts.last().1)
    }
}

/// Once per tick: lets `delta_micros` pass on the tick gate and, when an
/// interval ended, applies the one action read per connected player.
pub fn handle_action_message<S>(
    ctx: &mut NetworkContext<S>,
    delta_micros: u64,
    event_timer: &mut EventTimer,
    players: &mut Players,
)
    requires
        old(ctx).wf(),
        old(event_timer).wf(),
        old(players).wf(),
    ensures
        final(ctx).wf(),
        final(event_timer).wf(),
        final(event_timer).period() == old(event_timer).period(),
        final(event_timer).elapsed() == (old(event_timer).elapsed() + delta_micros) % (old(
            event_timer,
        ).period() as int),
        final(players).wf(),
        if old(event_timer).elapsed() + delta_micros >= old(event_timer).period() {
            &&& final(ctx)@ == after_read(old(ctx)@)
            &&& final(players).records() == paced_actions_folded(
                old(players).records(),
                actions_read(old(ctx)@),
            )
        } else {
            &&& final(ctx)@ == old(ctx)@
            &&& final(players).records() == old(players).records()
        },
{
    match ctx.iter_action(delta_micros, event_timer) {
        Some(actions) => {
            let ghost acts = actions@;
            let ghost start = players.records();
            assert(acts.subrange(0, 0) =~= Seq::<(PlayerId, ActionEvent)>::empty());
            let mut i: usize = 0;
            while i < actions.len()
                invariant
                    acts == actions@,
                    i <= acts.len(),
                    players.wf(),
                    players.records() == paced_actions_folded(start, acts.subrange(0, i as int)),
                decreases acts.len() - i,
            {
                let (id, e) = actions[i];
                proof {
                    let a2 = acts.subrange(0, i + 1);
                    assert(a2.drop_last() =~= acts.subrange(0, i as int));
                }
                let skip = match players.get(id) {
                    Some(p) => p.has_no_action() && e == ActionEvent::NoAction,
                    None => false,
                };
                if !skip {
                    players.update_action(id, e);
                }
                i = i + 1;
            }
            assert(acts.subrange(0, acts.len() as int) =~= acts);
        },
        None => {},
    }
}

} // verus!
