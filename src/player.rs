use vstd::prelude::*;
use crate::action::{ActionEvent, PlayerAction};

verus! {

/// Identity of a connected client for the lifetime of its connection.
#[derive(Debug, Clone, Copy, Hash, PartialEq, Eq, Structural, PartialOrd, Ord)]
pub struct PlayerId(pub u64);

impl PlayerId {
    pub fn value(self) -> (r: u64)
        ensures
            r == self.0,
    {
        self.0
    }
}

impl From<u64> for PlayerId {
    fn from(n: u64) -> (r: PlayerId)
        ensures
            r == PlayerId(n),
    {
        PlayerId(n)
    }
}

impl vstd::std_specs::convert::FromSpecImpl<u64> for PlayerId {
    open spec fn obeys_from_spec() -> bool {
        true
    }

    open spec fn from_spec(n: u64) -> PlayerId {
        PlayerId(n)
    }
}

/// Hands out player ids from a counter that starts at 1 and only grows.
#[derive(Debug)]
pub struct PlayerIdGenerator {
    id: u64,
}

impl PlayerIdGenerator {
    /// The id that the next call of `generate` returns.
    pub closed spec fn next_id(&self) -> u64 {
        self.id
    }

    pub fn peek(&self) -> (r: u64)
        ensures
            r == self.next_id(),
    {
        self.id
    }

    pub fn generate(&mut self) -> (r: PlayerId)
        requires
            old(self).next_id() < u64::MAX,
        ensures
            generated(*old(self), r, *final(self)),
    {
        let id = self.id;
        self.id = self.id + 1;
        PlayerId(id)
    }
}

impl Default for PlayerIdGenerator {
    fn default() -> (r: Self)
        ensures
            r.next_id() == 1,
    {
        PlayerIdGenerator { id: 1 }
    }
}

/// One call of `generate`: it returns the pending id and moves on by one.
pub open spec fn generated(before: PlayerIdGenerator, r: PlayerId, after: PlayerIdGenerator) -> bool {
    &&& r.0 == before.next_id()
    &&& after.next_id() == before.next_id() + 1
}

/// Ids from successive calls of `generate` strictly increase, and a fresh
/// generator starts at 1.
pub proof fn lemma_generated_ids_increase(gens: Seq<PlayerIdGenerator>, ids: Seq<PlayerId>)
    requires
        gens.len() == ids.len() + 1,
        forall|k: int| 0 <= k < ids.len() ==> generated(gens[k], #[trigger] ids[k], gens[k + 1]),
    ensures
        forall|i: int, j: int| 0 <= i < j < ids.len() ==> ids[i].0 < ids[j].0,
        ids.len() > 0 && gens[0].next_id() == 1 ==> ids[0].0 == 1,
{
    assert forall|i: int, j: int| 0 <= i < j < ids.len() implies ids[i].0 < ids[j].0 by {
        assert forall|k: int| i < k <= j implies ids[i].0 < #[trigger] gens[k].next_id() by {
            lemma_next_id_grows(gens, ids, i, k);
        }
        assert(generated(gens[j], ids[j], gens[j + 1]));
    }
    if ids.len() > 0 {
        assert(generated(gens[0], ids[0], gens[1]));
    }
}

proof fn lemma_next_id_grows(gens: Seq<PlayerIdGenerator>, ids: Seq<PlayerId>, i: int, k: int)
    requires
        gens.len() == ids.len() + 1,
        forall|k: int| 0 <= k < ids.len() ==> generated(gens[k], #[trigger] ids[k], gens[k + 1]),
        0 <= i < k <= ids.len(),
    ensures
        ids[i].0 < gens[k].next_id(),
    decreases k - i,
{
    assert(generated(gens[k - 1], ids[k - 1], gens[k]));
    if k - 1 > i {
        lemma_next_id_grows(gens, ids, i, k - 1);
    }
}

/// Number of colours a player can pick from; also the most players a game
/// supports.
pub const MAX_PLAYERS: usize = 9;

/// A connected player as the games see it. Its colour is an index into the
/// palette of `MAX_PLAYERS` colours.
#[derive(Debug, Clone)]
pub struct Player {
    id: PlayerId,
    score: usize,
    name: String,
    color: usize,
    action: PlayerAction,
}

/// The mathematical value of a `Player`.
pub struct PlayerView {
    pub id: PlayerId,
    pub score: usize,
    pub name: Seq<char>,
    pub color: usize,
    pub action: PlayerAction,
}

impl View for Player {
    type V = PlayerView;

    closed spec fn view(&self) -> PlayerView {
        PlayerView {
            id: self.id,
            score: self.score,
            name: self.name@,
            color: self.color,
            action: self.action,
        }
    }
}

impl Player {
    pub fn new(id: PlayerId, name: String, color: usize) -> (r: Self)
        ensures
            r@ == (PlayerView { id, score: 0, name: name@, color, action: PlayerAction::idle() }),
    {
        Player { id, score: 0, name, color, action: PlayerAction::default() }
    }

    /// Applies an action sent by the player's client.
    pub fn update_action(&mut self, action_event: &ActionEvent)
        ensures
            final(self)@ == (PlayerView { action: old(self)@.action.applied(*action_event), ..old(self)@ }),
    {
        self.action.apply(*action_event);
    }

    /// Releases every button.
    pub fn reset_action(&mut self)
        ensures
            final(self)@ == (PlayerView {
                action: PlayerAction {
                    up_pressed: false,
                    right_pressed: false,
                    down_pressed: false,
                    left_pressed: false,
                    a_pressed: false,
                    b_pressed: false,
                    ..old(self)@.action
                },
                ..old(self)@
            }),
    {
        self.action.release_all();
    }

    pub fn has_no_action(&self) -> (r: bool)
        ensures
            r == self@.action.no_button_held(),
    {
        self.action.is_idle()
    }

    /// The latest action, once: `None` until another action is applied.
    pub fn previous_action_once(&mut self) -> (r: Option<ActionEvent>)
        ensures
            old(self)@.action.new_action_since_last_read ==> r == Some(old(self)@.action.prev_action),
            !old(self)@.action.new_action_since_last_read ==> r is None,
            final(self)@ == (PlayerView {
                action: PlayerAction { new_action_since_last_read: false, ..old(self)@.action },
                ..old(self)@
            }),
    {
        self.action.take_new_action()
    }

    /// Horizontal direction: 1 right, -1 left, 0 for neither or both.
    pub fn movement_x(&self) -> (r: i8)
        ensures
            r as int == PlayerAction::axis(self@.action.right_pressed, self@.action.left_pressed),
    {
        self.action.direction_x()
    }

    /// Vertical direction: 1 up, -1 down, 0 for neither or both.
    pub fn movement_y(&self) -> (r: i8)
        ensures
            r as int == PlayerAction::axis(self@.action.up_pressed, self@.action.down_pressed),
    {
        self.action.direction_y()
    }

    pub fn a_is_pressed(&self) -> (r: bool)
        ensures
            r == self@.action.a_pressed,
    {
        self.action.a_pressed
    }

    pub fn b_is_pressed(&self) -> (r: bool)
        ensures
            r == self@.action.b_pressed,
    {
        self.action.b_pressed
    }

    pub fn id(&self) -> (r: PlayerId)
        ensures
            r == self@.id,
    {
        self.id
    }

    pub fn name(&self) -> (r: &str)
        ensures
            r@ == self@.name,
    {
        self.name.as_str()
    }

    pub fn color(&self) -> (r: usize)
        ensures
            r == self@.color,
    {
        self.color
    }

    pub fn set_color(&mut self, color: usize)
        ensures
            final(self)@ == (PlayerView { color, ..old(self)@ }),
    {
        self.color = color;
    }

    pub fn score(&self) -> (r: usize)
        ensures
            r == self@.score,
    {
        self.score
    }

    pub fn increment_score(&mut self)
        requires
            old(self)@.score < usize::MAX,
        ensures
            final(self)@ == (PlayerView { score: (old(self)@.score + 1) as usize, ..old(self)@ }),
    {
        self.score = self.score + 1;
    }

    pub fn reset_score(&mut self)
        ensures
            final(self)@ == (PlayerView { score: 0, ..old(self)@ }),
    {
        self.score = 0;
    }
}

} // verus!
