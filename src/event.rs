//! Events produced by clients and the binary format they travel in.
//!
//! The first byte of a message gives its kind:
//!   0 => action event; exactly one more byte, the action code
//!        (0 UpPressed, 1 UpReleased, 2 RightPressed, 3 RightReleased,
//!         4 DownPressed, 5 DownReleased, 6 LeftPressed, 7 LeftReleased,
//!         8 APressed, 9 AReleased, 10 BPressed, 11 BReleased)
//!   1 => connect event; the rest is the player's name in UTF-8
//! Anything else is an invalid message.
use vstd::prelude::*;
use crate::action::{action_of_code, code_of_action, ActionEvent};
use crate::player::PlayerId;

verus! {

/// A change of a connection: a client joined under a name, or left.
#[derive(Debug, Clone, PartialEq, Eq)]
pub enum GeneralEvent {
    Connected(String),
    Disconnected,
}

/// What a client's message means.
#[derive(Debug, Clone, PartialEq, Eq)]
pub enum NetworkEvent {
    /// A change of the connection.
    General(GeneralEvent),
    /// A button transition.
    Action(ActionEvent),
    /// A message that could not be decoded; it holds the bytes received.
    Invalid(Vec<u8>),
}

/// An event together with the player whose client produced it.
#[derive(Debug, Clone, PartialEq, Eq)]
pub struct EventMessage {
    pub player_id: PlayerId,
    pub event: NetworkEvent,
}

/// The mathematical value of a `NetworkEvent`.
pub enum EventView {
    Connected(Seq<char>),
    Disconnected,
    Action(ActionEvent),
    Invalid(Seq<u8>),
}

/// The mathematical value of an `EventMessage`.
pub struct MessageView {
    pub player_id: PlayerId,
    pub event: EventView,
}

impl View for NetworkEvent {
    type V = EventView;

    open spec fn view(&self) -> EventView {
        match self {
            NetworkEvent::General(GeneralEvent::Connected(name)) => EventView::Connected(name@),
            NetworkEvent::General(GeneralEvent::Disconnected) => EventView::Disconnected,
            NetworkEvent::Action(a) => EventView::Action(*a),
            NetworkEvent::Invalid(bytes) => EventView::Invalid(bytes@),
        }
    }
}

impl View for EventMessage {
    type V = MessageView;

    open spec fn view(&self) -> MessageView {
        MessageView { player_id: self.player_id, event: self.event@ }
    }
}

/// The text that `bytes` encode in UTF-8, or `None` where they are not valid
/// UTF-8.
pub uninterp spec fn utf8_text(bytes: Seq<u8>) -> Option<Seq<char>>;

/// What a message decodes to.
pub open spec fn decoded(data: Seq<u8>) -> EventView {
    if data.len() == 0 {
        EventView::Invalid(Seq::empty())
    } else if data[0] == 0 {
        action_message(data)
    } else if data[0] == 1 {
        connect_message(data, utf8_text(data.drop_first()))
    } else {
        EventView::Invalid(data)
    }
}

/// What a message with the action tag decodes to.
pub open spec fn action_message(data: Seq<u8>) -> EventView {
    if data.len() == 2 && action_of_code(data[1]) is Some {
        EventView::Action(action_of_code(data[1])->Some_0)
    } else {
        EventView::Invalid(data)
    }
}

/// What a message with the connect tag decodes to, given the text that the
/// bytes after the tag encode.
pub open spec fn connect_message(data: Seq<u8>, text: Option<Seq<char>>) -> EventView {
    match text {
        Some(name) => EventView::Connected(name),
        None => EventView::Invalid(data),
    }
}

/// Relies on `std::str::from_utf8`: `Ok` exactly when the bytes are valid
/// UTF-8, holding the text they encode.
#[verifier::external_body]
fn text_from_utf8(bytes: &[u8]) -> (r: Option<String>)
    ensures
        r is Some <==> utf8_text(bytes@) is Some,
        r matches Some(s) ==> s@ == utf8_text(bytes@)->Some_0,
{
    std::str::from_utf8(bytes).ok().map(|s| s.to_string())
}

/// Decodes a message received from a client. Total: malformed input gives
/// `Invalid`.
pub fn decode_message(data: &[u8]) -> (r: NetworkEvent)
    ensures
        r@ == decoded(data@),
{
    if data.len() == 0 {
        return NetworkEvent::Invalid(Vec::with_capacity(0));
    }
    if data[0] == 0 {
        decode_action_event(data)
    } else if data[0] == 1 {
        decode_connect_event(data)
    } else {
        NetworkEvent::Invalid(vstd::slice::slice_to_vec(data))
    }
}

/// The action that a wire code stands for.
pub fn action_from_code(code: u8) -> (r: Option<ActionEvent>)
    ensures
        r == action_of_code(code),
{
    match code {
        0 => Some(ActionEvent::UpPressed),
        1 => Some(ActionEvent::UpReleased),
        2 => Some(ActionEvent::RightPressed),
        3 => Some(ActionEvent::RightReleased),
        4 => Some(ActionEvent::DownPressed),
        5 => Some(ActionEvent::DownReleased),
        6 => Some(ActionEvent::LeftPressed),
        7 => Some(ActionEvent::LeftReleased),
        8 => Some(ActionEvent::APressed),
        9 => Some(ActionEvent::AReleased),
        10 => Some(ActionEvent::BPressed),
        11 => Some(ActionEvent::BReleased),
        _ => None,
    }
}

/// Decodes a message that carries the action tag.
pub fn decode_action_event(data: &[u8]) -> (r: NetworkEvent)
    ensures
        r@ == action_message(data@),
{
    if data.len() != 2 {
        return NetworkEvent::Invalid(vstd::slice::slice_to_vec(data));
    }
    match action_from_code(data[1]) {
        Some(a) => NetworkEvent::Action(a),
        None => NetworkEvent::Invalid(vstd::slice::slice_to_vec(data)),
    }
}

/// Decodes a message that carries the connect tag: the bytes after the tag
/// must be the player's name in UTF-8.
pub fn decode_connect_event(data: &[u8]) -> (r: NetworkEvent)
    requires
        data@.len() >= 1,
    ensures
        r@ == connect_message(data@, utf8_text(data@.drop_first())),
{
    let rest = vstd::slice::slice_subrange(data, 1, data.len());
    assert(rest@ == data@.drop_first());
    connect_event_from_text(data, text_from_utf8(rest))
}

/// The connect event for a message whose name bytes decoded to `text`
/// (`None` where they are not valid UTF-8).
pub fn connect_event_from_text(data: &[u8], text: Option<String>) -> (r: NetworkEvent)
    ensures
        r@ == connect_message(data@, match text {
            Some(s) => Some(s@),
            None => None,
        }),
{
    match text {
        Some(name) => NetworkEvent::General(GeneralEvent::Connected(name)),
        None => NetworkEvent::Invalid(vstd::slice::slice_to_vec(data)),
    }
}

/// The action table round-trips: every action but `NoAction` travels as the
/// action tag followed by its code and decodes back to itself, every code of
/// the table names an action whose code it is, and a code past the table
/// gives `Invalid` with the bytes received.
pub proof fn lemma_action_codes_round_trip(a: ActionEvent, code: u8)
    ensures
        a != ActionEvent::NoAction ==> decoded(seq![0u8, code_of_action(a)]) == EventView::Action(a),
        code < 12 ==> action_of_code(code) is Some && code_of_action(action_of_code(code)->Some_0)
            == code,
        code >= 12 ==> decoded(seq![0u8, code]) == EventView::Invalid(seq![0u8, code]),
{
    assert(seq![0u8, code_of_action(a)][1] == code_of_action(a));
    assert(seq![0u8, code][1] == code);
}

/// Malformed messages decode to `Invalid`: the empty message with no bytes,
/// an action message of any length but two with the bytes received, and an
/// unknown tag with the bytes received. A connect message gives the name
/// exactly when its remaining bytes are valid UTF-8.
pub proof fn lemma_malformed_is_invalid(data: Seq<u8>)
    ensures
        data.len() == 0 ==> decoded(data) == EventView::Invalid(Seq::empty()),
        data.len() > 0 && data[0] == 0 && data.len() != 2 ==> decoded(data) == EventView::Invalid(
            data,
        ),
        data.len() > 0 && data[0] >= 2 ==> decoded(data) == EventView::Invalid(data),
        data.len() > 0 && data[0] == 1 ==> match utf8_text(data.drop_first()) {
            Some(name) => decoded(data) == EventView::Connected(name),
            None => decoded(data) == EventView::Invalid(data),
        },
{
}

} // verus!
