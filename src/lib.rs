//! Session and event-dispatch layer of a multiplayer party-game server.
//!
//! The verified pieces: the wire codec, player identities, the session
//! context that routes client events into per-player action queues and a
//! general queue, the tick gate that paces action delivery, the decisions of
//! a per-connection handler, the TLS address policy, the player records that
//! the simulation loop keeps, and player votes.
pub mod action;
pub mod client;
pub mod event;
pub mod listener;
pub mod network;
pub mod player;
pub mod roster;
pub mod timer;
pub mod vote;

pub use action::{ActionEvent, PlayerAction};
pub use client::{ClientPhase, ClientSession, ClientStep};
pub use event::{
    decode_connect_event, decode_message, EventMessage, GeneralEvent, NetworkEvent,
};
pub use listener::{is_private_address, use_tls, PeerAddress, Port, TLSCertificate};
pub use network::{Delivery, NetworkContext, EVENT_CHANNEL_BUF_SIZE};
pub use player::{Player, PlayerId, PlayerIdGenerator, MAX_PLAYERS};
pub use roster::{
    handle_action_message, handle_general_message, ConnectedPlayers, DisconnectedPlayers,
    GameState, Players,
};
pub use timer::{EventTimer, HOLD_TIME_MICROS};
pub use vote::{PlayerVote, VoteEvent};
