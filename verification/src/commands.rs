//! The messages that players and the game exchange, and the pair of channel
//! ends over which they travel.

use vstd::prelude::*;

verus! {

/// `flume::Sender`, the sending end of a channel, carried through opaquely.
#[verifier::external_type_specification]
#[verifier::external_body]
#[verifier::reject_recursive_types(T)]
pub struct ExSender<T>(flume::Sender<T>);

/// `flume::Receiver`, the receiving end of a channel, carried through opaquely.
#[verifier::external_type_specification]
#[verifier::external_body]
#[verifier::reject_recursive_types(T)]
pub struct ExReceiver<T>(flume::Receiver<T>);

/// `flume::Sender::clone` hands out one more sending end of the same channel.
/// Nothing about the channel is modelled here, so nothing is claimed of the
/// result beyond its type.
pub assume_specification<T>[ <flume::Sender<T> as Clone>::clone ](s: &flume::Sender<T>) -> flume::Sender<T>;

/// `flume::Receiver::clone` hands out one more receiving end of the same
/// channel. As above, nothing is claimed of the result beyond its type.
pub assume_specification<T>[ <flume::Receiver<T> as Clone>::clone ](r: &flume::Receiver<T>) -> flume::Receiver<T>;

/// Marks the channel pair on which the game talks to the players.
#[derive(Default, Clone, Copy, PartialEq, Eq, Debug)]
pub struct Server;

/// Marks the channel pair on which the players talk to the game.
#[derive(Default, Clone, Copy, PartialEq, Eq, Debug)]
pub struct Client;

/// The two ends of a channel of text messages, tagged with the side they
/// belong to.
#[derive(Clone)]
pub struct Comms<T> {
    pub comm_type: T,
    pub send: flume::Sender<String>,
    pub recv: flume::Receiver<String>,
}

/// Wraps a channel pair as the game's side of the conversation.
pub fn server_comms(input: (flume::Sender<String>, flume::Receiver<String>)) -> (c: Comms<Server>)
    ensures
        c.comm_type == Server,
        c.send == input.0,
        c.recv == input.1,
{
    Comms { comm_type: Server, send: input.0, recv: input.1 }
}

/// Wraps a channel pair as the players' side of the conversation.
pub fn client_comms(input: (flume::Sender<String>, flume::Receiver<String>)) -> (c: Comms<Client>)
    ensures
        c.comm_type == Client,
        c.send == input.0,
        c.recv == input.1,
{
    Comms { comm_type: Client, send: input.0, recv: input.1 }
}

/// What a player asks to build.
#[derive(Clone, Copy, PartialEq, Eq, Debug, Structural)]
pub enum BuildType {
    Turret,
    Stun,
}

/// A player's request to build at map position (`x`, `y`).
#[derive(Clone, Copy, PartialEq, Eq, Debug, Structural)]
pub struct BuildCommand {
    pub build_type: BuildType,
    pub x: u32,
    pub y: u32,
}

/// What happened in the game.
#[derive(Clone, Copy, PartialEq, Eq, Debug, Structural)]
pub enum EventType {
    Killed,
}

/// A report to the players of something that happened at map position (`x`, `y`).
#[derive(Clone, Copy, PartialEq, Eq, Debug, Structural)]
pub struct ClientEvent {
    pub event_type: EventType,
    pub x: u32,
    pub y: u32,
}

impl ClientEvent {
    /// The report that an enemy was removed at (`x`, `y`).
    pub fn killed(x: u32, y: u32) -> (e: ClientEvent)
        ensures
            e == (ClientEvent { event_type: EventType::Killed, x, y }),
    {
        ClientEvent { event_type: EventType::Killed, x, y }
    }
}

} // verus!
