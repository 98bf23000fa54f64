//! What a session asks of the world around it, and what it is told in return.

use vstd::prelude::*;

use crate::error::{FailureModel, NetplayError};
use crate::message::{MessageModel, NetplayMessage};
use crate::settings::{GameSettings, SettingsModel};
use crate::wait::{passed_over, Incoming, IncomingModel};

verus! {

/// The seconds within which the server must take the connection.
pub const CONNECT_SECS: u64 = 5;

/// The seconds within which the server must answer a request.
pub const REPLY_SECS: u64 = 10;

/// The seconds for which a guest waits for the game to begin, and a host for a player.
pub const LOBBY_SECS: u64 = 300;

/// The seconds for which a host waits for an answer to its question for the players.
pub const POLL_SECS: u64 = 3;

/// A game's ROM, as far as the server is told of it.
#[derive(Debug)]
pub struct Rom {
    pub hash: String,
    pub name: String,
}

/// What a [`Rom`] says.
pub struct RomModel {
    pub hash: Seq<char>,
    pub name: Seq<char>,
}

impl View for Rom {
    type V = RomModel;

    open spec fn view(&self) -> RomModel {
        RomModel { hash: self.hash@, name: self.name@ }
    }
}

impl DeepView for Rom {
    type V = RomModel;

    open spec fn deep_view(&self) -> RomModel {
        self.view()
    }
}

/// How an attempt to connect went.
#[derive(Debug)]
pub enum Connection {
    /// There is a plain connection to the server at this address.
    Plain(String),
    /// There is an encrypted connection.
    Encrypted,
    /// There is a plain connection, but the server's address could not be found out.
    PeerUnknown(String),
    /// The attempt failed, with the transport's own words.
    Failed(String),
    /// The server did not answer in time.
    TimedOut,
}

/// What a [`Connection`] says.
pub enum ConnectionModel {
    Plain(Seq<char>),
    Encrypted,
    PeerUnknown(Seq<char>),
    Failed(Seq<char>),
    TimedOut,
}

impl View for Connection {
    type V = ConnectionModel;

    open spec fn view(&self) -> ConnectionModel {
        match self {
            Connection::Plain(peer) => ConnectionModel::Plain(peer@),
            Connection::Encrypted => ConnectionModel::Encrypted,
            Connection::PeerUnknown(cause) => ConnectionModel::PeerUnknown(cause@),
            Connection::Failed(cause) => ConnectionModel::Failed(cause@),
            Connection::TimedOut => ConnectionModel::TimedOut,
        }
    }
}

/// The server's address, which a session needs a plain connection for.
pub open spec fn connection_result(connection: ConnectionModel) -> Result<Seq<char>, FailureModel> {
    match connection {
        ConnectionModel::Plain(peer) => Ok(peer),
        ConnectionModel::Encrypted => Err(FailureModel::TlsUnsupported),
        ConnectionModel::PeerUnknown(cause) => Err(FailureModel::PeerAddress(cause)),
        ConnectionModel::Failed(cause) => Err(FailureModel::ConnectFailed(cause)),
        ConnectionModel::TimedOut => Err(FailureModel::ConnectTimedOut),
    }
}

/// The server's address, which a session needs a plain connection for.
pub fn peer_of(connection: Connection) -> (r: Result<String, NetplayError>)
    ensures
        match r {
            Ok(peer) => connection_result(connection@) == Ok::<Seq<char>, FailureModel>(peer@),
            Err(error) => connection_result(connection@) == Err::<Seq<char>, FailureModel>(error@),
        },
{
    match connection {
        Connection::Plain(peer) => Ok(peer),
        Connection::Encrypted => Err(NetplayError::TlsUnsupported),
        Connection::PeerUnknown(cause) => Err(NetplayError::PeerAddress(cause)),
        Connection::Failed(cause) => Err(NetplayError::ConnectFailed(cause)),
        Connection::TimedOut => Err(NetplayError::ConnectTimedOut),
    }
}

/// What a session is told.
#[derive(Debug)]
pub enum Event {
    /// The ROM was read, or could not be.
    Rom(Option<Rom>),
    /// An attempt to connect was made.
    Connection(Connection),
    /// A message was sent, or could not be.
    Delivery(Result<(), String>),
    /// The session listened to the server.
    Heard(Incoming),
    /// The session asked for the players and listened to the server; the number is that of the
    /// whole milliseconds since its first poll began.
    Polled(Incoming, u64),
}

/// What an [`Event`] says.
pub enum EventModel {
    Rom(Option<RomModel>),
    Connection(ConnectionModel),
    Delivery(Result<(), Seq<char>>),
    Heard(IncomingModel),
    Polled(IncomingModel, u64),
}

impl View for Event {
    type V = EventModel;

    open spec fn view(&self) -> EventModel {
        match self {
            Event::Rom(rom) => EventModel::Rom(rom.deep_view()),
            Event::Connection(connection) => EventModel::Connection(connection@),
            Event::Delivery(delivery) => EventModel::Delivery(
                match delivery {
                    Ok(_) => Ok(()),
                    Err(cause) => Err(cause@),
                },
            ),
            Event::Heard(incoming) => EventModel::Heard(incoming@),
            Event::Polled(incoming, elapsed) => EventModel::Polled(incoming@, *elapsed),
        }
    }
}

/// All that it takes to start the game.
#[derive(Debug)]
pub struct LaunchPlan {
    /// The address of the netplay server, whose port is replaced by `port`.
    pub peer: String,
    pub port: u16,
    pub player_number: u8,
    pub settings: GameSettings,
}

/// What a [`LaunchPlan`] says.
pub struct PlanModel {
    pub peer: Seq<char>,
    pub port: int,
    pub player_number: int,
    pub settings: SettingsModel,
}

impl View for LaunchPlan {
    type V = PlanModel;

    open spec fn view(&self) -> PlanModel {
        PlanModel {
            peer: self.peer@,
            port: self.port as int,
            player_number: self.player_number as int,
            settings: self.settings@,
        }
    }
}

/// What a session asks for.
#[derive(Debug)]
pub enum Action {
    /// Read the ROM.
    ReadRom,
    /// Connect to the server at this URL within so many seconds.
    Connect(String, u64),
    /// Send this message.
    Send(NetplayMessage),
    /// Listen to the server: until so many seconds from now, or, without a number, as long as the
    /// last number allows.
    Listen(Option<u64>),
    /// Send this request, whether or not it arrives, and listen to the server for so many seconds.
    /// The time that [`Event::Polled`] reports counts from the start of the poll that is marked as
    /// the first.
    Poll { request: NetplayMessage, wait_secs: u64, first: bool },
    /// Start the game.
    Launch(LaunchPlan),
    /// Give up.
    Fail(NetplayError),
}

/// What an [`Action`] says.
pub enum ActionModel {
    ReadRom,
    Connect(Seq<char>, u64),
    Send(MessageModel),
    Listen(Option<u64>),
    Poll { request: MessageModel, wait_secs: u64, first: bool },
    Launch(PlanModel),
    Fail(FailureModel),
}

impl View for Action {
    type V = ActionModel;

    open spec fn view(&self) -> ActionModel {
        match self {
            Action::ReadRom => ActionModel::ReadRom,
            Action::Connect(url, secs) => ActionModel::Connect(url@, *secs),
            Action::Send(message) => ActionModel::Send(message@),
            Action::Listen(secs) => ActionModel::Listen(*secs),
            Action::Poll { request, wait_secs, first } => {
                ActionModel::Poll { request: request@, wait_secs: *wait_secs, first: *first }
            },
            Action::Launch(plan) => ActionModel::Launch(plan@),
            Action::Fail(error) => ActionModel::Fail(error@),
        }
    }
}

/// The action is a session's last.
pub open spec fn is_last(action: ActionModel) -> bool {
    action is Launch || action is Fail
}

/// The port of a game is the low half of the number that the server gives.
pub open spec fn game_port(port: i32) -> int {
    port as int % 65536
}

/// The port of a game: the low half of the number that the server gives.
pub fn truncate_port(port: i32) -> (r: u16)
    ensures
        r == game_port(port),
{
    assert(port as u16 == port % 65536i32) by (bit_vector);
    #[verifier::truncate]
    let r: u16 = port as u16;
    r
}

/// Event `at` is that of a plain connection to the server at `peer`.
pub open spec fn connected_at(trace: Seq<(EventModel, i64)>, at: int, peer: Seq<char>) -> bool {
    0 <= at < trace.len() && trace[at].0 == EventModel::Connection(ConnectionModel::Plain(peer))
}

/// The message that a session heard, if it heard one.
pub open spec fn message_of(event: EventModel) -> Option<MessageModel> {
    match event {
        EventModel::Heard(IncomingModel::Message(message)) => Some(message),
        _ => None,
    }
}

/// A wait for a message of type `expected` passes over all that was heard from event `from` on and
/// before event `to`.
pub open spec fn passed_over_between(
    expected: Seq<char>,
    trace: Seq<(EventModel, i64)>,
    from: int,
    to: int,
) -> bool {
    forall|i: int|
        from <= i < to && (#[trigger] trace[i]).0 is Heard ==> passed_over(
            expected,
            trace[i].0->Heard_0,
        )
}

/// The events from `from` on and before `to` are things heard that a wait for a message of type
/// `expected` passes over.
pub open spec fn idle_between(
    expected: Seq<char>,
    trace: Seq<(EventModel, i64)>,
    from: int,
    to: int,
) -> bool {
    &&& forall|i: int| from <= i < to ==> (#[trigger] trace[i]).0 is Heard
    &&& passed_over_between(expected, trace, from, to)
}

/// What was passed over without the last event is passed over with it.
pub(crate) proof fn lemma_passed_over_prefix(
    expected: Seq<char>,
    trace: Seq<(EventModel, i64)>,
    from: int,
    to: int,
)
    requires
        0 <= from,
        to < trace.len(),
        passed_over_between(expected, trace.drop_last(), from, to),
    ensures
        passed_over_between(expected, trace, from, to),
{
    let front = trace.drop_last();
    assert forall|i: int| from <= i < to && (#[trigger] trace[i]).0 is Heard implies passed_over(
        expected,
        trace[i].0->Heard_0,
    ) by {
        assert(front[i] == trace[i]);
    }
}

/// A ROM, a connection and an event say all that they carry.
pub proof fn law_events_say_what_they_carry(
    rom: Rom,
    connection: Connection,
    incoming: Incoming,
    text: String,
    elapsed: u64,
)
    ensures
        rom@ == (RomModel { hash: rom.hash@, name: rom.name@ }),
        Connection::Plain(text)@ == ConnectionModel::Plain(text@),
        Connection::Encrypted@ == ConnectionModel::Encrypted,
        Connection::PeerUnknown(text)@ == ConnectionModel::PeerUnknown(text@),
        Connection::Failed(text)@ == ConnectionModel::Failed(text@),
        Connection::TimedOut@ == ConnectionModel::TimedOut,
        Event::Rom(Some(rom))@ == EventModel::Rom(Some(rom@)),
        Event::Rom(None)@ == EventModel::Rom(None),
        Event::Connection(connection)@ == EventModel::Connection(connection@),
        Event::Delivery(Ok(()))@ == EventModel::Delivery(Ok(())),
        Event::Delivery(Err(text))@ == EventModel::Delivery(Err(text@)),
        Event::Heard(incoming)@ == EventModel::Heard(incoming@),
        Event::Polled(incoming, elapsed)@ == EventModel::Polled(incoming@, elapsed),
{
}

/// An action and a plan say all that they carry.
pub proof fn law_actions_say_what_they_carry(
    text: String,
    secs: u64,
    limit: Option<u64>,
    message: NetplayMessage,
    first: bool,
    plan: LaunchPlan,
    error: NetplayError,
)
    ensures
        Action::ReadRom@ == ActionModel::ReadRom,
        Action::Connect(text, secs)@ == ActionModel::Connect(text@, secs),
        Action::Send(message)@ == ActionModel::Send(message@),
        Action::Listen(limit)@ == ActionModel::Listen(limit),
        (Action::Poll { request: message, wait_secs: secs, first })@ == (ActionModel::Poll {
            request: message@,
            wait_secs: secs,
            first,
        }),
        Action::Launch(plan)@ == ActionModel::Launch(plan@),
        Action::Fail(error)@ == ActionModel::Fail(error@),
        plan@ == (PlanModel {
            peer: plan.peer@,
            port: plan.port as int,
            player_number: plan.player_number as int,
            settings: plan.settings@,
        }),
{
}

/// Only a plain connection whose peer is known gives an address, and it gives that peer's; each of
/// the others fails in its own way, with its cause.
pub proof fn law_only_plain_connections_serve(text: Seq<char>)
    ensures
        connection_result(ConnectionModel::Plain(text)) == Ok::<Seq<char>, FailureModel>(text),
        connection_result(ConnectionModel::Encrypted) == Err::<Seq<char>, FailureModel>(
            FailureModel::TlsUnsupported,
        ),
        connection_result(ConnectionModel::PeerUnknown(text)) == Err::<Seq<char>, FailureModel>(
            FailureModel::PeerAddress(text),
        ),
        connection_result(ConnectionModel::Failed(text)) == Err::<Seq<char>, FailureModel>(
            FailureModel::ConnectFailed(text),
        ),
        connection_result(ConnectionModel::TimedOut) == Err::<Seq<char>, FailureModel>(
            FailureModel::ConnectTimedOut,
        ),
{
}

/// The port of a game is a port, it differs from the number that the server gives by a multiple of
/// the number of ports, and a number that is a port is kept.
pub proof fn law_game_port_is_the_low_half(port: i32)
    ensures
        0 <= game_port(port) <= 65535,
        exists|rounds: int| port == game_port(port) + #[trigger] (rounds * 65536),
        0 <= port <= 65535 ==> game_port(port) == port,
{
    let rounds = port as int / 65536;
    assert(port == game_port(port) + rounds * 65536);
}

} // verus!
