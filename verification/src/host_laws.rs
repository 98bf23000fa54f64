//! What a host's session does with each thing that it is told.

use vstd::prelude::*;
use vstd::utf8::encode_utf8;

use crate::auth::{law_token_is_digest_of_one_text, sha256};
use crate::error::FailureModel;
use crate::host::{
    host_answers, host_next, room_title, HostConfig, HostConfigModel, HostOptions, HostPhase,
    HostPhaseModel,
};
use crate::message::{room_request, MessageModel, RoomModel};
use crate::session::{ActionModel, ConnectionModel, EventModel, PlanModel, RomModel};
use crate::settings::SettingsModel;
use crate::text::{integer_numeral, law_integer_numerals_differ, lower_hex};
use crate::url::server_url;
use crate::wait::IncomingModel;

verus! {

/// What a host wants is kept; a host without a name is called `Host`.
pub proof fn law_host_options_are_kept(options: HostOptions)
    ensures
        ({
            let config = options.resolved();
            &&& config.server_addr == options.server_addr@
            &&& config.rom_path == options.rom_path@
            &&& config.client_sha == options.client_sha@
            &&& config.fullscreen == options.fullscreen
            &&& options.player_name is Some ==> config.player_name == options.player_name->0@
            &&& options.player_name is None ==> config.player_name == "Host"@
            &&& options.room_name is Some ==> config.room_name == Some(options.room_name->0@)
            &&& options.room_name is None ==> config.room_name is None
        }),
{
}

/// A room has the name that the host chose, or else `[OB]` and the game's name.
pub proof fn law_room_is_named_by_host_or_game(config: HostConfigModel, game_name: Seq<char>)
    ensures
        config.room_name is Some ==> room_title(config, game_name) == config.room_name->0,
        config.room_name is None ==> room_title(config, game_name) == "[OB] "@ + game_name,
{
}

/// What a host wants says what each of its fields holds.
pub proof fn law_host_config_says_its_fields(config: HostConfig)
    ensures
        config@.server_addr == config.server_addr@,
        config@.rom_path == config.rom_path@,
        config@.client_sha == config.client_sha@,
        config@.fullscreen == config.fullscreen,
        config@.player_name == config.player_name@,
        config@.room_name == config.room_name.deep_view(),
{
}

/// A host without a ROM gives up and names the ROM's path; a host with one connects to its server,
/// which has five seconds to answer.
pub proof fn law_host_connects_once_the_rom_is_read(
    config: HostConfigModel,
    rom: RomModel,
    now: i64,
)
    ensures
        host_next(config, HostPhaseModel::LoadingRom, EventModel::Rom(None), now) == (
            HostPhaseModel::Over,
            ActionModel::Fail(FailureModel::RomUnreadable(config.rom_path)),
        ),
        host_next(config, HostPhaseModel::LoadingRom, EventModel::Rom(Some(rom)), now) == (
            HostPhaseModel::Connecting { game_hash: rom.hash, game_name: rom.name },
            ActionModel::Connect(server_url(config.server_addr), 5),
        ),
{
}

/// On a plain connection a host sends one request. It states the host's own name and build, the time
/// at which it is made, and the token for that time.
pub proof fn law_host_request_states(
    config: HostConfigModel,
    game_hash: Seq<char>,
    game_name: Seq<char>,
    peer: Seq<char>,
    now: i64,
)
    ensures
        ({
            let phase = HostPhaseModel::Connecting { game_hash, game_name };
            let event = EventModel::Connection(ConnectionModel::Plain(peer));
            let (after, action) = host_next(config, phase, event, now);
            &&& after == HostPhaseModel::Requesting { peer }
            &&& action matches ActionModel::Send(message)
            &&& message == (MessageModel {
                    message_type: "request_create_room"@,
                    player_name: Some(config.player_name),
                    client_sha: Some(config.client_sha),
                    netplay_version: Some(17i32),
                    emulator: Some("gopher64"@),
                    room: message.room,
                    accept: None,
                    message: None,
                    auth: Some(
                        lower_hex(
                            sha256(encode_utf8(integer_numeral(now as int) + "gopher64"@)),
                        ),
                    ),
                    player_names: None,
                    auth_time: Some(integer_numeral(now as int)),
                    rooms: None,
                })
            &&& message.room matches Some(room)
            &&& room.room_name == Some(
                if config.room_name is Some {
                    config.room_name->0
                } else {
                    "[OB] "@ + game_name
                },
            )
            &&& room.password == Some(Seq::<char>::empty())
            &&& room.protected is None
            &&& room.md5 == Some(game_hash)
            &&& room.game_name == Some(game_name)
            &&& room.port is None
            &&& room.buffer_target is None
            &&& room.features == Some(
                Map::<Seq<char>, Seq<char>>::empty().insert("overclock"@, "false"@).insert(
                    "disable_expansion_pak"@,
                    "false"@,
                ),
            )
        }),
{
    law_token_is_digest_of_one_text(integer_numeral(now as int));
}

/// Requests that a host makes at different times state different times.
pub proof fn law_host_requests_at_different_times_differ(
    config: HostConfigModel,
    game_hash: Seq<char>,
    game_name: Seq<char>,
    peer: Seq<char>,
    earlier: i64,
    later: i64,
)
    requires
        earlier != later,
    ensures
        ({
            let phase = HostPhaseModel::Connecting { game_hash, game_name };
            let event = EventModel::Connection(ConnectionModel::Plain(peer));
            let one = host_next(config, phase, event, earlier).1;
            let other = host_next(config, phase, event, later).1;
            one->Send_0.auth_time != other->Send_0.auth_time
        }),
{
    law_integer_numerals_differ(earlier as int, later as int);
}

/// Without a plain connection a host gives up, and tells what came instead.
pub proof fn law_host_needs_a_plain_connection(
    config: HostConfigModel,
    game_hash: Seq<char>,
    game_name: Seq<char>,
    cause: Seq<char>,
    now: i64,
)
    ensures
        ({
            let phase = HostPhaseModel::Connecting { game_hash, game_name };
            let over = |failure: FailureModel|
                (HostPhaseModel::Over, ActionModel::Fail(failure));
            let next = |connection: ConnectionModel|
                host_next(config, phase, EventModel::Connection(connection), now);
            &&& next(ConnectionModel::Encrypted) == over(FailureModel::TlsUnsupported)
            &&& next(ConnectionModel::PeerUnknown(cause)) == over(FailureModel::PeerAddress(cause))
            &&& next(ConnectionModel::Failed(cause)) == over(FailureModel::ConnectFailed(cause))
            &&& next(ConnectionModel::TimedOut) == over(FailureModel::ConnectTimedOut)
        }),
{
}

/// Once its request is out a host listens for ten seconds for the reply; if the request is not out
/// it gives up.
pub proof fn law_host_listens_once_the_request_is_out(
    config: HostConfigModel,
    peer: Seq<char>,
    cause: Seq<char>,
    now: i64,
)
    ensures
        ({
            let phase = HostPhaseModel::Requesting { peer };
            &&& host_next(config, phase, EventModel::Delivery(Ok(())), now) == (
                HostPhaseModel::AwaitingCreate { peer },
                ActionModel::Listen(Some(10u64)),
            )
            &&& host_next(config, phase, EventModel::Delivery(Err(cause)), now) == (
                HostPhaseModel::Over,
                ActionModel::Fail(FailureModel::SendFailed(cause)),
            )
        }),
{
}

/// While it waits for `reply_create_room` a host passes over unreadable things and messages of other
/// types without a change, and gives up when the connection ends or 10 seconds are over.
pub proof fn law_host_waits_for_the_room(
    config: HostConfigModel,
    phase: HostPhaseModel,
    message: MessageModel,
    cause: Seq<char>,
    now: i64,
)
    requires
        phase is AwaitingCreate,
        message.message_type != "reply_create_room"@,
    ensures
        ({
            let over = |failure: FailureModel|
                (HostPhaseModel::Over, ActionModel::Fail(failure));
            let next = |incoming: IncomingModel|
                host_next(config, phase, EventModel::Heard(incoming), now);
            &&& next(IncomingModel::Message(message)) == (phase, ActionModel::Listen(None))
            &&& next(IncomingModel::Unreadable) == (phase, ActionModel::Listen(None))
            &&& next(IncomingModel::Failed(cause)) == over(FailureModel::StreamFailed(cause))
            &&& next(IncomingModel::Closed) == over(FailureModel::StreamClosed)
            &&& next(IncomingModel::TimedOut) == over(
                FailureModel::WaitTimedOut("reply_create_room"@, 10),
            )
        }),
{
}

/// While it waits for `reply_begin_game` a host passes over unreadable things and messages of other
/// types without a change, and gives up when the connection ends or 10 seconds are over.
pub proof fn law_host_waits_for_the_game(
    config: HostConfigModel,
    phase: HostPhaseModel,
    message: MessageModel,
    cause: Seq<char>,
    now: i64,
)
    requires
        phase is AwaitingBegin,
        message.message_type != "reply_begin_game"@,
    ensures
        ({
            let over = |failure: FailureModel|
                (HostPhaseModel::Over, ActionModel::Fail(failure));
            let next = |incoming: IncomingModel|
                host_next(config, phase, EventModel::Heard(incoming), now);
            &&& next(IncomingModel::Message(message)) == (phase, ActionModel::Listen(None))
            &&& next(IncomingModel::Unreadable) == (phase, ActionModel::Listen(None))
            &&& next(IncomingModel::Failed(cause)) == over(FailureModel::StreamFailed(cause))
            &&& next(IncomingModel::Closed) == over(FailureModel::StreamClosed)
            &&& next(IncomingModel::TimedOut) == over(
                FailureModel::WaitTimedOut("reply_begin_game"@, 10),
            )
        }),
{
}

/// A reply to the create request whose `accept` is zero and whose room has a port opens the room,
/// whatever else the reply and the room say: the host asks at once for the players on that port,
/// listens for three seconds, and knows no number of players yet.
pub proof fn law_host_room_is_opened_by_accept_and_port(
    config: HostConfigModel,
    peer: Seq<char>,
    reply: MessageModel,
    room: RoomModel,
    port: i32,
    now: i64,
)
    requires
        reply.message_type == "reply_create_room"@,
        reply.accept == Some(0i32),
        reply.room == Some(room),
        room.port == Some(port),
    ensures
        ({
            let phase = HostPhaseModel::AwaitingCreate { peer };
            let event = EventModel::Heard(IncomingModel::Message(reply));
            host_next(config, phase, event, now) == (
                HostPhaseModel::Polling { peer, port, baseline: None },
                ActionModel::Poll {
                    request: room_request("request_players"@, port),
                    wait_secs: 3,
                    first: true,
                },
            )
        }),
{
}

/// A reply to the create request that does not open a room ends the session: it is refused without
/// a zero `accept`, and of a room and its port none may be missing.
pub proof fn law_host_gives_up_without_accept_room_or_port(
    config: HostConfigModel,
    peer: Seq<char>,
    reply: MessageModel,
    now: i64,
)
    requires
        reply.message_type == "reply_create_room"@,
        reply.accept != Some(0i32) || reply.room is None || reply.room->0.port is None,
    ensures
        ({
            let phase = HostPhaseModel::AwaitingCreate { peer };
            let event = EventModel::Heard(IncomingModel::Message(reply));
            let failure = if reply.accept != Some(0i32) {
                FailureModel::CreateRejected(
                    if reply.message is Some {
                        reply.message->0
                    } else {
                        "Room creation rejected"@
                    },
                )
            } else if reply.room is None {
                FailureModel::MissingRoom("reply_create_room"@)
            } else {
                FailureModel::MissingPort("reply_create_room"@)
            };
            host_next(config, phase, event, now) == (
                HostPhaseModel::Over,
                ActionModel::Fail(failure),
            )
        }),
{
}

/// An answer with more players than the first answer had makes the host ask for the game in its
/// room, at whatever time it comes; any other answer makes it ask for the players again. The first
/// answer gives the number to compare with, which stays.
pub proof fn law_host_begins_when_a_player_joins(
    config: HostConfigModel,
    peer: Seq<char>,
    port: i32,
    initial: nat,
    message: MessageModel,
    names: Seq<Seq<char>>,
    elapsed: u64,
    now: i64,
)
    requires
        message.message_type == "reply_players"@,
        message.player_names == Some(names),
    ensures
        ({
            let count = names.filter(|name: Seq<char>| name.len() > 0).len();
            let event = EventModel::Polled(IncomingModel::Message(message), elapsed);
            let known = HostPhaseModel::Polling { peer, port, baseline: Some(initial) };
            let unknown = HostPhaseModel::Polling { peer, port, baseline: None };
            let again = ActionModel::Poll {
                request: room_request("request_players"@, port),
                wait_secs: 3,
                first: false,
            };
            &&& count > initial ==> host_next(config, known, event, now) == (
                HostPhaseModel::Beginning { peer, port },
                ActionModel::Send(room_request("request_begin_game"@, port)),
            )
            &&& count <= initial ==> host_next(config, known, event, now) == (known, again)
            &&& host_next(config, unknown, event, now) == (
                HostPhaseModel::Polling { peer, port, baseline: Some(count) },
                again,
            )
        }),
{
}

/// An answer without names counts as one with no players, at whatever time it comes.
pub proof fn law_host_counts_nobody_without_names(
    config: HostConfigModel,
    peer: Seq<char>,
    port: i32,
    baseline: Option<nat>,
    message: MessageModel,
    elapsed: u64,
    now: i64,
)
    requires
        message.message_type == "reply_players"@,
        message.player_names is None,
    ensures
        ({
            let event = EventModel::Polled(IncomingModel::Message(message), elapsed);
            host_next(config, HostPhaseModel::Polling { peer, port, baseline }, event, now) == (
                HostPhaseModel::Polling {
                    peer,
                    port,
                    baseline: if baseline is Some {
                        baseline
                    } else {
                        Some(0nat)
                    },
                },
                ActionModel::Poll {
                    request: room_request("request_players"@, port),
                    wait_secs: 3,
                    first: false,
                },
            )
        }),
{
}

/// While it polls, a host asks again after anything that is no answer, gives up when the connection
/// ends, and after silence asks for the game exactly if three hundred seconds have passed.
pub proof fn law_host_polls_on_until_the_limit(
    config: HostConfigModel,
    peer: Seq<char>,
    port: i32,
    baseline: Option<nat>,
    message: MessageModel,
    cause: Seq<char>,
    elapsed: u64,
    now: i64,
)
    requires
        message.message_type != "reply_players"@,
    ensures
        ({
            let phase = HostPhaseModel::Polling { peer, port, baseline };
            let again = (
                phase,
                ActionModel::Poll {
                    request: room_request("request_players"@, port),
                    wait_secs: 3,
                    first: false,
                },
            );
            let over = |failure: FailureModel|
                (HostPhaseModel::Over, ActionModel::Fail(failure));
            let next = |incoming: IncomingModel|
                host_next(config, phase, EventModel::Polled(incoming, elapsed), now);
            &&& next(IncomingModel::Message(message)) == again
            &&& next(IncomingModel::Unreadable) == again
            &&& next(IncomingModel::Failed(cause)) == over(FailureModel::StreamFailed(cause))
            &&& next(IncomingModel::Closed) == over(FailureModel::StreamClosed)
            &&& elapsed < 300_000 ==> next(IncomingModel::TimedOut) == again
            &&& elapsed >= 300_000 ==> next(IncomingModel::TimedOut) == (
                HostPhaseModel::Beginning { peer, port },
                ActionModel::Send(room_request("request_begin_game"@, port)),
            )
        }),
{
}

/// Once its request for the game is out a host listens for ten seconds for the reply; if the
/// request is not out it gives up.
pub proof fn law_host_listens_once_it_has_asked_for_the_game(
    config: HostConfigModel,
    peer: Seq<char>,
    port: i32,
    cause: Seq<char>,
    now: i64,
)
    ensures
        ({
            let phase = HostPhaseModel::Beginning { peer, port };
            &&& host_next(config, phase, EventModel::Delivery(Ok(())), now) == (
                HostPhaseModel::AwaitingBegin { peer, port },
                ActionModel::Listen(Some(10u64)),
            )
            &&& host_next(config, phase, EventModel::Delivery(Err(cause)), now) == (
                HostPhaseModel::Over,
                ActionModel::Fail(FailureModel::SendFailed(cause)),
            )
        }),
{
}

/// A reply to begin the game starts it for a host exactly if its `accept` is zero, whatever else it
/// says: as the first player, at the peer's address with the low half of the room's number for its
/// port, with both switches off and without cheats. If not, the host gives up.
pub proof fn law_host_starts_exactly_when_accepted(
    config: HostConfigModel,
    peer: Seq<char>,
    port: i32,
    reply: MessageModel,
    now: i64,
)
    requires
        reply.message_type == "reply_begin_game"@,
    ensures
        ({
            let phase = HostPhaseModel::AwaitingBegin { peer, port };
            let event = EventModel::Heard(IncomingModel::Message(reply));
            let reason = if reply.message is Some {
                reply.message->0
            } else {
                "Begin game rejected"@
            };
            &&& reply.accept == Some(0i32) ==> host_next(config, phase, event, now) == (
                HostPhaseModel::Over,
                ActionModel::Launch(
                    PlanModel {
                        peer,
                        port: port as int % 65536,
                        player_number: 0,
                        settings: SettingsModel {
                            fullscreen: config.fullscreen,
                            overclock: false,
                            disable_expansion_pak: false,
                            cheats: Map::empty(),
                        },
                    },
                ),
            )
            &&& reply.accept != Some(0i32) ==> host_next(config, phase, event, now) == (
                HostPhaseModel::Over,
                ActionModel::Fail(FailureModel::BeginRejected(reason)),
            )
        }),
{
}

/// In each phase a host's session takes every event of one kind, and no other.
pub proof fn law_host_takes_the_events_it_asked_for(
    event: EventModel,
    text: Seq<char>,
    game_name: Seq<char>,
    port: i32,
    baseline: Option<nat>,
)
    ensures
        host_answers(HostPhaseModel::LoadingRom, event) <==> event is Rom,
        host_answers(HostPhaseModel::Connecting { game_hash: text, game_name }, event) <==> event
            is Connection,
        host_answers(HostPhaseModel::Requesting { peer: text }, event) <==> event is Delivery,
        host_answers(HostPhaseModel::AwaitingCreate { peer: text }, event) <==> event is Heard,
        host_answers(HostPhaseModel::Polling { peer: text, port, baseline }, event) <==> event
            is Polled,
        host_answers(HostPhaseModel::Beginning { peer: text, port }, event) <==> event is Delivery,
        host_answers(HostPhaseModel::AwaitingBegin { peer: text, port }, event) <==> event
            is Heard,
        !host_answers(HostPhaseModel::Over, event),
{
}

/// A phase of a host's session says all that it carries.
pub proof fn law_host_phases_say_what_they_carry(
    text: String,
    game_name: String,
    port: i32,
    count: usize,
)
    ensures
        HostPhase::LoadingRom@ == HostPhaseModel::LoadingRom,
        (HostPhase::Connecting { game_hash: text, game_name })@ == (HostPhaseModel::Connecting {
            game_hash: text@,
            game_name: game_name@,
        }),
        (HostPhase::Requesting { peer: text })@ == (HostPhaseModel::Requesting { peer: text@ }),
        (HostPhase::AwaitingCreate { peer: text })@ == (HostPhaseModel::AwaitingCreate {
            peer: text@,
        }),
        (HostPhase::Polling { peer: text, port, baseline: None })@ == (HostPhaseModel::Polling {
            peer: text@,
            port,
            baseline: None,
        }),
        (HostPhase::Polling { peer: text, port, baseline: Some(count) })@ == (
        HostPhaseModel::Polling { peer: text@, port, baseline: Some(count as nat) }),
        (HostPhase::Beginning { peer: text, port })@ == (HostPhaseModel::Beginning {
            peer: text@,
            port,
        }),
        (HostPhase::AwaitingBegin { peer: text, port })@ == (HostPhaseModel::AwaitingBegin {
            peer: text@,
            port,
        }),
        HostPhase::Over@ == HostPhaseModel::Over,
{
}

} // verus!
