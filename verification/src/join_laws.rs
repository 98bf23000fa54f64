//! What a guest's session does with each thing that it is told.

use vstd::prelude::*;
use vstd::utf8::encode_utf8;

use crate::auth::{law_token_is_digest_of_one_text, sha256};
use crate::error::FailureModel;
use crate::join::{
    join_answers, join_next, JoinConfig, JoinConfigModel, JoinOptions, JoinPhase, JoinPhaseModel,
};
use crate::message::{MessageModel, RoomModel};
use crate::reply::law_guest_begin_reply_is_read_by_its_fields;
use crate::session::{ActionModel, ConnectionModel, EventModel, PlanModel, RomModel};
use crate::settings::{json_string_map, GameSettings, SettingsModel};
use crate::text::{integer_numeral, law_integer_numerals_differ, lower_hex};
use crate::url::server_url;
use crate::wait::IncomingModel;

verus! {

/// What a guest wants is kept; a guest without a name is called `Player`, and one without a port
/// looks for the room on port 45001.
pub proof fn law_guest_options_are_kept(options: JoinOptions)
    ensures
        ({
            let config = options.resolved();
            &&& config.server_addr == options.server_addr@
            &&& config.rom_path == options.rom_path@
            &&& config.client_sha == options.client_sha@
            &&& config.fullscreen == options.fullscreen
            &&& options.player_name is Some ==> config.player_name == options.player_name->0@
            &&& options.player_name is None ==> config.player_name == "Player"@
            &&& options.room_port is Some ==> config.room_port == options.room_port->0
            &&& options.room_port is None ==> config.room_port == 45001
        }),
{
}

/// What a guest wants says what each of its fields holds.
pub proof fn law_guest_config_says_its_fields(config: JoinConfig)
    ensures
        config@.server_addr == config.server_addr@,
        config@.rom_path == config.rom_path@,
        config@.client_sha == config.client_sha@,
        config@.fullscreen == config.fullscreen,
        config@.player_name == config.player_name@,
        config@.room_port == config.room_port,
{
}

/// A guest without a ROM gives up and names the ROM's path; a guest with one connects to its server,
/// which has five seconds to answer.
pub proof fn law_guest_connects_once_the_rom_is_read(
    config: JoinConfigModel,
    rom: RomModel,
    now: i64,
)
    ensures
        join_next(config, JoinPhaseModel::LoadingRom, EventModel::Rom(None), now) == (
            JoinPhaseModel::Over,
            ActionModel::Fail(FailureModel::RomUnreadable(config.rom_path)),
        ),
        join_next(config, JoinPhaseModel::LoadingRom, EventModel::Rom(Some(rom)), now) == (
            JoinPhaseModel::Connecting { game_hash: rom.hash },
            ActionModel::Connect(server_url(config.server_addr), 5),
        ),
{
}

/// On a plain connection a guest sends one request. It states the guest's own name and build, the time
/// at which it is made, and the token for that time.
pub proof fn law_guest_request_states(
    config: JoinConfigModel,
    game_hash: Seq<char>,
    peer: Seq<char>,
    now: i64,
)
    ensures
        ({
            let phase = JoinPhaseModel::Connecting { game_hash };
            let event = EventModel::Connection(ConnectionModel::Plain(peer));
            let (after, action) = join_next(config, phase, event, now);
            &&& after == JoinPhaseModel::Requesting { peer }
            &&& action matches ActionModel::Send(message)
            &&& message == (MessageModel {
                    message_type: "request_join_room"@,
                    player_name: Some(config.player_name),
                    client_sha: Some(config.client_sha),
                    netplay_version: Some(17i32),
                    emulator: Some("gopher64"@),
                    room: message.room,
                    accept: None,
                    message: None,
                    auth: Some(
                        lower_hex(
                            sha256(encode_utf8(integer_numeral(now as int) + "gopher64"@)),
                        ),
                    ),
                    player_names: None,
                    auth_time: Some(integer_numeral(now as int)),
                    rooms: None,
                })
            &&& message.room matches Some(room)
            &&& room == (RoomModel {
                room_name: None,
                password: Some(Seq::empty()),
                protected: None,
                md5: Some(game_hash),
                game_name: None,
                port: Some(config.room_port),
                features: None,
                buffer_target: None,
            })
        }),
{
    law_token_is_digest_of_one_text(integer_numeral(now as int));
}

/// Requests that a guest makes at different times state different times.
pub proof fn law_guest_requests_at_different_times_differ(
    config: JoinConfigModel,
    game_hash: Seq<char>,
    peer: Seq<char>,
    earlier: i64,
    later: i64,
)
    requires
        earlier != later,
    ensures
        ({
            let phase = JoinPhaseModel::Connecting { game_hash };
            let event = EventModel::Connection(ConnectionModel::Plain(peer));
            let one = join_next(config, phase, event, earlier).1;
            let other = join_next(config, phase, event, later).1;
            one->Send_0.auth_time != other->Send_0.auth_time
        }),
{
    law_integer_numerals_differ(earlier as int, later as int);
}

/// Without a plain connection a guest gives up, and tells what came instead.
pub proof fn law_guest_needs_a_plain_connection(
    config: JoinConfigModel,
    game_hash: Seq<char>,
    cause: Seq<char>,
    now: i64,
)
    ensures
        ({
            let phase = JoinPhaseModel::Connecting { game_hash };
            let over = |failure: FailureModel|
                (JoinPhaseModel::Over, ActionModel::Fail(failure));
            let next = |connection: ConnectionModel|
                join_next(config, phase, EventModel::Connection(connection), now);
            &&& next(ConnectionModel::Encrypted) == over(FailureModel::TlsUnsupported)
            &&& next(ConnectionModel::PeerUnknown(cause)) == over(FailureModel::PeerAddress(cause))
            &&& next(ConnectionModel::Failed(cause)) == over(FailureModel::ConnectFailed(cause))
            &&& next(ConnectionModel::TimedOut) == over(FailureModel::ConnectTimedOut)
        }),
{
}

/// Once its request is out a guest listens for ten seconds for the reply; if the request is not out
/// it gives up.
pub proof fn law_guest_listens_once_the_request_is_out(
    config: JoinConfigModel,
    peer: Seq<char>,
    cause: Seq<char>,
    now: i64,
)
    ensures
        ({
            let phase = JoinPhaseModel::Requesting { peer };
            &&& join_next(config, phase, EventModel::Delivery(Ok(())), now) == (
                JoinPhaseModel::AwaitingJoin { peer },
                ActionModel::Listen(Some(10u64)),
            )
            &&& join_next(config, phase, EventModel::Delivery(Err(cause)), now) == (
                JoinPhaseModel::Over,
                ActionModel::Fail(FailureModel::SendFailed(cause)),
            )
        }),
{
}

/// While it waits for `reply_join_room` a guest passes over unreadable things and messages of other
/// types without a change, and gives up when the connection ends or 10 seconds are over.
pub proof fn law_guest_waits_for_the_join_reply(
    config: JoinConfigModel,
    phase: JoinPhaseModel,
    message: MessageModel,
    cause: Seq<char>,
    now: i64,
)
    requires
        phase is AwaitingJoin,
        message.message_type != "reply_join_room"@,
    ensures
        ({
            let over = |failure: FailureModel|
                (JoinPhaseModel::Over, ActionModel::Fail(failure));
            let next = |incoming: IncomingModel|
                join_next(config, phase, EventModel::Heard(incoming), now);
            &&& next(IncomingModel::Message(message)) == (phase, ActionModel::Listen(None))
            &&& next(IncomingModel::Unreadable) == (phase, ActionModel::Listen(None))
            &&& next(IncomingModel::Failed(cause)) == over(FailureModel::StreamFailed(cause))
            &&& next(IncomingModel::Closed) == over(FailureModel::StreamClosed)
            &&& next(IncomingModel::TimedOut) == over(
                FailureModel::WaitTimedOut("reply_join_room"@, 10),
            )
        }),
{
}

/// While it waits for `reply_begin_game` a guest passes over unreadable things and messages of other
/// types without a change, and gives up when the connection ends or 300 seconds are over.
pub proof fn law_guest_waits_for_the_game(
    config: JoinConfigModel,
    phase: JoinPhaseModel,
    message: MessageModel,
    cause: Seq<char>,
    now: i64,
)
    requires
        phase is AwaitingBegin,
        message.message_type != "reply_begin_game"@,
    ensures
        ({
            let over = |failure: FailureModel|
                (JoinPhaseModel::Over, ActionModel::Fail(failure));
            let next = |incoming: IncomingModel|
                join_next(config, phase, EventModel::Heard(incoming), now);
            &&& next(IncomingModel::Message(message)) == (phase, ActionModel::Listen(None))
            &&& next(IncomingModel::Unreadable) == (phase, ActionModel::Listen(None))
            &&& next(IncomingModel::Failed(cause)) == over(FailureModel::StreamFailed(cause))
            &&& next(IncomingModel::Closed) == over(FailureModel::StreamClosed)
            &&& next(IncomingModel::TimedOut) == over(
                FailureModel::WaitTimedOut("reply_begin_game"@, 300),
            )
        }),
{
}

/// A reply to the join request whose `accept` is zero and whose room has a port admits the guest,
/// whatever else the reply and the room say: the guest keeps that port and the settings for that
/// room's features, and listens for three hundred seconds for the game.
pub proof fn law_guest_is_admitted_by_accept_and_port(
    config: JoinConfigModel,
    peer: Seq<char>,
    reply: MessageModel,
    room: RoomModel,
    port: i32,
    now: i64,
)
    requires
        reply.message_type == "reply_join_room"@,
        reply.accept == Some(0i32),
        reply.room == Some(room),
        room.port == Some(port),
    ensures
        ({
            let phase = JoinPhaseModel::AwaitingJoin { peer };
            let event = EventModel::Heard(IncomingModel::Message(reply));
            let (after, action) = join_next(config, phase, event, now);
            let on = |key: Seq<char>|
                room.features is Some && room.features->0.contains_key(key)
                    && room.features->0[key] == "true"@;
            let cheats = if room.features is Some && room.features->0.contains_key("cheats"@)
                && json_string_map(room.features->0["cheats"@]) is Some {
                json_string_map(room.features->0["cheats"@])->0
            } else {
                Map::<Seq<char>, Option<Seq<char>>>::empty()
            };
            &&& action == ActionModel::Listen(Some(300u64))
            &&& after == (JoinPhaseModel::AwaitingBegin {
                peer,
                port,
                settings: SettingsModel {
                    fullscreen: config.fullscreen,
                    overclock: on("overclock"@),
                    disable_expansion_pak: on("disable_expansion_pak"@),
                    cheats,
                },
            })
        }),
{
}

/// A reply to the join request that does not admit the guest ends the session: it is refused
/// without a zero `accept`, and of a room and its port none may be missing.
pub proof fn law_guest_gives_up_without_accept_room_or_port(
    config: JoinConfigModel,
    peer: Seq<char>,
    reply: MessageModel,
    now: i64,
)
    requires
        reply.message_type == "reply_join_room"@,
        reply.accept != Some(0i32) || reply.room is None || reply.room->0.port is None,
    ensures
        ({
            let phase = JoinPhaseModel::AwaitingJoin { peer };
            let event = EventModel::Heard(IncomingModel::Message(reply));
            let failure = if reply.accept != Some(0i32) {
                FailureModel::JoinRejected(
                    if reply.message is Some {
                        reply.message->0
                    } else {
                        "Join rejected (unknown reason)"@
                    },
                )
            } else if reply.room is None {
                FailureModel::MissingRoom("reply_join_room"@)
            } else {
                FailureModel::MissingPort("reply_join_room"@)
            };
            join_next(config, phase, event, now) == (
                JoinPhaseModel::Over,
                ActionModel::Fail(failure),
            )
        }),
{
}

/// A reply to begin the game whose `accept` is zero starts it for a guest whose name is among the
/// players', whatever else it says: in the first seat with that name, at the peer's address with the
/// low half of the room's number for its port, and with the settings that the guest was admitted
/// with.
pub proof fn law_guest_starts_in_its_first_seat(
    config: JoinConfigModel,
    peer: Seq<char>,
    port: i32,
    settings: SettingsModel,
    reply: MessageModel,
    names: Seq<Seq<char>>,
    seat: int,
    now: i64,
)
    requires
        reply.message_type == "reply_begin_game"@,
        reply.accept == Some(0i32),
        reply.player_names == Some(names),
        0 <= seat < names.len(),
        names[seat] == config.player_name,
        forall|earlier: int| 0 <= earlier < seat ==> names[earlier] != config.player_name,
    ensures
        ({
            let phase = JoinPhaseModel::AwaitingBegin { peer, port, settings };
            let event = EventModel::Heard(IncomingModel::Message(reply));
            join_next(config, phase, event, now) == (
                JoinPhaseModel::Over,
                ActionModel::Launch(
                    PlanModel {
                        peer,
                        port: port as int % 65536,
                        player_number: seat,
                        settings,
                    },
                ),
            )
        }),
{
    law_guest_begin_reply_is_read_by_its_fields(reply, config.player_name);
    assert(reply.player_names->0[seat] == config.player_name);
}

/// A reply to begin the game ends the session of a guest that it does not seat: it is refused
/// without a zero `accept`, and the players' names may not be missing, nor the guest's among them.
pub proof fn law_guest_gives_up_without_a_seat(
    config: JoinConfigModel,
    peer: Seq<char>,
    port: i32,
    settings: SettingsModel,
    reply: MessageModel,
    now: i64,
)
    requires
        reply.message_type == "reply_begin_game"@,
        reply.accept != Some(0i32) || reply.player_names is None
            || !reply.player_names->0.contains(config.player_name),
    ensures
        ({
            let phase = JoinPhaseModel::AwaitingBegin { peer, port, settings };
            let event = EventModel::Heard(IncomingModel::Message(reply));
            let failure = if reply.accept != Some(0i32) {
                FailureModel::BeginRejected(
                    if reply.message is Some {
                        reply.message->0
                    } else {
                        "Game start rejected"@
                    },
                )
            } else if reply.player_names is None {
                FailureModel::MissingPlayerNames
            } else {
                FailureModel::NotSeated
            };
            join_next(config, phase, event, now) == (
                JoinPhaseModel::Over,
                ActionModel::Fail(failure),
            )
        }),
{
}

/// In each phase a guest's session takes every event of one kind, and no other.
pub proof fn law_guest_takes_the_events_it_asked_for(
    event: EventModel,
    text: Seq<char>,
    port: i32,
    settings: SettingsModel,
)
    ensures
        join_answers(JoinPhaseModel::LoadingRom, event) <==> event is Rom,
        join_answers(JoinPhaseModel::Connecting { game_hash: text }, event) <==> event
            is Connection,
        join_answers(JoinPhaseModel::Requesting { peer: text }, event) <==> event is Delivery,
        join_answers(JoinPhaseModel::AwaitingJoin { peer: text }, event) <==> event is Heard,
        join_answers(JoinPhaseModel::AwaitingBegin { peer: text, port, settings }, event)
            <==> event is Heard,
        !join_answers(JoinPhaseModel::Over, event),
{
}

/// A phase of a guest's session says all that it carries.
pub proof fn law_guest_phases_say_what_they_carry(
    text: String,
    port: i32,
    settings: GameSettings,
)
    ensures
        JoinPhase::LoadingRom@ == JoinPhaseModel::LoadingRom,
        (JoinPhase::Connecting { game_hash: text })@ == (JoinPhaseModel::Connecting {
            game_hash: text@,
        }),
        (JoinPhase::Requesting { peer: text })@ == (JoinPhaseModel::Requesting { peer: text@ }),
        (JoinPhase::AwaitingJoin { peer: text })@ == (JoinPhaseModel::AwaitingJoin {
            peer: text@,
        }),
        (JoinPhase::AwaitingBegin { peer: text, port, settings })@ == (
        JoinPhaseModel::AwaitingBegin { peer: text@, port, settings: settings@ }),
        JoinPhase::Over@ == JoinPhaseModel::Over,
{
}

} // verus!
