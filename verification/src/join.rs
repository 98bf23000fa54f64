//! The session of a guest: connect, join a room, wait for the game to begin, start it.

use vstd::pervasive::unreached;
use vstd::prelude::*;

use crate::auth::{auth_token, utc_millis, AuthStamp};
use crate::error::{failure_text, FailureModel, NetplayError};
use crate::message::{
    join_room_request, signed_request, wanted_room, MessageModel, RoomModel,
};
use crate::reply::{
    granted, guest_begin_result, is_first_seat, join_result, lemma_seat_is_first,
    read_guest_begin_reply, read_join_reply, refusal_reason,
};
use crate::session::{
    connected_at, connection_result, game_port, idle_between, is_last,
    lemma_passed_over_prefix, message_of, passed_over_between, peer_of, truncate_port, Action, ActionModel, Connection,
    ConnectionModel, Event, EventModel, LaunchPlan, PlanModel, CONNECT_SECS, LOBBY_SECS, REPLY_SECS,
};
use crate::settings::{guest_settings, settings_for_guest, GameSettings, SettingsModel};
use crate::text::integer_numeral;
use crate::url::{server_url, websocket_url};
use crate::wait::{
    passed_over, wait_for_message, wait_outcome, IncomingModel, WaitModel, WaitOutcome,
};

verus! {

/// The port on which a guest looks for the room if it names none.
pub const DEFAULT_ROOM_PORT: i32 = 45001;

/// What a guest wants.
#[derive(Debug)]
pub struct JoinOptions {
    pub server_addr: String,
    /// The path of the ROM, as it is shown to the player.
    pub rom_path: String,
    /// The revision from which the client was built.
    pub client_sha: String,
    pub fullscreen: bool,
    pub player_name: Option<String>,
    pub room_port: Option<i32>,
}

/// What a guest wants, with the defaults filled in.
#[derive(Debug)]
pub struct JoinConfig {
    pub server_addr: String,
    pub rom_path: String,
    pub client_sha: String,
    pub fullscreen: bool,
    pub player_name: String,
    pub room_port: i32,
}

/// What a [`JoinConfig`] says.
pub struct JoinConfigModel {
    pub server_addr: Seq<char>,
    pub rom_path: Seq<char>,
    pub client_sha: Seq<char>,
    pub fullscreen: bool,
    pub player_name: Seq<char>,
    pub room_port: i32,
}

impl View for JoinConfig {
    type V = JoinConfigModel;

    open spec fn view(&self) -> JoinConfigModel {
        JoinConfigModel {
            server_addr: self.server_addr@,
            rom_path: self.rom_path@,
            client_sha: self.client_sha@,
            fullscreen: self.fullscreen,
            player_name: self.player_name@,
            room_port: self.room_port,
        }
    }
}

impl JoinOptions {
    /// What the guest wants, with the defaults filled in.
    pub open spec fn resolved(self) -> JoinConfigModel {
        JoinConfigModel {
            server_addr: self.server_addr@,
            rom_path: self.rom_path@,
            client_sha: self.client_sha@,
            fullscreen: self.fullscreen,
            player_name: match self.player_name {
                Some(name) => name@,
                None => "Player"@,
            },
            room_port: match self.room_port {
                Some(port) => port,
                None => DEFAULT_ROOM_PORT,
            },
        }
    }
}

/// How far a guest's session has come.
#[derive(Debug)]
pub enum JoinPhase {
    /// The ROM is being read.
    LoadingRom,
    /// The connection is being made.
    Connecting { game_hash: String },
    /// The join request is being sent.
    Requesting { peer: String },
    /// The reply to the join request is awaited.
    AwaitingJoin { peer: String },
    /// The guest is in the room; the reply that begins the game is awaited.
    AwaitingBegin { peer: String, port: i32, settings: GameSettings },
    /// The session is over.
    Over,
}

/// What a [`JoinPhase`] says.
pub enum JoinPhaseModel {
    LoadingRom,
    Connecting { game_hash: Seq<char> },
    Requesting { peer: Seq<char> },
    AwaitingJoin { peer: Seq<char> },
    AwaitingBegin { peer: Seq<char>, port: i32, settings: SettingsModel },
    Over,
}

impl View for JoinPhase {
    type V = JoinPhaseModel;

    open spec fn view(&self) -> JoinPhaseModel {
        match self {
            JoinPhase::LoadingRom => JoinPhaseModel::LoadingRom,
            JoinPhase::Connecting { game_hash } => {
                JoinPhaseModel::Connecting { game_hash: game_hash@ }
            },
            JoinPhase::Requesting { peer } => JoinPhaseModel::Requesting { peer: peer@ },
            JoinPhase::AwaitingJoin { peer } => JoinPhaseModel::AwaitingJoin { peer: peer@ },
            JoinPhase::AwaitingBegin { peer, port, settings } => {
                JoinPhaseModel::AwaitingBegin { peer: peer@, port: *port, settings: settings@ }
            },
            JoinPhase::Over => JoinPhaseModel::Over,
        }
    }
}

/// The event answers what the session asked for when it came to this phase.
pub open spec fn join_answers(phase: JoinPhaseModel, event: EventModel) -> bool {
    match phase {
        JoinPhaseModel::LoadingRom => event is Rom,
        JoinPhaseModel::Connecting { .. } => event is Connection,
        JoinPhaseModel::Requesting { .. } => event is Delivery,
        JoinPhaseModel::AwaitingJoin { .. } => event is Heard,
        JoinPhaseModel::AwaitingBegin { .. } => event is Heard,
        JoinPhaseModel::Over => false,
    }
}

/// The join request of a guest at a time.
pub open spec fn join_request(
    config: JoinConfigModel,
    game_hash: Seq<char>,
    now: i64,
) -> MessageModel {
    let auth_time = integer_numeral(now as int);
    signed_request(
        "request_join_room"@,
        config.player_name,
        config.client_sha,
        auth_time,
        auth_token(auth_time),
        wanted_room(game_hash, config.room_port),
    )
}

/// The session gives up.
pub open spec fn join_failed(failure: FailureModel) -> (JoinPhaseModel, ActionModel) {
    (JoinPhaseModel::Over, ActionModel::Fail(failure))
}

/// What a guest does with the reply to its join request.
pub open spec fn join_replied(
    config: JoinConfigModel,
    peer: Seq<char>,
    reply: MessageModel,
) -> (JoinPhaseModel, ActionModel) {
    match join_result(reply) {
        Ok((room, port)) => (
            JoinPhaseModel::AwaitingBegin {
                peer,
                port,
                settings: guest_settings(config.fullscreen, room.features),
            },
            ActionModel::Listen(Some(LOBBY_SECS)),
        ),
        Err(failure) => join_failed(failure),
    }
}

/// What a guest does with the reply that begins the game.
pub open spec fn join_begun(
    config: JoinConfigModel,
    peer: Seq<char>,
    port: i32,
    settings: SettingsModel,
    reply: MessageModel,
) -> (JoinPhaseModel, ActionModel) {
    match guest_begin_result(reply, config.player_name) {
        Ok(seat) => (
            JoinPhaseModel::Over,
            ActionModel::Launch(
                PlanModel { peer, port: game_port(port), player_number: seat, settings },
            ),
        ),
        Err(failure) => join_failed(failure),
    }
}

/// The phase to which an event takes a guest's session, and what the session asks for next. `now`
/// is the time at which it does so. Nothing is said of an event that the session did not ask for.
pub open spec fn join_next(
    config: JoinConfigModel,
    phase: JoinPhaseModel,
    event: EventModel,
    now: i64,
) -> (JoinPhaseModel, ActionModel) {
    match (phase, event) {
        (JoinPhaseModel::LoadingRom, EventModel::Rom(rom)) => match rom {
            Some(rom) => (
                JoinPhaseModel::Connecting { game_hash: rom.hash },
                ActionModel::Connect(server_url(config.server_addr), CONNECT_SECS),
            ),
            None => join_failed(FailureModel::RomUnreadable(config.rom_path)),
        },
        (JoinPhaseModel::Connecting { game_hash }, EventModel::Connection(connection)) => {
            match connection_result(connection) {
                Ok(peer) => (
                    JoinPhaseModel::Requesting { peer },
                    ActionModel::Send(join_request(config, game_hash, now)),
                ),
                Err(failure) => join_failed(failure),
            }
        },
        (JoinPhaseModel::Requesting { peer }, EventModel::Delivery(delivery)) => match delivery {
            Ok(_) => (
                JoinPhaseModel::AwaitingJoin { peer },
                ActionModel::Listen(Some(REPLY_SECS)),
            ),
            Err(cause) => join_failed(FailureModel::SendFailed(cause)),
        },
        (JoinPhaseModel::AwaitingJoin { peer }, EventModel::Heard(incoming)) => {
            match wait_outcome("reply_join_room"@, REPLY_SECS, incoming) {
                WaitModel::KeepWaiting => (phase, ActionModel::Listen(None)),
                WaitModel::Arrived(reply) => join_replied(config, peer, reply),
                WaitModel::Failed(failure) => join_failed(failure),
            }
        },
        (
            JoinPhaseModel::AwaitingBegin { peer, port, settings },
            EventModel::Heard(incoming),
        ) => {
            match wait_outcome("reply_begin_game"@, LOBBY_SECS, incoming) {
                WaitModel::KeepWaiting => (phase, ActionModel::Listen(None)),
                WaitModel::Arrived(reply) => join_begun(config, peer, port, settings, reply),
                WaitModel::Failed(failure) => join_failed(failure),
            }
        },
        _ => arbitrary(),
    }
}

/// A guest's session.
#[derive(Debug)]
pub struct JoinFlow {
    pub config: JoinConfig,
    pub phase: JoinPhase,
}

impl JoinFlow {
    /// Begins a session.
    pub fn start(options: JoinOptions) -> (r: (JoinFlow, Action))
        ensures
            r.0.config@ == options.resolved(),
            r.0.config.server_addr == options.server_addr,
            r.0.config.rom_path == options.rom_path,
            r.0.config.client_sha == options.client_sha,
            r.0.config.fullscreen == options.fullscreen,
            options.player_name is Some ==> r.0.config.player_name == options.player_name->0,
            options.player_name is None ==> r.0.config.player_name@ == "Player"@,
            options.room_port is Some ==> r.0.config.room_port == options.room_port->0,
            options.room_port is None ==> r.0.config.room_port == 45001,
            r.0.phase@ == JoinPhaseModel::LoadingRom,
            r.1@ == ActionModel::ReadRom,
    {
        let player_name = match options.player_name {
            Some(name) => name,
            None => "Player".to_string(),
        };
        let room_port: i32 = match options.room_port {
            Some(port) => port,
            None => DEFAULT_ROOM_PORT,
        };
        let config = JoinConfig {
            server_addr: options.server_addr,
            rom_path: options.rom_path,
            client_sha: options.client_sha,
            fullscreen: options.fullscreen,
            player_name,
            room_port,
        };
        (JoinFlow { config, phase: JoinPhase::LoadingRom }, Action::ReadRom)
    }

    /// Whether the event answers what the session asked for last.
    pub fn accepts(&self, event: &Event) -> (r: bool)
        ensures
            r == join_answers(self.phase@, event@),
    {
        match (&self.phase, event) {
            (JoinPhase::LoadingRom, Event::Rom(_)) => true,
            (JoinPhase::Connecting { .. }, Event::Connection(_)) => true,
            (JoinPhase::Requesting { .. }, Event::Delivery(_)) => true,
            (JoinPhase::AwaitingJoin { .. }, Event::Heard(_)) => true,
            (JoinPhase::AwaitingBegin { .. }, Event::Heard(_)) => true,
            _ => false,
        }
    }

    /// Takes the session on by an event, at the present time.
    pub fn step(self, event: Event) -> (r: (JoinFlow, Action))
        requires
            join_answers(self.phase@, event@),
        ensures
            r.0.config == self.config,
            exists|now: i64|
                (r.0.phase@, r.1@) == #[trigger] join_next(
                    self.config@,
                    self.phase@,
                    event@,
                    now,
                ),
    {
        let now: i64 = match &event {
            Event::Connection(Connection::Plain(_)) => utc_millis(),
            _ => 0,
        };
        self.step_at(event, now)
    }

    /// Takes the session on by an event, at a given time in milliseconds since the start of 1970.
    pub fn step_at(self, event: Event, now: i64) -> (r: (JoinFlow, Action))
        requires
            join_answers(self.phase@, event@),
        ensures
            r.0.config == self.config,
            (r.0.phase@, r.1@) == join_next(self.config@, self.phase@, event@, now),
    {
        let config = self.config;
        let (phase, action) = match (self.phase, event) {
            (JoinPhase::LoadingRom, Event::Rom(rom)) => match rom {
                Some(rom) => (
                    JoinPhase::Connecting { game_hash: rom.hash },
                    Action::Connect(websocket_url(config.server_addr.as_str()), CONNECT_SECS),
                ),
                None => JoinFlow::failed(NetplayError::RomUnreadable(config.rom_path.clone())),
            },
            (JoinPhase::Connecting { game_hash }, Event::Connection(connection)) => {
                match peer_of(connection) {
                    Ok(peer) => {
                        let request = join_room_request(
                            &config.player_name,
                            &config.client_sha,
                            AuthStamp::at(now),
                            game_hash,
                            config.room_port,
                        );
                        (JoinPhase::Requesting { peer }, Action::Send(request))
                    },
                    Err(error) => JoinFlow::failed(error),
                }
            },
            (JoinPhase::Requesting { peer }, Event::Delivery(delivery)) => match delivery {
                Ok(_) => (JoinPhase::AwaitingJoin { peer }, Action::Listen(Some(REPLY_SECS))),
                Err(cause) => JoinFlow::failed(NetplayError::SendFailed(cause)),
            },
            (JoinPhase::AwaitingJoin { peer }, Event::Heard(incoming)) => {
                match wait_for_message("reply_join_room", REPLY_SECS, incoming) {
                    WaitOutcome::KeepWaiting => (
                        JoinPhase::AwaitingJoin { peer },
                        Action::Listen(None),
                    ),
                    WaitOutcome::Arrived(reply) => match read_join_reply(reply) {
                        Ok((room, port)) => {
                            let settings = settings_for_guest(config.fullscreen, &room);
                            (
                                JoinPhase::AwaitingBegin { peer, port, settings },
                                Action::Listen(Some(LOBBY_SECS)),
                            )
                        },
                        Err(error) => JoinFlow::failed(error),
                    },
                    WaitOutcome::Failed(error) => JoinFlow::failed(error),
                }
            },
            (JoinPhase::AwaitingBegin { peer, port, settings }, Event::Heard(incoming)) => {
                match wait_for_message("reply_begin_game", LOBBY_SECS, incoming) {
                    WaitOutcome::KeepWaiting => (
                        JoinPhase::AwaitingBegin { peer, port, settings },
                        Action::Listen(None),
                    ),
                    WaitOutcome::Arrived(reply) => match read_guest_begin_reply(
                        reply,
                        &config.player_name,
                    ) {
                        Ok(player_number) => {
                            let plan = LaunchPlan {
                                peer,
                                port: truncate_port(port),
                                player_number,
                                settings,
                            };
                            (JoinPhase::Over, Action::Launch(plan))
                        },
                        Err(error) => JoinFlow::failed(error),
                    },
                    WaitOutcome::Failed(error) => JoinFlow::failed(error),
                }
            },
            _ => unreached(),
        };
        (JoinFlow { config, phase }, action)
    }

    fn failed(error: NetplayError) -> (r: (JoinPhase, Action))
        ensures
            (r.0@, r.1@) == join_failed(error@),
    {
        (JoinPhase::Over, Action::Fail(error))
    }
}

/// The phase of a guest's session after some events, each with the time at which it was taken in.
pub open spec fn join_phase_after(
    config: JoinConfigModel,
    trace: Seq<(EventModel, i64)>,
) -> JoinPhaseModel
    decreases trace.len(),
{
    if trace.len() == 0 {
        JoinPhaseModel::LoadingRom
    } else {
        join_next(
            config,
            join_phase_after(config, trace.drop_last()),
            trace.last().0,
            trace.last().1,
        ).0
    }
}

/// What a guest's session asks for after some events.
pub open spec fn join_action_after(
    config: JoinConfigModel,
    trace: Seq<(EventModel, i64)>,
) -> ActionModel {
    if trace.len() == 0 {
        ActionModel::ReadRom
    } else {
        join_next(
            config,
            join_phase_after(config, trace.drop_last()),
            trace.last().0,
            trace.last().1,
        ).1
    }
}

/// Each event answers what the session asked for before it.
pub open spec fn join_trace_fits(
    config: JoinConfigModel,
    trace: Seq<(EventModel, i64)>,
) -> bool
    decreases trace.len(),
{
    trace.len() == 0 || {
        &&& join_trace_fits(config, trace.drop_last())
        &&& join_answers(join_phase_after(config, trace.drop_last()), trace.last().0)
    }
}

/// Event `at` is the first reply to the join request. It admits the guest to a room on `port`
/// whose features make for these settings.
pub open spec fn admitted_at(
    config: JoinConfigModel,
    trace: Seq<(EventModel, i64)>,
    at: int,
    port: i32,
    settings: SettingsModel,
) -> bool {
    &&& 0 <= at < trace.len()
    &&& passed_over_between("reply_join_room"@, trace, 0, at)
    &&& message_of(trace[at].0) matches Some(reply)
    &&& reply.message_type == "reply_join_room"@
    &&& join_result(reply) matches Ok((room, given))
    &&& given == port
    &&& settings == guest_settings(config.fullscreen, room.features)
}

/// What a guest's session has been through when it comes to a phase.
spec fn join_history(
    config: JoinConfigModel,
    trace: Seq<(EventModel, i64)>,
    phase: JoinPhaseModel,
) -> bool {
    let end = trace.len() as int;
    match phase {
        JoinPhaseModel::LoadingRom => trace.len() == 0,
        JoinPhaseModel::Connecting { .. } => {
            passed_over_between("reply_join_room"@, trace, 0, end)
        },
        JoinPhaseModel::Requesting { peer } => {
            &&& exists|connected: int| connected_at(trace, connected, peer)
            &&& passed_over_between("reply_join_room"@, trace, 0, end)
        },
        JoinPhaseModel::AwaitingJoin { peer } => {
            &&& exists|connected: int| connected_at(trace, connected, peer)
            &&& passed_over_between("reply_join_room"@, trace, 0, end)
        },
        JoinPhaseModel::AwaitingBegin { peer, port, settings } => {
            exists|connected: int, admitted: int|
                {
                    &&& connected < admitted
                    &&& #[trigger] connected_at(trace, connected, peer)
                    &&& #[trigger] admitted_at(config, trace, admitted, port, settings)
                    &&& passed_over_between("reply_begin_game"@, trace, admitted + 1, end)
                }
        },
        JoinPhaseModel::Over => true,
    }
}

proof fn lemma_join_history(config: JoinConfigModel, trace: Seq<(EventModel, i64)>)
    requires
        join_trace_fits(config, trace),
    ensures
        join_history(config, trace, join_phase_after(config, trace)),
    decreases trace.len(),
{
    if trace.len() > 0 {
        let front = trace.drop_last();
        let before = join_phase_after(config, front);
        let after = join_phase_after(config, trace);
        let last = trace.len() - 1;
        lemma_join_history(config, front);
        if passed_over_between("reply_join_room"@, front, 0, last) {
            lemma_passed_over_prefix("reply_join_room"@, trace, 0, last);
        }
        match (before, after) {
            (JoinPhaseModel::Connecting { .. }, JoinPhaseModel::Requesting { peer }) => {
                assert(connected_at(trace, last, peer));
            },
            (JoinPhaseModel::Requesting { peer }, JoinPhaseModel::AwaitingJoin { peer: kept }) => {
                assert(kept == peer);
                let connected = choose|connected: int| connected_at(front, connected, peer);
                assert(connected_at(trace, connected, peer));
            },
            (JoinPhaseModel::AwaitingJoin { peer }, JoinPhaseModel::AwaitingJoin { .. }) => {
                assert(passed_over("reply_join_room"@, trace[last].0->Heard_0));
                let connected = choose|connected: int| connected_at(front, connected, peer);
                assert(connected_at(trace, connected, peer));
            },
            (
                JoinPhaseModel::AwaitingJoin { peer },
                JoinPhaseModel::AwaitingBegin { peer: kept, port, settings },
            ) => {
                assert(kept == peer);
                let connected = choose|connected: int| connected_at(front, connected, peer);
                assert(connected_at(trace, connected, peer));
                assert(admitted_at(config, trace, last, port, settings));
            },
            (
                JoinPhaseModel::AwaitingBegin { peer, port, settings },
                JoinPhaseModel::AwaitingBegin { .. },
            ) => {
                assert(passed_over("reply_begin_game"@, trace[last].0->Heard_0));
                let (connected, admitted) = choose|connected: int, admitted: int|
                    {
                        &&& connected < admitted
                        &&& #[trigger] connected_at(front, connected, peer)
                        &&& #[trigger] admitted_at(config, front, admitted, port, settings)
                        &&& passed_over_between("reply_begin_game"@, front, admitted + 1, last)
                    };
                assert(connected_at(trace, connected, peer));
                lemma_passed_over_prefix("reply_join_room"@, trace, 0, admitted);
                lemma_passed_over_prefix("reply_begin_game"@, trace, admitted + 1, last);
                assert(admitted_at(config, trace, admitted, port, settings));
            },
            _ => {},
        }
    }
}

/// The course of a guest's session that ends with the start of a game: the guest connected to the
/// server, the first reply to its join request admitted it to a room, and the first reply after
/// that to begin the game has the guest's name in it, first in the guest's seat.
pub open spec fn guest_was_admitted(
    config: JoinConfigModel,
    trace: Seq<(EventModel, i64)>,
    plan: PlanModel,
    connected: int,
    admitted: int,
    port: i32,
) -> bool {
    let last = trace.len() - 1;
    &&& connected < admitted < last
    &&& connected_at(trace, connected, plan.peer)
    &&& admitted_at(config, trace, admitted, port, plan.settings)
    &&& plan.port == game_port(port)
    &&& passed_over_between("reply_begin_game"@, trace, admitted + 1, last)
    &&& message_of(trace[last].0) matches Some(reply)
    &&& reply.message_type == "reply_begin_game"@
    &&& granted(reply)
    &&& reply.player_names matches Some(names)
    &&& is_first_seat(names, config.player_name, plan.player_number)
}

/// A guest starts a game only in a room to which the server admitted it, only after the server
/// began the game, and only with the room's port and settings and the guest's own seat.
pub proof fn law_guest_starts_only_when_admitted(
    config: JoinConfigModel,
    trace: Seq<(EventModel, i64)>,
    plan: PlanModel,
)
    requires
        join_trace_fits(config, trace),
        join_action_after(config, trace) == ActionModel::Launch(plan),
    ensures
        exists|connected: int, admitted: int, port: i32|
            guest_was_admitted(config, trace, plan, connected, admitted, port),
{
    let front = trace.drop_last();
    let last = trace.len() - 1;
    lemma_join_history(config, front);
    match join_phase_after(config, front) {
        JoinPhaseModel::AwaitingBegin { peer, port, settings } => {
            let (connected, admitted) = choose|connected: int, admitted: int|
                {
                    &&& connected < admitted
                    &&& #[trigger] connected_at(front, connected, peer)
                    &&& #[trigger] admitted_at(config, front, admitted, port, settings)
                    &&& passed_over_between("reply_begin_game"@, front, admitted + 1, last)
                };
            let reply = message_of(trace[last].0)->0;
            lemma_seat_is_first(reply.player_names->0, config.player_name);
            assert(connected_at(trace, connected, peer));
            lemma_passed_over_prefix("reply_join_room"@, trace, 0, admitted);
            lemma_passed_over_prefix("reply_begin_game"@, trace, admitted + 1, last);
            assert(admitted_at(config, trace, admitted, port, settings));
            assert(guest_was_admitted(config, trace, plan, connected, admitted, port));
        },
        _ => {},
    }
}

proof fn lemma_join_step(config: JoinConfigModel, trace: Seq<(EventModel, i64)>, at: int)
    requires
        0 <= at < trace.len(),
    ensures
        join_phase_after(config, trace.take(at + 1)) == join_next(
            config,
            join_phase_after(config, trace.take(at)),
            trace[at].0,
            trace[at].1,
        ).0,
        join_action_after(config, trace.take(at + 1)) == join_next(
            config,
            join_phase_after(config, trace.take(at)),
            trace[at].0,
            trace[at].1,
        ).1,
        join_trace_fits(config, trace.take(at + 1)) == (join_trace_fits(config, trace.take(at))
            && join_answers(join_phase_after(config, trace.take(at)), trace[at].0)),
{
    assert(trace.take(at + 1).drop_last() =~= trace.take(at));
}

proof fn lemma_join_idles(
    config: JoinConfigModel,
    trace: Seq<(EventModel, i64)>,
    expected: Seq<char>,
    from: int,
    to: int,
)
    requires
        0 <= from <= to <= trace.len(),
        join_trace_fits(config, trace.take(from)),
        match join_phase_after(config, trace.take(from)) {
            JoinPhaseModel::AwaitingJoin { .. } => expected == "reply_join_room"@,
            JoinPhaseModel::AwaitingBegin { .. } => expected == "reply_begin_game"@,
            _ => false,
        },
        idle_between(expected, trace, from, to),
    ensures
        join_trace_fits(config, trace.take(to)),
        join_phase_after(config, trace.take(to)) == join_phase_after(config, trace.take(from)),
    decreases to - from,
{
    if from < to {
        lemma_join_idles(config, trace, expected, from, to - 1);
        lemma_join_step(config, trace, to - 1);
        assert(trace[to - 1].0 is Heard);
    }
}

/// A guest whose ROM can be read, who gets a plain connection and gets its request out, whom the
/// server admits to a room, and whose name is among the players when the server begins the game,
/// starts the game, whatever else the server sends in between.
pub proof fn law_admitted_guest_starts(
    config: JoinConfigModel,
    trace: Seq<(EventModel, i64)>,
    peer: Seq<char>,
    admitted: int,
    room: RoomModel,
    port: i32,
)
    requires
        2 < admitted < trace.len() - 1,
        trace[0].0 matches EventModel::Rom(Some(_)),
        trace[1].0 == EventModel::Connection(ConnectionModel::Plain(peer)),
        trace[2].0 matches EventModel::Delivery(Ok(_)),
        idle_between("reply_join_room"@, trace, 3, admitted),
        message_of(trace[admitted].0) matches Some(reply) && reply.message_type
            == "reply_join_room"@ && join_result(reply) == Ok::<(RoomModel, i32), FailureModel>(
            (room, port),
        ),
        idle_between("reply_begin_game"@, trace, admitted + 1, trace.len() - 1),
        message_of(trace.last().0) matches Some(reply) && reply.message_type
            == "reply_begin_game"@ && granted(reply) && reply.player_names is Some
            && reply.player_names->0.contains(config.player_name),
    ensures
        join_trace_fits(config, trace),
        join_action_after(config, trace) matches ActionModel::Launch(plan) && plan.peer == peer
            && plan.port == game_port(port) && plan.settings == guest_settings(
            config.fullscreen,
            room.features,
        ) && is_first_seat(
            message_of(trace.last().0)->0.player_names->0,
            config.player_name,
            plan.player_number,
        ),
{
    let last = trace.len() - 1;
    assert(trace.take(0) =~= Seq::empty());
    lemma_join_step(config, trace, 0);
    lemma_join_step(config, trace, 1);
    lemma_join_step(config, trace, 2);
    lemma_join_idles(config, trace, "reply_join_room"@, 3, admitted);
    lemma_join_step(config, trace, admitted);
    lemma_join_idles(config, trace, "reply_begin_game"@, admitted + 1, last);
    lemma_join_step(config, trace, last);
    assert(trace.take(last + 1) =~= trace);
    lemma_seat_is_first(message_of(trace.last().0)->0.player_names->0, config.player_name);
}

/// A guest's session asks for a game or gives up exactly when it comes to its end, and at its end
/// it takes no more events.
pub proof fn law_guest_session_ends_once(
    config: JoinConfigModel,
    phase: JoinPhaseModel,
    event: EventModel,
    now: i64,
)
    requires
        join_answers(phase, event),
    ensures
        is_last(join_next(config, phase, event, now).1) <==> join_next(config, phase, event, now).0
            == JoinPhaseModel::Over,
        forall|later: EventModel| !#[trigger] join_answers(JoinPhaseModel::Over, later),
{
}

/// The one message that a guest sends is a join request for the room that it wants, signed with
/// the token for the time that it states.
pub proof fn law_guest_requests_are_signed(
    config: JoinConfigModel,
    phase: JoinPhaseModel,
    event: EventModel,
    now: i64,
    message: MessageModel,
)
    requires
        join_answers(phase, event),
        join_next(config, phase, event, now).1 == ActionModel::Send(message),
    ensures
        message.message_type == "request_join_room"@,
        message.player_name == Some(config.player_name),
        message.room is Some && message.room->0.port == Some(config.room_port),
        message.auth_time is Some,
        message.auth == Some(auth_token(message.auth_time->0)),
{
}

/// A refusal ends a guest's session, and is reported with the reason that the server gives, or, where it
/// gives none, with one that says what was refused.
pub proof fn law_refusal_ends_guest_session(
    config: JoinConfigModel,
    phase: JoinPhaseModel,
    reply: MessageModel,
    now: i64,
)
    requires
        !granted(reply),
        phase is AwaitingJoin || phase is AwaitingBegin,
        phase is AwaitingJoin ==> reply.message_type == "reply_join_room"@,
        phase is AwaitingBegin ==> reply.message_type == "reply_begin_game"@,
    ensures
        ({
            let event = EventModel::Heard(IncomingModel::Message(reply));
            let (after, action) = join_next(config, phase, event, now);
            &&& after == JoinPhaseModel::Over
            &&& action matches ActionModel::Fail(failure)
            &&& failure_text(failure) == if phase is AwaitingJoin {
                "Join rejected: "@ + refusal_reason(reply, "Join rejected (unknown reason)"@)
            } else {
                "Begin game rejected: "@ + refusal_reason(reply, "Game start rejected"@)
            }
        }),
{
}

} // verus!
