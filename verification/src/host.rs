//! The session of a host: connect, open a room, wait for a player, begin the game, start it.

use vstd::pervasive::unreached;
use vstd::prelude::*;
use vstd::string::*;

use crate::auth::{auth_token, utc_millis, AuthStamp};
use crate::error::{failure_text, FailureModel, NetplayError};
use crate::lobby::{
    baseline_view, law_unanswered_lobby, lemma_lobby_result_push, lobby_expired, lobby_outcome,
    lobby_result, poll_lobby, unanswered, LobbyModel, LobbyOutcome,
};
use crate::message::{
    begin_game_request, create_room_request, new_room, players_request, room_request,
    signed_request, MessageModel,
};
use crate::reply::{
    create_result, granted, host_begin_result, read_create_reply, read_host_begin_reply,
    refusal_reason,
};
use crate::session::{
    connected_at, connection_result, game_port, idle_between, is_last, lemma_passed_over_prefix, message_of,
    passed_over_between, peer_of, truncate_port, Action, ActionModel, Connection, ConnectionModel,
    Event, EventModel, LaunchPlan, PlanModel, CONNECT_SECS, POLL_SECS, REPLY_SECS,
};
use crate::settings::{host_settings, settings_for_host};
use crate::text::integer_numeral;
use crate::url::{server_url, websocket_url};
use crate::wait::{
    passed_over, wait_for_message, wait_outcome, IncomingModel, WaitModel, WaitOutcome,
};

verus! {

/// What a host wants.
#[derive(Debug)]
pub struct HostOptions {
    pub server_addr: String,
    /// The path of the ROM, as it is shown to the player.
    pub rom_path: String,
    /// The revision from which the client was built.
    pub client_sha: String,
    pub fullscreen: bool,
    pub player_name: Option<String>,
    /// The name of the room; without one it is named after the game.
    pub room_name: Option<String>,
}

/// What a host wants, with the player's name filled in.
#[derive(Debug)]
pub struct HostConfig {
    pub server_addr: String,
    pub rom_path: String,
    pub client_sha: String,
    pub fullscreen: bool,
    pub player_name: String,
    pub room_name: Option<String>,
}

/// What a [`HostConfig`] says.
pub struct HostConfigModel {
    pub server_addr: Seq<char>,
    pub rom_path: Seq<char>,
    pub client_sha: Seq<char>,
    pub fullscreen: bool,
    pub player_name: Seq<char>,
    pub room_name: Option<Seq<char>>,
}

impl View for HostConfig {
    type V = HostConfigModel;

    open spec fn view(&self) -> HostConfigModel {
        HostConfigModel {
            server_addr: self.server_addr@,
            rom_path: self.rom_path@,
            client_sha: self.client_sha@,
            fullscreen: self.fullscreen,
            player_name: self.player_name@,
            room_name: self.room_name.deep_view(),
        }
    }
}

impl HostOptions {
    /// What the host wants, with the player's name filled in.
    pub open spec fn resolved(self) -> HostConfigModel {
        HostConfigModel {
            server_addr: self.server_addr@,
            rom_path: self.rom_path@,
            client_sha: self.client_sha@,
            fullscreen: self.fullscreen,
            player_name: match self.player_name {
                Some(name) => name@,
                None => "Host"@,
            },
            room_name: self.room_name.deep_view(),
        }
    }
}

/// How far a host's session has come.
#[derive(Debug)]
pub enum HostPhase {
    /// The ROM is being read.
    LoadingRom,
    /// The connection is being made.
    Connecting { game_hash: String, game_name: String },
    /// The create request is being sent.
    Requesting { peer: String },
    /// The reply to the create request is awaited.
    AwaitingCreate { peer: String },
    /// The room is open; a player is awaited. The number is that of the players in the first
    /// answer.
    Polling { peer: String, port: i32, baseline: Option<usize> },
    /// The request to begin the game is being sent.
    Beginning { peer: String, port: i32 },
    /// The reply that begins the game is awaited.
    AwaitingBegin { peer: String, port: i32 },
    /// The session is over.
    Over,
}

/// What a [`HostPhase`] says.
pub enum HostPhaseModel {
    LoadingRom,
    Connecting { game_hash: Seq<char>, game_name: Seq<char> },
    Requesting { peer: Seq<char> },
    AwaitingCreate { peer: Seq<char> },
    Polling { peer: Seq<char>, port: i32, baseline: Option<nat> },
    Beginning { peer: Seq<char>, port: i32 },
    AwaitingBegin { peer: Seq<char>, port: i32 },
    Over,
}

impl View for HostPhase {
    type V = HostPhaseModel;

    open spec fn view(&self) -> HostPhaseModel {
        match self {
            HostPhase::LoadingRom => HostPhaseModel::LoadingRom,
            HostPhase::Connecting { game_hash, game_name } => {
                HostPhaseModel::Connecting { game_hash: game_hash@, game_name: game_name@ }
            },
            HostPhase::Requesting { peer } => HostPhaseModel::Requesting { peer: peer@ },
            HostPhase::AwaitingCreate { peer } => HostPhaseModel::AwaitingCreate { peer: peer@ },
            HostPhase::Polling { peer, port, baseline } => {
                HostPhaseModel::Polling {
                    peer: peer@,
                    port: *port,
                    baseline: baseline_view(*baseline),
                }
            },
            HostPhase::Beginning { peer, port } => {
                HostPhaseModel::Beginning { peer: peer@, port: *port }
            },
            HostPhase::AwaitingBegin { peer, port } => {
                HostPhaseModel::AwaitingBegin { peer: peer@, port: *port }
            },
            HostPhase::Over => HostPhaseModel::Over,
        }
    }
}

/// The event answers what the session asked for when it came to this phase.
pub open spec fn host_answers(phase: HostPhaseModel, event: EventModel) -> bool {
    match phase {
        HostPhaseModel::LoadingRom => event is Rom,
        HostPhaseModel::Connecting { .. } => event is Connection,
        HostPhaseModel::Requesting { .. } => event is Delivery,
        HostPhaseModel::AwaitingCreate { .. } => event is Heard,
        HostPhaseModel::Polling { .. } => event is Polled,
        HostPhaseModel::Beginning { .. } => event is Delivery,
        HostPhaseModel::AwaitingBegin { .. } => event is Heard,
        HostPhaseModel::Over => false,
    }
}

/// The name of the room that a host opens: the one it chose, or one made from the game's name.
pub open spec fn room_title(config: HostConfigModel, game_name: Seq<char>) -> Seq<char> {
    match config.room_name {
        Some(name) => name,
        None => "[OB] "@ + game_name,
    }
}

/// The create request of a host at a time.
pub open spec fn create_request(
    config: HostConfigModel,
    game_hash: Seq<char>,
    game_name: Seq<char>,
    now: i64,
) -> MessageModel {
    let auth_time = integer_numeral(now as int);
    signed_request(
        "request_create_room"@,
        config.player_name,
        config.client_sha,
        auth_time,
        auth_token(auth_time),
        new_room(room_title(config, game_name), game_name, game_hash),
    )
}

/// The session gives up.
pub open spec fn host_failed(failure: FailureModel) -> (HostPhaseModel, ActionModel) {
    (HostPhaseModel::Over, ActionModel::Fail(failure))
}

/// What a host does with the reply to its create request.
pub open spec fn host_replied(peer: Seq<char>, reply: MessageModel) -> (
    HostPhaseModel,
    ActionModel,
) {
    match create_result(reply) {
        Ok((_, port)) => (
            HostPhaseModel::Polling { peer, port, baseline: None },
            ActionModel::Poll {
                request: room_request("request_players"@, port),
                wait_secs: POLL_SECS,
                first: true,
            },
        ),
        Err(failure) => host_failed(failure),
    }
}

/// What a host does with the outcome of a poll.
pub open spec fn host_polled(peer: Seq<char>, port: i32, outcome: LobbyModel) -> (
    HostPhaseModel,
    ActionModel,
) {
    match outcome {
        LobbyModel::PollAgain(baseline) => (
            HostPhaseModel::Polling { peer, port, baseline },
            ActionModel::Poll {
                request: room_request("request_players"@, port),
                wait_secs: POLL_SECS,
                first: false,
            },
        ),
        LobbyModel::Begin => (
            HostPhaseModel::Beginning { peer, port },
            ActionModel::Send(room_request("request_begin_game"@, port)),
        ),
        LobbyModel::Failed(failure) => host_failed(failure),
    }
}

/// What a host does with the reply that begins the game.
pub open spec fn host_begun(
    config: HostConfigModel,
    peer: Seq<char>,
    port: i32,
    reply: MessageModel,
) -> (HostPhaseModel, ActionModel) {
    match host_begin_result(reply) {
        Ok(_) => (
            HostPhaseModel::Over,
            ActionModel::Launch(
                PlanModel {
                    peer,
                    port: game_port(port),
                    player_number: 0,
                    settings: host_settings(config.fullscreen),
                },
            ),
        ),
        Err(failure) => host_failed(failure),
    }
}

/// The phase to which an event takes a host's session, and what the session asks for next. `now`
/// is the time at which it does so. Nothing is said of an event that the session did not ask for.
pub open spec fn host_next(
    config: HostConfigModel,
    phase: HostPhaseModel,
    event: EventModel,
    now: i64,
) -> (HostPhaseModel, ActionModel) {
    match (phase, event) {
        (HostPhaseModel::LoadingRom, EventModel::Rom(rom)) => match rom {
            Some(rom) => (
                HostPhaseModel::Connecting { game_hash: rom.hash, game_name: rom.name },
                ActionModel::Connect(server_url(config.server_addr), CONNECT_SECS),
            ),
            None => host_failed(FailureModel::RomUnreadable(config.rom_path)),
        },
        (
            HostPhaseModel::Connecting { game_hash, game_name },
            EventModel::Connection(connection),
        ) => {
            match connection_result(connection) {
                Ok(peer) => (
                    HostPhaseModel::Requesting { peer },
                    ActionModel::Send(create_request(config, game_hash, game_name, now)),
                ),
                Err(failure) => host_failed(failure),
            }
        },
        (HostPhaseModel::Requesting { peer }, EventModel::Delivery(delivery)) => match delivery {
            Ok(_) => (
                HostPhaseModel::AwaitingCreate { peer },
                ActionModel::Listen(Some(REPLY_SECS)),
            ),
            Err(cause) => host_failed(FailureModel::SendFailed(cause)),
        },
        (HostPhaseModel::AwaitingCreate { peer }, EventModel::Heard(incoming)) => {
            match wait_outcome("reply_create_room"@, REPLY_SECS, incoming) {
                WaitModel::KeepWaiting => (phase, ActionModel::Listen(None)),
                WaitModel::Arrived(reply) => host_replied(peer, reply),
                WaitModel::Failed(failure) => host_failed(failure),
            }
        },
        (
            HostPhaseModel::Polling { peer, port, baseline },
            EventModel::Polled(incoming, elapsed),
        ) => { host_polled(peer, port, lobby_outcome(baseline, incoming, elapsed)) },
        (HostPhaseModel::Beginning { peer, port }, EventModel::Delivery(delivery)) => {
            match delivery {
                Ok(_) => (
                    HostPhaseModel::AwaitingBegin { peer, port },
                    ActionModel::Listen(Some(REPLY_SECS)),
                ),
                Err(cause) => host_failed(FailureModel::SendFailed(cause)),
            }
        },
        (HostPhaseModel::AwaitingBegin { peer, port }, EventModel::Heard(incoming)) => {
            match wait_outcome("reply_begin_game"@, REPLY_SECS, incoming) {
                WaitModel::KeepWaiting => (phase, ActionModel::Listen(None)),
                WaitModel::Arrived(reply) => host_begun(config, peer, port, reply),
                WaitModel::Failed(failure) => host_failed(failure),
            }
        },
        _ => arbitrary(),
    }
}

/// A host's session.
#[derive(Debug)]
pub struct HostFlow {
    pub config: HostConfig,
    pub phase: HostPhase,
}

impl HostFlow {
    /// Begins a session.
    pub fn start(options: HostOptions) -> (r: (HostFlow, Action))
        ensures
            r.0.config@ == options.resolved(),
            r.0.config.server_addr == options.server_addr,
            r.0.config.rom_path == options.rom_path,
            r.0.config.client_sha == options.client_sha,
            r.0.config.fullscreen == options.fullscreen,
            options.player_name is Some ==> r.0.config.player_name == options.player_name->0,
            options.player_name is None ==> r.0.config.player_name@ == "Host"@,
            r.0.config.room_name == options.room_name,
            r.0.phase@ == HostPhaseModel::LoadingRom,
            r.1@ == ActionModel::ReadRom,
    {
        let player_name = match options.player_name {
            Some(name) => name,
            None => "Host".to_string(),
        };
        let config = HostConfig {
            server_addr: options.server_addr,
            rom_path: options.rom_path,
            client_sha: options.client_sha,
            fullscreen: options.fullscreen,
            player_name,
            room_name: options.room_name,
        };
        (HostFlow { config, phase: HostPhase::LoadingRom }, Action::ReadRom)
    }

    /// Whether the event answers what the session asked for last.
    pub fn accepts(&self, event: &Event) -> (r: bool)
        ensures
            r == host_answers(self.phase@, event@),
    {
        match (&self.phase, event) {
            (HostPhase::LoadingRom, Event::Rom(_)) => true,
            (HostPhase::Connecting { .. }, Event::Connection(_)) => true,
            (HostPhase::Requesting { .. }, Event::Delivery(_)) => true,
            (HostPhase::AwaitingCreate { .. }, Event::Heard(_)) => true,
            (HostPhase::Polling { .. }, Event::Polled(_, _)) => true,
            (HostPhase::Beginning { .. }, Event::Delivery(_)) => true,
            (HostPhase::AwaitingBegin { .. }, Event::Heard(_)) => true,
            _ => false,
        }
    }

    /// Takes the session on by an event, at the present time.
    pub fn step(self, event: Event) -> (r: (HostFlow, Action))
        requires
            host_answers(self.phase@, event@),
        ensures
            r.0.config == self.config,
            exists|now: i64|
                (r.0.phase@, r.1@) == #[trigger] host_next(
                    self.config@,
                    self.phase@,
                    event@,
                    now,
                ),
    {
        let now: i64 = match &event {
            Event::Connection(Connection::Plain(_)) => utc_millis(),
            _ => 0,
        };
        self.step_at(event, now)
    }

    /// Takes the session on by an event, at a given time in milliseconds since the start of 1970.
    pub fn step_at(self, event: Event, now: i64) -> (r: (HostFlow, Action))
        requires
            host_answers(self.phase@, event@),
        ensures
            r.0.config == self.config,
            (r.0.phase@, r.1@) == host_next(self.config@, self.phase@, event@, now),
    {
        let config = self.config;
        let (phase, action) = match (self.phase, event) {
            (HostPhase::LoadingRom, Event::Rom(rom)) => match rom {
                Some(rom) => (
                    HostPhase::Connecting { game_hash: rom.hash, game_name: rom.name },
                    Action::Connect(websocket_url(config.server_addr.as_str()), CONNECT_SECS),
                ),
                None => HostFlow::failed(NetplayError::RomUnreadable(config.rom_path.clone())),
            },
            (HostPhase::Connecting { game_hash, game_name }, Event::Connection(connection)) => {
                match peer_of(connection) {
                    Ok(peer) => {
                        let room_name = config.title(&game_name);
                        let request = create_room_request(
                            &config.player_name,
                            &config.client_sha,
                            AuthStamp::at(now),
                            room_name,
                            game_name,
                            game_hash,
                        );
                        (HostPhase::Requesting { peer }, Action::Send(request))
                    },
                    Err(error) => HostFlow::failed(error),
                }
            },
            (HostPhase::Requesting { peer }, Event::Delivery(delivery)) => match delivery {
                Ok(_) => (HostPhase::AwaitingCreate { peer }, Action::Listen(Some(REPLY_SECS))),
                Err(cause) => HostFlow::failed(NetplayError::SendFailed(cause)),
            },
            (HostPhase::AwaitingCreate { peer }, Event::Heard(incoming)) => {
                match wait_for_message("reply_create_room", REPLY_SECS, incoming) {
                    WaitOutcome::KeepWaiting => (
                        HostPhase::AwaitingCreate { peer },
                        Action::Listen(None),
                    ),
                    WaitOutcome::Arrived(reply) => match read_create_reply(reply) {
                        Ok((_, port)) => (
                            HostPhase::Polling { peer, port, baseline: None },
                            Action::Poll {
                                request: players_request(port),
                                wait_secs: POLL_SECS,
                                first: true,
                            },
                        ),
                        Err(error) => HostFlow::failed(error),
                    },
                    WaitOutcome::Failed(error) => HostFlow::failed(error),
                }
            },
            (HostPhase::Polling { peer, port, baseline }, Event::Polled(incoming, elapsed)) => {
                match poll_lobby(baseline, incoming, elapsed) {
                    LobbyOutcome::PollAgain(baseline) => (
                        HostPhase::Polling { peer, port, baseline },
                        Action::Poll {
                            request: players_request(port),
                            wait_secs: POLL_SECS,
                            first: false,
                        },
                    ),
                    LobbyOutcome::Begin => (
                        HostPhase::Beginning { peer, port },
                        Action::Send(begin_game_request(port)),
                    ),
                    LobbyOutcome::Failed(error) => HostFlow::failed(error),
                }
            },
            (HostPhase::Beginning { peer, port }, Event::Delivery(delivery)) => match delivery {
                Ok(_) => (
                    HostPhase::AwaitingBegin { peer, port },
                    Action::Listen(Some(REPLY_SECS)),
                ),
                Err(cause) => HostFlow::failed(NetplayError::SendFailed(cause)),
            },
            (HostPhase::AwaitingBegin { peer, port }, Event::Heard(incoming)) => {
                match wait_for_message("reply_begin_game", REPLY_SECS, incoming) {
                    WaitOutcome::KeepWaiting => (
                        HostPhase::AwaitingBegin { peer, port },
                        Action::Listen(None),
                    ),
                    WaitOutcome::Arrived(reply) => match read_host_begin_reply(reply) {
                        Ok(_) => {
                            let plan = LaunchPlan {
                                peer,
                                port: truncate_port(port),
                                player_number: 0,
                                settings: settings_for_host(config.fullscreen),
                            };
                            (HostPhase::Over, Action::Launch(plan))
                        },
                        Err(error) => HostFlow::failed(error),
                    },
                    WaitOutcome::Failed(error) => HostFlow::failed(error),
                }
            },
            _ => unreached(),
        };
        (HostFlow { config, phase }, action)
    }

    fn failed(error: NetplayError) -> (r: (HostPhase, Action))
        ensures
            (r.0@, r.1@) == host_failed(error@),
    {
        (HostPhase::Over, Action::Fail(error))
    }
}

impl HostConfig {
    /// The name of the room: the one that the host chose, or one made from the game's name.
    pub fn title(&self, game_name: &String) -> (r: String)
        ensures
            r@ == room_title(self@, game_name@),
    {
        match &self.room_name {
            Some(name) => name.clone(),
            None => "[OB] ".to_string().concat(game_name.as_str()),
        }
    }
}

/// The phase of a host's session after some events, each with the time at which it was taken in.
pub open spec fn host_phase_after(
    config: HostConfigModel,
    trace: Seq<(EventModel, i64)>,
) -> HostPhaseModel
    decreases trace.len(),
{
    if trace.len() == 0 {
        HostPhaseModel::LoadingRom
    } else {
        host_next(
            config,
            host_phase_after(config, trace.drop_last()),
            trace.last().0,
            trace.last().1,
        ).0
    }
}

/// What a host's session asks for after some events.
pub open spec fn host_action_after(
    config: HostConfigModel,
    trace: Seq<(EventModel, i64)>,
) -> ActionModel {
    if trace.len() == 0 {
        ActionModel::ReadRom
    } else {
        host_next(
            config,
            host_phase_after(config, trace.drop_last()),
            trace.last().0,
            trace.last().1,
        ).1
    }
}

/// Each event answers what the session asked for before it.
pub open spec fn host_trace_fits(
    config: HostConfigModel,
    trace: Seq<(EventModel, i64)>,
) -> bool
    decreases trace.len(),
{
    trace.len() == 0 || {
        &&& host_trace_fits(config, trace.drop_last())
        &&& host_answers(host_phase_after(config, trace.drop_last()), trace.last().0)
    }
}

/// Event `at` is the first reply to the create request, and it opens a room on `port`.
pub open spec fn opened_at(trace: Seq<(EventModel, i64)>, at: int, port: i32) -> bool {
    &&& 0 <= at < trace.len()
    &&& passed_over_between("reply_create_room"@, trace, 0, at)
    &&& message_of(trace[at].0) matches Some(reply)
    &&& reply.message_type == "reply_create_room"@
    &&& create_result(reply) matches Ok((_, given))
    &&& given == port
}

/// The events from `from` on and before `to` are polls of the lobby, and come to `outcome`.
pub open spec fn lobby_came_to(
    trace: Seq<(EventModel, i64)>,
    from: int,
    to: int,
    outcome: LobbyModel,
) -> bool {
    &&& 0 <= from <= to <= trace.len()
    &&& forall|i: int| from <= i < to ==> (#[trigger] trace[i]).0 is Polled
    &&& lobby_result(None, polls_between(trace, from, to)) == outcome
}

/// The polls among the events from `from` on and before `to`, which are all polls.
pub open spec fn polls_between(trace: Seq<(EventModel, i64)>, from: int, to: int) -> Seq<
    (IncomingModel, u64),
> {
    Seq::new(
        (to - from) as nat,
        |i: int| (trace[from + i].0->Polled_0, trace[from + i].0->Polled_1),
    )
}

/// After the connection the server opened a room on `port` for the host.
spec fn room_was_opened(
    trace: Seq<(EventModel, i64)>,
    peer: Seq<char>,
    port: i32,
    connected: int,
    opened: int,
) -> bool {
    &&& connected < opened
    &&& connected_at(trace, connected, peer)
    &&& opened_at(trace, opened, port)
}

/// The polls after the room was opened called for the game, the host asked for it, and the request
/// went out with event `asked`.
pub open spec fn game_was_asked_for(
    config: HostConfigModel,
    trace: Seq<(EventModel, i64)>,
    port: i32,
    opened: int,
    asked: int,
) -> bool {
    &&& opened < asked < trace.len()
    &&& lobby_came_to(trace, opened + 1, asked, LobbyModel::Begin)
    &&& host_action_after(config, trace.take(asked)) == ActionModel::Send(
        room_request("request_begin_game"@, port),
    )
    &&& trace[asked].0 matches EventModel::Delivery(Ok(_))
}

/// What a host's session has been through when it comes to a phase.
spec fn host_history(
    config: HostConfigModel,
    trace: Seq<(EventModel, i64)>,
    phase: HostPhaseModel,
) -> bool {
    let end = trace.len() as int;
    match phase {
        HostPhaseModel::LoadingRom => trace.len() == 0,
        HostPhaseModel::Connecting { .. } => {
            passed_over_between("reply_create_room"@, trace, 0, end)
        },
        HostPhaseModel::Requesting { peer } => {
            &&& exists|connected: int| connected_at(trace, connected, peer)
            &&& passed_over_between("reply_create_room"@, trace, 0, end)
        },
        HostPhaseModel::AwaitingCreate { peer } => {
            &&& exists|connected: int| connected_at(trace, connected, peer)
            &&& passed_over_between("reply_create_room"@, trace, 0, end)
        },
        HostPhaseModel::Polling { peer, port, baseline } => {
            exists|connected: int, opened: int|
                {
                    &&& #[trigger] room_was_opened(trace, peer, port, connected, opened)
                    &&& lobby_came_to(trace, opened + 1, end, LobbyModel::PollAgain(baseline))
                }
        },
        HostPhaseModel::Beginning { peer, port } => {
            &&& exists|connected: int, opened: int|
                {
                    &&& #[trigger] room_was_opened(trace, peer, port, connected, opened)
                    &&& lobby_came_to(trace, opened + 1, end, LobbyModel::Begin)
                }
            &&& host_action_after(config, trace) == ActionModel::Send(
                room_request("request_begin_game"@, port),
            )
        },
        HostPhaseModel::AwaitingBegin { peer, port } => {
            exists|connected: int, opened: int, asked: int|
                {
                    &&& #[trigger] room_was_opened(trace, peer, port, connected, opened)
                    &&& #[trigger] game_was_asked_for(config, trace, port, opened, asked)
                    &&& passed_over_between("reply_begin_game"@, trace, asked + 1, end)
                }
        },
        HostPhaseModel::Over => true,
    }
}

proof fn lemma_room_opened_prefix(
    trace: Seq<(EventModel, i64)>,
    peer: Seq<char>,
    port: i32,
    connected: int,
    opened: int,
)
    requires
        trace.len() > 0,
        room_was_opened(trace.drop_last(), peer, port, connected, opened),
    ensures
        room_was_opened(trace, peer, port, connected, opened),
{
    lemma_passed_over_prefix("reply_create_room"@, trace, 0, opened);
}

proof fn lemma_lobby_prefix(
    trace: Seq<(EventModel, i64)>,
    from: int,
    to: int,
    outcome: LobbyModel,
)
    requires
        trace.len() > 0,
        lobby_came_to(trace.drop_last(), from, to, outcome),
    ensures
        lobby_came_to(trace, from, to, outcome),
{
    let front = trace.drop_last();
    assert(polls_between(front, from, to) =~= polls_between(trace, from, to));
    assert forall|i: int| from <= i < to implies (#[trigger] trace[i]).0 is Polled by {
        assert(front[i] == trace[i]);
    }
}

proof fn lemma_lobby_poll(
    trace: Seq<(EventModel, i64)>,
    from: int,
    baseline: Option<nat>,
)
    requires
        trace.len() > 0,
        trace.last().0 is Polled,
        lobby_came_to(
            trace.drop_last(),
            from,
            trace.len() - 1,
            LobbyModel::PollAgain(baseline),
        ),
    ensures
        lobby_came_to(
            trace,
            from,
            trace.len() as int,
            lobby_outcome(baseline, trace.last().0->Polled_0, trace.last().0->Polled_1),
        ),
{
    let last = trace.len() - 1;
    let poll = (trace.last().0->Polled_0, trace.last().0->Polled_1);
    lemma_lobby_prefix(trace, from, last, LobbyModel::PollAgain(baseline));
    assert(polls_between(trace, from, last + 1) =~= polls_between(trace, from, last).push(poll));
    lemma_lobby_result_push(None, polls_between(trace, from, last), poll);
}

proof fn lemma_asked_for_prefix(
    config: HostConfigModel,
    trace: Seq<(EventModel, i64)>,
    port: i32,
    opened: int,
    asked: int,
)
    requires
        trace.len() > 0,
        game_was_asked_for(config, trace.drop_last(), port, opened, asked),
    ensures
        game_was_asked_for(config, trace, port, opened, asked),
{
    lemma_lobby_prefix(trace, opened + 1, asked, LobbyModel::Begin);
    assert(trace.drop_last().take(asked) =~= trace.take(asked));
}

proof fn lemma_host_history_opening(config: HostConfigModel, trace: Seq<(EventModel, i64)>)
    requires
        trace.len() > 0,
        host_trace_fits(config, trace),
        host_history(config, trace.drop_last(), host_phase_after(config, trace.drop_last())),
        !(host_phase_after(config, trace.drop_last()) is Polling),
        !(host_phase_after(config, trace.drop_last()) is Beginning),
        !(host_phase_after(config, trace.drop_last()) is AwaitingBegin),
    ensures
        host_history(config, trace, host_phase_after(config, trace)),
{
    let front = trace.drop_last();
    let before = host_phase_after(config, front);
    let after = host_phase_after(config, trace);
    let last = trace.len() - 1;
    if passed_over_between("reply_create_room"@, front, 0, last) {
        lemma_passed_over_prefix("reply_create_room"@, trace, 0, last);
    }
    match (before, after) {
        (HostPhaseModel::Connecting { .. }, HostPhaseModel::Requesting { peer }) => {
            assert(connected_at(trace, last, peer));
        },
        (HostPhaseModel::Requesting { peer }, HostPhaseModel::AwaitingCreate { peer: kept }) => {
            assert(kept == peer);
            let connected = choose|connected: int| connected_at(front, connected, peer);
            assert(connected_at(trace, connected, peer));
        },
        (
            HostPhaseModel::AwaitingCreate { peer },
            HostPhaseModel::AwaitingCreate { peer: kept },
        ) => {
            assert(kept == peer);
            assert(passed_over("reply_create_room"@, trace[last].0->Heard_0));
            let connected = choose|connected: int| connected_at(front, connected, peer);
            assert(connected_at(trace, connected, peer));
        },
        (
            HostPhaseModel::AwaitingCreate { peer },
            HostPhaseModel::Polling { peer: kept, port, baseline },
        ) => {
            assert(kept == peer && baseline is None);
            let connected = choose|connected: int| connected_at(front, connected, peer);
            assert(connected_at(trace, connected, peer));
            assert(opened_at(trace, last, port));
            assert(room_was_opened(trace, peer, port, connected, last));
            assert(polls_between(trace, last + 1, last + 1) =~= Seq::empty());
            assert(lobby_came_to(
                trace,
                last + 1,
                trace.len() as int,
                LobbyModel::PollAgain(baseline),
            ));
        },
        _ => {},
    }
}

proof fn lemma_host_history_polling(config: HostConfigModel, trace: Seq<(EventModel, i64)>)
    requires
        trace.len() > 0,
        host_trace_fits(config, trace),
        host_history(config, trace.drop_last(), host_phase_after(config, trace.drop_last())),
        host_phase_after(config, trace.drop_last()) is Polling,
    ensures
        host_history(config, trace, host_phase_after(config, trace)),
{
    let front = trace.drop_last();
    let before = host_phase_after(config, front);
    let after = host_phase_after(config, trace);
    let last = trace.len() - 1;
    match before {
        HostPhaseModel::Polling { peer, port, baseline } => {
            let (connected, opened) = choose|connected: int, opened: int|
                {
                    &&& #[trigger] room_was_opened(front, peer, port, connected, opened)
                    &&& lobby_came_to(front, opened + 1, last, LobbyModel::PollAgain(baseline))
                };
            lemma_room_opened_prefix(trace, peer, port, connected, opened);
            lemma_lobby_poll(trace, opened + 1, baseline);
            let outcome = lobby_outcome(
                baseline,
                trace.last().0->Polled_0,
                trace.last().0->Polled_1,
            );
            match after {
                HostPhaseModel::Polling { peer: kept, port: same, baseline: next } => {
                    assert(kept == peer && same == port && outcome == LobbyModel::PollAgain(next));
                },
                HostPhaseModel::Beginning { peer: kept, port: same } => {
                    assert(kept == peer && same == port && outcome == LobbyModel::Begin);
                },
                _ => {},
            }
        },
        _ => {},
    }
}

proof fn lemma_host_history_beginning(config: HostConfigModel, trace: Seq<(EventModel, i64)>)
    requires
        trace.len() > 0,
        host_trace_fits(config, trace),
        host_history(config, trace.drop_last(), host_phase_after(config, trace.drop_last())),
        host_phase_after(config, trace.drop_last()) is Beginning,
    ensures
        host_history(config, trace, host_phase_after(config, trace)),
{
    let front = trace.drop_last();
    let before = host_phase_after(config, front);
    let after = host_phase_after(config, trace);
    let last = trace.len() - 1;
    match (before, after) {
        (
            HostPhaseModel::Beginning { peer, port },
            HostPhaseModel::AwaitingBegin { peer: kept, port: same },
        ) => {
            assert(kept == peer && same == port);
            let (connected, opened) = choose|connected: int, opened: int|
                {
                    &&& #[trigger] room_was_opened(front, peer, port, connected, opened)
                    &&& lobby_came_to(front, opened + 1, last, LobbyModel::Begin)
                };
            lemma_room_opened_prefix(trace, peer, port, connected, opened);
            lemma_lobby_prefix(trace, opened + 1, last, LobbyModel::Begin);
            assert(trace.take(last) =~= front);
            assert(trace[last] == trace.last());
            assert(game_was_asked_for(config, trace, port, opened, last));
        },
        _ => {},
    }
}

proof fn lemma_host_history_awaiting(config: HostConfigModel, trace: Seq<(EventModel, i64)>)
    requires
        trace.len() > 0,
        host_trace_fits(config, trace),
        host_history(config, trace.drop_last(), host_phase_after(config, trace.drop_last())),
        host_phase_after(config, trace.drop_last()) is AwaitingBegin,
    ensures
        host_history(config, trace, host_phase_after(config, trace)),
{
    let front = trace.drop_last();
    let before = host_phase_after(config, front);
    let after = host_phase_after(config, trace);
    let last = trace.len() - 1;
    match (before, after) {
        (
            HostPhaseModel::AwaitingBegin { peer, port },
            HostPhaseModel::AwaitingBegin { peer: kept, port: same },
        ) => {
            assert(kept == peer && same == port);
            assert(passed_over("reply_begin_game"@, trace[last].0->Heard_0));
            let (connected, opened, asked) = choose|connected: int, opened: int, asked: int|
                {
                    &&& #[trigger] room_was_opened(front, peer, port, connected, opened)
                    &&& #[trigger] game_was_asked_for(config, front, port, opened, asked)
                    &&& passed_over_between("reply_begin_game"@, front, asked + 1, last)
                };
            lemma_room_opened_prefix(trace, peer, port, connected, opened);
            lemma_asked_for_prefix(config, trace, port, opened, asked);
            lemma_passed_over_prefix("reply_begin_game"@, trace, asked + 1, last);
        },
        _ => {},
    }
}

proof fn lemma_host_history(config: HostConfigModel, trace: Seq<(EventModel, i64)>)
    requires
        host_trace_fits(config, trace),
    ensures
        host_history(config, trace, host_phase_after(config, trace)),
    decreases trace.len(),
{
    if trace.len() > 0 {
        lemma_host_history(config, trace.drop_last());
        match host_phase_after(config, trace.drop_last()) {
            HostPhaseModel::Polling { .. } => lemma_host_history_polling(config, trace),
            HostPhaseModel::Beginning { .. } => lemma_host_history_beginning(config, trace),
            HostPhaseModel::AwaitingBegin { .. } => lemma_host_history_awaiting(config, trace),
            _ => lemma_host_history_opening(config, trace),
        }
    }
}

/// The course of a host's session that ends with the start of a game: the host connected to the
/// server, the first reply to its create request opened a room, the polls of the lobby called for
/// the game, the host asked for the game in that room, and the first reply to that granted it.
pub open spec fn host_was_granted(
    config: HostConfigModel,
    trace: Seq<(EventModel, i64)>,
    plan: PlanModel,
    connected: int,
    opened: int,
    asked: int,
    port: i32,
) -> bool {
    let last = trace.len() - 1;
    &&& connected < opened < asked < last
    &&& connected_at(trace, connected, plan.peer)
    &&& opened_at(trace, opened, port)
    &&& plan.port == game_port(port)
    &&& game_was_asked_for(config, trace, port, opened, asked)
    &&& passed_over_between("reply_begin_game"@, trace, asked + 1, last)
    &&& message_of(trace[last].0) matches Some(reply)
    &&& reply.message_type == "reply_begin_game"@
    &&& granted(reply)
}

/// A host starts a game only in a room that the server opened for it, only after the lobby called
/// for the game and the server granted it, and always as the first player with the host's settings.
pub proof fn law_host_starts_only_when_granted(
    config: HostConfigModel,
    trace: Seq<(EventModel, i64)>,
    plan: PlanModel,
)
    requires
        host_trace_fits(config, trace),
        host_action_after(config, trace) == ActionModel::Launch(plan),
    ensures
        plan.player_number == 0,
        plan.settings == host_settings(config.fullscreen),
        exists|connected: int, opened: int, asked: int, port: i32|
            host_was_granted(config, trace, plan, connected, opened, asked, port),
{
    let front = trace.drop_last();
    let last = trace.len() - 1;
    lemma_host_history(config, front);
    match host_phase_after(config, front) {
        HostPhaseModel::AwaitingBegin { peer, port } => {
            let (connected, opened, asked) = choose|connected: int, opened: int, asked: int|
                {
                    &&& #[trigger] room_was_opened(front, peer, port, connected, opened)
                    &&& #[trigger] game_was_asked_for(config, front, port, opened, asked)
                    &&& passed_over_between("reply_begin_game"@, front, asked + 1, last)
                };
            lemma_room_opened_prefix(trace, peer, port, connected, opened);
            lemma_asked_for_prefix(config, trace, port, opened, asked);
            lemma_passed_over_prefix("reply_begin_game"@, trace, asked + 1, last);
            assert(host_was_granted(config, trace, plan, connected, opened, asked, port));
        },
        _ => {},
    }
}

proof fn lemma_host_step(config: HostConfigModel, trace: Seq<(EventModel, i64)>, at: int)
    requires
        0 <= at < trace.len(),
    ensures
        host_phase_after(config, trace.take(at + 1)) == host_next(
            config,
            host_phase_after(config, trace.take(at)),
            trace[at].0,
            trace[at].1,
        ).0,
        host_action_after(config, trace.take(at + 1)) == host_next(
            config,
            host_phase_after(config, trace.take(at)),
            trace[at].0,
            trace[at].1,
        ).1,
        host_trace_fits(config, trace.take(at + 1)) == (host_trace_fits(config, trace.take(at))
            && host_answers(host_phase_after(config, trace.take(at)), trace[at].0)),
{
    assert(trace.take(at + 1).drop_last() =~= trace.take(at));
}

proof fn lemma_host_idles(
    config: HostConfigModel,
    trace: Seq<(EventModel, i64)>,
    expected: Seq<char>,
    from: int,
    to: int,
)
    requires
        0 <= from <= to <= trace.len(),
        host_trace_fits(config, trace.take(from)),
        match host_phase_after(config, trace.take(from)) {
            HostPhaseModel::AwaitingCreate { .. } => expected == "reply_create_room"@,
            HostPhaseModel::AwaitingBegin { .. } => expected == "reply_begin_game"@,
            _ => false,
        },
        idle_between(expected, trace, from, to),
    ensures
        host_trace_fits(config, trace.take(to)),
        host_phase_after(config, trace.take(to)) == host_phase_after(config, trace.take(from)),
    decreases to - from,
{
    if from < to {
        lemma_host_idles(config, trace, expected, from, to - 1);
        lemma_host_step(config, trace, to - 1);
        assert(trace[to - 1].0 is Heard);
    }
}

proof fn lemma_host_polls(
    config: HostConfigModel,
    trace: Seq<(EventModel, i64)>,
    peer: Seq<char>,
    port: i32,
    from: int,
    to: int,
)
    requires
        0 <= from <= to <= trace.len(),
        host_trace_fits(config, trace.take(from)),
        host_phase_after(config, trace.take(from)) == (HostPhaseModel::Polling {
            peer,
            port,
            baseline: None,
        }),
        forall|i: int| from <= i < to ==> (#[trigger] trace[i]).0 is Polled,
        lobby_result(None, polls_between(trace, from, to)) is PollAgain,
    ensures
        host_trace_fits(config, trace.take(to)),
        host_phase_after(config, trace.take(to)) == (HostPhaseModel::Polling {
            peer,
            port,
            baseline: lobby_result(None, polls_between(trace, from, to))->PollAgain_0,
        }),
    decreases to - from,
{
    let polls = polls_between(trace, from, to);
    if from < to {
        let front = polls_between(trace, from, to - 1);
        let poll = (trace[to - 1].0->Polled_0, trace[to - 1].0->Polled_1);
        assert(polls =~= front.push(poll));
        lemma_lobby_result_push(None, front, poll);
        lemma_host_polls(config, trace, peer, port, from, to - 1);
        lemma_host_step(config, trace, to - 1);
        assert(trace[to - 1].0 is Polled);
    } else {
        assert(polls =~= Seq::empty());
    }
}

/// A host whose ROM can be read, who gets a plain connection and gets its requests out, for whom
/// the server opens a room, whose lobby calls for the game, and whom the server grants the game,
/// starts the game, whatever else the server sends while the host waits for a reply.
#[verifier::rlimit(50)]
#[verifier::spinoff_prover]
pub proof fn law_granted_host_starts(
    config: HostConfigModel,
    trace: Seq<(EventModel, i64)>,
    peer: Seq<char>,
    opened: int,
    asked: int,
    port: i32,
)
    requires
        2 < opened,
        opened + 1 < asked < trace.len() - 1,
        trace[0].0 matches EventModel::Rom(Some(_)),
        trace[1].0 == EventModel::Connection(ConnectionModel::Plain(peer)),
        trace[2].0 matches EventModel::Delivery(Ok(_)),
        idle_between("reply_create_room"@, trace, 3, opened),
        opened_at(trace, opened, port),
        lobby_result(None, polls_between(trace, opened + 1, asked - 1)) is PollAgain,
        lobby_came_to(trace, opened + 1, asked, LobbyModel::Begin),
        trace[asked].0 matches EventModel::Delivery(Ok(_)),
        idle_between("reply_begin_game"@, trace, asked + 1, trace.len() - 1),
        message_of(trace.last().0) matches Some(reply) && reply.message_type
            == "reply_begin_game"@ && granted(reply),
    ensures
        host_trace_fits(config, trace),
        host_action_after(config, trace) == ActionModel::Launch(
            PlanModel {
                peer,
                port: game_port(port),
                player_number: 0,
                settings: host_settings(config.fullscreen),
            },
        ),
{
    let last = trace.len() - 1;
    assert(trace.take(0) =~= Seq::empty());
    lemma_host_step(config, trace, 0);
    lemma_host_step(config, trace, 1);
    lemma_host_step(config, trace, 2);
    lemma_host_idles(config, trace, "reply_create_room"@, 3, opened);
    lemma_host_step(config, trace, opened);
    lemma_host_polls(config, trace, peer, port, opened + 1, asked - 1);
    let front = polls_between(trace, opened + 1, asked - 1);
    let poll = (trace[asked - 1].0->Polled_0, trace[asked - 1].0->Polled_1);
    assert(trace[asked - 1].0 is Polled);
    assert(polls_between(trace, opened + 1, asked) =~= front.push(poll));
    lemma_lobby_result_push(None, front, poll);
    lemma_host_step(config, trace, asked - 1);
    lemma_host_step(config, trace, asked);
    lemma_host_idles(config, trace, "reply_begin_game"@, asked + 1, last);
    lemma_host_step(config, trace, last);
    assert(trace.take(last + 1) =~= trace);
}

/// The events after event `opened`, which opened the room, are polls that got no answer, and each of
/// them took as long as a host waits for an answer.
pub open spec fn unanswered_since(trace: Seq<(EventModel, i64)>, opened: int) -> bool {
    &&& forall|i: int| opened < i < trace.len() ==> (#[trigger] trace[i]).0 is Polled
    &&& unanswered(polls_between(trace, opened + 1, trace.len() as int))
}

/// A host for whom the server opens a room, and who then gets no answer, asks for the players at
/// once and again after each wait of three seconds as long as it has waited for less than three
/// hundred, and asks for the game after the first wait that brings it there. It asks for the players
/// at most a hundred times.
pub proof fn law_unanswered_host_begins(
    config: HostConfigModel,
    trace: Seq<(EventModel, i64)>,
    peer: Seq<char>,
    port: i32,
    opened: int,
)
    requires
        0 <= opened < trace.len() - 1,
        host_trace_fits(config, trace.take(opened)),
        host_phase_after(config, trace.take(opened)) == (HostPhaseModel::AwaitingCreate { peer }),
        ({
            &&& message_of(trace[opened].0) matches Some(reply)
            &&& reply.message_type == "reply_create_room"@
            &&& create_result(reply) matches Ok((_, given))
            &&& given == port
        }),
        unanswered_since(trace, opened),
        forall|i: int|
            opened < i < trace.len() - 1 ==> (#[trigger] trace[i]).0->Polled_1 < 300_000,
    ensures
        host_trace_fits(config, trace),
        host_action_after(config, trace.take(opened + 1)) == (ActionModel::Poll {
            request: room_request("request_players"@, port),
            wait_secs: 3,
            first: true,
        }),
        trace.len() - 1 - opened <= 100,
        trace.last().0->Polled_1 >= 300_000 ==> host_action_after(config, trace)
            == ActionModel::Send(room_request("request_begin_game"@, port)),
        trace.last().0->Polled_1 < 300_000 ==> {
            &&& trace.len() - 1 - opened < 100
            &&& host_action_after(config, trace) == (ActionModel::Poll {
                request: room_request("request_players"@, port),
                wait_secs: 3,
                first: false,
            })
        },
{
    let from = opened + 1;
    let end = trace.len() as int;
    let polls = polls_between(trace, from, end);
    let front = polls_between(trace, from, end - 1);
    let poll = (trace.last().0->Polled_0, trace.last().0->Polled_1);
    lemma_host_step(config, trace, opened);
    assert forall|i: int| 0 <= i < polls.len() - 1 implies !lobby_expired(
        (#[trigger] polls[i]).1,
    ) by {
        assert(trace[from + i].0->Polled_1 < 300_000);
    }
    law_unanswered_lobby(None, polls);
    assert(polls =~= front.push(poll));
    if front.len() > 0 {
        assert forall|i: int| 0 <= i < front.len() implies (#[trigger] front[i]).0 is TimedOut
            && front[i].1 >= (i + 1) * POLL_SECS * 1000 by {
            assert(front[i] == polls[i]);
        }
        assert forall|i: int| 0 <= i < front.len() implies !lobby_expired(
            (#[trigger] front[i]).1,
        ) by {
            assert(front[i] == polls[i]);
        }
        law_unanswered_lobby(None, front);
    } else {
        assert(front =~= Seq::empty());
    }
    lemma_host_polls(config, trace, peer, port, from, end - 1);
    lemma_lobby_result_push(None, front, poll);
    assert(trace[end - 1].0 is Polled);
    assert(polls.last() == poll);
    assert(polls[polls.len() - 1].0 is TimedOut);
    lemma_host_step(config, trace, end - 1);
    assert(trace.take(end) =~= trace);
}

/// A host's session asks for a game or gives up exactly when it comes to its end, and at its end
/// it takes no more events.
pub proof fn law_host_session_ends_once(
    config: HostConfigModel,
    phase: HostPhaseModel,
    event: EventModel,
    now: i64,
)
    requires
        host_answers(phase, event),
    ensures
        is_last(host_next(config, phase, event, now).1) <==> host_next(config, phase, event, now).0
            == HostPhaseModel::Over,
        forall|later: EventModel| !#[trigger] host_answers(HostPhaseModel::Over, later),
{
}

/// The create request of a host is signed with the token for the time that it states; every other
/// message that a host sends is about the room that the server opened for it. The poll that opens
/// the wait for players is the one marked as the first.
pub proof fn law_host_requests(
    config: HostConfigModel,
    phase: HostPhaseModel,
    event: EventModel,
    now: i64,
)
    requires
        host_answers(phase, event),
    ensures
        match host_next(config, phase, event, now).1 {
            ActionModel::Send(message) => {
                ||| {
                    &&& message.message_type == "request_create_room"@
                    &&& message.auth_time is Some
                    &&& message.auth == Some(auth_token(message.auth_time->0))
                }
                ||| {
                    &&& phase is Polling
                    &&& message == room_request("request_begin_game"@, phase->Polling_port)
                }
            },
            ActionModel::Poll { request, wait_secs, first } => {
                &&& host_next(config, phase, event, now).0 matches HostPhaseModel::Polling {
                    port,
                    ..
                }
                &&& request == room_request("request_players"@, port)
                &&& wait_secs == POLL_SECS
                &&& first == !(phase is Polling)
                &&& phase is Polling ==> port == phase->Polling_port
            },
            _ => true,
        },
{
}

/// A refusal ends a host's session, and is reported with the reason that the server gives, or, where it
/// gives none, with one that says what was refused.
pub proof fn law_refusal_ends_host_session(
    config: HostConfigModel,
    phase: HostPhaseModel,
    reply: MessageModel,
    now: i64,
)
    requires
        !granted(reply),
        phase is AwaitingCreate || phase is AwaitingBegin,
        phase is AwaitingCreate ==> reply.message_type == "reply_create_room"@,
        phase is AwaitingBegin ==> reply.message_type == "reply_begin_game"@,
    ensures
        ({
            let event = EventModel::Heard(IncomingModel::Message(reply));
            let (after, action) = host_next(config, phase, event, now);
            &&& after == HostPhaseModel::Over
            &&& action matches ActionModel::Fail(failure)
            &&& failure_text(failure) == if phase is AwaitingCreate {
                "Create room rejected: "@ + refusal_reason(reply, "Room creation rejected"@)
            } else {
                "Begin game rejected: "@ + refusal_reason(reply, "Begin game rejected"@)
            }
        }),
{
}

} // verus!
