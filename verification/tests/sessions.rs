use netplay::host::{HostFlow, HostOptions};
use netplay::join::{JoinFlow, JoinOptions};
use netplay::message::{players_request, NetplayMessage};
use netplay::session::{truncate_port, Action, Connection, Event, Rom};
use netplay::string_map::StringMap;
use netplay::wait::Incoming;

fn guest(player_name: Option<&str>, room_port: Option<i32>) -> (JoinFlow, Action) {
    JoinFlow::start(JoinOptions {
        server_addr: "example.org:45000".to_string(),
        rom_path: "games/game.z64".to_string(),
        client_sha: "abc123".to_string(),
        fullscreen: true,
        player_name: player_name.map(|name| name.to_string()),
        room_port,
    })
}

fn host(room_name: Option<&str>) -> (HostFlow, Action) {
    HostFlow::start(HostOptions {
        server_addr: "wss://example.org".to_string(),
        rom_path: "games/game.z64".to_string(),
        client_sha: "abc123".to_string(),
        fullscreen: false,
        player_name: None,
        room_name: room_name.map(|name| name.to_string()),
    })
}

fn rom() -> Event {
    Event::Rom(Some(Rom { hash: "HASH".to_string(), name: "GAME".to_string() }))
}

fn plain() -> Event {
    Event::Connection(Connection::Plain("1.2.3.4:45000".to_string()))
}

fn heard(message: NetplayMessage) -> Event {
    Event::Heard(Incoming::Message(message))
}

fn reply(message_type: &str, port: Option<i32>) -> NetplayMessage {
    let mut message = players_request(0);
    message.message_type = message_type.to_string();
    message.accept = Some(0);
    message.room.as_mut().unwrap().port = port;
    message
}

fn begin_reply(names: [&str; 4]) -> NetplayMessage {
    let mut message = reply("reply_begin_game", None);
    message.player_names = Some(names.map(|name| name.to_string()));
    message
}

fn players(names: [&str; 4]) -> Incoming {
    let mut message = reply("reply_players", None);
    message.player_names = Some(names.map(|name| name.to_string()));
    Incoming::Message(message)
}

fn take_guest(flow: JoinFlow, event: Event) -> (JoinFlow, Action) {
    assert!(flow.accepts(&event));
    flow.step_at(event, 1700000000000)
}

fn take_host(flow: HostFlow, event: Event) -> (HostFlow, Action) {
    assert!(flow.accepts(&event));
    flow.step_at(event, 1700000000000)
}

fn message_of(action: Action) -> String {
    match action {
        Action::Fail(error) => error.message(),
        other => panic!("{:?}", other),
    }
}

fn waiting_guest() -> JoinFlow {
    let (flow, _) = guest(Some("Ann"), Some(45007));
    let (flow, _) = take_guest(flow, rom());
    let (flow, _) = take_guest(flow, plain());
    let (flow, _) = take_guest(flow, Event::Delivery(Ok(())));
    flow
}

fn polling_host() -> (HostFlow, Action) {
    let (flow, _) = host(None);
    let (flow, _) = take_host(flow, rom());
    let (flow, _) = take_host(flow, plain());
    let (flow, _) = take_host(flow, Event::Delivery(Ok(())));
    take_host(flow, heard(reply("reply_create_room", Some(45010))))
}

#[test]
fn guest_session_runs_to_the_game() {
    let (flow, action) = guest(Some("Ann"), Some(45007));
    assert!(matches!(action, Action::ReadRom));
    let (flow, action) = take_guest(flow, rom());
    match action {
        Action::Connect(url, secs) => {
            assert_eq!(url, "ws://example.org:45000");
            assert_eq!(secs, 5);
        }
        other => panic!("{:?}", other),
    }
    let (flow, action) = take_guest(flow, plain());
    match action {
        Action::Send(message) => {
            assert_eq!(message.message_type, "request_join_room");
            assert_eq!(message.player_name.as_deref(), Some("Ann"));
            assert_eq!(message.client_sha.as_deref(), Some("abc123"));
            assert_eq!(message.auth_time.as_deref(), Some("1700000000000"));
            assert_eq!(
                message.auth.as_deref(),
                Some("cb031e74d972cfcfd5e100dfec735a739055fcda6898d723a98c6ec7327dd5e8")
            );
            let room = message.room.unwrap();
            assert_eq!(room.md5.as_deref(), Some("HASH"));
            assert_eq!(room.port, Some(45007));
        }
        other => panic!("{:?}", other),
    }
    let (flow, action) = take_guest(flow, Event::Delivery(Ok(())));
    assert!(matches!(action, Action::Listen(Some(10))));
    let (flow, action) = take_guest(flow, Event::Heard(Incoming::Unreadable));
    assert!(matches!(action, Action::Listen(None)));
    let (flow, action) = take_guest(flow, heard(begin_reply(["Ann", "", "", ""])));
    assert!(matches!(action, Action::Listen(None)));
    let mut joined = reply("reply_join_room", Some(65536 + 45009));
    let mut features: StringMap<String> = StringMap::new();
    features.insert("overclock".to_string(), "true".to_string());
    features.insert("cheats".to_string(), "{\"a\":null}".to_string());
    joined.room.as_mut().unwrap().features = Some(features);
    let (flow, action) = take_guest(flow, heard(joined));
    assert!(matches!(action, Action::Listen(Some(300))));
    let (flow, action) = take_guest(flow, heard(reply("reply_join_room", Some(1))));
    assert!(matches!(action, Action::Listen(None)));
    let (flow, action) = take_guest(flow, heard(begin_reply(["Host", "Bob", "Ann", "Ann"])));
    match action {
        Action::Launch(plan) => {
            assert_eq!(plan.peer, "1.2.3.4:45000");
            assert_eq!(plan.port, 45009);
            assert_eq!(plan.player_number, 2);
            assert!(plan.settings.fullscreen);
            assert!(plan.settings.overclock);
            assert!(!plan.settings.disable_expansion_pak);
            assert_eq!(plan.settings.cheats.get("a"), Some(&None));
        }
        other => panic!("{:?}", other),
    }
    assert!(!flow.accepts(&rom()));
    assert!(!flow.accepts(&Event::Heard(Incoming::Closed)));
}

#[test]
fn guest_has_defaults() {
    let (flow, _) = guest(None, None);
    assert_eq!(flow.config.player_name, "Player");
    assert_eq!(flow.config.room_port, 45001);
    let (flow, _) = host(None);
    assert_eq!(flow.config.player_name, "Host");
}

#[test]
fn request_is_stamped_with_the_present_time() {
    let (flow, _) = guest(None, None);
    let (flow, _) = flow.step(rom());
    let (_, action) = flow.step(plain());
    match action {
        Action::Send(message) => {
            let time: i64 = message.auth_time.unwrap().parse().unwrap();
            assert!(time > 1_600_000_000_000);
            assert_eq!(message.auth.unwrap(), netplay::auth::AuthStamp::at(time).auth);
        }
        other => panic!("{:?}", other),
    }
    let (flow, _) = host(None);
    let (flow, _) = flow.step(rom());
    let (_, action) = flow.step(plain());
    match action {
        Action::Send(message) => {
            let time: i64 = message.auth_time.unwrap().parse().unwrap();
            assert!(time > 1_600_000_000_000);
        }
        other => panic!("{:?}", other),
    }
}

#[test]
fn session_ends_without_a_rom() {
    let (flow, _) = guest(None, None);
    let (flow, action) = take_guest(flow, Event::Rom(None));
    assert_eq!(message_of(action), "Could not read ROM file: games/game.z64");
    assert!(!flow.accepts(&rom()));
    let (flow, _) = host(None);
    let (_, action) = take_host(flow, Event::Rom(None));
    assert_eq!(message_of(action), "Could not read ROM file: games/game.z64");
}

#[test]
fn session_ends_without_a_plain_connection() {
    let cases = vec![
        (Connection::TimedOut, "WebSocket connection timed out"),
        (Connection::Failed("refused".to_string()), "WebSocket connection failed: refused"),
        (Connection::Encrypted, "TLS connections not supported in CLI mode"),
        (Connection::PeerUnknown("not connected".to_string()), "not connected"),
    ];
    for (connection, words) in cases {
        let (flow, _) = guest(None, None);
        let (flow, _) = take_guest(flow, rom());
        let (_, action) = take_guest(flow, Event::Connection(connection));
        assert_eq!(message_of(action), words);
    }
    let (flow, _) = host(None);
    let (flow, _) = take_host(flow, rom());
    let (_, action) = take_host(flow, Event::Connection(Connection::TimedOut));
    assert_eq!(message_of(action), "WebSocket connection timed out");
}

#[test]
fn guest_session_ends_if_the_request_is_not_sent() {
    let (flow, _) = guest(None, None);
    let (flow, _) = take_guest(flow, rom());
    let (flow, _) = take_guest(flow, plain());
    let (_, action) = take_guest(flow, Event::Delivery(Err("broken pipe".to_string())));
    assert_eq!(message_of(action), "broken pipe");
}

#[test]
fn guest_session_ends_with_a_failed_wait() {
    let (_, action) = take_guest(waiting_guest(), Event::Heard(Incoming::TimedOut));
    assert_eq!(message_of(action), "Timed out waiting for reply_join_room (10s)");
    let (flow, _) = take_guest(waiting_guest(), heard(reply("reply_join_room", Some(1))));
    let (_, action) = take_guest(flow, Event::Heard(Incoming::TimedOut));
    assert_eq!(message_of(action), "Timed out waiting for reply_begin_game (300s)");
    let (_, action) = take_guest(waiting_guest(), Event::Heard(Incoming::Closed));
    assert_eq!(message_of(action), "WebSocket connection closed");
}

#[test]
fn guest_session_ends_with_a_refusal() {
    let mut refusal = reply("reply_join_room", Some(1));
    refusal.accept = Some(3);
    refusal.message = Some("wrong version".to_string());
    let (_, action) = take_guest(waiting_guest(), heard(refusal));
    assert_eq!(message_of(action), "Join rejected: wrong version");
    let (flow, _) = take_guest(waiting_guest(), heard(reply("reply_join_room", Some(1))));
    let (_, action) = take_guest(flow, heard(begin_reply(["Host", "Bob", "", ""])));
    assert_eq!(message_of(action), "Could not determine player number from player_names");
}

#[test]
fn host_session_runs_to_the_game() {
    let (flow, action) = host(Some("My room"));
    assert!(matches!(action, Action::ReadRom));
    let (flow, action) = take_host(flow, rom());
    match action {
        Action::Connect(url, secs) => {
            assert_eq!(url, "wss://example.org");
            assert_eq!(secs, 5);
        }
        other => panic!("{:?}", other),
    }
    let (flow, action) = take_host(flow, plain());
    match action {
        Action::Send(message) => {
            assert_eq!(message.message_type, "request_create_room");
            assert_eq!(message.player_name.as_deref(), Some("Host"));
            let room = message.room.unwrap();
            assert_eq!(room.room_name.as_deref(), Some("My room"));
            assert_eq!(room.game_name.as_deref(), Some("GAME"));
            assert_eq!(room.md5.as_deref(), Some("HASH"));
        }
        other => panic!("{:?}", other),
    }
    let (flow, action) = take_host(flow, Event::Delivery(Ok(())));
    assert!(matches!(action, Action::Listen(Some(10))));
    let (flow, action) = take_host(flow, heard(reply("reply_create_room", Some(45010))));
    match action {
        Action::Poll { request, wait_secs, first } => {
            assert_eq!(request.message_type, "request_players");
            assert_eq!(request.room.unwrap().port, Some(45010));
            assert_eq!(wait_secs, 3);
            assert!(first);
        }
        other => panic!("{:?}", other),
    }
    let (flow, action) = take_host(flow, Event::Polled(Incoming::TimedOut, 299_999));
    assert!(matches!(action, Action::Poll { wait_secs: 3, first: false, .. }));
    let (flow, action) = take_host(flow, Event::Polled(players(["Host", "", "", ""]), 3_000));
    assert!(matches!(action, Action::Poll { wait_secs: 3, first: false, .. }));
    let (flow, action) = take_host(flow, Event::Polled(players(["Host", "Ann", "", ""]), 3_000));
    match action {
        Action::Send(message) => {
            assert_eq!(message.message_type, "request_begin_game");
            assert_eq!(message.room.unwrap().port, Some(45010));
        }
        other => panic!("{:?}", other),
    }
    let (flow, action) = take_host(flow, Event::Delivery(Ok(())));
    assert!(matches!(action, Action::Listen(Some(10))));
    let (flow, action) = take_host(flow, Event::Heard(players(["Host", "Ann", "", ""])));
    assert!(matches!(action, Action::Listen(None)));
    let (flow, action) = take_host(flow, heard(reply("reply_begin_game", None)));
    match action {
        Action::Launch(plan) => {
            assert_eq!(plan.peer, "1.2.3.4:45000");
            assert_eq!(plan.port, 45010);
            assert_eq!(plan.player_number, 0);
            assert!(!plan.settings.fullscreen);
            assert!(!plan.settings.overclock);
            assert!(!plan.settings.disable_expansion_pak);
            assert!(plan.settings.cheats.into_entries().is_empty());
        }
        other => panic!("{:?}", other),
    }
    assert!(!flow.accepts(&Event::Heard(Incoming::Closed)));
}

#[test]
fn room_is_named_after_the_game() {
    let (flow, _) = host(None);
    let (flow, _) = take_host(flow, rom());
    let (_, action) = take_host(flow, plain());
    match action {
        Action::Send(message) => {
            assert_eq!(message.room.unwrap().room_name.as_deref(), Some("[OB] GAME"));
        }
        other => panic!("{:?}", other),
    }
}

#[test]
fn host_begins_when_its_time_is_up() {
    let (flow, _) = polling_host();
    let (_, action) = take_host(flow, Event::Polled(Incoming::TimedOut, 300_000));
    match action {
        Action::Send(message) => assert_eq!(message.message_type, "request_begin_game"),
        other => panic!("{:?}", other),
    }
}

#[test]
fn unanswered_host_asks_a_hundred_times_and_begins() {
    let (mut flow, mut action) = polling_host();
    let mut asked = 0;
    loop {
        match action {
            Action::Poll { request, wait_secs, first } => {
                assert_eq!(request.message_type, "request_players");
                assert_eq!(first, asked == 0);
                asked += 1;
                let event = Event::Polled(Incoming::TimedOut, asked * wait_secs * 1000);
                (flow, action) = take_host(flow, event);
            }
            Action::Send(message) => {
                assert_eq!(message.message_type, "request_begin_game");
                assert_eq!(message.room.unwrap().port, Some(45010));
                break;
            }
            other => panic!("{:?}", other),
        }
    }
    assert_eq!(asked, 100);
}

#[test]
fn host_session_can_fail_at_each_step() {
    let (flow, _) = polling_host();
    let (_, action) = take_host(flow, Event::Polled(Incoming::Closed, 3_000));
    assert_eq!(message_of(action), "WebSocket connection closed");
    let (flow, _) = polling_host();
    let (flow, _) = take_host(flow, Event::Polled(Incoming::TimedOut, 300_000));
    let (_, action) = take_host(flow, Event::Delivery(Err("broken pipe".to_string())));
    assert_eq!(message_of(action), "broken pipe");
    let (flow, _) = polling_host();
    let (flow, _) = take_host(flow, Event::Polled(Incoming::TimedOut, 300_000));
    let (flow, _) = take_host(flow, Event::Delivery(Ok(())));
    let (_, action) = take_host(flow, Event::Heard(Incoming::TimedOut));
    assert_eq!(message_of(action), "Timed out waiting for reply_begin_game (10s)");
    let (flow, _) = host(None);
    let (flow, _) = take_host(flow, rom());
    let (flow, _) = take_host(flow, plain());
    let (flow, _) = take_host(flow, Event::Delivery(Ok(())));
    let mut refusal = reply("reply_create_room", Some(1));
    refusal.accept = None;
    let (_, action) = take_host(flow, heard(refusal));
    assert_eq!(message_of(action), "Create room rejected: Room creation rejected");
}

#[test]
fn events_that_were_not_asked_for_are_not_accepted() {
    let (flow, _) = guest(None, None);
    assert!(flow.accepts(&rom()));
    assert!(!flow.accepts(&plain()));
    assert!(!flow.accepts(&Event::Heard(Incoming::TimedOut)));
    let (flow, _) = polling_host();
    assert!(flow.accepts(&Event::Polled(Incoming::TimedOut, 300_000)));
    assert!(!flow.accepts(&Event::Heard(Incoming::TimedOut)));
}

#[test]
fn port_is_the_low_half_of_the_number() {
    assert_eq!(truncate_port(45001), 45001);
    assert_eq!(truncate_port(65536), 0);
    assert_eq!(truncate_port(-1), 65535);
    assert_eq!(truncate_port(i32::MIN), 0);
    assert_eq!(truncate_port(i32::MAX), 65535);
}
