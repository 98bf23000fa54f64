use netplay::auth::AuthStamp;
use netplay::error::NetplayError;
use netplay::message::{
    begin_game_request, create_room_request, join_room_request, players_request, NetplayMessage,
    NetplayRoom,
};
use netplay::reply::{
    count_players, find_seat, read_create_reply, read_guest_begin_reply, read_host_begin_reply,
    read_join_reply,
};

fn names(list: [&str; 4]) -> [String; 4] {
    list.map(|name| name.to_string())
}

fn reply(message_type: &str, accept: Option<i32>) -> NetplayMessage {
    let mut message = players_request(0);
    message.message_type = message_type.to_string();
    message.room = None;
    message.accept = accept;
    message
}

fn room(port: Option<i32>) -> NetplayRoom {
    let mut room = players_request(0).room.unwrap();
    room.port = port;
    room
}

#[test]
fn token_is_the_digest_of_time_and_name() {
    let stamp = AuthStamp::at(1700000000000);
    assert_eq!(stamp.auth_time, "1700000000000");
    assert_eq!(
        stamp.auth,
        "cb031e74d972cfcfd5e100dfec735a739055fcda6898d723a98c6ec7327dd5e8"
    );
    let early = AuthStamp::at(0);
    assert_eq!(early.auth_time, "0");
    assert_eq!(
        early.auth,
        "626b3d9010bb6ac86d4e0ede8f4e5de2398141e10fc1aa6bbcfa7b88518af851"
    );
    assert_eq!(
        AuthStamp::at(-5).auth,
        "259bafa28f920a5045fab0e73036324bce8d5c715b29a7442e96a13a30b7ac1d"
    );
}

#[test]
fn join_request_says_who_wants_which_room() {
    let request = join_room_request(
        &"Ann".to_string(),
        &"abc123".to_string(),
        AuthStamp::at(0),
        "HASH".to_string(),
        45001,
    );
    assert_eq!(request.message_type, "request_join_room");
    assert_eq!(request.player_name.as_deref(), Some("Ann"));
    assert_eq!(request.client_sha.as_deref(), Some("abc123"));
    assert_eq!(request.netplay_version, Some(17));
    assert_eq!(request.emulator.as_deref(), Some("gopher64"));
    assert_eq!(request.auth_time.as_deref(), Some("0"));
    assert_eq!(request.auth.unwrap().len(), 64);
    assert!(request.accept.is_none());
    assert!(request.message.is_none());
    assert!(request.rooms.is_none());
    assert!(request.player_names.is_none());
    let room = request.room.unwrap();
    assert_eq!(room.password.as_deref(), Some(""));
    assert_eq!(room.md5.as_deref(), Some("HASH"));
    assert_eq!(room.port, Some(45001));
    assert!(room.room_name.is_none());
    assert!(room.game_name.is_none());
    assert!(room.protected.is_none());
    assert!(room.features.is_none());
    assert!(room.buffer_target.is_none());
}

#[test]
fn create_request_describes_the_room() {
    let request = create_room_request(
        &"Host".to_string(),
        &"abc123".to_string(),
        AuthStamp::at(0),
        "My room".to_string(),
        "GAME".to_string(),
        "HASH".to_string(),
    );
    assert_eq!(request.message_type, "request_create_room");
    let room = request.room.unwrap();
    assert_eq!(room.room_name.as_deref(), Some("My room"));
    assert_eq!(room.password.as_deref(), Some(""));
    assert_eq!(room.game_name.as_deref(), Some("GAME"));
    assert_eq!(room.md5.as_deref(), Some("HASH"));
    assert!(room.port.is_none());
    let features = room.features.unwrap();
    assert_eq!(features.get("overclock").unwrap(), "false");
    assert_eq!(features.get("disable_expansion_pak").unwrap(), "false");
    assert!(features.get("cheats").is_none());
    assert_eq!(features.into_entries().len(), 2);
}

#[test]
fn requests_about_a_room_name_its_port_alone() {
    let players = players_request(7);
    assert_eq!(players.message_type, "request_players");
    assert!(players.player_name.is_none());
    assert!(players.auth.is_none());
    assert!(players.netplay_version.is_none());
    let room = players.room.unwrap();
    assert_eq!(room.port, Some(7));
    assert!(room.password.is_none());
    let begin = begin_game_request(-3);
    assert_eq!(begin.message_type, "request_begin_game");
    assert_eq!(begin.room.unwrap().port, Some(-3));
}

#[test]
fn granted_join_gives_room_and_port() {
    let mut message = reply("reply_join_room", Some(0));
    message.room = Some(room(Some(45002)));
    let (joined, port) = read_join_reply(message).unwrap();
    assert_eq!(port, 45002);
    assert_eq!(joined.port, Some(45002));
}

#[test]
fn join_without_grant_is_rejected() {
    let error = read_join_reply(reply("reply_join_room", None)).unwrap_err();
    assert!(matches!(error, NetplayError::JoinRejected(_)));
    assert_eq!(error.message(), "Join rejected: Join rejected (unknown reason)");
    let mut message = reply("reply_join_room", Some(2));
    message.message = Some("room full".to_string());
    message.room = Some(room(Some(1)));
    assert_eq!(read_join_reply(message).unwrap_err().message(), "Join rejected: room full");
}

#[test]
fn join_needs_room_and_port() {
    let error = read_join_reply(reply("reply_join_room", Some(0))).unwrap_err();
    assert_eq!(error.message(), "reply_join_room missing room data");
    let mut message = reply("reply_join_room", Some(0));
    message.room = Some(room(None));
    let error = read_join_reply(message).unwrap_err();
    assert_eq!(error.message(), "reply_join_room missing port");
}

#[test]
fn create_reply_is_read_like_a_join_reply() {
    let mut message = reply("reply_create_room", Some(0));
    message.room = Some(room(Some(9)));
    assert_eq!(read_create_reply(message).unwrap().1, 9);
    let error = read_create_reply(reply("reply_create_room", Some(1))).unwrap_err();
    assert_eq!(error.message(), "Create room rejected: Room creation rejected");
    let error = read_create_reply(reply("reply_create_room", Some(0))).unwrap_err();
    assert_eq!(error.message(), "reply_create_room missing room data");
    let mut message = reply("reply_create_room", Some(0));
    message.room = Some(room(None));
    let error = read_create_reply(message).unwrap_err();
    assert_eq!(error.message(), "reply_create_room missing port");
}

#[test]
fn guest_takes_the_first_seat_with_its_name() {
    let seats = names(["Host", "Ann", "Bob", "Ann"]);
    assert_eq!(find_seat(&seats, &"Ann".to_string()), Some(1));
    assert_eq!(find_seat(&seats, &"Host".to_string()), Some(0));
    assert_eq!(find_seat(&seats, &"ann".to_string()), None);
    let mut message = reply("reply_begin_game", Some(0));
    message.player_names = Some(names(["a", "b", "c", "d"]));
    assert_eq!(read_guest_begin_reply(message, &"d".to_string()).unwrap(), 3);
}

#[test]
fn begin_reply_can_fail_a_guest() {
    let ann = "Ann".to_string();
    let error = read_guest_begin_reply(reply("reply_begin_game", None), &ann).unwrap_err();
    assert_eq!(error.message(), "Begin game rejected: Game start rejected");
    let error = read_guest_begin_reply(reply("reply_begin_game", Some(0)), &ann).unwrap_err();
    assert_eq!(error.message(), "reply_begin_game missing player_names");
    let mut message = reply("reply_begin_game", Some(0));
    message.player_names = Some(names(["Host", "", "", ""]));
    let error = read_guest_begin_reply(message, &ann).unwrap_err();
    assert_eq!(error.message(), "Could not determine player number from player_names");
}

#[test]
fn begin_reply_needs_no_names_for_a_host() {
    assert!(read_host_begin_reply(reply("reply_begin_game", Some(0))).is_ok());
    let error = read_host_begin_reply(reply("reply_begin_game", Some(-1))).unwrap_err();
    assert_eq!(error.message(), "Begin game rejected: Begin game rejected");
}

#[test]
fn players_are_counted_by_their_names() {
    assert_eq!(count_players(&None), 0);
    assert_eq!(count_players(&Some(names(["", "", "", ""]))), 0);
    assert_eq!(count_players(&Some(names(["Host", "", "Ann", ""]))), 2);
    assert_eq!(count_players(&Some(names(["a", "b", "c", "d"]))), 4);
}

#[test]
fn failures_are_reported_in_words() {
    let cause = || "cause".to_string();
    assert_eq!(
        NetplayError::RomUnreadable("game.z64".to_string()).message(),
        "Could not read ROM file: game.z64"
    );
    assert_eq!(NetplayError::ConnectTimedOut.message(), "WebSocket connection timed out");
    assert_eq!(
        NetplayError::ConnectFailed(cause()).message(),
        "WebSocket connection failed: cause"
    );
    assert_eq!(NetplayError::PeerAddress(cause()).message(), "cause");
    assert_eq!(
        NetplayError::TlsUnsupported.message(),
        "TLS connections not supported in CLI mode"
    );
    assert_eq!(NetplayError::SendFailed(cause()).message(), "cause");
    assert_eq!(NetplayError::StreamFailed(cause()).message(), "WebSocket error: cause");
    assert_eq!(NetplayError::StreamClosed.message(), "WebSocket connection closed");
    assert_eq!(
        NetplayError::WaitTimedOut("reply_begin_game".to_string(), 300).message(),
        "Timed out waiting for reply_begin_game (300s)"
    );
}
