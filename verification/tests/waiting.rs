use netplay::error::NetplayError;
use netplay::lobby::{poll_lobby, LobbyOutcome};
use netplay::message::{players_request, NetplayMessage};
use netplay::wait::{wait_for_message, Incoming, WaitOutcome};

fn message(message_type: &str) -> NetplayMessage {
    let mut message = players_request(0);
    message.message_type = message_type.to_string();
    message
}

fn players(list: [&str; 4]) -> Incoming {
    let mut message = message("reply_players");
    message.player_names = Some(list.map(|name| name.to_string()));
    Incoming::Message(message)
}

#[test]
fn wait_passes_over_what_it_is_not_for() {
    let other = Incoming::Message(message("reply_players"));
    assert!(matches!(wait_for_message("reply_join_room", 10, other), WaitOutcome::KeepWaiting));
    assert!(matches!(
        wait_for_message("reply_join_room", 10, Incoming::Unreadable),
        WaitOutcome::KeepWaiting
    ));
}

#[test]
fn wait_ends_with_its_message() {
    let expected = Incoming::Message(message("reply_join_room"));
    match wait_for_message("reply_join_room", 10, expected) {
        WaitOutcome::Arrived(message) => assert_eq!(message.message_type, "reply_join_room"),
        other => panic!("{:?}", other),
    }
}

#[test]
fn wait_ends_when_the_connection_does() {
    let failed = Incoming::Failed("reset".to_string());
    match wait_for_message("reply_join_room", 10, failed) {
        WaitOutcome::Failed(error) => assert_eq!(error.message(), "WebSocket error: reset"),
        other => panic!("{:?}", other),
    }
    match wait_for_message("reply_join_room", 10, Incoming::Closed) {
        WaitOutcome::Failed(error) => assert!(matches!(error, NetplayError::StreamClosed)),
        other => panic!("{:?}", other),
    }
    match wait_for_message("reply_join_room", 10, Incoming::TimedOut) {
        WaitOutcome::Failed(error) => {
            assert_eq!(error.message(), "Timed out waiting for reply_join_room (10s)")
        }
        other => panic!("{:?}", other),
    }
}

#[test]
fn first_of_a_series_decides_a_wait() {
    let series = vec![
        Incoming::Unreadable,
        Incoming::Message(message("reply_players")),
        Incoming::Message(message("reply_begin_game")),
        Incoming::Closed,
    ];
    let mut taken = 0;
    for incoming in series {
        taken += 1;
        match wait_for_message("reply_begin_game", 300, incoming) {
            WaitOutcome::KeepWaiting => {}
            WaitOutcome::Arrived(_) => break,
            WaitOutcome::Failed(error) => panic!("{}", error.message()),
        }
    }
    assert_eq!(taken, 3);
}

#[test]
fn first_answer_only_sets_the_number() {
    let outcome = poll_lobby(None, players(["Host", "Ann", "", ""]), 400_000);
    assert!(matches!(outcome, LobbyOutcome::PollAgain(Some(2))));
    let mut nameless = message("reply_players");
    nameless.player_names = None;
    let outcome = poll_lobby(None, Incoming::Message(nameless), 3_000);
    assert!(matches!(outcome, LobbyOutcome::PollAgain(Some(0))));
}

#[test]
fn more_players_begin_the_game() {
    let outcome = poll_lobby(Some(1), players(["Host", "Ann", "", ""]), 3_000);
    assert!(matches!(outcome, LobbyOutcome::Begin));
}

#[test]
fn as_many_or_fewer_players_do_not() {
    let outcome = poll_lobby(Some(1), players(["Host", "", "", ""]), 400_000);
    assert!(matches!(outcome, LobbyOutcome::PollAgain(Some(1))));
    let outcome = poll_lobby(Some(2), players(["Host", "", "", ""]), 3_000);
    assert!(matches!(outcome, LobbyOutcome::PollAgain(Some(2))));
}

#[test]
fn silence_begins_the_game_only_when_the_time_is_up() {
    let outcome = poll_lobby(None, Incoming::TimedOut, 300_000);
    assert!(matches!(outcome, LobbyOutcome::Begin));
    let outcome = poll_lobby(Some(1), Incoming::TimedOut, 299_999);
    assert!(matches!(outcome, LobbyOutcome::PollAgain(Some(1))));
}

#[test]
fn other_messages_change_nothing_in_the_lobby() {
    let outcome = poll_lobby(Some(1), Incoming::Message(message("reply_begin_game")), 400_000);
    assert!(matches!(outcome, LobbyOutcome::PollAgain(Some(1))));
    let outcome = poll_lobby(None, Incoming::Unreadable, 400_000);
    assert!(matches!(outcome, LobbyOutcome::PollAgain(None)));
}

#[test]
fn lobby_ends_when_the_connection_does() {
    match poll_lobby(Some(1), Incoming::Failed("reset".to_string()), 3_000) {
        LobbyOutcome::Failed(error) => assert_eq!(error.message(), "WebSocket error: reset"),
        other => panic!("{:?}", other),
    }
    match poll_lobby(None, Incoming::Closed, 400_000) {
        LobbyOutcome::Failed(error) => assert_eq!(error.message(), "WebSocket connection closed"),
        other => panic!("{:?}", other),
    }
}

#[test]
fn unanswered_lobby_is_polled_a_hundred_times() {
    let mut polls = 0;
    loop {
        polls += 1;
        match poll_lobby(None, Incoming::TimedOut, polls * 3_000) {
            LobbyOutcome::PollAgain(None) => {}
            LobbyOutcome::Begin => break,
            other => panic!("{:?}", other),
        }
    }
    assert_eq!(polls, 100);
}
