//! Waiting, as a host, for a player to join the room.
//!
//! The server does not report a join by itself: the host asks for the players again and again and
//! compares the number of players with the number in the first answer.

use vstd::prelude::*;

use crate::error::{FailureModel, NetplayError};
use crate::message::MessageModel;
use crate::reply::{count_players, occupied_seats};
use crate::session::{LOBBY_SECS, POLL_SECS};
use crate::text::same_text;
use crate::wait::{Incoming, IncomingModel};

verus! {

/// What a poll of the lobby comes to.
#[derive(Debug)]
pub enum LobbyOutcome {
    /// Nobody has joined yet; this is the number of players to compare with, once it is known.
    PollAgain(Option<usize>),
    /// The game is to begin.
    Begin,
    /// The session is over.
    Failed(NetplayError),
}

/// What a [`LobbyOutcome`] says.
pub enum LobbyModel {
    PollAgain(Option<nat>),
    Begin,
    Failed(FailureModel),
}

/// A number of players as a natural number.
pub open spec fn baseline_view(baseline: Option<usize>) -> Option<nat> {
    match baseline {
        Some(count) => Some(count as nat),
        None => None,
    }
}

impl View for LobbyOutcome {
    type V = LobbyModel;

    open spec fn view(&self) -> LobbyModel {
        match self {
            LobbyOutcome::PollAgain(baseline) => LobbyModel::PollAgain(baseline_view(*baseline)),
            LobbyOutcome::Begin => LobbyModel::Begin,
            LobbyOutcome::Failed(error) => LobbyModel::Failed(error@),
        }
    }
}

/// The number of players that an answer reports, if it is an answer to the host's question.
pub open spec fn reported_players(incoming: IncomingModel) -> Option<nat> {
    match incoming {
        IncomingModel::Message(message) => if message.message_type == "reply_players"@ {
            Some(occupied_seats(message.player_names))
        } else {
            None
        },
        _ => None,
    }
}

/// After so many milliseconds the host has waited long enough for a player.
pub open spec fn lobby_expired(elapsed: u64) -> bool {
    elapsed >= LOBBY_SECS * 1000
}

/// What a poll comes to, so many milliseconds after the first one began. The time counts only
/// where no answer came.
pub open spec fn lobby_outcome(
    baseline: Option<nat>,
    incoming: IncomingModel,
    elapsed: u64,
) -> LobbyModel {
    match incoming {
        IncomingModel::Failed(cause) => LobbyModel::Failed(FailureModel::StreamFailed(cause)),
        IncomingModel::Closed => LobbyModel::Failed(FailureModel::StreamClosed),
        IncomingModel::TimedOut => if lobby_expired(elapsed) {
            LobbyModel::Begin
        } else {
            LobbyModel::PollAgain(baseline)
        },
        _ => match (reported_players(incoming), baseline) {
            (None, _) => LobbyModel::PollAgain(baseline),
            (Some(count), None) => LobbyModel::PollAgain(Some(count)),
            (Some(count), Some(initial)) => if count > initial {
                LobbyModel::Begin
            } else {
                LobbyModel::PollAgain(baseline)
            },
        },
    }
}

/// Decides what a poll of the lobby comes to, so many milliseconds after the first one began.
pub fn poll_lobby(baseline: Option<usize>, incoming: Incoming, elapsed: u64) -> (r: LobbyOutcome)
    ensures
        r@ == lobby_outcome(baseline_view(baseline), incoming@, elapsed),
{
    match incoming {
        Incoming::Message(message) => {
            if same_text(message.message_type.as_str(), "reply_players") {
                let count = count_players(&message.player_names);
                match baseline {
                    Some(initial) => if count > initial {
                        LobbyOutcome::Begin
                    } else {
                        LobbyOutcome::PollAgain(baseline)
                    },
                    None => LobbyOutcome::PollAgain(Some(count)),
                }
            } else {
                LobbyOutcome::PollAgain(baseline)
            }
        },
        Incoming::Unreadable => LobbyOutcome::PollAgain(baseline),
        Incoming::Failed(cause) => LobbyOutcome::Failed(NetplayError::StreamFailed(cause)),
        Incoming::Closed => LobbyOutcome::Failed(NetplayError::StreamClosed),
        Incoming::TimedOut => if elapsed >= LOBBY_SECS * 1000 {
            LobbyOutcome::Begin
        } else {
            LobbyOutcome::PollAgain(baseline)
        },
    }
}

/// What a series of polls comes to, starting with a number of players to compare with or without.
pub open spec fn lobby_result(
    baseline: Option<nat>,
    polls: Seq<(IncomingModel, u64)>,
) -> LobbyModel
    decreases polls.len(),
{
    if polls.len() == 0 {
        LobbyModel::PollAgain(baseline)
    } else {
        match lobby_outcome(baseline, polls[0].0, polls[0].1) {
            LobbyModel::PollAgain(next) => lobby_result(next, polls.drop_first()),
            over => over,
        }
    }
}

/// What a series of polls comes to with one poll more.
pub(crate) proof fn lemma_lobby_result_push(
    baseline: Option<nat>,
    polls: Seq<(IncomingModel, u64)>,
    poll: (IncomingModel, u64),
)
    ensures
        lobby_result(baseline, polls.push(poll)) == match lobby_result(baseline, polls) {
            LobbyModel::PollAgain(next) => lobby_outcome(next, poll.0, poll.1),
            over => over,
        },
    decreases polls.len(),
{
    let all = polls.push(poll);
    if polls.len() == 0 {
        match lobby_outcome(baseline, poll.0, poll.1) {
            LobbyModel::PollAgain(next) => {
                assert(all.drop_first() =~= Seq::<(IncomingModel, u64)>::empty());
                assert(lobby_result(next, all.drop_first()) == LobbyModel::PollAgain(next));
            },
            _ => {},
        }
    } else {
        assert(all.drop_first() =~= polls.drop_first().push(poll));
        assert(all[0] == polls[0]);
        match lobby_outcome(baseline, polls[0].0, polls[0].1) {
            LobbyModel::PollAgain(next) => {
                lemma_lobby_result_push(next, polls.drop_first(), poll);
            },
            _ => {},
        }
    }
}

/// The poll ends the wait for players: the connection is gone, the time is up, or there are more
/// players than the number to compare with.
pub open spec fn ends_lobby(baseline: Option<nat>, poll: (IncomingModel, u64)) -> bool {
    ||| poll.0 is Failed
    ||| poll.0 is Closed
    ||| (poll.0 is TimedOut && lobby_expired(poll.1))
    ||| (reported_players(poll.0) is Some && baseline is Some && reported_players(poll.0)->0
        > baseline->0)
}

/// Once the number of players to compare with is known it stays, and the first poll that ends the
/// wait decides what the series comes to.
pub proof fn law_lobby_compares_with_known_number(
    initial: nat,
    polls: Seq<(IncomingModel, u64)>,
    end: int,
)
    requires
        0 <= end < polls.len(),
        ends_lobby(Some(initial), polls[end]),
        forall|i: int| 0 <= i < end ==> !ends_lobby(Some(initial), #[trigger] polls[i]),
    ensures
        lobby_result(Some(initial), polls) == lobby_outcome(
            Some(initial),
            polls[end].0,
            polls[end].1,
        ),
        !(lobby_result(Some(initial), polls) is PollAgain),
    decreases polls.len(),
{
    if end > 0 {
        assert(!ends_lobby(Some(initial), polls[0]));
        let rest = polls.drop_first();
        assert forall|i: int| 0 <= i < end - 1 implies !ends_lobby(
            Some(initial),
            #[trigger] rest[i],
        ) by {
            assert(rest[i] == polls[i + 1]);
        }
        law_lobby_compares_with_known_number(initial, rest, end - 1);
    }
}

/// The first answer never begins the game: it only gives the number that later answers are
/// compared with.
pub proof fn law_first_answer_sets_the_number(polls: Seq<(IncomingModel, u64)>, first: int)
    requires
        0 <= first < polls.len(),
        reported_players(polls[first].0) is Some,
        forall|i: int|
            0 <= i < first ==> reported_players((#[trigger] polls[i]).0) is None && !ends_lobby(
                None,
                polls[i],
            ),
    ensures
        lobby_result(None, polls) == lobby_result(
            reported_players(polls[first].0),
            polls.skip(first + 1),
        ),
    decreases polls.len(),
{
    let rest = polls.drop_first();
    if first > 0 {
        assert(reported_players(polls[0].0) is None && !ends_lobby(None, polls[0]));
        assert forall|i: int| 0 <= i < first - 1 implies reported_players((#[trigger] rest[i]).0)
            is None && !ends_lobby(None, rest[i]) by {
            assert(rest[i] == polls[i + 1]);
        }
        law_first_answer_sets_the_number(rest, first - 1);
        assert(rest.skip(first) =~= polls.skip(first + 1));
    } else {
        assert(rest =~= polls.skip(1));
    }
}

/// At poll `at` the host had waited long enough without an answer.
pub open spec fn time_is_up(polls: Seq<(IncomingModel, u64)>, at: int) -> bool {
    0 <= at < polls.len() && polls[at].0 is TimedOut && lobby_expired(polls[at].1)
}

/// The answer to poll `later` reports more players than the first answer, which is that to poll
/// `earlier`.
pub open spec fn player_joined(
    polls: Seq<(IncomingModel, u64)>,
    earlier: int,
    later: int,
) -> bool {
    &&& 0 <= earlier < later < polls.len()
    &&& forall|i: int| 0 <= i < earlier ==> reported_players((#[trigger] polls[i]).0) is None
    &&& reported_players(polls[earlier].0) is Some
    &&& reported_players(polls[later].0) is Some
    &&& reported_players(polls[later].0)->0 > reported_players(polls[earlier].0)->0
}

/// A host begins the game only when its time is up or when a player has joined since the first
/// answer.
pub proof fn law_game_begins_only_with_cause(polls: Seq<(IncomingModel, u64)>)
    requires
        lobby_result(None, polls) is Begin,
    ensures
        (exists|at: int| time_is_up(polls, at)) || (exists|earlier: int, later: int|
            player_joined(polls, earlier, later)),
    decreases polls.len(),
{
    let rest = polls.drop_first();
    if time_is_up(polls, 0) {
    } else if reported_players(polls[0].0) is Some {
        let initial = reported_players(polls[0].0)->0;
        lemma_begin_after_known_number(initial, rest);
        if exists|at: int| time_is_up(rest, at) {
            let at = choose|at: int| time_is_up(rest, at);
            assert(time_is_up(polls, at + 1));
        } else {
            let later = choose|later: int|
                0 <= later < rest.len() && reported_players((#[trigger] rest[later]).0) is Some
                    && reported_players(rest[later].0)->0 > initial;
            assert(player_joined(polls, 0, later + 1));
        }
    } else {
        law_game_begins_only_with_cause(rest);
        if exists|at: int| time_is_up(rest, at) {
            let at = choose|at: int| time_is_up(rest, at);
            assert(time_is_up(polls, at + 1));
        } else {
            let (earlier, later) = choose|earlier: int, later: int|
                player_joined(rest, earlier, later);
            assert forall|i: int| 0 <= i < earlier + 1 implies reported_players(
                (#[trigger] polls[i]).0,
            ) is None by {
                if i > 0 {
                    assert(rest[i - 1] == polls[i]);
                }
            }
            assert(player_joined(polls, earlier + 1, later + 1));
        }
    }
}

proof fn lemma_begin_after_known_number(initial: nat, polls: Seq<(IncomingModel, u64)>)
    requires
        lobby_result(Some(initial), polls) is Begin,
    ensures
        (exists|at: int| time_is_up(polls, at)) || (exists|later: int|
            0 <= later < polls.len() && reported_players((#[trigger] polls[later]).0) is Some
                && reported_players(polls[later].0)->0 > initial),
    decreases polls.len(),
{
    let rest = polls.drop_first();
    if time_is_up(polls, 0) {
    } else if ends_lobby(Some(initial), polls[0]) {
        assert(reported_players(polls[0].0) is Some);
    } else {
        lemma_begin_after_known_number(initial, rest);
        if exists|at: int| time_is_up(rest, at) {
            let at = choose|at: int| time_is_up(rest, at);
            assert(time_is_up(polls, at + 1));
        } else {
            let later = choose|later: int|
                0 <= later < rest.len() && reported_players((#[trigger] rest[later]).0) is Some
                    && reported_players(rest[later].0)->0 > initial;
            assert(rest[later] == polls[later + 1]);
        }
    }
}

/// No answer came to any of these polls, and each took as long as a host waits for an answer.
pub open spec fn unanswered(polls: Seq<(IncomingModel, u64)>) -> bool {
    forall|i: int|
        0 <= i < polls.len() ==> (#[trigger] polls[i]).0 is TimedOut && polls[i].1 >= (i + 1)
            * POLL_SECS * 1000
}

/// A host that gets no answer never gives up: it polls again as long as its time is not up, and
/// begins the game with the first poll after which it is. That poll is at the latest the one whose
/// wait brings the waits together to the whole of the host's time.
pub proof fn law_unanswered_lobby(baseline: Option<nat>, polls: Seq<(IncomingModel, u64)>)
    requires
        polls.len() > 0,
        unanswered(polls),
        forall|i: int|
            0 <= i < polls.len() - 1 ==> !lobby_expired((#[trigger] polls[i]).1),
    ensures
        polls.len() <= LOBBY_SECS / POLL_SECS,
        lobby_expired(polls.last().1) ==> lobby_result(baseline, polls) == LobbyModel::Begin,
        !lobby_expired(polls.last().1) ==> {
            &&& polls.len() < LOBBY_SECS / POLL_SECS
            &&& lobby_result(baseline, polls) == LobbyModel::PollAgain(baseline)
        },
    decreases polls.len(),
{
    let front = polls.drop_last();
    let last = polls.len() - 1;
    assert(polls[last].0 is TimedOut && polls[last].1 >= (last + 1) * POLL_SECS * 1000);
    assert(polls =~= front.push(polls.last()));
    lemma_lobby_result_push(baseline, front, polls.last());
    if front.len() > 0 {
        assert(!lobby_expired(polls[last - 1].1));
        assert forall|i: int| 0 <= i < front.len() implies (#[trigger] front[i]).0 is TimedOut
            && front[i].1 >= (i + 1) * POLL_SECS * 1000 by {
            assert(front[i] == polls[i]);
        }
        assert forall|i: int| 0 <= i < front.len() - 1 implies !lobby_expired(
            (#[trigger] front[i]).1,
        ) by {
            assert(front[i] == polls[i]);
        }
        law_unanswered_lobby(baseline, front);
    }
}

/// An outcome says whether the lobby is polled again, with which number, or how the wait is over.
pub proof fn law_outcome_says_what_a_poll_comes_to(count: usize, error: NetplayError)
    ensures
        LobbyOutcome::PollAgain(Some(count))@ == LobbyModel::PollAgain(Some(count as nat)),
        LobbyOutcome::PollAgain(None)@ == LobbyModel::PollAgain(None),
        LobbyOutcome::Begin@ == LobbyModel::Begin,
        LobbyOutcome::Failed(error)@ == LobbyModel::Failed(error@),
        baseline_view(Some(count)) == Some(count as nat),
        baseline_view(None) is None,
{
}

/// An answer with more players than the first answer had begins the game, and an answer with as
/// many or fewer does not, at whatever time it comes and whatever else it says. The first answer
/// gives the number of players, and does nothing else.
pub proof fn law_answer_is_judged_by_its_players(
    message: MessageModel,
    names: Seq<Seq<char>>,
    initial: nat,
    elapsed: u64,
)
    requires
        message.message_type == "reply_players"@,
        message.player_names == Some(names),
    ensures
        ({
            let count = names.filter(|name: Seq<char>| name.len() > 0).len();
            let answer = IncomingModel::Message(message);
            &&& count > initial ==> lobby_outcome(Some(initial), answer, elapsed)
                == LobbyModel::Begin
            &&& count <= initial ==> lobby_outcome(Some(initial), answer, elapsed)
                == LobbyModel::PollAgain(Some(initial))
            &&& lobby_outcome(None, answer, elapsed) == LobbyModel::PollAgain(Some(count))
        }),
{
}

/// An answer without names reports no players: it begins nothing, at whatever time it comes.
pub proof fn law_nameless_answer_reports_nobody(
    message: MessageModel,
    initial: nat,
    elapsed: u64,
)
    requires
        message.message_type == "reply_players"@,
        message.player_names is None,
    ensures
        lobby_outcome(Some(initial), IncomingModel::Message(message), elapsed)
            == LobbyModel::PollAgain(Some(initial)),
        lobby_outcome(None, IncomingModel::Message(message), elapsed) == LobbyModel::PollAgain(
            Some(0nat),
        ),
{
}

/// A message of another type, or something that is no message, leaves the lobby as it is, at
/// whatever time it comes.
pub proof fn law_other_messages_leave_the_lobby(
    baseline: Option<nat>,
    message: MessageModel,
    elapsed: u64,
)
    ensures
        message.message_type != "reply_players"@ ==> lobby_outcome(
            baseline,
            IncomingModel::Message(message),
            elapsed,
        ) == LobbyModel::PollAgain(baseline),
        lobby_outcome(baseline, IncomingModel::Unreadable, elapsed) == LobbyModel::PollAgain(
            baseline,
        ),
{
}

/// Silence begins the game exactly if three hundred seconds have passed, whether or not the number
/// of players is known; a connection that breaks or is closed ends the wait at whatever time.
pub proof fn law_silence_begins_after_the_limit(
    baseline: Option<nat>,
    elapsed: u64,
    cause: Seq<char>,
)
    ensures
        elapsed >= 300_000 ==> lobby_outcome(baseline, IncomingModel::TimedOut, elapsed)
            == LobbyModel::Begin,
        elapsed < 300_000 ==> lobby_outcome(baseline, IncomingModel::TimedOut, elapsed)
            == LobbyModel::PollAgain(baseline),
        lobby_outcome(baseline, IncomingModel::Failed(cause), elapsed) == LobbyModel::Failed(
            FailureModel::StreamFailed(cause),
        ),
        lobby_outcome(baseline, IncomingModel::Closed, elapsed) == LobbyModel::Failed(
            FailureModel::StreamClosed,
        ),
{
}

} // verus!
