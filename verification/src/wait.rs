//! Waiting for one message among those that the server sends.

use vstd::prelude::*;

use crate::error::{FailureModel, NetplayError};
use crate::message::{MessageModel, NetplayMessage};
use crate::text::same_text;

verus! {

/// What listening to the server brought.
#[derive(Debug)]
pub enum Incoming {
    /// A message.
    Message(NetplayMessage),
    /// Something that is no message.
    Unreadable,
    /// The connection broke, with the transport's own words.
    Failed(String),
    /// The server closed the connection.
    Closed,
    /// Nothing came in time.
    TimedOut,
}

/// What an [`Incoming`] says.
pub enum IncomingModel {
    Message(MessageModel),
    Unreadable,
    Failed(Seq<char>),
    Closed,
    TimedOut,
}

impl View for Incoming {
    type V = IncomingModel;

    open spec fn view(&self) -> IncomingModel {
        match self {
            Incoming::Message(message) => IncomingModel::Message(message@),
            Incoming::Unreadable => IncomingModel::Unreadable,
            Incoming::Failed(cause) => IncomingModel::Failed(cause@),
            Incoming::Closed => IncomingModel::Closed,
            Incoming::TimedOut => IncomingModel::TimedOut,
        }
    }
}

/// What a wait makes of what came.
#[derive(Debug)]
pub enum WaitOutcome {
    /// It was not what the wait is for.
    KeepWaiting,
    /// The wait is over with this message.
    Arrived(NetplayMessage),
    /// The wait is over without a message.
    Failed(NetplayError),
}

/// What a [`WaitOutcome`] says.
pub enum WaitModel {
    KeepWaiting,
    Arrived(MessageModel),
    Failed(FailureModel),
}

impl View for WaitOutcome {
    type V = WaitModel;

    open spec fn view(&self) -> WaitModel {
        match self {
            WaitOutcome::KeepWaiting => WaitModel::KeepWaiting,
            WaitOutcome::Arrived(message) => WaitModel::Arrived(message@),
            WaitOutcome::Failed(error) => WaitModel::Failed(error@),
        }
    }
}

/// What a wait of `timeout_secs` seconds for a message of type `expected` makes of what came.
pub open spec fn wait_outcome(
    expected: Seq<char>,
    timeout_secs: u64,
    incoming: IncomingModel,
) -> WaitModel {
    match incoming {
        IncomingModel::Message(message) => if message.message_type == expected {
            WaitModel::Arrived(message)
        } else {
            WaitModel::KeepWaiting
        },
        IncomingModel::Unreadable => WaitModel::KeepWaiting,
        IncomingModel::Failed(cause) => WaitModel::Failed(FailureModel::StreamFailed(cause)),
        IncomingModel::Closed => WaitModel::Failed(FailureModel::StreamClosed),
        IncomingModel::TimedOut => WaitModel::Failed(
            FailureModel::WaitTimedOut(expected, timeout_secs),
        ),
    }
}

/// Decides what a wait of `timeout_secs` seconds for a message of type `expected` makes of what
/// came.
pub fn wait_for_message(expected: &str, timeout_secs: u64, incoming: Incoming) -> (r: WaitOutcome)
    ensures
        r@ == wait_outcome(expected@, timeout_secs, incoming@),
{
    match incoming {
        Incoming::Message(message) => if same_text(message.message_type.as_str(), expected) {
            WaitOutcome::Arrived(message)
        } else {
            WaitOutcome::KeepWaiting
        },
        Incoming::Unreadable => WaitOutcome::KeepWaiting,
        Incoming::Failed(cause) => WaitOutcome::Failed(NetplayError::StreamFailed(cause)),
        Incoming::Closed => WaitOutcome::Failed(NetplayError::StreamClosed),
        Incoming::TimedOut => WaitOutcome::Failed(
            NetplayError::WaitTimedOut(expected.to_string(), timeout_secs),
        ),
    }
}

/// The outcome of a wait on all that comes, in order.
pub open spec fn wait_result(
    expected: Seq<char>,
    timeout_secs: u64,
    incoming: Seq<IncomingModel>,
) -> WaitModel
    decreases incoming.len(),
{
    if incoming.len() == 0 {
        WaitModel::KeepWaiting
    } else {
        match wait_outcome(expected, timeout_secs, incoming[0]) {
            WaitModel::KeepWaiting => wait_result(expected, timeout_secs, incoming.drop_first()),
            over => over,
        }
    }
}

/// A wait passes over `incoming`: it is unreadable, or a message of another type.
pub open spec fn passed_over(expected: Seq<char>, incoming: IncomingModel) -> bool {
    match incoming {
        IncomingModel::Message(message) => message.message_type != expected,
        IncomingModel::Unreadable => true,
        _ => false,
    }
}

/// A wait passes over everything up to the first thing that concerns it, and that thing alone
/// decides its outcome: whatever comes later changes nothing.
pub proof fn law_wait_is_decided_by_first_relevant(
    expected: Seq<char>,
    timeout_secs: u64,
    incoming: Seq<IncomingModel>,
    first: int,
)
    requires
        0 <= first < incoming.len(),
        !passed_over(expected, incoming[first]),
        forall|i: int| 0 <= i < first ==> passed_over(expected, #[trigger] incoming[i]),
    ensures
        wait_result(expected, timeout_secs, incoming) == wait_outcome(
            expected,
            timeout_secs,
            incoming[first],
        ),
        wait_result(expected, timeout_secs, incoming) != WaitModel::KeepWaiting,
    decreases incoming.len(),
{
    if first > 0 {
        assert(passed_over(expected, incoming[0]));
        let rest = incoming.drop_first();
        assert forall|i: int| 0 <= i < first - 1 implies passed_over(
            expected,
            #[trigger] rest[i],
        ) by {
            assert(rest[i] == incoming[i + 1]);
        }
        law_wait_is_decided_by_first_relevant(expected, timeout_secs, rest, first - 1);
    }
}

/// A wait goes on exactly as long as it has passed over everything that came.
pub proof fn law_wait_goes_on_while_nothing_concerns_it(
    expected: Seq<char>,
    timeout_secs: u64,
    incoming: Seq<IncomingModel>,
)
    ensures
        wait_result(expected, timeout_secs, incoming) == WaitModel::KeepWaiting <==> (forall|
            i: int,
        |
            0 <= i < incoming.len() ==> passed_over(expected, #[trigger] incoming[i])),
    decreases incoming.len(),
{
    if incoming.len() > 0 {
        let rest = incoming.drop_first();
        law_wait_goes_on_while_nothing_concerns_it(expected, timeout_secs, rest);
        if passed_over(expected, incoming[0]) {
            if forall|i: int| 0 <= i < rest.len() ==> passed_over(expected, #[trigger] rest[i]) {
                assert forall|i: int| 0 <= i < incoming.len() implies passed_over(
                    expected,
                    #[trigger] incoming[i],
                ) by {
                    if i > 0 {
                        assert(rest[i - 1] == incoming[i]);
                    }
                }
            }
            if forall|i: int|
                0 <= i < incoming.len() ==> passed_over(expected, #[trigger] incoming[i]) {
                assert forall|i: int| 0 <= i < rest.len() implies passed_over(
                    expected,
                    #[trigger] rest[i],
                ) by {
                    assert(rest[i] == incoming[i + 1]);
                }
            }
        }
    }
}

/// What came says which of the five things it is, with all that it carries.
pub proof fn law_incoming_says_what_came(message: NetplayMessage, cause: String)
    ensures
        Incoming::Message(message)@ == IncomingModel::Message(message@),
        Incoming::Unreadable@ == IncomingModel::Unreadable,
        Incoming::Failed(cause)@ == IncomingModel::Failed(cause@),
        Incoming::Closed@ == IncomingModel::Closed,
        Incoming::TimedOut@ == IncomingModel::TimedOut,
{
}

/// An outcome says whether the wait goes on, and what it is over with.
pub proof fn law_outcome_says_how_the_wait_ends(message: NetplayMessage, error: NetplayError)
    ensures
        WaitOutcome::KeepWaiting@ == WaitModel::KeepWaiting,
        WaitOutcome::Arrived(message)@ == WaitModel::Arrived(message@),
        WaitOutcome::Failed(error)@ == WaitModel::Failed(error@),
{
}

/// A message ends a wait exactly if its type is the one that is waited for, whatever else it says
/// and however long the wait may take, and the wait is then over with that very message.
pub proof fn law_wait_ends_with_its_type(
    expected: Seq<char>,
    timeout_secs: u64,
    message: MessageModel,
)
    ensures
        message.message_type == expected ==> wait_outcome(
            expected,
            timeout_secs,
            IncomingModel::Message(message),
        ) == WaitModel::Arrived(message),
        message.message_type != expected ==> wait_outcome(
            expected,
            timeout_secs,
            IncomingModel::Message(message),
        ) == WaitModel::KeepWaiting,
        wait_outcome(expected, timeout_secs, IncomingModel::Unreadable) == WaitModel::KeepWaiting,
{
}

/// A wait is over without a message when the connection breaks or is closed, or when nothing came
/// in time, and the failure tells which, with the cause or with the wait that was in vain.
pub proof fn law_wait_fails_with_the_connection(
    expected: Seq<char>,
    timeout_secs: u64,
    cause: Seq<char>,
)
    ensures
        wait_outcome(expected, timeout_secs, IncomingModel::Failed(cause)) == WaitModel::Failed(
            FailureModel::StreamFailed(cause),
        ),
        wait_outcome(expected, timeout_secs, IncomingModel::Closed) == WaitModel::Failed(
            FailureModel::StreamClosed,
        ),
        wait_outcome(expected, timeout_secs, IncomingModel::TimedOut) == WaitModel::Failed(
            FailureModel::WaitTimedOut(expected, timeout_secs),
        ),
{
}

} // verus!
