//! The ways in which a netplay session can fail.

use vstd::prelude::*;
use vstd::string::*;

use crate::text::{format_u64, natural_numeral};

verus! {

/// Why a session ended without a game.
#[derive(Debug)]
pub enum NetplayError {
    /// The ROM at this path could not be read.
    RomUnreadable(String),
    /// The server did not answer in time.
    ConnectTimedOut,
    /// The connection failed, with the transport's own words.
    ConnectFailed(String),
    /// The server's address could not be found out, with the system's own words.
    PeerAddress(String),
    /// The connection is encrypted.
    TlsUnsupported,
    /// A message could not be sent, with the transport's own words.
    SendFailed(String),
    /// The connection broke, with the transport's own words.
    StreamFailed(String),
    /// The server closed the connection.
    StreamClosed,
    /// No message of this type came within so many seconds.
    WaitTimedOut(String, u64),
    /// The server refused the join request, for this reason.
    JoinRejected(String),
    /// The server refused to open a room, for this reason.
    CreateRejected(String),
    /// The server refused to begin the game, for this reason.
    BeginRejected(String),
    /// A reply of this type came without a room.
    MissingRoom(String),
    /// A reply of this type came with a room that has no port.
    MissingPort(String),
    /// The reply that begins the game came without the players' names.
    MissingPlayerNames,
    /// The player's name is not among the players' names.
    NotSeated,
}

/// What a [`NetplayError`] says.
pub enum FailureModel {
    RomUnreadable(Seq<char>),
    ConnectTimedOut,
    ConnectFailed(Seq<char>),
    PeerAddress(Seq<char>),
    TlsUnsupported,
    SendFailed(Seq<char>),
    StreamFailed(Seq<char>),
    StreamClosed,
    WaitTimedOut(Seq<char>, u64),
    JoinRejected(Seq<char>),
    CreateRejected(Seq<char>),
    BeginRejected(Seq<char>),
    MissingRoom(Seq<char>),
    MissingPort(Seq<char>),
    MissingPlayerNames,
    NotSeated,
}

impl View for NetplayError {
    type V = FailureModel;

    open spec fn view(&self) -> FailureModel {
        match self {
            NetplayError::RomUnreadable(path) => FailureModel::RomUnreadable(path@),
            NetplayError::ConnectTimedOut => FailureModel::ConnectTimedOut,
            NetplayError::ConnectFailed(cause) => FailureModel::ConnectFailed(cause@),
            NetplayError::PeerAddress(cause) => FailureModel::PeerAddress(cause@),
            NetplayError::TlsUnsupported => FailureModel::TlsUnsupported,
            NetplayError::SendFailed(cause) => FailureModel::SendFailed(cause@),
            NetplayError::StreamFailed(cause) => FailureModel::StreamFailed(cause@),
            NetplayError::StreamClosed => FailureModel::StreamClosed,
            NetplayError::WaitTimedOut(expected, secs) => {
                FailureModel::WaitTimedOut(expected@, *secs)
            },
            NetplayError::JoinRejected(reason) => FailureModel::JoinRejected(reason@),
            NetplayError::CreateRejected(reason) => FailureModel::CreateRejected(reason@),
            NetplayError::BeginRejected(reason) => FailureModel::BeginRejected(reason@),
            NetplayError::MissingRoom(reply) => FailureModel::MissingRoom(reply@),
            NetplayError::MissingPort(reply) => FailureModel::MissingPort(reply@),
            NetplayError::MissingPlayerNames => FailureModel::MissingPlayerNames,
            NetplayError::NotSeated => FailureModel::NotSeated,
        }
    }
}

/// The words in which a failure is reported.
pub open spec fn failure_text(failure: FailureModel) -> Seq<char> {
    match failure {
        FailureModel::RomUnreadable(path) => "Could not read ROM file: "@ + path,
        FailureModel::ConnectTimedOut => "WebSocket connection timed out"@,
        FailureModel::ConnectFailed(cause) => "WebSocket connection failed: "@ + cause,
        FailureModel::PeerAddress(cause) => cause,
        FailureModel::TlsUnsupported => "TLS connections not supported in CLI mode"@,
        FailureModel::SendFailed(cause) => cause,
        FailureModel::StreamFailed(cause) => "WebSocket error: "@ + cause,
        FailureModel::StreamClosed => "WebSocket connection closed"@,
        FailureModel::WaitTimedOut(expected, secs) => {
            "Timed out waiting for "@ + expected + " ("@ + natural_numeral(secs as nat) + "s)"@
        },
        FailureModel::JoinRejected(reason) => "Join rejected: "@ + reason,
        FailureModel::CreateRejected(reason) => "Create room rejected: "@ + reason,
        FailureModel::BeginRejected(reason) => "Begin game rejected: "@ + reason,
        FailureModel::MissingRoom(reply) => reply + " missing room data"@,
        FailureModel::MissingPort(reply) => reply + " missing port"@,
        FailureModel::MissingPlayerNames => "reply_begin_game missing player_names"@,
        FailureModel::NotSeated => "Could not determine player number from player_names"@,
    }
}

fn joined(first: &str, second: &str) -> (r: String)
    ensures
        r@ == first@ + second@,
{
    first.to_string().concat(second)
}

impl NetplayError {
    /// The words in which the failure is reported.
    pub fn message(&self) -> (r: String)
        ensures
            r@ == failure_text(self@),
    {
        match self {
            NetplayError::RomUnreadable(path) => joined("Could not read ROM file: ", path.as_str()),
            NetplayError::ConnectTimedOut => "WebSocket connection timed out".to_string(),
            NetplayError::ConnectFailed(cause) => joined(
                "WebSocket connection failed: ",
                cause.as_str(),
            ),
            NetplayError::PeerAddress(cause) => cause.clone(),
            NetplayError::TlsUnsupported => {
                "TLS connections not supported in CLI mode".to_string()
            },
            NetplayError::SendFailed(cause) => cause.clone(),
            NetplayError::StreamFailed(cause) => joined("WebSocket error: ", cause.as_str()),
            NetplayError::StreamClosed => "WebSocket connection closed".to_string(),
            NetplayError::WaitTimedOut(expected, secs) => {
                joined("Timed out waiting for ", expected.as_str()).concat(" (").concat(
                    format_u64(*secs).as_str(),
                ).concat("s)")
            },
            NetplayError::JoinRejected(reason) => joined("Join rejected: ", reason.as_str()),
            NetplayError::CreateRejected(reason) => {
                joined("Create room rejected: ", reason.as_str())
            },
            NetplayError::BeginRejected(reason) => joined("Begin game rejected: ", reason.as_str()),
            NetplayError::MissingRoom(reply) => joined(reply.as_str(), " missing room data"),
            NetplayError::MissingPort(reply) => joined(reply.as_str(), " missing port"),
            NetplayError::MissingPlayerNames => {
                "reply_begin_game missing player_names".to_string()
            },
            NetplayError::NotSeated => {
                "Could not determine player number from player_names".to_string()
            },
        }
    }
}

/// An error says which failure it is, with all that it carries.
pub proof fn law_error_says_its_failure(text: String, secs: u64)
    ensures
        NetplayError::RomUnreadable(text)@ == FailureModel::RomUnreadable(text@),
        NetplayError::ConnectTimedOut@ == FailureModel::ConnectTimedOut,
        NetplayError::ConnectFailed(text)@ == FailureModel::ConnectFailed(text@),
        NetplayError::PeerAddress(text)@ == FailureModel::PeerAddress(text@),
        NetplayError::TlsUnsupported@ == FailureModel::TlsUnsupported,
        NetplayError::SendFailed(text)@ == FailureModel::SendFailed(text@),
        NetplayError::StreamFailed(text)@ == FailureModel::StreamFailed(text@),
        NetplayError::StreamClosed@ == FailureModel::StreamClosed,
        NetplayError::WaitTimedOut(text, secs)@ == FailureModel::WaitTimedOut(text@, secs),
        NetplayError::JoinRejected(text)@ == FailureModel::JoinRejected(text@),
        NetplayError::CreateRejected(text)@ == FailureModel::CreateRejected(text@),
        NetplayError::BeginRejected(text)@ == FailureModel::BeginRejected(text@),
        NetplayError::MissingRoom(text)@ == FailureModel::MissingRoom(text@),
        NetplayError::MissingPort(text)@ == FailureModel::MissingPort(text@),
        NetplayError::MissingPlayerNames@ == FailureModel::MissingPlayerNames,
        NetplayError::NotSeated@ == FailureModel::NotSeated,
{
}

/// Every report of a failure tells the failure's kind in fixed words and gives all of its cause.
pub proof fn law_reports_give_the_cause(cause: Seq<char>, secs: u64)
    ensures
        failure_text(FailureModel::RomUnreadable(cause)) == "Could not read ROM file: "@ + cause,
        failure_text(FailureModel::ConnectTimedOut) == "WebSocket connection timed out"@,
        failure_text(FailureModel::ConnectFailed(cause)) == "WebSocket connection failed: "@
            + cause,
        failure_text(FailureModel::PeerAddress(cause)) == cause,
        failure_text(FailureModel::TlsUnsupported) == "TLS connections not supported in CLI mode"@,
        failure_text(FailureModel::SendFailed(cause)) == cause,
        failure_text(FailureModel::StreamFailed(cause)) == "WebSocket error: "@ + cause,
        failure_text(FailureModel::StreamClosed) == "WebSocket connection closed"@,
        failure_text(FailureModel::WaitTimedOut(cause, secs)) == "Timed out waiting for "@ + cause
            + " ("@ + natural_numeral(secs as nat) + "s)"@,
        failure_text(FailureModel::JoinRejected(cause)) == "Join rejected: "@ + cause,
        failure_text(FailureModel::CreateRejected(cause)) == "Create room rejected: "@ + cause,
        failure_text(FailureModel::BeginRejected(cause)) == "Begin game rejected: "@ + cause,
        failure_text(FailureModel::MissingRoom(cause)) == cause + " missing room data"@,
        failure_text(FailureModel::MissingPort(cause)) == cause + " missing port"@,
        failure_text(FailureModel::MissingPlayerNames) == "reply_begin_game missing player_names"@,
        failure_text(FailureModel::NotSeated)
            == "Could not determine player number from player_names"@,
{
}

} // verus!
