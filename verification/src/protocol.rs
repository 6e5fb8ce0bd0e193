//! Messages exchanged with the Chrome extension. The browser may run only
//! the fixed commands listed here.
use crate::manager::Action;
use crate::model::{Account, Policy};
use crate::text::same_text;
use vstd::prelude::*;

verus! {

/// The protocol version both sides must speak.
pub const VERSION: u8 = 1;

/// The fixed allowlist of browser commands.
pub enum Command {
    GetSession,
    ScanPage { list: String, cursor: Option<String> },
    InspectAccount { target_id: String, policy: Policy },
    RemoveFollower {
        target_id: String,
        batch_id: String,
        policy: Policy,
        deadline_ms: i64,
        approved_account: Option<Box<Account>>,
    },
    Reconcile { target_id: String, original_command_id: String },
    OpenProfile { target_id: String },
}

/// One unit of browser work, addressed to one X account.
pub struct Work {
    pub command_id: String,
    pub owner_id: String,
    pub command: Command,
}

/// What the browser reports for a command.
pub enum WorkResult {
    Session { owner_id: String, handle: String, capabilities: Vec<String> },
    Page { list: String, accounts: Vec<Account>, next_cursor: Option<String>, complete: bool },
    Account { account: Account },
    Action { target_id: String, status: String, message: String },
    Deferred { target_id: String, code: String, message: String, retry_at_ms: i64 },
    Opened,
    Error { code: String, message: String, retry_at_ms: Option<i64> },
}

/// A message from the extension.
pub enum ClientMessage {
    Manager { session_id: String, request_id: String, owner_id: String, action: Action },
    Hello { v: u8, token: String, extension_id: String, extension_version: Option<String> },
    Heartbeat { session_id: String },
    XPageReady { session_id: String },
    Result { session_id: String, command_id: String, result: WorkResult },
    Recovery { session_id: String, work: Work, result: WorkResult },
}

/// The session a message claims, or `None` for the greeting.
pub open spec fn spec_message_session(m: ClientMessage) -> Option<Seq<char>> {
    match m {
        ClientMessage::Manager { session_id, .. } => Some(session_id@),
        ClientMessage::Hello { .. } => None,
        ClientMessage::Heartbeat { session_id } => Some(session_id@),
        ClientMessage::XPageReady { session_id } => Some(session_id@),
        ClientMessage::Result { session_id, .. } => Some(session_id@),
        ClientMessage::Recovery { session_id, .. } => Some(session_id@),
    }
}

/// Why a message on an established connection ends it.
#[derive(Debug, PartialEq, Eq, Structural)]
pub enum SessionError {
    /// A second greeting on a paired connection.
    UnexpectedPairing,
    /// A message for another session.
    StaleSession,
}

impl SessionError {
    pub fn message(&self) -> (r: &'static str)
        ensures
            *self == SessionError::UnexpectedPairing ==> r@ == "Unexpected pairing message"@,
            *self == SessionError::StaleSession ==> r@ == "Stale session rejected"@,
    {
        match self {
            SessionError::UnexpectedPairing => "Unexpected pairing message",
            SessionError::StaleSession => "Stale session rejected",
        }
    }
}

/// Admits a message on the connection of `session`: a greeting or a
/// message for another session ends the connection; a heartbeat only
/// keeps it alive (`Ok(false)`); anything else is passed on (`Ok(true)`).
pub fn admit_message(message: &ClientMessage, session: &str) -> (r: Result<bool, SessionError>)
    ensures
        match spec_message_session(*message) {
            None => r == Err::<bool, SessionError>(SessionError::UnexpectedPairing),
            Some(s) => if s != session@ {
                r == Err::<bool, SessionError>(SessionError::StaleSession)
            } else {
                r == Ok::<bool, SessionError>(!(message is Heartbeat))
            },
        },
{
    let claimed = match message {
        ClientMessage::Manager { session_id, .. } => session_id,
        ClientMessage::Hello { .. } => {
            return Err(SessionError::UnexpectedPairing);
        },
        ClientMessage::Heartbeat { session_id } => session_id,
        ClientMessage::XPageReady { session_id } => session_id,
        ClientMessage::Result { session_id, .. } => session_id,
        ClientMessage::Recovery { session_id, .. } => session_id,
    };
    if !same_text(claimed.as_str(), session) {
        return Err(SessionError::StaleSession);
    }
    Ok(!matches!(message, ClientMessage::Heartbeat { .. }))
}

} // verus!
