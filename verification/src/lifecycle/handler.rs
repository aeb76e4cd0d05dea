//! What one event writes to the conversation row of its connection, and how often a write that
//! fails is tried again.

use crate::lifecycle::events::{AcpEvent, ConversationStatus};
use crate::text::same_text;
use vstd::prelude::*;

verus! {

/// What an event does to the conversation row that its connection is bound to.
#[derive(Debug)]
pub enum RowEffect {
    /// The agent's session id becomes the external id of the row.
    BindSession(String),
    /// The row takes on a status.
    SetStatus(ConversationStatus),
}

/// A write to a conversation row.
#[derive(Debug)]
pub enum RowWrite {
    ExternalId { conversation_id: i32, external_id: String },
    Status { conversation_id: i32, status: ConversationStatus },
}

/// An event to be sent out through the handle of a connection.
#[derive(Debug)]
pub struct Announcement<H> {
    pub handle: H,
    pub event: AcpEvent,
}

/// A connection that is there: the row that it is bound to, and the handle through which its
/// events go out.
#[derive(Debug)]
pub struct LiveConn<H> {
    pub conversation_id: Option<i32>,
    pub handle: H,
}

/// A write, with the handle of the connection that it is made for.
#[derive(Debug)]
pub struct PlannedWrite<H> {
    pub write: RowWrite,
    pub handle: H,
}

/// The turn failed, although the agent reported that it is complete.
pub open spec fn failed_turn(stop_reason: Seq<char>) -> bool {
    ||| stop_reason == "refusal"@
    ||| stop_reason == "max_tokens"@
    ||| stop_reason == "max_turn_requests"@
    ||| stop_reason == "unknown"@
    ||| stop_reason == "empty"@
}

/// The status that the end of a turn gives the row. A turn that the user cancelled has been
/// written where it was cancelled, and reasons not known here write nothing.
pub open spec fn turn_status(stop_reason: Seq<char>) -> Option<ConversationStatus> {
    if stop_reason == "end_turn"@ {
        Some(ConversationStatus::PendingReview)
    } else if failed_turn(stop_reason) {
        Some(ConversationStatus::Cancelled)
    } else {
        None
    }
}

/// What `event` does to the row, where it does anything.
pub open spec fn row_effect(event: AcpEvent) -> Option<RowEffect> {
    match event {
        AcpEvent::SessionStarted { session_id } => Some(RowEffect::BindSession(session_id)),
        AcpEvent::TurnComplete { stop_reason, .. } => match turn_status(stop_reason@) {
            Some(status) => Some(RowEffect::SetStatus(status)),
            None => None,
        },
        _ => None,
    }
}

/// `effect` on the row `conversation_id`.
pub open spec fn row_write(effect: RowEffect, conversation_id: i32) -> RowWrite {
    match effect {
        RowEffect::BindSession(session_id) => RowWrite::ExternalId {
            conversation_id,
            external_id: session_id,
        },
        RowEffect::SetStatus(status) => RowWrite::Status { conversation_id, status },
    }
}

/// The write that `effect` comes to on the connection that was found.
pub open spec fn planned_write<H>(effect: RowEffect, found: Option<LiveConn<H>>) -> Option<
    PlannedWrite<H>,
> {
    match found {
        Some(live) => match live.conversation_id {
            Some(id) => Some(PlannedWrite { write: row_write(effect, id), handle: live.handle }),
            None => None,
        },
        None => None,
    }
}

/// What is announced once `write` has been made.
pub open spec fn announced(write: RowWrite) -> Option<AcpEvent> {
    match write {
        RowWrite::ExternalId { .. } => None,
        RowWrite::Status { conversation_id, status } => Some(
            AcpEvent::ConversationStatusChanged { conversation_id, status },
        ),
    }
}

/// The status that the end of a turn for `stop_reason` gives the row.
pub fn turn_target(stop_reason: &str) -> (r: Option<ConversationStatus>)
    ensures
        r == turn_status(stop_reason@),
{
    if same_text(stop_reason, "end_turn") {
        Some(ConversationStatus::PendingReview)
    } else if same_text(stop_reason, "refusal") || same_text(stop_reason, "max_tokens")
        || same_text(stop_reason, "max_turn_requests") || same_text(stop_reason, "unknown")
        || same_text(stop_reason, "empty") {
        Some(ConversationStatus::Cancelled)
    } else {
        None
    }
}

/// What `event` asks of the row of its connection; with `None` it is handled already.
pub fn handle_event(event: &AcpEvent) -> (r: Option<RowEffect>)
    ensures
        r == row_effect(*event),
{
    match event {
        AcpEvent::SessionStarted { session_id } => Some(RowEffect::BindSession(session_id.clone())),
        AcpEvent::TurnComplete { stop_reason, .. } => match turn_target(stop_reason.as_str()) {
            Some(status) => Some(RowEffect::SetStatus(status)),
            None => None,
        },
        _ => None,
    }
}

/// The write that `effect` comes to, now that the connection has been looked up. There is none
/// where the connection is gone or bound to no row.
pub fn plan_write<H>(effect: &RowEffect, found: Option<LiveConn<H>>) -> (r: Option<PlannedWrite<H>>)
    ensures
        r == planned_write(*effect, found),
{
    match found {
        Some(live) => match live.conversation_id {
            Some(conversation_id) => {
                let write = match effect {
                    RowEffect::BindSession(session_id) => RowWrite::ExternalId {
                        conversation_id,
                        external_id: session_id.clone(),
                    },
                    RowEffect::SetStatus(status) => RowWrite::Status {
                        conversation_id,
                        status: *status,
                    },
                };
                Some(PlannedWrite { write, handle: live.handle })
            },
            None => None,
        },
        None => None,
    }
}

/// What goes out once the planned write has been made: a change of status, never before the row
/// has that status.
pub fn announce<H>(planned: PlannedWrite<H>) -> (r: Option<Announcement<H>>)
    ensures
        r == match announced(planned.write) {
            Some(event) => Some(Announcement { handle: planned.handle, event }),
            None => None,
        },
{
    match planned.write {
        RowWrite::ExternalId { .. } => None,
        RowWrite::Status { conversation_id, status } => Some(
            Announcement {
                handle: planned.handle,
                event: AcpEvent::ConversationStatusChanged { conversation_id, status },
            },
        ),
    }
}

/// How long to wait after the first failed attempt, in milliseconds.
pub const FIRST_BACKOFF_MS: u64 = 100;

/// How long to wait after the second failed attempt, in milliseconds.
pub const SECOND_BACKOFF_MS: u64 = 500;

/// How long to wait after the failure of attempt number `attempt`, counted from one; `None` where
/// it was the last one.
pub open spec fn backoff(attempt: int) -> Option<u64> {
    if attempt == 1 {
        Some(FIRST_BACKOFF_MS)
    } else if attempt == 2 {
        Some(SECOND_BACKOFF_MS)
    } else {
        None
    }
}

/// How loudly a failure is logged.
#[derive(Clone, Copy, Debug, PartialEq, Eq, Structural)]
pub enum LogLevel {
    Warn,
    Error,
}

/// How loudly the failure of attempt number `attempt` is logged.
pub open spec fn failure_level(attempt: int) -> LogLevel {
    if backoff(attempt) is Some {
        LogLevel::Warn
    } else {
        LogLevel::Error
    }
}

/// What is done about a failed attempt.
#[derive(Clone, Copy, Debug, PartialEq, Eq, Structural)]
pub struct FailedAttempt {
    /// The level at which the failure is logged: an error only where nothing more is tried.
    pub level: LogLevel,
    /// After how many milliseconds the event is handled again; `None` gives it up.
    pub retry_after_ms: Option<u64>,
}

/// What is done about the failure of attempt number `attempt`, counted from one.
pub fn handle_event_with_retry(attempt: u64) -> (r: FailedAttempt)
    ensures
        r.retry_after_ms == backoff(attempt as int),
        r.level == failure_level(attempt as int),
{
    if attempt == 1 {
        FailedAttempt { level: LogLevel::Warn, retry_after_ms: Some(FIRST_BACKOFF_MS) }
    } else if attempt == 2 {
        FailedAttempt { level: LogLevel::Warn, retry_after_ms: Some(SECOND_BACKOFF_MS) }
    } else {
        FailedAttempt { level: LogLevel::Error, retry_after_ms: None }
    }
}

/// The number of the attempt after which an event is not handled again, where `fails` says which
/// attempts fail and `attempt` is the next one.
pub open spec fn last_attempt(fails: spec_fn(int) -> bool, attempt: int) -> int
    decreases 3 - attempt,
{
    if fails(attempt) && backoff(attempt) is Some && attempt >= 1 {
        last_attempt(fails, attempt + 1)
    } else {
        attempt
    }
}

/// An event is tried three times at the most; it is given up only after three failures, and the
/// first success ends it.
pub proof fn law_three_attempts(fails: spec_fn(int) -> bool)
    ensures
        1 <= last_attempt(fails, 1) <= 3,
        fails(last_attempt(fails, 1)) ==> fails(1) && fails(2) && fails(3),
        forall|n: int| 1 <= n < last_attempt(fails, 1) ==> #[trigger] fails(n),
{
    reveal_with_fuel(last_attempt, 4);
}

} // verus!
