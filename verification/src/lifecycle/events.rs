//! The events of agent connections, and which of them matter to conversation rows.

use vstd::prelude::*;

verus! {

/// The state of an agent connection.
#[derive(Clone, Copy, Debug, PartialEq, Eq, Structural)]
pub enum ConnectionStatus {
    Connected,
    Prompting,
    Disconnected,
}

/// The status of a conversation row.
#[derive(Clone, Copy, Debug, PartialEq, Eq, Structural)]
pub enum ConversationStatus {
    InProgress,
    PendingReview,
    Completed,
    Cancelled,
}

/// What happened on an agent connection.
#[derive(Clone, Debug)]
pub enum AcpEvent {
    /// The agent opened the session `session_id`.
    SessionStarted { session_id: String },
    /// The agent finished a turn, for the reason `stop_reason`.
    TurnComplete { session_id: String, stop_reason: String, agent_type: String },
    /// The connection was bound to a conversation row.
    ConversationLinked { conversation_id: i32, folder_id: i32 },
    /// The state of the connection changed.
    StatusChanged { status: ConnectionStatus },
    /// The connection failed.
    Error { message: String, agent_type: String, code: Option<String> },
    /// A piece of the agent's output.
    ContentDelta { text: String },
    /// The status of a conversation row changed.
    ConversationStatusChanged { conversation_id: i32, status: ConversationStatus },
    /// Any other event: tool calls, permission requests and the like.
    Other,
}

/// An event with the connection that it comes from and its place among all events.
#[derive(Clone, Debug)]
pub struct EventEnvelope {
    pub seq: u64,
    pub connection_id: String,
    pub payload: AcpEvent,
}

/// The connection is over after this event.
pub open spec fn terminal(event: AcpEvent) -> bool {
    match event {
        AcpEvent::StatusChanged { status } => status == ConnectionStatus::Disconnected,
        AcpEvent::Error { .. } => true,
        _ => false,
    }
}

/// The event may write a conversation row, or bears on which row that is.
pub open spec fn lifecycle_relevant(event: AcpEvent) -> bool {
    ||| event is SessionStarted
    ||| event is TurnComplete
    ||| event is ConversationLinked
    ||| terminal(event)
}

/// Whether the connection is over after `event`.
pub fn is_terminal(event: &AcpEvent) -> (r: bool)
    ensures
        r == terminal(*event),
{
    match event {
        AcpEvent::StatusChanged { status } => *status == ConnectionStatus::Disconnected,
        AcpEvent::Error { .. } => true,
        _ => false,
    }
}

/// Whether `event` has to reach the worker of its connection.
pub fn is_lifecycle_relevant(event: &AcpEvent) -> (r: bool)
    ensures
        r == lifecycle_relevant(*event),
{
    match event {
        AcpEvent::SessionStarted { .. } => true,
        AcpEvent::TurnComplete { .. } => true,
        AcpEvent::ConversationLinked { .. } => true,
        _ => is_terminal(event),
    }
}

} // verus!
