//! The worker of one connection: it takes the events of the connection in turn and says, step by
//! step, what is to be looked up, written, awaited and announced.

use crate::lifecycle::events::{
    is_terminal, terminal, AcpEvent, ConversationStatus, EventEnvelope,
};
use crate::lifecycle::handler::{
    announce, announced, backoff, handle_event, handle_event_with_retry, plan_write, row_effect,
    row_write, Announcement, LiveConn, PlannedWrite, RowEffect,
};
use crate::table::Table;
use vstd::prelude::*;

verus! {

/// What is kept of a connection from the moment it is bound to a row, so that the end of the
/// connection can still be announced after the connection itself is gone.
#[derive(Debug)]
pub struct CachedConn<H> {
    pub conversation_id: i32,
    pub handle: H,
}

/// A status that a row is to take on only if it has another one now.
#[derive(Clone, Copy, Debug, PartialEq, Eq, Structural)]
pub struct StatusSwap {
    pub conversation_id: i32,
    pub expected: ConversationStatus,
    pub replacement: ConversationStatus,
}

/// The swap that the end of a connection asks for on the row `conversation_id`.
pub open spec fn cancel_swap(conversation_id: i32) -> StatusSwap {
    StatusSwap {
        conversation_id,
        expected: ConversationStatus::InProgress,
        replacement: ConversationStatus::Cancelled,
    }
}

/// What `cache` holds after `connection_id` was bound to `conversation_id` and looked up.
pub open spec fn cache_after_link<H>(
    cache: Map<Seq<char>, CachedConn<H>>,
    connection_id: Seq<char>,
    conversation_id: i32,
    found: Option<H>,
) -> Map<Seq<char>, CachedConn<H>> {
    match found {
        Some(handle) if !cache.contains_key(connection_id) => cache.insert(
            connection_id,
            CachedConn { conversation_id, handle },
        ),
        _ => cache,
    }
}

/// Keeps the handle of a connection that was bound to a row. A connection that is kept already
/// stays as it is, and one that is not found is not kept.
pub fn try_cache_link<H>(
    cache: &mut Table<CachedConn<H>>,
    connection_id: &str,
    conversation_id: i32,
    found: Option<H>,
)
    ensures
        final(cache)@ == cache_after_link(old(cache)@, connection_id@, conversation_id, found),
{
    if cache.contains_key(connection_id) {
        return ;
    }
    if let Some(handle) = found {
        cache.insert(connection_id.to_owned(), CachedConn { conversation_id, handle });
    }
}

/// A row that is to be cancelled, unless it is past being in progress.
#[derive(Debug)]
pub struct Cancelling<H> {
    pub entry: CachedConn<H>,
}

impl<H> Cancelling<H> {
    /// The swap to make in the database.
    pub fn swap(&self) -> (r: StatusSwap)
        ensures
            r == cancel_swap(self.entry.conversation_id),
    {
        StatusSwap {
            conversation_id: self.entry.conversation_id,
            expected: ConversationStatus::InProgress,
            replacement: ConversationStatus::Cancelled,
        }
    }

    /// Goes on after the swap: the cancellation goes out if the row took it on. A swap that
    /// failed is not tried again.
    pub fn swapped<E>(self, outcome: &Result<bool, E>) -> (r: WorkerStep<H>)
        ensures
            r == swapped_step(self, *outcome),
    {
        match outcome {
            Ok(changed) => if *changed {
                WorkerStep::Emit(
                    Announcement {
                        handle: self.entry.handle,
                        event: AcpEvent::ConversationStatusChanged {
                            conversation_id: self.entry.conversation_id,
                            status: ConversationStatus::Cancelled,
                        },
                    },
                )
            } else {
                WorkerStep::Receive
            },
            Err(_) => WorkerStep::Receive,
        }
    }
}

/// Handles the end of a connection: what was kept of it leaves `cache`, and the row that it was
/// bound to is to be cancelled. Where nothing was kept there is nothing to do.
pub fn handle_terminal_event<H>(cache: &mut Table<CachedConn<H>>, connection_id: &str) -> (r: Option<
    Cancelling<H>,
>)
    ensures
        final(cache)@ == old(cache)@.remove(connection_id@),
        r == if old(cache)@.contains_key(connection_id@) {
            Some(Cancelling { entry: old(cache)@[connection_id@] })
        } else {
            None
        },
{
    match cache.remove(connection_id) {
        Some(entry) => Some(Cancelling { entry }),
        None => None,
    }
}

/// Why a connection is looked up.
#[derive(Debug)]
pub enum Purpose {
    /// To keep its handle, now that it is bound to `conversation_id`.
    Link { conversation_id: i32 },
    /// To bring about `effect`, in attempt number `attempt`.
    Apply { effect: RowEffect, attempt: u64 },
}

/// A connection that is being looked up.
#[derive(Debug)]
pub struct Finding {
    pub connection_id: String,
    pub purpose: Purpose,
}

/// A write that is being made.
#[derive(Debug)]
pub struct Writing<H> {
    pub connection_id: String,
    pub effect: RowEffect,
    pub attempt: u64,
    pub planned: PlannedWrite<H>,
}

/// A pause before an event is handled again.
#[derive(Debug)]
pub struct Pausing {
    pub millis: u64,
    pub resume: Finding,
}

/// What the worker needs next.
#[derive(Debug)]
pub enum WorkerStep<H> {
    /// The next event.
    Receive,
    /// A connection looked up.
    Find(Finding),
    /// A write made.
    Write(Writing<H>),
    /// A status swapped.
    Swap(Cancelling<H>),
    /// Time to pass.
    Pause(Pausing),
    /// An event sent out; after it, the next event.
    Emit(Announcement<H>),
    /// Nothing more.
    Stop,
}

/// The worker of one connection.
pub struct Worker<H> {
    connection_id: String,
    cache: Table<CachedConn<H>>,
}

/// A [`Worker`] by its contents.
pub struct WorkerView<H> {
    pub connection_id: String,
    pub cache: Map<Seq<char>, CachedConn<H>>,
}

impl<H> View for Worker<H> {
    type V = WorkerView<H>;

    closed spec fn view(&self) -> WorkerView<H> {
        WorkerView { connection_id: self.connection_id, cache: self.cache@ }
    }
}

impl<H> WorkerView<H> {
    /// The worker with `cache` in place of what it has kept.
    pub open spec fn keeping(self, cache: Map<Seq<char>, CachedConn<H>>) -> WorkerView<H> {
        WorkerView { connection_id: self.connection_id, cache }
    }

    /// Whether the connection of this worker is kept.
    pub open spec fn linked(self) -> bool {
        self.cache.contains_key(self.connection_id@)
    }
}

/// A worker before its first event.
pub open spec fn new_worker<H>(connection_id: String) -> WorkerView<H> {
    WorkerView { connection_id, cache: Map::empty() }
}

/// The worker after an event.
pub open spec fn worker_after<H>(worker: WorkerView<H>, event: AcpEvent) -> WorkerView<H> {
    if terminal(event) {
        worker.keeping(worker.cache.remove(worker.connection_id@))
    } else {
        worker
    }
}

/// What `worker` needs once it has received `envelope`.
pub open spec fn first_step<H>(worker: WorkerView<H>, envelope: EventEnvelope) -> WorkerStep<H> {
    match envelope.payload {
        AcpEvent::ConversationLinked { conversation_id, .. } => if worker.linked() {
            WorkerStep::Receive
        } else {
            WorkerStep::Find(
                Finding {
                    connection_id: worker.connection_id,
                    purpose: Purpose::Link { conversation_id },
                },
            )
        },
        event => if terminal(event) {
            if worker.linked() {
                WorkerStep::Swap(Cancelling { entry: worker.cache[worker.connection_id@] })
            } else {
                WorkerStep::Receive
            }
        } else {
            match row_effect(event) {
                Some(effect) => WorkerStep::Find(
                    Finding {
                        connection_id: envelope.connection_id,
                        purpose: Purpose::Apply { effect, attempt: 1 },
                    },
                ),
                None => WorkerStep::Receive,
            }
        },
    }
}

/// The worker after a connection has been looked up.
pub open spec fn worker_after_found<H>(
    worker: WorkerView<H>,
    finding: Finding,
    found: Option<LiveConn<H>>,
) -> WorkerView<H> {
    match finding.purpose {
        Purpose::Link { conversation_id } => worker.keeping(
            cache_after_link(
                worker.cache,
                worker.connection_id@,
                conversation_id,
                match found {
                    Some(live) => Some(live.handle),
                    None => None,
                },
            ),
        ),
        Purpose::Apply { .. } => worker,
    }
}

/// What `worker` needs once the connection has been looked up.
pub open spec fn found_step<H>(finding: Finding, found: Option<LiveConn<H>>) -> WorkerStep<H> {
    match (finding.purpose, found) {
        (
            Purpose::Apply { effect, attempt },
            Some(LiveConn { conversation_id: Some(id), handle }),
        ) => WorkerStep::Write(
            Writing {
                connection_id: finding.connection_id,
                effect,
                attempt,
                planned: PlannedWrite { write: row_write(effect, id), handle },
            },
        ),
        _ => WorkerStep::Receive,
    }
}

/// What is needed once a write has been tried.
pub open spec fn written_step<H>(writing: Writing<H>, made: bool) -> WorkerStep<H> {
    if made {
        match announced(writing.planned.write) {
            Some(event) => WorkerStep::Emit(
                Announcement { handle: writing.planned.handle, event },
            ),
            None => WorkerStep::Receive,
        }
    } else {
        match backoff(writing.attempt as int) {
            Some(millis) => WorkerStep::Pause(
                Pausing {
                    millis,
                    resume: Finding {
                        connection_id: writing.connection_id,
                        purpose: Purpose::Apply {
                            effect: writing.effect,
                            attempt: (writing.attempt + 1) as u64,
                        },
                    },
                },
            ),
            None => WorkerStep::Receive,
        }
    }
}

/// What is needed once a swap has been tried.
pub open spec fn swapped_step<H, E>(
    cancelling: Cancelling<H>,
    outcome: Result<bool, E>,
) -> WorkerStep<H> {
    match outcome {
        Ok(true) => WorkerStep::Emit(
            Announcement {
                handle: cancelling.entry.handle,
                event: AcpEvent::ConversationStatusChanged {
                    conversation_id: cancelling.entry.conversation_id,
                    status: ConversationStatus::Cancelled,
                },
            },
        ),
        _ => WorkerStep::Receive,
    }
}

/// What is needed once a pause is over.
pub open spec fn paused_step<H>(pausing: Pausing) -> WorkerStep<H> {
    WorkerStep::Find(pausing.resume)
}

impl<H> Worker<H> {
    /// The worker of the connection `connection_id`, before its first event.
    pub fn new(connection_id: String) -> (r: Self)
        ensures
            r@ == new_worker::<H>(connection_id),
    {
        Worker { connection_id, cache: Table::new() }
    }

    /// Takes an event out of the mailbox and says what is needed first. The worker stops when
    /// there is none any more: the mailbox is empty, and nobody can put anything into it.
    pub fn receive(&mut self, received: Option<&EventEnvelope>) -> (r: WorkerStep<H>)
        ensures
            match received {
                Some(envelope) => {
                    &&& final(self)@ == worker_after(old(self)@, envelope.payload)
                    &&& r == first_step(old(self)@, *envelope)
                },
                None => {
                    &&& final(self)@ == old(self)@
                    &&& r is Stop
                },
            },
    {
        let envelope = match received {
            Some(envelope) => envelope,
            None => return WorkerStep::Stop,
        };
        match &envelope.payload {
            AcpEvent::ConversationLinked { conversation_id, .. } => {
                if self.cache.contains_key(self.connection_id.as_str()) {
                    WorkerStep::Receive
                } else {
                    WorkerStep::Find(
                        Finding {
                            connection_id: self.connection_id.clone(),
                            purpose: Purpose::Link { conversation_id: *conversation_id },
                        },
                    )
                }
            },
            event => {
                if is_terminal(event) {
                    match handle_terminal_event(&mut self.cache, self.connection_id.as_str()) {
                        Some(cancelling) => WorkerStep::Swap(cancelling),
                        None => WorkerStep::Receive,
                    }
                } else {
                    match handle_event(event) {
                        Some(effect) => WorkerStep::Find(
                            Finding {
                                connection_id: envelope.connection_id.clone(),
                                purpose: Purpose::Apply { effect, attempt: 1 },
                            },
                        ),
                        None => WorkerStep::Receive,
                    }
                }
            },
        }
    }

    /// Goes on with a connection that has been looked up.
    pub fn found(&mut self, finding: Finding, found: Option<LiveConn<H>>) -> (r: WorkerStep<H>)
        ensures
            final(self)@ == worker_after_found(old(self)@, finding, found),
            r == found_step(finding, found),
    {
        let connection_id = finding.connection_id;
        match finding.purpose {
            Purpose::Link { conversation_id } => {
                let handle = match found {
                    Some(live) => Some(live.handle),
                    None => None,
                };
                try_cache_link(
                    &mut self.cache,
                    self.connection_id.as_str(),
                    conversation_id,
                    handle,
                );
                WorkerStep::Receive
            },
            Purpose::Apply { effect, attempt } => match plan_write(&effect, found) {
                Some(planned) => WorkerStep::Write(
                    Writing { connection_id, effect, attempt, planned },
                ),
                None => WorkerStep::Receive,
            },
        }
    }
}

impl Pausing {
    /// Goes on once the time has passed: the connection is looked up anew.
    pub fn paused<H>(self) -> (r: WorkerStep<H>)
        ensures
            r == paused_step::<H>(self),
    {
        WorkerStep::Find(self.resume)
    }
}

impl<H> Writing<H> {
    /// Goes on after the write was made, or failed.
    pub fn written(self, made: bool) -> (r: WorkerStep<H>)
        ensures
            r == written_step(self, made),
    {
        if made {
            match announce(self.planned) {
                Some(announcement) => WorkerStep::Emit(announcement),
                None => WorkerStep::Receive,
            }
        } else {
            let failed = handle_event_with_retry(self.attempt);
            match failed.retry_after_ms {
                Some(millis) => WorkerStep::Pause(
                    Pausing {
                        millis,
                        resume: Finding {
                            connection_id: self.connection_id,
                            purpose: Purpose::Apply {
                                effect: self.effect,
                                attempt: self.attempt + 1,
                            },
                        },
                    },
                ),
                None => WorkerStep::Receive,
            }
        }
    }
}

} // verus!
