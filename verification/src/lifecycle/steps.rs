//! What each kind of event comes to, from the moment its worker takes it until its effect is
//! announced, and what the dispatcher does with it before that.

use crate::lifecycle::dispatcher::{
    counts_of, receipt_step, spawned_step, tried_step, workers_after, workers_after_receipt,
    workers_after_spawn, workers_after_try, BusReceipt, Counts, Delivery, DispatchStep, TrySend,
    WORKER_QUEUE_CAPACITY,
};
use crate::lifecycle::events::{
    lifecycle_relevant, terminal, AcpEvent, ConnectionStatus, ConversationStatus, EventEnvelope,
};
use crate::lifecycle::handler::{
    announced, backoff, failure_level, planned_write, row_effect, row_write, turn_status,
    Announcement, LiveConn, LogLevel, PlannedWrite, RowEffect, RowWrite,
};
use crate::lifecycle::worker::{
    cache_after_link, cancel_swap, first_step, found_step, new_worker, paused_step, swapped_step,
    worker_after, worker_after_found, written_step, CachedConn, Cancelling, Finding, Pausing, Purpose,
    StatusSwap, WorkerStep, WorkerView, Writing,
};
use vstd::prelude::*;

verus! {

/// A connection is over with every error, whatever it says, and with every disconnect, and with
/// nothing else.
pub proof fn law_errors_and_disconnects_end(
    message: String,
    agent_type: String,
    code: Option<String>,
    event: AcpEvent,
)
    ensures
        terminal(AcpEvent::Error { message, agent_type, code }),
        terminal(AcpEvent::StatusChanged { status: ConnectionStatus::Disconnected }),
        terminal(event) ==> event is Error || event == (AcpEvent::StatusChanged {
            status: ConnectionStatus::Disconnected,
        }),
{
}

/// What has to reach the worker: the opening of a session, the end of a turn, the binding to a
/// row, every error and every disconnect, and nothing else.
pub proof fn law_what_is_relevant(event: AcpEvent)
    ensures
        event is SessionStarted ==> lifecycle_relevant(event),
        event is TurnComplete ==> lifecycle_relevant(event),
        event is ConversationLinked ==> lifecycle_relevant(event),
        event is Error ==> lifecycle_relevant(event),
        event == (AcpEvent::StatusChanged { status: ConnectionStatus::Disconnected })
            ==> lifecycle_relevant(event),
        event is ContentDelta ==> !lifecycle_relevant(event),
        event is ConversationStatusChanged ==> !lifecycle_relevant(event),
        event is Other ==> !lifecycle_relevant(event),
        event is StatusChanged && event != (AcpEvent::StatusChanged {
            status: ConnectionStatus::Disconnected,
        }) ==> !lifecycle_relevant(event),
{
}

/// A connection that is bound to a row and ends, by an error of any kind or by a disconnect, asks
/// for its row to be swapped from being in progress to cancelled, once, and lets go of the
/// connection and of no other. The cancellation goes out through the handle that was kept, if
/// and only if the row took it on.
pub proof fn law_end_cancels_and_announces<H, E>(
    worker: WorkerView<H>,
    envelope: EventEnvelope,
    conversation_id: i32,
    handle: H,
    cause: E,
)
    requires
        envelope.payload is Error || envelope.payload == (AcpEvent::StatusChanged {
            status: ConnectionStatus::Disconnected,
        }),
        worker.cache.contains_key(worker.connection_id@),
        worker.cache[worker.connection_id@] == (CachedConn { conversation_id, handle }),
    ensures
        ({
            let cancelling = Cancelling { entry: CachedConn { conversation_id, handle } };
            &&& first_step(worker, envelope) == WorkerStep::Swap(cancelling)
            &&& cancel_swap(conversation_id) == (StatusSwap {
                conversation_id,
                expected: ConversationStatus::InProgress,
                replacement: ConversationStatus::Cancelled,
            })
            &&& swapped_step(cancelling, Ok::<bool, E>(true)) == WorkerStep::Emit(
                Announcement {
                    handle,
                    event: AcpEvent::ConversationStatusChanged {
                        conversation_id,
                        status: ConversationStatus::Cancelled,
                    },
                },
            )
            &&& swapped_step(cancelling, Ok::<bool, E>(false)) is Receive
            &&& swapped_step(cancelling, Err::<bool, E>(cause)) is Receive
        }),
        worker_after(worker, envelope.payload).connection_id == worker.connection_id,
        worker_after(worker, envelope.payload).cache == worker.cache.remove(worker.connection_id@),
{
}

/// The end of a connection that was never bound to a row, or has ended before, asks for nothing
/// and changes nothing.
pub proof fn law_end_of_an_unknown_connection<H>(worker: WorkerView<H>, envelope: EventEnvelope)
    requires
        envelope.payload is Error || envelope.payload is StatusChanged,
        !worker.cache.contains_key(worker.connection_id@),
    ensures
        first_step(worker, envelope) is Receive,
        worker_after(worker, envelope.payload) == worker,
{
    assert(worker.cache.remove(worker.connection_id@) =~= worker.cache);
}

/// No other event ends the connection: nothing that is kept is let go, and no swap is asked for.
pub proof fn law_other_events_keep_the_connection<H>(
    worker: WorkerView<H>,
    envelope: EventEnvelope,
)
    requires
        envelope.payload !is Error,
        envelope.payload != (AcpEvent::StatusChanged { status: ConnectionStatus::Disconnected }),
    ensures
        first_step(worker, envelope) !is Swap,
        worker_after(worker, envelope.payload) == worker,
{
}

/// Pieces of output, changes of state that are no disconnect, announced changes of status and all
/// other events ask a worker for nothing.
pub proof fn law_noise_asks_for_nothing<H>(worker: WorkerView<H>, envelope: EventEnvelope)
    requires
        envelope.payload is ContentDelta || envelope.payload is ConversationStatusChanged
            || envelope.payload is Other || envelope.payload is StatusChanged
            && envelope.payload != (AcpEvent::StatusChanged {
            status: ConnectionStatus::Disconnected,
        }),
    ensures
        first_step(worker, envelope) is Receive,
        worker_after(worker, envelope.payload) == worker,
        row_effect(envelope.payload) is None,
{
}

/// The opening of a session has its id written to the row that the connection is bound to, and
/// nothing is announced.
pub proof fn law_session_is_written<H>(
    worker: WorkerView<H>,
    seq: u64,
    connection_id: String,
    session_id: String,
    conversation_id: i32,
    handle: H,
)
    ensures
        ({
            let envelope = EventEnvelope {
                seq,
                connection_id,
                payload: AcpEvent::SessionStarted { session_id },
            };
            let effect = RowEffect::BindSession(session_id);
            let finding = Finding {
                connection_id,
                purpose: Purpose::Apply { effect, attempt: 1 },
            };
            let live = LiveConn { conversation_id: Some(conversation_id), handle };
            let writing = Writing {
                connection_id,
                effect,
                attempt: 1,
                planned: PlannedWrite {
                    write: RowWrite::ExternalId { conversation_id, external_id: session_id },
                    handle,
                },
            };
            &&& row_effect(envelope.payload) == Some(effect)
            &&& first_step(worker, envelope) == WorkerStep::<H>::Find(finding)
            &&& found_step(finding, Some(live)) == WorkerStep::Write(writing)
            &&& written_step(writing, true) is Receive
        }),
{
}

/// The end of a turn has the status that its reason means written to the row that the connection
/// is bound to: it waits for review where the turn came to its end, and it is cancelled where the
/// turn was refused, ran into a limit, ended for an unknown reason or gave nothing. Once that is
/// written it is announced, through the handle of the connection.
pub proof fn law_turn_is_written_and_announced<H>(
    worker: WorkerView<H>,
    seq: u64,
    connection_id: String,
    session_id: String,
    stop_reason: String,
    agent_type: String,
    conversation_id: i32,
    handle: H,
    status: ConversationStatus,
)
    requires
        stop_reason@ == "end_turn"@ && status == ConversationStatus::PendingReview || (
        stop_reason@ == "refusal"@ || stop_reason@ == "max_tokens"@ || stop_reason@
            == "max_turn_requests"@ || stop_reason@ == "unknown"@ || stop_reason@ == "empty"@)
            && status == ConversationStatus::Cancelled,
    ensures
        ({
            let envelope = EventEnvelope {
                seq,
                connection_id,
                payload: AcpEvent::TurnComplete { session_id, stop_reason, agent_type },
            };
            let effect = RowEffect::SetStatus(status);
            let finding = Finding {
                connection_id,
                purpose: Purpose::Apply { effect, attempt: 1 },
            };
            let live = LiveConn { conversation_id: Some(conversation_id), handle };
            let writing = Writing {
                connection_id,
                effect,
                attempt: 1,
                planned: PlannedWrite {
                    write: RowWrite::Status { conversation_id, status },
                    handle,
                },
            };
            &&& turn_status(stop_reason@) == Some(status)
            &&& row_effect(envelope.payload) == Some(effect)
            &&& first_step(worker, envelope) == WorkerStep::<H>::Find(finding)
            &&& found_step(finding, Some(live)) == WorkerStep::Write(writing)
            &&& written_step(writing, true) == WorkerStep::Emit(
                Announcement {
                    handle,
                    event: AcpEvent::ConversationStatusChanged { conversation_id, status },
                },
            )
        }),
{
    reveal_strlit("end_turn");
    reveal_strlit("refusal");
    reveal_strlit("max_tokens");
    reveal_strlit("max_turn_requests");
    reveal_strlit("unknown");
    reveal_strlit("empty");
    assert("end_turn"@.len() == 8);
}

/// A turn that ended for any other reason asks for nothing.
pub proof fn law_other_turns_write_nothing<H>(
    worker: WorkerView<H>,
    seq: u64,
    connection_id: String,
    session_id: String,
    stop_reason: String,
    agent_type: String,
)
    requires
        stop_reason@ != "end_turn"@,
        stop_reason@ != "refusal"@,
        stop_reason@ != "max_tokens"@,
        stop_reason@ != "max_turn_requests"@,
        stop_reason@ != "unknown"@,
        stop_reason@ != "empty"@,
    ensures
        turn_status(stop_reason@) is None,
        row_effect(AcpEvent::TurnComplete { session_id, stop_reason, agent_type }) is None,
        first_step(
            worker,
            EventEnvelope {
                seq,
                connection_id,
                payload: AcpEvent::TurnComplete { session_id, stop_reason, agent_type },
            },
        ) is Receive,
{
}

/// Every status that was written is announced, whatever it is and in whichever attempt it was
/// written; an external id never is.
pub proof fn law_every_written_status_is_announced<H>(
    connection_id: String,
    effect: RowEffect,
    attempt: u64,
    conversation_id: i32,
    status: ConversationStatus,
    external_id: String,
    handle: H,
)
    ensures
        ({
            let write = RowWrite::Status { conversation_id, status };
            let event = AcpEvent::ConversationStatusChanged { conversation_id, status };
            let planned = PlannedWrite { write, handle };
            &&& announced(write) == Some(event)
            &&& written_step(Writing { connection_id, effect, attempt, planned }, true)
                == WorkerStep::Emit(Announcement { handle, event })
        }),
        ({
            let write = RowWrite::ExternalId { conversation_id, external_id };
            let planned = PlannedWrite { write, handle };
            &&& announced(write) is None
            &&& written_step(
                Writing { connection_id, effect, attempt, planned },
                true,
            ) is Receive
        }),
{
}

/// What a connection is looked up for is written to the row that it is bound to, for any effect
/// and in any attempt, with the handle that was found; where the connection is gone or bound to
/// no row, nothing is written.
pub proof fn law_effect_goes_to_the_bound_row<H>(
    connection_id: String,
    effect: RowEffect,
    attempt: u64,
    conversation_id: i32,
    handle: H,
)
    ensures
        ({
            let finding = Finding {
                connection_id,
                purpose: Purpose::Apply { effect, attempt },
            };
            let write = match effect {
                RowEffect::BindSession(external_id) => RowWrite::ExternalId {
                    conversation_id,
                    external_id,
                },
                RowEffect::SetStatus(status) => RowWrite::Status { conversation_id, status },
            };
            let bound = LiveConn { conversation_id: Some(conversation_id), handle };
            let unbound = LiveConn { conversation_id: None, handle };
            &&& row_write(effect, conversation_id) == write
            &&& planned_write(effect, Some(bound)) == Some(PlannedWrite { write, handle })
            &&& planned_write(effect, Some(unbound)) is None
            &&& planned_write::<H>(effect, None) is None
            &&& found_step(finding, Some(bound)) == WorkerStep::Write(
                Writing {
                    connection_id,
                    effect,
                    attempt,
                    planned: PlannedWrite { write, handle },
                },
            )
            &&& found_step(finding, Some(unbound)) is Receive
            &&& found_step::<H>(finding, None) is Receive
        }),
{
}

/// A write that failed is tried again after a tenth of a second, then after half a second, with
/// the connection looked up anew; after the third failure, the only one that is logged as an
/// error, it is given up.
pub proof fn law_backoff_of_failed_writes<H>(
    connection_id: String,
    effect: RowEffect,
    attempt: u64,
    planned: PlannedWrite<H>,
)
    ensures
        ({
            let step = written_step(Writing { connection_id, effect, attempt, planned }, false);
            let pause = |millis: u64, next: u64|
                WorkerStep::<H>::Pause(
                    Pausing {
                        millis,
                        resume: Finding {
                            connection_id,
                            purpose: Purpose::Apply { effect, attempt: next },
                        },
                    },
                );
            &&& attempt == 1 ==> step == pause(100, 2) && backoff(1) == Some(100u64)
            &&& attempt == 2 ==> step == pause(500, 3) && backoff(2) == Some(500u64)
            &&& attempt != 1 && attempt != 2 ==> step is Receive && backoff(attempt as int) is None
            &&& failure_level(attempt as int) == LogLevel::Warn <==> attempt == 1 || attempt == 2
        }),
{
}

/// After a pause the connection is looked up for the very attempt that was put off.
pub proof fn law_pause_only_puts_off<H>(millis: u64, resume: Finding)
    ensures
        paused_step::<H>(Pausing { millis, resume }) == WorkerStep::<H>::Find(resume),
{
}

/// A connection that is bound to a row is looked up by the worker that it belongs to, unless the
/// worker keeps it already; if it is found, the row and the handle are kept under it, and what
/// the worker keeps of other connections stays. Nothing is written.
pub proof fn law_link_is_kept<H>(
    worker: WorkerView<H>,
    seq: u64,
    connection_id: String,
    conversation_id: i32,
    folder_id: i32,
    bound: Option<i32>,
    handle: H,
)
    ensures
        ({
            let envelope = EventEnvelope {
                seq,
                connection_id,
                payload: AcpEvent::ConversationLinked { conversation_id, folder_id },
            };
            let finding = Finding {
                connection_id: worker.connection_id,
                purpose: Purpose::Link { conversation_id },
            };
            let id = worker.connection_id@;
            let live = LiveConn { conversation_id: bound, handle };
            let after = worker_after_found(worker, finding, Some(live));
            &&& worker_after(worker, envelope.payload) == worker
            &&& worker.cache.contains_key(id) ==> first_step(worker, envelope) is Receive
                && after == worker
            &&& !worker.cache.contains_key(id) ==> first_step(worker, envelope)
                == WorkerStep::<H>::Find(finding) && after == (WorkerView {
                connection_id: worker.connection_id,
                cache: worker.cache.insert(id, CachedConn { conversation_id, handle }),
            })
            &&& worker_after_found(worker, finding, None) == worker
            &&& found_step(finding, Some(live)) is Receive
            &&& found_step::<H>(finding, None) is Receive
        }),
{
}

/// Looking a connection up for a write changes nothing of what a worker keeps; and a worker that
/// has seen no event keeps nothing.
pub proof fn law_only_links_are_kept<H>(
    worker: WorkerView<H>,
    connection_id: String,
    effect: RowEffect,
    attempt: u64,
    found: Option<LiveConn<H>>,
)
    ensures
        worker_after_found(
            worker,
            Finding { connection_id, purpose: Purpose::Apply { effect, attempt } },
            found,
        ) == worker,
        new_worker::<H>(connection_id).connection_id == connection_id,
        forall|key: Seq<char>| !new_worker::<H>(connection_id).cache.contains_key(key),
{
}

/// A connection that is kept under any key stays as it is, one that is found is kept, and one
/// that is not found is not; all other keys stay as they are.
pub proof fn law_keeping_a_link<H>(
    cache: Map<Seq<char>, CachedConn<H>>,
    key: Seq<char>,
    conversation_id: i32,
    handle: H,
    other: Seq<char>,
    found: Option<H>,
)
    ensures
        ({
            let after = cache_after_link(cache, key, conversation_id, Some(handle));
            &&& after.contains_key(key)
            &&& cache.contains_key(key) ==> after[key] == cache[key]
            &&& !cache.contains_key(key) ==> after[key] == (CachedConn { conversation_id, handle })
        }),
        cache_after_link(cache, key, conversation_id, None) == cache,
        ({
            let after = cache_after_link(cache, key, conversation_id, found);
            other != key ==> (after.contains_key(other) <==> cache.contains_key(other)) && (
            cache.contains_key(other) ==> after[other] == cache[other])
        }),
{
}

/// Each event that matters is handed over as it is: to the worker of its connection, which is
/// started first where there is none. All others are dropped.
pub proof fn law_what_the_dispatcher_hands_over<S>(
    workers: Map<Seq<char>, S>,
    envelope: EventEnvelope,
)
    ensures
        ({
            let step = receipt_step(workers, BusReceipt::Event(envelope));
            let event = envelope.payload;
            let matters = event is SessionStarted || event is TurnComplete
                || event is ConversationLinked || event is Error || event
                == (AcpEvent::StatusChanged { status: ConnectionStatus::Disconnected });
            let there = workers.contains_key(envelope.connection_id@);
            &&& !matters ==> step is Receive
            &&& matters && there ==> step == DispatchStep::TrySend(Delivery { envelope })
            &&& matters && !there ==> step == DispatchStep::Spawn(Delivery { envelope })
        }),
        workers_after_receipt(workers, BusReceipt::Event(envelope)) == workers,
{
}

/// Lost events are counted and change nothing else, whatever their number; when the bus closes,
/// the dispatcher lets all workers go and stops.
pub proof fn law_what_else_comes_off_the_bus<S>(
    workers: Map<Seq<char>, S>,
    skipped: u64,
    key: Seq<char>,
)
    ensures
        receipt_step(workers, BusReceipt::Lagged(skipped)) == DispatchStep::CountLagged(skipped),
        workers_after_receipt(workers, BusReceipt::Lagged(skipped)) == workers,
        receipt_step(workers, BusReceipt::Closed) is Stop,
        !workers_after_receipt(workers, BusReceipt::Closed).contains_key(key),
{
}

/// A worker that was started is there for its connection, with its own mailbox, before the event
/// goes into it; the workers of all other connections stay.
pub proof fn law_started_worker_is_there<S>(
    workers: Map<Seq<char>, S>,
    delivery: Delivery,
    mailbox: S,
    other: Seq<char>,
)
    ensures
        ({
            let id = delivery.envelope.connection_id@;
            let after = workers_after_spawn(workers, delivery, mailbox);
            &&& spawned_step(delivery) == DispatchStep::TrySend(delivery)
            &&& after.contains_key(id) && after[id] == mailbox
            &&& other != id ==> (after.contains_key(other) <==> workers.contains_key(other)) && (
            workers.contains_key(other) ==> after[other] == workers[other])
        }),
{
}

/// A mailbox holds 64 events. One that is full is waited for, with the same event and with all workers kept; the event
/// is never given up for it.
pub proof fn law_full_mailbox_is_waited_for<S>(
    workers: Map<Seq<char>, S>,
    delivery: Delivery,
)
    ensures
        WORKER_QUEUE_CAPACITY == 64,
        tried_step(delivery, TrySend::Full) == DispatchStep::Wait(delivery),
        workers_after_try(workers, delivery.envelope, TrySend::Full) == workers,
        tried_step(delivery, TrySend::Sent) is Receive,
        tried_step(delivery, TrySend::Closed) is Receive,
{
}

/// Once an event is in the mailbox its worker is kept, unless the event is an error or a
/// disconnect; a worker that is gone is let go with any event. The workers of all other
/// connections are kept in any case.
pub proof fn law_workers_after_a_delivery<S>(
    workers: Map<Seq<char>, S>,
    envelope: EventEnvelope,
)
    ensures
        ({
            let id = envelope.connection_id@;
            let event = envelope.payload;
            let ends = event is Error || event == (AcpEvent::StatusChanged {
                status: ConnectionStatus::Disconnected,
            });
            &&& ends ==> workers_after(workers, envelope, true) == workers.remove(id)
            &&& !ends ==> workers_after(workers, envelope, true) == workers
            &&& workers_after(workers, envelope, false) == workers.remove(id)
            &&& workers_after_try(workers, envelope, TrySend::Sent) == workers_after(
                workers,
                envelope,
                true,
            )
            &&& workers_after_try(workers, envelope, TrySend::Closed) == workers_after(
                workers,
                envelope,
                false,
            )
        }),
{
}

/// Waiting for a mailbox counts as one full mailbox, and lost events count by their number;
/// nothing else counts.
pub proof fn law_what_is_counted(delivery: Delivery, skipped: u64)
    ensures
        counts_of(DispatchStep::Wait(delivery)) == (Counts { queue_full: 1, lagged: 0 }),
        counts_of(DispatchStep::CountLagged(skipped)) == (Counts {
            queue_full: 0,
            lagged: skipped,
        }),
        counts_of(DispatchStep::Receive) == (Counts { queue_full: 0, lagged: 0 }),
        counts_of(DispatchStep::Spawn(delivery)) == (Counts { queue_full: 0, lagged: 0 }),
        counts_of(DispatchStep::TrySend(delivery)) == (Counts { queue_full: 0, lagged: 0 }),
        counts_of(DispatchStep::Stop) == (Counts { queue_full: 0, lagged: 0 }),
{
}

} // verus!
