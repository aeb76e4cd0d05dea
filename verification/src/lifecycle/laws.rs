//! What holds of the lifecycle as a whole: how events, in whatever order they come, leave the
//! conversation row.

use crate::lifecycle::dispatcher::{
    handed_to, law_each_connection_in_order, relevant_events_of, run,
};
use crate::lifecycle::events::{
    lifecycle_relevant, terminal, AcpEvent, ConversationStatus, EventEnvelope,
};
use crate::lifecycle::handler::{
    backoff, row_effect, row_write, turn_status, LiveConn, RowWrite,
};
use crate::lifecycle::worker::{
    cache_after_link, cancel_swap, first_step, found_step, worker_after, written_step, CachedConn,
    Finding, StatusSwap, WorkerStep, WorkerView, Writing,
};
use vstd::prelude::*;

verus! {

/// A conversation row, as far as the lifecycle writes it.
pub struct Row {
    pub id: i32,
    pub status: ConversationStatus,
    pub external_id: Option<Seq<char>>,
}

/// `row` after a write to the table of rows.
pub open spec fn after_write(row: Row, write: RowWrite) -> Row {
    match write {
        RowWrite::ExternalId { conversation_id, external_id } => if conversation_id == row.id {
            Row { external_id: Some(external_id@), ..row }
        } else {
            row
        },
        RowWrite::Status { conversation_id, status } => if conversation_id == row.id {
            Row { status, ..row }
        } else {
            row
        },
    }
}

/// `row` after a swap of status on the table of rows.
pub open spec fn after_swap(row: Row, swap: StatusSwap) -> Row {
    if swap.conversation_id == row.id && row.status == swap.expected {
        Row { status: swap.replacement, ..row }
    } else {
        row
    }
}

/// `row` after one event of a connection that is bound to it and kept by its worker, every
/// lookup having found the connection and every write having been made.
pub open spec fn row_after(row: Row, event: AcpEvent) -> Row {
    if terminal(event) {
        after_swap(row, cancel_swap(row.id))
    } else {
        match row_effect(event) {
            Some(effect) => after_write(row, row_write(effect, row.id)),
            None => row,
        }
    }
}

/// `row` after several events of that connection.
pub open spec fn row_after_all(row: Row, events: Seq<AcpEvent>) -> Row
    decreases events.len(),
{
    if events.len() == 0 {
        row
    } else {
        row_after(row_after_all(row, events.drop_last()), events.last())
    }
}

/// An event that the dispatcher drops would have needed nothing and changed nothing.
pub proof fn law_dropped_events_do_nothing<H>(
    worker: WorkerView<H>,
    envelope: EventEnvelope,
    row: Row,
)
    requires
        !lifecycle_relevant(envelope.payload),
    ensures
        first_step(worker, envelope) is Receive,
        worker_after(worker, envelope.payload) == worker,
        row_after(row, envelope.payload) == row,
{
}

/// An event that bears on the row leads, through the lookup of its connection, to exactly one
/// write, on the row that the connection is bound to.
pub proof fn law_event_reaches_its_row<H>(
    worker: WorkerView<H>,
    envelope: EventEnvelope,
    live: LiveConn<H>,
    row: Row,
)
    requires
        row_effect(envelope.payload) is Some,
        live.conversation_id == Some(row.id),
    ensures
        first_step(worker, envelope) matches WorkerStep::Find(finding) && finding.connection_id
            == envelope.connection_id && (found_step(finding, Some(live)) matches WorkerStep::Write(writing)
            && writing.attempt == 1 && writing.planned.handle == live.handle && after_write(
            row,
            writing.planned.write,
        ) == row_after(row, envelope.payload)),
{
}

/// The end of a connection leads to exactly one swap, on the row that the connection was bound
/// to, where it is kept; otherwise it leads to nothing.
pub proof fn law_end_reaches_its_row<H>(
    worker: WorkerView<H>,
    envelope: EventEnvelope,
    row: Row,
)
    requires
        terminal(envelope.payload),
    ensures
        worker.linked() && worker.cache[worker.connection_id@].conversation_id == row.id ==> (
        first_step(worker, envelope) matches WorkerStep::Swap(cancelling) && after_swap(
            row,
            cancel_swap(cancelling.entry.conversation_id),
        ) == row_after(row, envelope.payload)),
        !worker.linked() ==> first_step(worker, envelope) is Receive,
{
}

/// A connection that is gone, or that is bound to no row, has nothing written.
pub proof fn law_unbound_connection_writes_nothing<H>(finding: Finding, handle: H)
    ensures
        found_step::<H>(finding, None) is Receive,
        found_step(finding, Some(LiveConn { conversation_id: None, handle })) is Receive,
{
}

/// A write that failed and is tried again is the same write to the row that the connection is
/// bound to by then, in the next attempt.
pub proof fn law_retry_repeats_the_event<H>(writing: Writing<H>, live: LiveConn<H>, id: i32)
    requires
        live.conversation_id == Some(id),
    ensures
        written_step(writing, false) matches WorkerStep::Pause(pausing) ==> Some(pausing.millis)
            == backoff(writing.attempt as int) && (found_step(
            pausing.resume,
            Some(live),
        ) matches WorkerStep::Write(again) && again.attempt == writing.attempt + 1 && again.effect
            == writing.effect && again.planned.write == row_write(writing.effect, id)),
        written_step(writing, false) !is Pause ==> written_step(writing, false) is Receive,
{
}

/// Nothing is announced before its write was made, and what is announced is then the status of
/// the row.
pub proof fn law_announced_after_written<H>(
    worker: WorkerView<H>,
    envelope: EventEnvelope,
    finding: Finding,
    found: Option<LiveConn<H>>,
    writing: Writing<H>,
    row: Row,
)
    ensures
        first_step(worker, envelope) !is Emit,
        found_step(finding, found) !is Emit,
        written_step(writing, false) !is Emit,
        written_step(writing, true) matches WorkerStep::Emit(out) ==> out.handle
            == writing.planned.handle && (out.event matches AcpEvent::ConversationStatusChanged {
            conversation_id,
            status,
        } && (conversation_id == row.id ==> after_write(row, writing.planned.write).status
            == status)),
{
}

/// The end of a connection cancels a row that is in progress and leaves every other row as it
/// is: one that waits for review, one that the user completed, one that is cancelled already.
pub proof fn law_end_cancels_only_in_progress(row: Row, event: AcpEvent)
    requires
        terminal(event),
    ensures
        row.status == ConversationStatus::InProgress ==> row_after(row, event) == (Row {
            status: ConversationStatus::Cancelled,
            ..row
        }),
        row.status != ConversationStatus::InProgress ==> row_after(row, event) == row,
{
}

/// However often a connection ends, a row past being in progress stays as it is.
pub proof fn law_settled_row_survives_any_ends(row: Row, ends: Seq<AcpEvent>)
    requires
        row.status != ConversationStatus::InProgress,
        forall|i: int| 0 <= i < ends.len() ==> terminal(#[trigger] ends[i]),
    ensures
        row_after_all(row, ends) == row,
    decreases ends.len(),
{
    if ends.len() > 0 {
        law_settled_row_survives_any_ends(row, ends.drop_last());
        assert(terminal(ends[ends.len() - 1]));
    }
}

/// A turn that ended leaves its row to be reviewed, or cancelled where the turn failed, whatever
/// its status was before, and the end of the connection does not change that any more.
pub proof fn law_turn_outcome_survives_the_end(row: Row, event: AcpEvent, ends: Seq<AcpEvent>)
    requires
        event is TurnComplete,
        turn_status(event->stop_reason@) is Some,
        forall|i: int| 0 <= i < ends.len() ==> terminal(#[trigger] ends[i]),
    ensures
        row_after_all(row_after(row, event), ends).status == turn_status(event->stop_reason@)->0,
{
    law_settled_row_survives_any_ends(row_after(row, event), ends);
}

/// The events in a sequence of envelopes.
pub open spec fn payloads(events: Seq<EventEnvelope>) -> Seq<AcpEvent> {
    events.map_values(|e: EventEnvelope| e.payload)
}

/// The events of one connection, in their order.
pub open spec fn events_of(events: Seq<EventEnvelope>, id: Seq<char>) -> Seq<EventEnvelope> {
    events.filter(|e: EventEnvelope| e.connection_id@ == id)
}

/// What the workers of a connection are handed leaves its row as all the events of the
/// connection would: the events that were dropped make no difference, nor do those of other
/// connections.
pub proof fn law_dispatch_keeps_rows(row: Row, events: Seq<EventEnvelope>, id: Seq<char>)
    ensures
        row_after_all(row, payloads(handed_to(run(events).handed, id))) == row_after_all(
            row,
            payloads(events_of(events, id)),
        ),
{
    law_each_connection_in_order(events, id);
    lemma_filter_keeps_rows(row, events, id);
}

proof fn lemma_filter_keeps_rows(row: Row, events: Seq<EventEnvelope>, id: Seq<char>)
    ensures
        row_after_all(row, payloads(relevant_events_of(events, id))) == row_after_all(
            row,
            payloads(events_of(events, id)),
        ),
    decreases events.len(),
{
    reveal(Seq::filter);
    if events.len() == 0 {
        assert(relevant_events_of(events, id) =~= events_of(events, id));
    } else {
        let before = events.drop_last();
        lemma_filter_keeps_rows(row, before, id);
        if events.last().connection_id@ == id {
            assert(payloads(events_of(events, id)).drop_last() =~= payloads(
                events_of(before, id),
            ));
            if lifecycle_relevant(events.last().payload) {
                assert(payloads(relevant_events_of(events, id)).drop_last() =~= payloads(
                    relevant_events_of(before, id),
                ));
            }
        }
    }
}

/// The end of a turn decides the status of the row of its connection, however many events, of
/// whatever connections, came before it.
pub proof fn law_turn_at_the_tail_lands(row: Row, events: Seq<EventEnvelope>)
    requires
        events.len() > 0,
        events.last().payload is TurnComplete,
        turn_status(events.last().payload->stop_reason@) is Some,
    ensures
        row_after_all(
            row,
            payloads(handed_to(run(events).handed, events.last().connection_id@)),
        ).status == turn_status(events.last().payload->stop_reason@)->0,
{
    reveal(Seq::filter);
    law_dispatch_keeps_rows(row, events, events.last().connection_id@);
}

/// The row keeps the id of the session that was opened last.
pub proof fn law_last_session_is_kept(row: Row, events: Seq<AcpEvent>, k: int)
    requires
        0 <= k < events.len(),
        events[k] is SessionStarted,
        forall|i: int| k < i < events.len() ==> events[i] !is SessionStarted,
    ensures
        row_after_all(row, events).external_id == Some(events[k]->SessionStarted_session_id@),
    decreases events.len(),
{
    if k < events.len() - 1 {
        law_last_session_is_kept(row, events.drop_last(), k);
        law_who_writes_what(row_after_all(row, events.drop_last()), events.last());
    }
}

/// A turn that the user cancelled writes nothing: its row was written where it was cancelled.
pub proof fn law_cancelled_turn_writes_nothing(row: Row, event: AcpEvent)
    requires
        event is TurnComplete,
        event->stop_reason@ == "cancelled"@,
    ensures
        row_effect(event) is None,
        row_after(row, event) == row,
{
    reveal_strlit("cancelled");
    reveal_strlit("end_turn");
    reveal_strlit("refusal");
    reveal_strlit("max_tokens");
    reveal_strlit("max_turn_requests");
    reveal_strlit("unknown");
    reveal_strlit("empty");
    assert("cancelled"@.len() == 9);
    assert(turn_status("cancelled"@) is None);
}

/// Only the opening of a session writes the external id, and it writes the session's id; the
/// status is written only by the end of a turn and by the end of the connection.
pub proof fn law_who_writes_what(row: Row, event: AcpEvent)
    ensures
        event is SessionStarted ==> row_after(row, event) == (Row {
            external_id: Some(event->SessionStarted_session_id@),
            ..row
        }),
        event !is SessionStarted ==> row_after(row, event).external_id == row.external_id,
        event !is TurnComplete && !terminal(event) ==> row_after(row, event).status == row.status,
        row_after(row, event).id == row.id,
{
}

/// A second end of a connection, after a first one, needs nothing and changes nothing.
pub proof fn law_second_end_does_nothing<H>(
    worker: WorkerView<H>,
    first: AcpEvent,
    second: EventEnvelope,
)
    requires
        terminal(first),
        terminal(second.payload),
    ensures
        first_step(worker_after(worker, first), second) is Receive,
        worker_after(worker_after(worker, first), second.payload) == worker_after(worker, first),
{
    let id = worker.connection_id@;
    assert(worker.cache.remove(id).remove(id) == worker.cache.remove(id));
}

/// Binding a connection again changes nothing of what is kept.
pub proof fn law_relink_changes_nothing<H>(
    cache: Map<Seq<char>, CachedConn<H>>,
    connection_id: Seq<char>,
    first: i32,
    handle: H,
    second: i32,
    found: Option<H>,
)
    ensures
        ({
            let once = cache_after_link(cache, connection_id, first, Some(handle));
            cache_after_link(once, connection_id, second, found) == once
        }),
{
}

} // verus!
