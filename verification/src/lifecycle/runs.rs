//! Whole runs of a worker: what holds of it whatever events come, and whether what it asks for
//! is found, made or failed.

use crate::lifecycle::dispatcher::{handed_to, run};
use crate::lifecycle::events::{terminal, AcpEvent, ConversationStatus, EventEnvelope};
use crate::lifecycle::handler::{
    row_effect, row_write, turn_status, LiveConn, RowEffect, RowWrite,
};
use crate::lifecycle::laws::{
    after_swap, after_write, events_of, law_dispatch_keeps_rows, payloads, row_after, row_after_all,
    Row,
};
use crate::lifecycle::worker::{
    cancel_swap, first_step, found_step, new_worker, paused_step, swapped_step, worker_after, worker_after_found,
    written_step, CachedConn, Cancelling, Finding, Purpose, WorkerStep, WorkerView,
};
use vstd::prelude::*;

verus! {

/// What a worker is told.
pub enum Told<H> {
    /// The next event of the mailbox, or that there will be none.
    Received(Option<EventEnvelope>),
    /// The connection that was looked up, if it is there.
    Found(Option<LiveConn<H>>),
    /// Whether the write was made.
    Written(bool),
    /// Whether the swap changed the row, or that it failed.
    Swapped(Result<bool, ()>),
    /// That the time has passed.
    Paused,
    /// That the event was sent out.
    Emitted,
}

/// `told` is what a worker that needs `step` can be told.
pub open spec fn answers<H>(step: WorkerStep<H>, told: Told<H>) -> bool {
    match step {
        WorkerStep::Receive => told is Received,
        WorkerStep::Find(_) => told is Found,
        WorkerStep::Write(_) => told is Written,
        WorkerStep::Swap(_) => told is Swapped,
        WorkerStep::Pause(_) => told is Paused,
        WorkerStep::Emit(_) => told is Emitted,
        WorkerStep::Stop => false,
    }
}

/// A worker, and what it needs.
pub struct WorkerState<H> {
    pub worker: WorkerView<H>,
    pub step: WorkerStep<H>,
}

/// A worker once it has been told something that it needed.
pub open spec fn next_state<H>(state: WorkerState<H>, told: Told<H>) -> WorkerState<H> {
    let worker = state.worker;
    match (state.step, told) {
        (WorkerStep::Receive, Told::Received(Some(envelope))) => WorkerState {
            worker: worker_after(worker, envelope.payload),
            step: first_step(worker, envelope),
        },
        (WorkerStep::Receive, Told::Received(None)) => WorkerState {
            worker,
            step: WorkerStep::Stop,
        },
        (WorkerStep::Find(finding), Told::Found(found)) => WorkerState {
            worker: worker_after_found(worker, finding, found),
            step: found_step(finding, found),
        },
        (WorkerStep::Write(writing), Told::Written(made)) => WorkerState {
            worker,
            step: written_step(writing, made),
        },
        (WorkerStep::Swap(cancelling), Told::Swapped(outcome)) => WorkerState {
            worker,
            step: swapped_step(cancelling, outcome),
        },
        (WorkerStep::Pause(pausing), Told::Paused) => WorkerState {
            worker,
            step: paused_step(pausing),
        },
        (WorkerStep::Emit(_), Told::Emitted) => WorkerState { worker, step: WorkerStep::Receive },
        _ => state,
    }
}

/// The worker of the connection `id` once it has been told all of `told`.
pub open spec fn state_after<H>(id: String, told: Seq<Told<H>>) -> WorkerState<H>
    decreases told.len(),
{
    if told.len() == 0 {
        WorkerState { worker: new_worker(id), step: WorkerStep::Receive }
    } else {
        next_state(state_after(id, told.drop_last()), told.last())
    }
}

/// The worker before it is told `told[i]`.
pub open spec fn state_at<H>(id: String, told: Seq<Told<H>>, i: int) -> WorkerState<H> {
    state_after(id, told.take(i))
}

/// The worker of the connection `id` can be told `told`: it is told each time what it needs.
pub open spec fn is_run<H>(id: String, told: Seq<Told<H>>) -> bool {
    forall|i: int|
        0 <= i < told.len() ==> answers((#[trigger] state_at(id, told, i)).step, told[i])
}

proof fn lemma_next<H>(id: String, told: Seq<Told<H>>, i: int)
    requires
        is_run(id, told),
        0 <= i < told.len(),
    ensures
        answers(state_at(id, told, i).step, told[i]),
        state_at(id, told, i + 1) == next_state(state_at(id, told, i), told[i]),
{
    assert(told.take(i + 1).drop_last() == told.take(i));
    assert(told.take(i + 1).last() == told[i]);
}

proof fn lemma_same_connection<H>(id: String, told: Seq<Told<H>>, i: int)
    requires
        is_run(id, told),
        0 <= i <= told.len(),
    ensures
        state_at(id, told, i).worker.connection_id == id,
    decreases i,
{
    if i > 0 {
        lemma_same_connection(id, told, i - 1);
        lemma_next(id, told, i - 1);
    }
}

/// How often a worker can still be told something before it takes the next event.
pub open spec fn pending<H>(step: WorkerStep<H>) -> nat {
    match step {
        WorkerStep::Receive => 0,
        WorkerStep::Stop => 0,
        WorkerStep::Emit(_) => 1,
        WorkerStep::Swap(_) => 2,
        WorkerStep::Find(finding) => pending_lookup(finding),
        WorkerStep::Write(writing) => 3 * retries_left(writing.attempt) + 2,
        WorkerStep::Pause(pausing) => pending_lookup(pausing.resume) + 1,
    }
}

/// How often a write can still be tried after attempt number `attempt`.
pub open spec fn retries_left(attempt: u64) -> nat {
    if attempt == 1 {
        2
    } else if attempt == 2 {
        1
    } else {
        0
    }
}

/// How often a worker can still be told something, once it looks a connection up.
pub open spec fn pending_lookup(finding: Finding) -> nat {
    match finding.purpose {
        Purpose::Link { .. } => 1,
        Purpose::Apply { attempt, .. } => 3 * retries_left(attempt) + 3,
    }
}

proof fn lemma_pending<H>(id: String, told: Seq<Told<H>>, from: int, to: int)
    requires
        is_run(id, told),
        0 <= from <= to <= told.len(),
        forall|i: int| from <= i < to ==> pending(#[trigger] state_at(id, told, i).step) > 0,
    ensures
        pending(state_at(id, told, to).step) + (to - from) <= pending(
            state_at(id, told, from).step,
        ),
    decreases to - from,
{
    if from < to {
        lemma_pending(id, told, from, to - 1);
        lemma_next(id, told, to - 1);
        assert(pending(state_at(id, told, to - 1).step) > 0);
    }
}

/// A run goes on after whatever the worker is told of what it needs: that a connection is gone,
/// that a write or a swap failed, or that they succeeded.
pub proof fn law_run_goes_on<H>(id: String, told: Seq<Told<H>>, next: Told<H>)
    requires
        is_run(id, told),
        answers(state_after(id, told).step, next),
    ensures
        is_run(id, told.push(next)),
        state_after(id, told.push(next)) == next_state(state_after(id, told), next),
{
    let more = told.push(next);
    assert(more.drop_last() == told);
    assert forall|i: int| 0 <= i < more.len() implies answers(
        (#[trigger] state_at(id, more, i)).step,
        more[i],
    ) by {
        if i < told.len() {
            assert(more.take(i) == told.take(i));
            assert(state_at(id, more, i) == state_at(id, told, i));
        } else {
            assert(more.take(i) == told);
        }
    }
}

/// A worker stops only when it is told that there are no more events, and that ends the run.
pub proof fn law_only_closing_stops<H>(id: String, told: Seq<Told<H>>, k: int)
    requires
        is_run(id, told),
        0 <= k <= told.len(),
        state_at(id, told, k).step is Stop,
    ensures
        k == told.len() > 0,
        told.last() == Told::<H>::Received(None),
{
    if k < told.len() {
        lemma_next(id, told, k);
    }
    if k > 0 {
        lemma_next(id, told, k - 1);
    }
}

/// Nothing that fails keeps a worker from the next event: at most nine answers after it took an
/// event, whatever they are, it takes the next one.
pub proof fn law_next_event_is_taken<H>(id: String, told: Seq<Told<H>>, i: int)
    requires
        is_run(id, told),
        0 <= i < told.len(),
        told[i] matches Told::Received(Some(_)),
        i + 10 <= told.len(),
    ensures
        exists|k: int|
            i < k <= i + 10 && (#[trigger] state_at(id, told, k)).step is Receive,
{
    lemma_next(id, told, i);
    if forall|k: int|
        i + 1 <= k < i + 10 ==> pending(#[trigger] state_at(id, told, k).step) > 0 {
        lemma_pending(id, told, i + 1, i + 10);
        lemma_next(id, told, i + 9);
        assert(pending(state_at(id, told, i + 9).step) > 0);
        assert(state_at(id, told, i + 10).step is Receive);
    } else {
        let k = choose|k: int|
            i + 1 <= k < i + 10 && pending(#[trigger] state_at(id, told, k).step) == 0;
        if state_at(id, told, k).step is Stop {
            law_only_closing_stops(id, told, k);
        }
        assert(state_at(id, told, k).step is Receive);
    }
}

/// The events that a worker took, in their order.
pub open spec fn received<H>(told: Seq<Told<H>>) -> Seq<EventEnvelope>
    decreases told.len(),
{
    if told.len() == 0 {
        Seq::empty()
    } else {
        match told.last() {
            Told::Received(Some(envelope)) => received(told.drop_last()).push(envelope),
            _ => received(told.drop_last()),
        }
    }
}


/// `step` is work on `envelope`: the row that its connection is bound to is written as the event
/// says, in one of three attempts, or swapped if the event is an end, and then announced.
pub open spec fn is_work_on<H>(step: WorkerStep<H>, envelope: EventEnvelope) -> bool {
    match step {
        WorkerStep::Find(finding) => match finding.purpose {
            Purpose::Link { conversation_id } => envelope.payload
                matches AcpEvent::ConversationLinked { conversation_id: linked, .. } && linked
                == conversation_id,
            Purpose::Apply { effect, attempt } => is_attempt(finding, effect, attempt, envelope),
        },
        WorkerStep::Write(writing) => {
            &&& writing.connection_id == envelope.connection_id
            &&& row_effect(envelope.payload) == Some(writing.effect)
            &&& 1 <= writing.attempt <= 3
            &&& writing.planned.write == row_write(
                writing.effect,
                written_row(writing.planned.write),
            )
        },
        WorkerStep::Pause(pausing) => pausing.resume.purpose matches Purpose::Apply {
            effect,
            attempt,
        } && is_attempt(pausing.resume, effect, attempt, envelope),
        WorkerStep::Swap(_) => terminal(envelope.payload),
        WorkerStep::Emit(out) => out.event is ConversationStatusChanged && (terminal(
            envelope.payload,
        ) || envelope.payload is TurnComplete),
        WorkerStep::Receive => false,
        WorkerStep::Stop => false,
    }
}

/// `finding` looks up the connection of `envelope` for what the event does to the row.
pub open spec fn is_attempt(
    finding: Finding,
    effect: RowEffect,
    attempt: u64,
    envelope: EventEnvelope,
) -> bool {
    &&& finding.connection_id == envelope.connection_id
    &&& row_effect(envelope.payload) == Some(effect)
    &&& 1 <= attempt <= 3
}

/// The row that `write` goes to.
pub open spec fn written_row(write: RowWrite) -> i32 {
    match write {
        RowWrite::ExternalId { conversation_id, .. } => conversation_id,
        RowWrite::Status { conversation_id, .. } => conversation_id,
    }
}

/// Events take effect one after the other, in the order in which they were taken: whatever a
/// worker does is work on the event that it took last, and it takes the next one only when
/// nothing of that work is left.
pub proof fn law_events_take_effect_in_order<H>(id: String, told: Seq<Told<H>>, i: int)
    requires
        is_run(id, told),
        0 <= i <= told.len(),
    ensures
        received(told.take(i)).is_prefix_of(received(told)),
        ({
            let step = state_at(id, told, i).step;
            let events = received(told.take(i));
            step is Receive || step is Stop || events.len() > 0 && is_work_on(step, events.last())
        }),
        i < told.len() && told[i] is Received ==> state_at(id, told, i).step is Receive,
    decreases i,
{
    lemma_received_prefix(told, i);
    if i < told.len() {
        lemma_next(id, told, i);
    }
    if i > 0 {
        law_events_take_effect_in_order(id, told, i - 1);
        lemma_next(id, told, i - 1);
        assert(told.take(i).drop_last() == told.take(i - 1));
    }
}

proof fn lemma_received_prefix<H>(told: Seq<Told<H>>, i: int)
    requires
        0 <= i <= told.len(),
    ensures
        received(told.take(i)).is_prefix_of(received(told)),
    decreases told.len(),
{
    if i == told.len() {
        assert(told.take(i) == told);
    } else {
        lemma_received_prefix(told.drop_last(), i);
        assert(told.drop_last().take(i) == told.take(i));
    }
}

/// The worker is told that its connection ends.
pub open spec fn is_end<H>(told: Told<H>) -> bool {
    told matches Told::Received(Some(envelope)) && terminal(envelope.payload)
}

/// The worker in `state` is told that the connection that was bound to a row was found; `entry`
/// is what there is to keep of it.
pub open spec fn is_link<H>(state: WorkerState<H>, told: Told<H>, entry: CachedConn<H>) -> bool {
    &&& state.step matches WorkerStep::Find(finding) && finding.purpose == (Purpose::Link {
        conversation_id: entry.conversation_id,
    })
    &&& told matches Told::Found(Some(live)) && live.handle == entry.handle
}

proof fn lemma_linking_is_unlinked<H>(id: String, told: Seq<Told<H>>, i: int)
    requires
        is_run(id, told),
        0 <= i <= told.len(),
        state_at(id, told, i).step matches WorkerStep::Find(finding) && finding.purpose is Link,
    ensures
        !state_at(id, told, i).worker.linked(),
{
    if i > 0 {
        law_events_take_effect_in_order(id, told, i - 1);
        lemma_next(id, told, i - 1);
    }
}

/// From the moment a connection that was bound to a row is found until the connection ends, the
/// worker keeps that row and that handle, whatever else comes, succeeds or fails; and the end
/// asks for the swap on that row, without looking the connection up.
pub proof fn law_link_is_kept_until_the_end<H>(
    id: String,
    told: Seq<Told<H>>,
    i: int,
    j: int,
    entry: CachedConn<H>,
)
    requires
        is_run(id, told),
        0 <= i < j <= told.len(),
        is_link(state_at(id, told, i), told[i], entry),
        forall|k: int| i < k < j ==> !is_end(#[trigger] told[k]),
    ensures
        state_at(id, told, j).worker.linked(),
        state_at(id, told, j).worker.cache[id@] == entry,
        j < told.len() && is_end(told[j]) ==> state_at(id, told, j + 1).step == WorkerStep::Swap(
            Cancelling { entry },
        ),
    decreases j,
{
    lemma_same_connection(id, told, j);
    lemma_next(id, told, j - 1);
    if j == i + 1 {
        lemma_linking_is_unlinked(id, told, i);
        lemma_same_connection(id, told, i);
    } else {
        law_link_is_kept_until_the_end(id, told, i, j - 1, entry);
        lemma_same_connection(id, told, j - 1);
        assert(!is_end(told[j - 1]));
    }
    if j < told.len() && is_end(told[j]) {
        lemma_next(id, told, j);
    }
}

/// What a worker keeps, it kept before and goes on keeping, or it was just found.
proof fn lemma_kept<H>(state: WorkerState<H>, told: Told<H>)
    requires
        answers(state.step, told),
        next_state(state, told).worker.linked(),
    ensures
        ({
            let id = state.worker.connection_id@;
            let entry = next_state(state, told).worker.cache[id];
            if state.worker.linked() {
                state.worker.cache[id] == entry && !is_end(told)
            } else {
                is_link(state, told, entry)
            }
        }),
{
}

/// What a worker keeps, it keeps since a connection that was bound to a row was found, after
/// which the connection has not ended. Gives where that was.
pub proof fn law_kept_since_its_link<H>(id: String, told: Seq<Told<H>>, j: int) -> (i: int)
    requires
        is_run(id, told),
        0 <= j <= told.len(),
        state_at(id, told, j).worker.linked(),
    ensures
        0 <= i < j,
        is_link(state_at(id, told, i), told[i], state_at(id, told, j).worker.cache[id@]),
        forall|k: int| i < k < j ==> !is_end(#[trigger] told[k]),
    decreases j,
{
    lemma_same_connection(id, told, j);
    if j == 0 {
        assert(told.take(0) == Seq::<Told<H>>::empty());
        0
    } else {
        lemma_same_connection(id, told, j - 1);
        lemma_next(id, told, j - 1);
        lemma_kept(state_at(id, told, j - 1), told[j - 1]);
        if state_at(id, told, j - 1).worker.linked() {
            law_kept_since_its_link(id, told, j - 1)
        } else {
            j - 1
        }
    }
}

/// A swap is tried for an end and for nothing else, right when the end is taken, and whatever
/// comes of it, it is not tried again: the worker has let go of the connection and goes on with
/// the next event, after sending the cancellation out if the row took it on.
pub proof fn law_swap_is_tried_once<H>(id: String, told: Seq<Told<H>>, i: int)
    requires
        is_run(id, told),
        0 <= i <= told.len(),
        state_at(id, told, i).step is Swap,
    ensures
        i > 0,
        is_end(told[i - 1]),
        !state_at(id, told, i).worker.linked(),
        i < told.len() ==> (state_at(id, told, i + 1).step is Receive || state_at(
            id,
            told,
            i + 1,
        ).step is Emit && told[i] == Told::<H>::Swapped(Ok(true))),
{
    if i > 0 {
        lemma_next(id, told, i - 1);
        lemma_same_connection(id, told, i - 1);
    }
    if i < told.len() {
        lemma_next(id, told, i);
    }
}

/// Between two swaps the connection was bound to a row and found anew, so that however often it
/// ends after it was found, a swap is tried once. Gives where it was found.
pub proof fn law_one_swap_per_link<H>(id: String, told: Seq<Told<H>>, i: int, j: int) -> (k: int)
    requires
        is_run(id, told),
        0 <= i < j <= told.len(),
        state_at(id, told, i).step is Swap,
        state_at(id, told, j).step is Swap,
    ensures
        i < k < j,
        exists|entry: CachedConn<H>| is_link(state_at(id, told, k), told[k], entry),
{
    law_swap_is_tried_once(id, told, i);
    law_swap_is_tried_once(id, told, j);
    lemma_next(id, told, j - 1);
    let k = law_kept_since_its_link(id, told, j - 1);
    assert(is_end(told[i - 1]));
    assert(is_link(
        state_at(id, told, k),
        told[k],
        state_at(id, told, j - 1).worker.cache[id@],
    ));
    k
}

/// `row` after what the worker in `state` is told: it has changed only if the write was made or
/// the swap did not fail.
pub open spec fn row_after_told<H>(row: Row, state: WorkerState<H>, told: Told<H>) -> Row {
    match (state.step, told) {
        (WorkerStep::Write(writing), Told::Written(true)) => after_write(
            row,
            writing.planned.write,
        ),
        (WorkerStep::Swap(cancelling), Told::Swapped(Ok(_))) => after_swap(
            row,
            cancel_swap(cancelling.entry.conversation_id),
        ),
        _ => row,
    }
}

/// What is `row` before the run, before the worker is told `told[i]`.
pub open spec fn row_at<H>(row: Row, id: String, told: Seq<Told<H>>, i: int) -> Row
    decreases i,
{
    if i <= 0 {
        row
    } else {
        row_after_told(row_at(row, id, told, i - 1), state_at(id, told, i - 1), told[i - 1])
    }
}

/// Whatever is found, made or fails, an event does to a row what it says, once, or nothing; and
/// as long as it is not done it has done nothing.
pub proof fn law_event_takes_effect_once_or_not<H>(
    row: Row,
    id: String,
    told: Seq<Told<H>>,
    i: int,
    j: int,
    envelope: EventEnvelope,
)
    requires
        is_run(id, told),
        0 <= i < j <= told.len(),
        told[i] == Told::<H>::Received(Some(envelope)),
        forall|k: int| i < k < j ==> (#[trigger] told[k]) !is Received,
    ensures
        row_at(row, id, told, j) == row_at(row, id, told, i) || row_at(row, id, told, j)
            == row_after(row_at(row, id, told, i), envelope.payload),
        row_at(row, id, told, j) != row_at(row, id, told, i) ==> state_at(id, told, j).step is Emit
            || state_at(id, told, j).step is Receive,
    decreases j,
{
    lemma_next(id, told, j - 1);
    if j > i + 1 {
        law_event_takes_effect_once_or_not(row, id, told, i, j - 1, envelope);
        law_events_take_effect_in_order(id, told, j - 1);
        lemma_last_received(told, i, j - 1, envelope);
        assert(told[j - 1] !is Received);
    }
}

proof fn lemma_last_received<H>(told: Seq<Told<H>>, i: int, j: int, envelope: EventEnvelope)
    requires
        0 <= i < j <= told.len(),
        told[i] == Told::<H>::Received(Some(envelope)),
        forall|k: int| i < k < j ==> (#[trigger] told[k]) !is Received,
    ensures
        received(told.take(j)) == received(told.take(i)).push(envelope),
    decreases j,
{
    assert(told.take(j).drop_last() == told.take(j - 1));
    assert(told.take(j).last() == told[j - 1]);
    if j > i + 1 {
        lemma_last_received(told, i, j - 1, envelope);
    }
}

/// What a worker is told is a success for the row `id`: a connection that is looked up is there
/// and bound to the row, a write is made, a swap does not fail.
pub open spec fn succeeds<H>(told: Told<H>, id: i32) -> bool {
    match told {
        Told::Found(found) => found matches Some(live) && live.conversation_id == Some(id),
        Told::Written(made) => made,
        Told::Swapped(outcome) => outcome is Ok,
        _ => true,
    }
}

/// The worker keeps its connection as bound to the row `id`.
pub open spec fn keeps_row<H>(worker: WorkerView<H>, id: i32) -> bool {
    worker.linked() && worker.cache[worker.connection_id@].conversation_id == id
}

/// If `told[i]` is an end, it finds what `row` needs of it: the worker keeps the connection as
/// bound to the row, or the row is past being in progress.
pub open spec fn end_bears_on<H>(row: Row, id: String, told: Seq<Told<H>>, i: int) -> bool {
    is_end(told[i]) ==> keeps_row(state_at(id, told, i).worker, row.id) || row_at(
        row,
        id,
        told,
        i,
    ).status != ConversationStatus::InProgress
}

proof fn lemma_same_row<H>(row: Row, id: String, told: Seq<Told<H>>, i: int)
    requires
        0 <= i,
    ensures
        row_at(row, id, told, i).id == row.id,
    decreases i,
{
    if i > 0 {
        lemma_same_row(row, id, told, i - 1);
    }
}

/// How far `envelope`, taken with the row as `before`, has come where the worker needs `step` and
/// the row is `now`: it has taken effect, or it is about to, on the right row.
spec fn on_its_way<H>(before: Row, now: Row, step: WorkerStep<H>, envelope: EventEnvelope) -> bool {
    match step {
        WorkerStep::Receive => now == row_after(before, envelope.payload),
        WorkerStep::Emit(_) => now == row_after(before, envelope.payload),
        WorkerStep::Find(_) => now == before,
        WorkerStep::Write(writing) => now == before && written_row(writing.planned.write)
            == before.id,
        WorkerStep::Swap(cancelling) => now == before && (cancelling.entry.conversation_id
            == before.id || before.status != ConversationStatus::InProgress),
        _ => false,
    }
}

proof fn lemma_on_its_way<H>(
    row: Row,
    id: String,
    told: Seq<Told<H>>,
    i: int,
    j: int,
    envelope: EventEnvelope,
)
    requires
        is_run(id, told),
        0 <= i < j <= told.len(),
        told[i] == Told::<H>::Received(Some(envelope)),
        forall|k: int| i < k < j ==> (#[trigger] told[k]) !is Received,
        forall|k: int| i < k < j ==> succeeds(#[trigger] told[k], row.id),
        end_bears_on(row, id, told, i),
    ensures
        on_its_way(
            row_at(row, id, told, i),
            row_at(row, id, told, j),
            state_at(id, told, j).step,
            envelope,
        ),
    decreases j,
{
    lemma_same_row(row, id, told, i);
    lemma_next(id, told, j - 1);
    if j > i + 1 {
        lemma_on_its_way(row, id, told, i, j - 1, envelope);
        law_events_take_effect_in_order(id, told, j - 1);
        lemma_last_received(told, i, j - 1, envelope);
        assert(told[j - 1] !is Received);
        assert(succeeds(told[j - 1], row.id));
    }
}

/// An event takes effect on the row that its connection is bound to, if nothing fails: by the
/// time the worker takes the next event, the row is what the event makes of it. For an end the
/// connection has to be kept as bound to the row, unless the row is past being in progress.
pub proof fn law_event_takes_effect<H>(
    row: Row,
    id: String,
    told: Seq<Told<H>>,
    i: int,
    j: int,
    envelope: EventEnvelope,
)
    requires
        is_run(id, told),
        0 <= i < j <= told.len(),
        told[i] == Told::<H>::Received(Some(envelope)),
        state_at(id, told, j).step is Receive,
        forall|k: int| i < k < j ==> (#[trigger] told[k]) !is Received,
        forall|k: int| i < k < j ==> succeeds(#[trigger] told[k], row.id),
        end_bears_on(row, id, told, i),
    ensures
        row_at(row, id, told, j) == row_after(row_at(row, id, told, i), envelope.payload),
{
    lemma_on_its_way(row, id, told, i, j, envelope);
}

/// Where a worker last took something out of its mailbox.
proof fn lemma_last_taken<H>(id: String, told: Seq<Told<H>>, j: int) -> (i: int)
    requires
        is_run(id, told),
        0 < j <= told.len(),
    ensures
        0 <= i < j,
        told[i] is Received,
        forall|k: int| i < k < j ==> (#[trigger] told[k]) !is Received,
    decreases j,
{
    if told[j - 1] is Received {
        j - 1
    } else {
        lemma_next(id, told, j - 1);
        if j == 1 {
            assert(told.take(0) == Seq::<Told<H>>::empty());
            0
        } else {
            lemma_last_taken(id, told, j - 1)
        }
    }
}

/// A run in which nothing fails leaves the row as all the events that the worker took make it,
/// one after the other.
pub proof fn law_run_makes_the_row<H>(row: Row, id: String, told: Seq<Told<H>>, j: int)
    requires
        is_run(id, told),
        0 <= j <= told.len(),
        state_at(id, told, j).step is Receive,
        forall|k: int| 0 <= k < j ==> succeeds(#[trigger] told[k], row.id),
        forall|k: int| 0 <= k < j ==> #[trigger] end_bears_on(row, id, told, k),
    ensures
        row_at(row, id, told, j) == row_after_all(row, payloads(received(told.take(j)))),
    decreases j,
{
    if j == 0 {
        assert(told.take(0) == Seq::<Told<H>>::empty());
        assert(payloads(received(told.take(0))) =~= Seq::empty());
    } else {
        let i = lemma_last_taken(id, told, j);
        lemma_next(id, told, i);
        match told[i] {
            Told::Received(Some(envelope)) => {
                law_run_makes_the_row(row, id, told, i);
                assert(end_bears_on(row, id, told, i));
                law_event_takes_effect(row, id, told, i, j, envelope);
                lemma_last_received(told, i, j, envelope);
                let before = payloads(received(told.take(i)));
                let after = payloads(received(told.take(j)));
                assert(after =~= before.push(envelope.payload));
                assert(after.drop_last() =~= before);
            },
            _ => {
                law_only_closing_stops(id, told, i + 1);
            },
        }
    }
}

/// From the bus to the row: where one worker took all that the dispatcher handed over for its
/// connection, and nothing failed, the row is as all the events of the connection make it, in
/// the order in which they came off the bus.
pub proof fn law_events_of_the_bus_make_the_row<H>(
    row: Row,
    id: String,
    events: Seq<EventEnvelope>,
    told: Seq<Told<H>>,
)
    requires
        is_run(id, told),
        state_after(id, told).step is Receive,
        received(told) == handed_to(run(events).handed, id@),
        forall|k: int| 0 <= k < told.len() ==> succeeds(#[trigger] told[k], row.id),
        forall|k: int| 0 <= k < told.len() ==> #[trigger] end_bears_on(row, id, told, k),
    ensures
        row_at(row, id, told, told.len() as int) == row_after_all(
            row,
            payloads(events_of(events, id@)),
        ),
{
    assert(told.take(told.len() as int) == told);
    law_run_makes_the_row(row, id, told, told.len() as int);
    law_dispatch_keeps_rows(row, events, id@);
}

/// A turn that ended decides the status of the row, if its own lookup and write succeed, whatever
/// failed before it.
pub proof fn law_turn_lands_in_a_run<H>(
    row: Row,
    id: String,
    told: Seq<Told<H>>,
    i: int,
    j: int,
    envelope: EventEnvelope,
)
    requires
        is_run(id, told),
        0 <= i < j <= told.len(),
        told[i] == Told::<H>::Received(Some(envelope)),
        envelope.payload is TurnComplete,
        turn_status(envelope.payload->stop_reason@) is Some,
        state_at(id, told, j).step is Receive,
        forall|k: int| i < k < j ==> (#[trigger] told[k]) !is Received,
        forall|k: int| i < k < j ==> succeeds(#[trigger] told[k], row.id),
    ensures
        row_at(row, id, told, j).status == turn_status(envelope.payload->stop_reason@)->0,
{
    lemma_same_row(row, id, told, i);
    law_event_takes_effect(row, id, told, i, j, envelope);
}

/// A row past being in progress stays as it is, from when a worker takes the next event on, as
/// long as it takes nothing but ends of its connection.
pub proof fn law_settled_row_survives_in_a_run<H>(
    row: Row,
    id: String,
    told: Seq<Told<H>>,
    i: int,
    j: int,
)
    requires
        is_run(id, told),
        0 <= i <= j <= told.len(),
        state_at(id, told, i).step is Receive,
        row_at(row, id, told, i).status != ConversationStatus::InProgress,
        forall|k: int|
            i <= k < j ==> (#[trigger] told[k] matches Told::Received(Some(_)) ==> is_end(told[k])),
    ensures
        row_at(row, id, told, j) == row_at(row, id, told, i),
        state_at(id, told, j).step !is Write,
        state_at(id, told, j).step !is Find,
        state_at(id, told, j).step !is Pause,
    decreases j,
{
    if j > i {
        law_settled_row_survives_in_a_run(row, id, told, i, j - 1);
        lemma_next(id, told, j - 1);
        assert(told[j - 1] matches Told::Received(Some(_)) ==> is_end(told[j - 1]));
    }
}

} // verus!
