//! The dispatcher: it takes events off the bus and hands those that matter to the worker of their
//! connection, in the order in which they came.

use crate::lifecycle::events::{
    is_lifecycle_relevant, is_terminal, lifecycle_relevant, terminal, EventEnvelope,
};
use vstd::hash_map::StringHashMap;
use vstd::prelude::*;

verus! {

/// How many events wait for a worker before the dispatcher has to wait itself.
pub const WORKER_QUEUE_CAPACITY: usize = 64;

/// What comes off the bus.
#[derive(Debug)]
pub enum BusReceipt {
    Event(EventEnvelope),
    /// So many events were lost, because the bus ran full.
    Lagged(u64),
    /// There will be no more events.
    Closed,
}

/// What came of putting an event into a worker's mailbox without waiting.
#[derive(Clone, Copy, Debug, PartialEq, Eq, Structural)]
pub enum TrySend {
    Sent,
    Full,
    /// The worker is gone.
    Closed,
}

/// An event on its way to the worker of its connection.
#[derive(Debug)]
pub struct Delivery {
    pub envelope: EventEnvelope,
}

/// What the dispatcher needs next.
#[derive(Debug)]
pub enum DispatchStep {
    /// The next receipt off the bus.
    Receive,
    /// A worker for the connection, with a mailbox of [`WORKER_QUEUE_CAPACITY`] events.
    Spawn(Delivery),
    /// The event put into the worker's mailbox, if there is room.
    TrySend(Delivery),
    /// The event put into the worker's mailbox, however long that takes.
    Wait(Delivery),
    /// So many lost events noted; after that, the next receipt.
    CountLagged(u64),
    /// Nothing more.
    Stop,
}

/// What a step adds to the counters of the bus.
#[derive(Clone, Copy, Debug, PartialEq, Eq, Structural)]
pub struct Counts {
    /// To the mailboxes that were found full.
    pub queue_full: u64,
    /// To the events that were lost.
    pub lagged: u64,
}

/// What `step` adds to the counters.
pub open spec fn counts_of(step: DispatchStep) -> Counts {
    match step {
        DispatchStep::Wait(_) => Counts { queue_full: 1, lagged: 0 },
        DispatchStep::CountLagged(skipped) => Counts { queue_full: 0, lagged: skipped },
        _ => Counts { queue_full: 0, lagged: 0 },
    }
}

impl DispatchStep {
    /// What this step adds to the counters.
    pub fn counts(&self) -> (r: Counts)
        ensures
            r == counts_of(*self),
    {
        match self {
            DispatchStep::Wait(_) => Counts { queue_full: 1, lagged: 0 },
            DispatchStep::CountLagged(skipped) => Counts { queue_full: 0, lagged: *skipped },
            _ => Counts { queue_full: 0, lagged: 0 },
        }
    }
}

/// The dispatcher, with the mailboxes of the workers that are running.
#[verifier::reject_recursive_types(S)]
pub struct Dispatcher<S> {
    workers: StringHashMap<S>,
}

impl<S> View for Dispatcher<S> {
    type V = Map<Seq<char>, S>;

    closed spec fn view(&self) -> Map<Seq<char>, S> {
        self.workers@
    }
}

/// What the dispatcher needs once it has taken `receipt` off the bus.
pub open spec fn receipt_step<S>(workers: Map<Seq<char>, S>, receipt: BusReceipt) -> DispatchStep {
    match receipt {
        BusReceipt::Event(envelope) => if !lifecycle_relevant(envelope.payload) {
            DispatchStep::Receive
        } else if workers.contains_key(envelope.connection_id@) {
            DispatchStep::TrySend(Delivery { envelope })
        } else {
            DispatchStep::Spawn(Delivery { envelope })
        },
        BusReceipt::Lagged(skipped) => DispatchStep::CountLagged(skipped),
        BusReceipt::Closed => DispatchStep::Stop,
    }
}

/// The workers that are left once an event was handed over, or could not be because the worker
/// is gone. After the last event of a connection its worker is let go.
pub open spec fn workers_after<S>(
    workers: Map<Seq<char>, S>,
    envelope: EventEnvelope,
    delivered: bool,
) -> Map<Seq<char>, S> {
    if !delivered || terminal(envelope.payload) {
        workers.remove(envelope.connection_id@)
    } else {
        workers
    }
}

/// The workers that are left once `receipt` was taken off the bus: none when it is closed.
pub open spec fn workers_after_receipt<S>(
    workers: Map<Seq<char>, S>,
    receipt: BusReceipt,
) -> Map<Seq<char>, S> {
    if receipt is Closed {
        Map::empty()
    } else {
        workers
    }
}

/// What the dispatcher needs once a worker was started for a delivery.
pub open spec fn spawned_step(delivery: Delivery) -> DispatchStep {
    DispatchStep::TrySend(delivery)
}

/// The workers that there are once one was started for a delivery.
pub open spec fn workers_after_spawn<S>(
    workers: Map<Seq<char>, S>,
    delivery: Delivery,
    mailbox: S,
) -> Map<Seq<char>, S> {
    workers.insert(delivery.envelope.connection_id@, mailbox)
}

/// What the dispatcher needs once it has tried to put an event into a mailbox.
pub open spec fn tried_step(delivery: Delivery, outcome: TrySend) -> DispatchStep {
    if outcome == TrySend::Full {
        DispatchStep::Wait(delivery)
    } else {
        DispatchStep::Receive
    }
}

/// The workers that are left once it was tried to put an event into a mailbox.
pub open spec fn workers_after_try<S>(
    workers: Map<Seq<char>, S>,
    envelope: EventEnvelope,
    outcome: TrySend,
) -> Map<Seq<char>, S> {
    if outcome == TrySend::Full {
        workers
    } else {
        workers_after(workers, envelope, outcome == TrySend::Sent)
    }
}

impl<S> Dispatcher<S> {
    /// A dispatcher without workers.
    pub fn new() -> (r: Self)
        ensures
            r@ == Map::<Seq<char>, S>::empty(),
    {
        Dispatcher { workers: StringHashMap::new() }
    }

    /// Takes a receipt off the bus. When the bus is closed, all mailboxes are let go.
    pub fn receive(&mut self, receipt: BusReceipt) -> (r: DispatchStep)
        ensures
            r == receipt_step(old(self)@, receipt),
            final(self)@ == workers_after_receipt(old(self)@, receipt),
    {
        match receipt {
            BusReceipt::Event(envelope) => {
                if !is_lifecycle_relevant(&envelope.payload) {
                    DispatchStep::Receive
                } else if self.workers.contains_key(envelope.connection_id.as_str()) {
                    DispatchStep::TrySend(Delivery { envelope })
                } else {
                    DispatchStep::Spawn(Delivery { envelope })
                }
            },
            BusReceipt::Lagged(skipped) => DispatchStep::CountLagged(skipped),
            BusReceipt::Closed => {
                self.workers.clear();
                DispatchStep::Stop
            },
        }
    }

    /// Notes the mailbox of the worker that was started for the delivery.
    pub fn spawned(&mut self, delivery: Delivery, mailbox: S) -> (r: DispatchStep)
        ensures
            r == spawned_step(delivery),
            final(self)@ == workers_after_spawn(old(self)@, delivery, mailbox),
    {
        self.workers.insert(delivery.envelope.connection_id.clone(), mailbox);
        DispatchStep::TrySend(delivery)
    }

    /// The mailbox of the worker that the delivery goes to.
    pub fn mailbox(&self, delivery: &Delivery) -> (r: Option<&S>)
        ensures
            match r {
                Some(mailbox) => self@.contains_key(delivery.envelope.connection_id@) && *mailbox
                    == self@[delivery.envelope.connection_id@],
                None => !self@.contains_key(delivery.envelope.connection_id@),
            },
    {
        self.workers.get(delivery.envelope.connection_id.as_str())
    }

    /// Goes on after a try to put the event into the mailbox.
    pub fn tried(&mut self, delivery: Delivery, outcome: TrySend) -> (r: DispatchStep)
        ensures
            r == tried_step(delivery, outcome),
            final(self)@ == workers_after_try(old(self)@, delivery.envelope, outcome),
    {
        match outcome {
            TrySend::Full => DispatchStep::Wait(delivery),
            TrySend::Sent => self.waited(delivery, true),
            TrySend::Closed => self.waited(delivery, false),
        }
    }

    /// Goes on after the event was put into the mailbox, or was not because the worker is gone.
    pub fn waited(&mut self, delivery: Delivery, delivered: bool) -> (r: DispatchStep)
        ensures
            r is Receive,
            final(self)@ == workers_after(old(self)@, delivery.envelope, delivered),
    {
        if !delivered || is_terminal(&delivery.envelope.payload) {
            self.workers.remove(delivery.envelope.connection_id.as_str());
        }
        DispatchStep::Receive
    }
}

/// An event that was handed to a worker, and whether the worker was started for it.
pub struct Handed {
    pub envelope: EventEnvelope,
    pub spawned: bool,
}

/// The dispatcher after some events: the connections that have a worker, and what was handed
/// over so far.
pub struct Run {
    pub live: Set<Seq<char>>,
    pub handed: Seq<Handed>,
}

/// One more event, its worker being there to take it.
pub open spec fn run_step(run: Run, envelope: EventEnvelope) -> Run {
    let id = envelope.connection_id@;
    if !lifecycle_relevant(envelope.payload) {
        run
    } else {
        Run {
            live: if terminal(envelope.payload) {
                run.live.remove(id)
            } else {
                run.live.insert(id)
            },
            handed: run.handed.push(Handed { envelope, spawned: !run.live.contains(id) }),
        }
    }
}

/// A dispatcher without workers after the events `events`, every worker having taken what was
/// handed to it.
pub open spec fn run(events: Seq<EventEnvelope>) -> Run
    decreases events.len(),
{
    if events.len() == 0 {
        Run { live: Set::empty(), handed: Seq::empty() }
    } else {
        run_step(run(events.drop_last()), events.last())
    }
}

/// The dispatcher's steps for one event come to one step of a run: the event is handed over if
/// and only if it is relevant, a worker is started if and only if the connection has none, and
/// the connections with a worker afterwards are those of the run.
pub proof fn law_steps_make_a_run<S>(
    workers: Map<Seq<char>, S>,
    envelope: EventEnvelope,
    mailbox: S,
    before: Run,
)
    requires
        before.live == workers.dom(),
    ensures
        ({
            let after = run_step(before, envelope);
            let step = receipt_step(workers, BusReceipt::Event(envelope));
            match step {
                DispatchStep::Receive => after == before,
                DispatchStep::TrySend(delivery) => delivery.envelope == envelope && after.live
                    == workers_after(workers, envelope, true).dom() && after.handed
                    == before.handed.push(Handed { envelope, spawned: false }),
                DispatchStep::Spawn(delivery) => delivery.envelope == envelope && after.live
                    == workers_after(
                    workers.insert(envelope.connection_id@, mailbox),
                    envelope,
                    true,
                ).dom() && after.handed == before.handed.push(
                    Handed { envelope, spawned: true },
                ),
                _ => false,
            }
        }),
{
    let id = envelope.connection_id@;
    assert(workers.dom().insert(id).remove(id) =~= workers.dom().remove(id));
    if workers.contains_key(id) {
        assert(workers.dom().insert(id) =~= workers.dom());
    }
    assert(workers.insert(id, mailbox).dom() =~= workers.dom().insert(id));
    assert(workers.insert(id, mailbox).remove(id).dom() =~= workers.dom().remove(id));
    assert(workers.remove(id).dom() =~= workers.dom().remove(id));
}

/// The relevant events of a sequence, in their order.
pub open spec fn relevant_events(events: Seq<EventEnvelope>) -> Seq<EventEnvelope> {
    events.filter(|e: EventEnvelope| lifecycle_relevant(e.payload))
}

/// The relevant events of one connection, in their order.
pub open spec fn relevant_events_of(events: Seq<EventEnvelope>, id: Seq<char>) -> Seq<
    EventEnvelope,
> {
    events.filter(|e: EventEnvelope| lifecycle_relevant(e.payload) && e.connection_id@ == id)
}

/// What was handed over, without the note on the workers.
pub open spec fn envelopes(handed: Seq<Handed>) -> Seq<EventEnvelope> {
    handed.map_values(|h: Handed| h.envelope)
}

/// What was handed to the workers of one connection.
pub open spec fn handed_to(handed: Seq<Handed>, id: Seq<char>) -> Seq<EventEnvelope> {
    envelopes(handed).filter(|e: EventEnvelope| e.connection_id@ == id)
}

/// Nothing relevant is lost, nothing else is handed over, and the order is kept, however long
/// the sequence of events is.
pub proof fn law_every_relevant_event_is_handed_over(events: Seq<EventEnvelope>)
    ensures
        envelopes(run(events).handed) == relevant_events(events),
    decreases events.len(),
{
    reveal(Seq::filter);
    if events.len() == 0 {
        assert(envelopes(run(events).handed) =~= relevant_events(events));
    } else {
        law_every_relevant_event_is_handed_over(events.drop_last());
        let before = run(events.drop_last());
        if lifecycle_relevant(events.last().payload) {
            assert(envelopes(run(events).handed) =~= envelopes(before.handed).push(events.last()));
        }
    }
}

/// The workers of a connection are handed the relevant events of that connection, in their
/// order, and no others.
pub proof fn law_each_connection_in_order(events: Seq<EventEnvelope>, id: Seq<char>)
    ensures
        handed_to(run(events).handed, id) == relevant_events_of(events, id),
    decreases events.len(),
{
    reveal(Seq::filter);
    if events.len() == 0 {
        assert(envelopes(run(events).handed) =~= Seq::empty());
        assert(handed_to(run(events).handed, id) =~= relevant_events_of(events, id));
    } else {
        law_each_connection_in_order(events.drop_last(), id);
        let before = run(events.drop_last());
        if lifecycle_relevant(events.last().payload) {
            let all = envelopes(run(events).handed);
            assert(all =~= envelopes(before.handed).push(events.last()));
            assert(all.drop_last() =~= envelopes(before.handed));
        }
    }
}

/// A connection has a worker from its first relevant event on until its end.
pub proof fn law_worker_lives_until_the_end(events: Seq<EventEnvelope>, id: Seq<char>)
    ensures
        run(events).live.contains(id) <==> relevant_events_of(events, id).len() > 0 && !terminal(
            relevant_events_of(events, id).last().payload,
        ),
    decreases events.len(),
{
    reveal(Seq::filter);
    if events.len() > 0 {
        law_worker_lives_until_the_end(events.drop_last(), id);
    }
}

} // verus!
