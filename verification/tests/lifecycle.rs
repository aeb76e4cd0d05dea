//! The lifecycle driven against rows in memory.

use codeg_core::lifecycle::dispatcher::{
    BusReceipt, Counts, DispatchStep, Dispatcher, TrySend, WORKER_QUEUE_CAPACITY,
};
use codeg_core::lifecycle::events::{
    is_lifecycle_relevant, is_terminal, AcpEvent, ConnectionStatus, ConversationStatus,
    EventEnvelope,
};
use codeg_core::lifecycle::handler::{
    announce, handle_event, handle_event_with_retry, plan_write, turn_target, LiveConn, LogLevel,
    RowEffect, RowWrite,
};
use codeg_core::lifecycle::worker::{
    handle_terminal_event, try_cache_link, CachedConn, Finding, Purpose, StatusSwap, Worker,
    WorkerStep,
};
use codeg_core::table::Table;
use std::cell::RefCell;
use std::collections::{HashMap, VecDeque};
use std::rc::Rc;

struct ConversationRow {
    status: ConversationStatus,
    external_id: Option<String>,
}

/// Folders and conversation rows, as the database keeps them.
struct Db {
    folders: Vec<String>,
    rows: HashMap<i32, ConversationRow>,
    /// How many writes fail before they succeed again.
    failures: u32,
}

impl Db {
    fn fresh() -> Db {
        Db { folders: Vec::new(), rows: HashMap::new(), failures: 0 }
    }

    fn seed_folder(&mut self, path: &str) -> i32 {
        self.folders.push(path.to_string());
        self.folders.len() as i32
    }

    fn create(&mut self, folder_id: i32) -> i32 {
        assert!(folder_id >= 1);
        let id = self.rows.len() as i32 + 1;
        self.rows.insert(
            id,
            ConversationRow { status: ConversationStatus::InProgress, external_id: None },
        );
        id
    }

    fn status(&self, id: i32) -> ConversationStatus {
        self.rows[&id].status
    }

    fn external_id(&self, id: i32) -> Option<&str> {
        self.rows[&id].external_id.as_deref()
    }

    fn set_status(&mut self, id: i32, status: ConversationStatus) {
        self.rows.get_mut(&id).unwrap().status = status;
    }

    fn write(&mut self, write: &RowWrite) -> bool {
        if self.failures > 0 {
            self.failures -= 1;
            return false;
        }
        match write {
            RowWrite::ExternalId { conversation_id, external_id } => {
                self.rows.get_mut(conversation_id).unwrap().external_id = Some(external_id.clone());
            }
            RowWrite::Status { conversation_id, status } => {
                self.set_status(*conversation_id, *status);
            }
        }
        true
    }

    fn swap(&mut self, swap: StatusSwap) -> bool {
        if self.status(swap.conversation_id) != swap.expected {
            return false;
        }
        self.set_status(swap.conversation_id, swap.replacement);
        true
    }
}

/// The connections that are there, with the rows that they are bound to.
struct Manager {
    connections: HashMap<String, Option<i32>>,
}

impl Manager {
    fn new() -> Manager {
        Manager { connections: HashMap::new() }
    }

    fn with(id: &str, conversation_id: Option<i32>) -> Manager {
        let mut mgr = Manager::new();
        mgr.connections.insert(id.to_string(), conversation_id);
        mgr
    }

    /// The handle of a connection is its id here.
    fn find(&self, id: &str) -> Option<LiveConn<String>> {
        self.connections.get(id).map(|conversation_id| LiveConn {
            conversation_id: *conversation_id,
            handle: id.to_string(),
        })
    }
}

fn envelope(seq: u64, connection_id: &str, payload: AcpEvent) -> EventEnvelope {
    EventEnvelope { seq, connection_id: connection_id.to_string(), payload }
}

fn session_started(session_id: &str) -> AcpEvent {
    AcpEvent::SessionStarted { session_id: session_id.into() }
}

fn turn_complete(session_id: &str, stop_reason: &str, agent_type: &str) -> AcpEvent {
    AcpEvent::TurnComplete {
        session_id: session_id.into(),
        stop_reason: stop_reason.into(),
        agent_type: agent_type.into(),
    }
}

fn linked(conversation_id: i32) -> AcpEvent {
    AcpEvent::ConversationLinked { conversation_id, folder_id: 1 }
}

fn disconnected() -> AcpEvent {
    AcpEvent::StatusChanged { status: ConnectionStatus::Disconnected }
}

fn error() -> AcpEvent {
    AcpEvent::Error { message: "boom".into(), agent_type: "claude_code".into(), code: None }
}

fn content_delta(text: &str) -> AcpEvent {
    AcpEvent::ContentDelta { text: text.into() }
}

/// Handles one event once; what went out comes back.
fn handle(db: &mut Db, mgr: &Manager, env: &EventEnvelope) -> Option<AcpEvent> {
    let effect = handle_event(&env.payload)?;
    let planned = plan_write(&effect, mgr.find(&env.connection_id))?;
    assert!(db.write(&planned.write));
    announce(planned).map(|out| out.event)
}

/// Handles the end of a connection; what went out comes back.
fn handle_end(
    db: &mut Db,
    cache: &mut Table<CachedConn<String>>,
    connection_id: &str,
) -> Option<AcpEvent> {
    let cancelling = handle_terminal_event(cache, connection_id)?;
    let changed = db.swap(cancelling.swap());
    match cancelling.swapped(&Ok::<bool, String>(changed)) {
        WorkerStep::Emit(out) => Some(out.event),
        _ => None,
    }
}

fn seed_cache(
    cache: &mut Table<CachedConn<String>>,
    mgr: &Manager,
    connection_id: &str,
    conversation_id: i32,
) {
    let found = mgr.find(connection_id).map(|live| live.handle);
    try_cache_link(cache, connection_id, conversation_id, found);
}

/// What a worker did about one event.
struct Done {
    emitted: Vec<(String, AcpEvent)>,
    pauses: Vec<u64>,
    writes: u32,
    swaps: u32,
}

fn drive(worker: &mut Worker<String>, db: &mut Db, mgr: &Manager, env: &EventEnvelope) -> Done {
    let mut done = Done { emitted: Vec::new(), pauses: Vec::new(), writes: 0, swaps: 0 };
    let mut step = worker.receive(Some(env));
    loop {
        step = match step {
            WorkerStep::Receive => return done,
            WorkerStep::Find(finding) => {
                let found = mgr.find(&finding.connection_id);
                worker.found(finding, found)
            }
            WorkerStep::Write(writing) => {
                done.writes += 1;
                let made = db.write(&writing.planned.write);
                writing.written(made)
            }
            WorkerStep::Swap(cancelling) => {
                let outcome = if db.failures > 0 {
                    Err("locked".to_string())
                } else {
                    Ok(db.swap(cancelling.swap()))
                };
                done.swaps += 1;
                cancelling.swapped(&outcome)
            }
            WorkerStep::Pause(pausing) => {
                done.pauses.push(pausing.millis);
                pausing.paused()
            }
            WorkerStep::Emit(out) => {
                done.emitted.push((out.handle, out.event));
                WorkerStep::Receive
            }
            WorkerStep::Stop => panic!("there was an event"),
        };
    }
}

/// The mailbox of a worker, with the worker at its other end.
struct Mailbox {
    queue: VecDeque<EventEnvelope>,
    worker: Worker<String>,
    open: bool,
}

type SharedMailbox = Rc<RefCell<Mailbox>>;

/// A dispatcher with its workers, which run only when they are told to.
struct Bus {
    dispatcher: Dispatcher<SharedMailbox>,
    mailboxes: Vec<SharedMailbox>,
    queue_full: u64,
    lagged: u64,
    stopped: bool,
}

impl Bus {
    fn new() -> Bus {
        Bus {
            dispatcher: Dispatcher::new(),
            mailboxes: Vec::new(),
            queue_full: 0,
            lagged: 0,
            stopped: false,
        }
    }

    fn drain(&mut self, db: &mut Db, mgr: &Manager) {
        for mailbox in &self.mailboxes {
            let mut mailbox = mailbox.borrow_mut();
            while let Some(env) = mailbox.queue.pop_front() {
                drive(&mut mailbox.worker, db, mgr, &env);
            }
        }
    }

    fn send(&mut self, db: &mut Db, mgr: &Manager, receipt: BusReceipt) {
        let mut step = self.dispatcher.receive(receipt);
        loop {
            let counts = step.counts();
            self.queue_full += counts.queue_full;
            self.lagged += counts.lagged;
            step = match step {
                DispatchStep::Receive | DispatchStep::CountLagged(_) => return,
                DispatchStep::Stop => {
                    self.stopped = true;
                    return;
                }
                DispatchStep::Spawn(delivery) => {
                    let mailbox = Rc::new(RefCell::new(Mailbox {
                        queue: VecDeque::new(),
                        worker: Worker::new(delivery.envelope.connection_id.clone()),
                        open: true,
                    }));
                    self.mailboxes.push(Rc::clone(&mailbox));
                    self.dispatcher.spawned(delivery, mailbox)
                }
                DispatchStep::TrySend(delivery) => {
                    let mailbox = Rc::clone(self.dispatcher.mailbox(&delivery).unwrap());
                    let mut mailbox = mailbox.borrow_mut();
                    let outcome = if !mailbox.open {
                        TrySend::Closed
                    } else if mailbox.queue.len() >= WORKER_QUEUE_CAPACITY {
                        TrySend::Full
                    } else {
                        mailbox.queue.push_back(delivery.envelope.clone());
                        TrySend::Sent
                    };
                    self.dispatcher.tried(delivery, outcome)
                }
                DispatchStep::Wait(delivery) => {
                    self.drain(db, mgr);
                    let mailbox = Rc::clone(self.dispatcher.mailbox(&delivery).unwrap());
                    mailbox.borrow_mut().queue.push_back(delivery.envelope.clone());
                    self.dispatcher.waited(delivery, true)
                }
            };
        }
    }
}

#[test]
fn handle_event_writes_external_id_when_conversation_bound() {
    let mut db = Db::fresh();
    let folder_id = db.seed_folder("/tmp/test");
    let conv = db.create(folder_id);
    let mgr = Manager::with("c1", Some(conv));
    let env = envelope(1, "c1", session_started("ext-99"));
    assert!(handle(&mut db, &mgr, &env).is_none());
    assert_eq!(db.external_id(conv), Some("ext-99"));
}

#[test]
fn handle_event_is_noop_when_no_conversation_bound() {
    let mut db = Db::fresh();
    let folder_id = db.seed_folder("/tmp/test-noop");
    let sentinel = db.create(folder_id);
    let mgr = Manager::with("c1", None);
    let env = envelope(1, "c1", session_started("should-not-write"));
    assert!(handle(&mut db, &mgr, &env).is_none());
    assert!(db.external_id(sentinel).is_none(), "sentinel row should be untouched");
}

#[test]
fn handle_event_writes_pending_review_on_turn_complete() {
    let mut db = Db::fresh();
    let folder_id = db.seed_folder("/tmp/turn-complete");
    let conv = db.create(folder_id);
    assert_eq!(db.status(conv), ConversationStatus::InProgress);
    let mgr = Manager::with("c1", Some(conv));
    let env = envelope(1, "c1", turn_complete("ext-1", "end_turn", "claude_code"));
    let out = handle(&mut db, &mgr, &env);
    assert_eq!(db.status(conv), ConversationStatus::PendingReview);
    assert!(matches!(
        out,
        Some(AcpEvent::ConversationStatusChanged {
            conversation_id,
            status: ConversationStatus::PendingReview,
        }) if conversation_id == conv
    ));
}

#[test]
fn handle_event_writes_cancelled_on_turn_failure_stop_reasons() {
    let cases = ["refusal", "max_tokens", "max_turn_requests", "unknown", "empty"];
    for stop_reason in cases {
        let mut db = Db::fresh();
        let folder_id = db.seed_folder(&format!("/tmp/turn-fail-{stop_reason}"));
        let conv = db.create(folder_id);
        let mgr = Manager::with("c1", Some(conv));
        let env = envelope(1, "c1", turn_complete("ext-1", stop_reason, "open_code"));
        handle(&mut db, &mgr, &env);
        assert_eq!(
            db.status(conv),
            ConversationStatus::Cancelled,
            "stop_reason={stop_reason} must flip the row to Cancelled"
        );
    }
}

#[test]
fn handle_event_skips_write_on_cancelled_stop_reason() {
    let mut db = Db::fresh();
    let folder_id = db.seed_folder("/tmp/turn-cancelled");
    let conv = db.create(folder_id);
    let mgr = Manager::with("c1", Some(conv));
    let env = envelope(1, "c1", turn_complete("ext-1", "cancelled", "claude_code"));
    assert!(handle(&mut db, &mgr, &env).is_none());
    assert_eq!(
        db.status(conv),
        ConversationStatus::InProgress,
        "TurnComplete{{cancelled}} must not overwrite the row — user-cancel path owns it"
    );
}

#[test]
fn handle_event_pending_review_is_noop_when_no_conversation_bound() {
    let mut db = Db::fresh();
    let folder_id = db.seed_folder("/tmp/no-conv");
    let sentinel = db.create(folder_id);
    assert_eq!(db.status(sentinel), ConversationStatus::InProgress);
    let mgr = Manager::with("c1", None);
    let env = envelope(1, "c1", turn_complete("ext-1", "end_turn", "claude_code"));
    assert!(handle(&mut db, &mgr, &env).is_none());
    assert_eq!(
        db.status(sentinel),
        ConversationStatus::InProgress,
        "row must be untouched when no conversation_id is bound to the connection"
    );
}

#[test]
fn handle_terminal_event_writes_cancelled_when_in_progress() {
    let mut db = Db::fresh();
    let folder_id = db.seed_folder("/tmp/term-cancel");
    let conv = db.create(folder_id);
    assert_eq!(db.status(conv), ConversationStatus::InProgress);
    let mgr = Manager::with("c1", Some(conv));
    let mut cache: Table<CachedConn<String>> = Table::new();
    seed_cache(&mut cache, &mgr, "c1", conv);
    assert!(cache.contains_key("c1"), "ConversationLinked should populate cache");
    let out = handle_end(&mut db, &mut cache, "c1");
    assert_eq!(
        db.status(conv),
        ConversationStatus::Cancelled,
        "in_progress row must be flipped to cancelled"
    );
    assert!(!cache.contains_key("c1"), "cache entry must be drained after first terminal event");
    assert!(matches!(
        out,
        Some(AcpEvent::ConversationStatusChanged {
            conversation_id,
            status: ConversationStatus::Cancelled,
        }) if conversation_id == conv
    ));
}

#[test]
fn handle_terminal_event_preserves_pending_review() {
    let mut db = Db::fresh();
    let folder_id = db.seed_folder("/tmp/term-pr");
    let conv = db.create(folder_id);
    db.set_status(conv, ConversationStatus::PendingReview);
    let mgr = Manager::with("c1", Some(conv));
    let mut cache: Table<CachedConn<String>> = Table::new();
    seed_cache(&mut cache, &mgr, "c1", conv);
    assert!(handle_end(&mut db, &mut cache, "c1").is_none());
    assert_eq!(
        db.status(conv),
        ConversationStatus::PendingReview,
        "CAS must not overwrite PendingReview when subscriber sees terminal event \
         after TurnComplete"
    );
}

#[test]
fn handle_terminal_event_preserves_user_completed() {
    let mut db = Db::fresh();
    let folder_id = db.seed_folder("/tmp/term-completed");
    let conv = db.create(folder_id);
    db.set_status(conv, ConversationStatus::Completed);
    let mgr = Manager::with("c1", Some(conv));
    let mut cache: Table<CachedConn<String>> = Table::new();
    seed_cache(&mut cache, &mgr, "c1", conv);
    assert!(handle_end(&mut db, &mut cache, "c1").is_none());
    assert_eq!(
        db.status(conv),
        ConversationStatus::Completed,
        "user-driven completed must survive the lifecycle terminal-event handler"
    );
}

#[test]
fn handle_terminal_event_drains_cache_on_error_then_disconnected() {
    let mut db = Db::fresh();
    let folder_id = db.seed_folder("/tmp/term-pair");
    let conv = db.create(folder_id);
    let mgr = Manager::with("c1", Some(conv));
    let mut cache: Table<CachedConn<String>> = Table::new();
    seed_cache(&mut cache, &mgr, "c1", conv);
    handle_end(&mut db, &mut cache, "c1");
    assert!(!cache.contains_key("c1"));
    assert!(handle_end(&mut db, &mut cache, "c1").is_none());
    assert_eq!(db.status(conv), ConversationStatus::Cancelled);
}

#[test]
fn handle_terminal_event_noop_when_connection_unknown() {
    let mut db = Db::fresh();
    let folder_id = db.seed_folder("/tmp/term-unknown");
    let sentinel = db.create(folder_id);
    assert_eq!(db.status(sentinel), ConversationStatus::InProgress);
    let mut cache: Table<CachedConn<String>> = Table::new();
    assert!(handle_end(&mut db, &mut cache, "ghost-connection").is_none());
    assert_eq!(
        db.status(sentinel),
        ConversationStatus::InProgress,
        "no conversation should have been touched"
    );
}

#[test]
fn handle_event_is_noop_for_unrelated_events() {
    let mut db = Db::fresh();
    let folder_id = db.seed_folder("/tmp/test-unrelated");
    let conv = db.create(folder_id);
    let mgr = Manager::with("c1", Some(conv));
    let env = envelope(1, "c1", content_delta("hi"));
    assert!(handle(&mut db, &mgr, &env).is_none());
    assert!(
        db.external_id(conv).is_none(),
        "non-SessionStarted events must not write external_id"
    );
}

#[test]
fn is_lifecycle_relevant_matches_worker_arms() {
    assert!(is_lifecycle_relevant(&AcpEvent::SessionStarted { session_id: "s".into() }));
    assert!(is_lifecycle_relevant(&AcpEvent::TurnComplete {
        session_id: "s".into(),
        stop_reason: "end_turn".into(),
        agent_type: "claude_code".into(),
    }));
    assert!(is_lifecycle_relevant(&AcpEvent::ConversationLinked {
        conversation_id: 1,
        folder_id: 1,
    }));
    assert!(is_lifecycle_relevant(&AcpEvent::StatusChanged {
        status: ConnectionStatus::Disconnected,
    }));
    assert!(is_lifecycle_relevant(&AcpEvent::Error {
        message: "boom".into(),
        agent_type: "claude_code".into(),
        code: None,
    }));

    assert!(!is_lifecycle_relevant(&AcpEvent::ContentDelta { text: "x".into() }));
    assert!(!is_lifecycle_relevant(&AcpEvent::StatusChanged {
        status: ConnectionStatus::Connected,
    }));
    assert!(!is_lifecycle_relevant(&AcpEvent::StatusChanged {
        status: ConnectionStatus::Prompting,
    }));
}

#[test]
fn dispatcher_filter_drops_high_frequency_events_at_source() {
    let mut db = Db::fresh();
    let folder_id = db.seed_folder("/tmp/disp-filter");
    let conv = db.create(folder_id);
    let mgr = Manager::with("c1", Some(conv));
    let mut bus = Bus::new();
    for i in 0..50 {
        let env = envelope(i, "c1", content_delta(&format!("delta {i}")));
        bus.send(&mut db, &mgr, BusReceipt::Event(env));
    }
    bus.send(&mut db, &mgr, BusReceipt::Closed);
    bus.drain(&mut db, &mgr);
    assert!(bus.mailboxes.is_empty());
    assert!(
        db.external_id(conv).is_none(),
        "filter must keep ContentDelta from triggering DB writes"
    );
    assert_eq!(db.status(conv), ConversationStatus::InProgress, "row must be untouched");
}

#[test]
fn dispatcher_delivers_session_started_and_turn_complete_to_db() {
    let mut db = Db::fresh();
    let folder_id = db.seed_folder("/tmp/disp-happy");
    let conv = db.create(folder_id);
    let mgr = Manager::with("c1", Some(conv));
    let mut bus = Bus::new();
    bus.send(&mut db, &mgr, BusReceipt::Event(envelope(1, "c1", session_started("ext-final"))));
    bus.send(
        &mut db,
        &mgr,
        BusReceipt::Event(envelope(2, "c1", turn_complete("ext-final", "end_turn", "claude_code"))),
    );
    bus.drain(&mut db, &mgr);
    bus.send(&mut db, &mgr, BusReceipt::Closed);
    assert!(bus.stopped);
    assert_eq!(db.external_id(conv), Some("ext-final"));
    assert_eq!(db.status(conv), ConversationStatus::PendingReview);
}

#[test]
fn dispatcher_delivers_turn_complete_after_relevant_event_burst() {
    let mut db = Db::fresh();
    let folder_id = db.seed_folder("/tmp/disp-burst");
    let conv = db.create(folder_id);
    let mgr = Manager::with("c1", Some(conv));
    let mut bus = Bus::new();
    for i in 1..=200u64 {
        let env = envelope(i, "c1", session_started(&format!("ext-{i:03}")));
        bus.send(&mut db, &mgr, BusReceipt::Event(env));
    }
    let last = envelope(201, "c1", turn_complete("ext-200", "end_turn", "claude_code"));
    bus.send(&mut db, &mgr, BusReceipt::Event(last));
    bus.drain(&mut db, &mgr);
    bus.send(&mut db, &mgr, BusReceipt::Closed);
    assert_eq!(
        db.status(conv),
        ConversationStatus::PendingReview,
        "TurnComplete at the tail of a 200-event burst MUST be delivered \
         (regression test for `try_send` drop bug)"
    );
    assert_eq!(db.external_id(conv), Some("ext-200"));
    assert_eq!(bus.queue_full, 3);
    assert_eq!(bus.mailboxes.len(), 1);
}

#[test]
fn stop_reasons_and_their_statuses() {
    assert_eq!(turn_target("end_turn"), Some(ConversationStatus::PendingReview));
    assert_eq!(turn_target("refusal"), Some(ConversationStatus::Cancelled));
    assert_eq!(turn_target("cancelled"), None);
    assert_eq!(turn_target("END_TURN"), None);
    assert_eq!(turn_target(""), None);
    assert_eq!(turn_target("some_future_reason"), None);
}

#[test]
fn terminal_events() {
    assert!(is_terminal(&disconnected()));
    assert!(is_terminal(&error()));
    assert!(!is_terminal(&AcpEvent::StatusChanged { status: ConnectionStatus::Connected }));
    assert!(!is_terminal(&session_started("s")));
    assert!(!is_terminal(&AcpEvent::Other));
    assert!(!is_lifecycle_relevant(&AcpEvent::Other));
    assert!(!is_lifecycle_relevant(&AcpEvent::ConversationStatusChanged {
        conversation_id: 1,
        status: ConversationStatus::Completed,
    }));
}

#[test]
fn gone_connection_writes_nothing() {
    let effect = RowEffect::SetStatus(ConversationStatus::Cancelled);
    assert!(plan_write::<String>(&effect, None).is_none());
}

#[test]
fn retries_back_off_and_give_up() {
    let first = handle_event_with_retry(1);
    assert_eq!(first.retry_after_ms, Some(100));
    assert_eq!(first.level, LogLevel::Warn);
    let second = handle_event_with_retry(2);
    assert_eq!(second.retry_after_ms, Some(500));
    assert_eq!(second.level, LogLevel::Warn);
    let third = handle_event_with_retry(3);
    assert_eq!(third.retry_after_ms, None);
    assert_eq!(third.level, LogLevel::Error);
}

#[test]
fn worker_retries_a_write_until_it_is_made() {
    let mut db = Db::fresh();
    let folder_id = db.seed_folder("/tmp/retry");
    let conv = db.create(folder_id);
    let mgr = Manager::with("c1", Some(conv));
    let mut worker = Worker::new("c1".to_string());
    db.failures = 2;
    let env = envelope(1, "c1", turn_complete("s", "end_turn", "claude_code"));
    let done = drive(&mut worker, &mut db, &mgr, &env);
    assert_eq!(done.pauses, vec![100, 500]);
    assert_eq!(done.writes, 3);
    assert_eq!(db.status(conv), ConversationStatus::PendingReview);
    assert_eq!(done.emitted.len(), 1);
    assert_eq!(done.emitted[0].0, "c1");
}

#[test]
fn worker_gives_up_after_three_attempts() {
    let mut db = Db::fresh();
    let folder_id = db.seed_folder("/tmp/give-up");
    let conv = db.create(folder_id);
    let mgr = Manager::with("c1", Some(conv));
    let mut worker = Worker::new("c1".to_string());
    db.failures = 10;
    let env = envelope(1, "c1", turn_complete("s", "end_turn", "claude_code"));
    let done = drive(&mut worker, &mut db, &mgr, &env);
    assert_eq!(done.pauses, vec![100, 500]);
    assert_eq!(done.writes, 3);
    assert!(done.emitted.is_empty());
    assert_eq!(db.status(conv), ConversationStatus::InProgress);
}

#[test]
fn end_is_announced_after_the_connection_is_gone() {
    let mut db = Db::fresh();
    let folder_id = db.seed_folder("/tmp/gone");
    let conv = db.create(folder_id);
    let mgr = Manager::with("c1", Some(conv));
    let mut worker = Worker::new("c1".to_string());
    drive(&mut worker, &mut db, &mgr, &envelope(1, "c1", linked(conv)));
    let nobody = Manager::new();
    let first = drive(&mut worker, &mut db, &nobody, &envelope(2, "c1", error()));
    assert_eq!(db.status(conv), ConversationStatus::Cancelled);
    assert_eq!(first.emitted.len(), 1);
    let second = drive(&mut worker, &mut db, &nobody, &envelope(3, "c1", disconnected()));
    assert!(second.emitted.is_empty());
    assert_eq!(second.writes, 0);
}

#[test]
fn review_survives_the_end_of_the_connection() {
    let mut db = Db::fresh();
    let folder_id = db.seed_folder("/tmp/review");
    let conv = db.create(folder_id);
    let mgr = Manager::with("c1", Some(conv));
    let mut worker = Worker::new("c1".to_string());
    drive(&mut worker, &mut db, &mgr, &envelope(1, "c1", linked(conv)));
    let turn = envelope(2, "c1", turn_complete("s", "end_turn", "claude_code"));
    drive(&mut worker, &mut db, &mgr, &turn);
    let end = drive(&mut worker, &mut db, &mgr, &envelope(3, "c1", disconnected()));
    assert_eq!(db.status(conv), ConversationStatus::PendingReview);
    assert!(end.emitted.is_empty());
}

#[test]
fn relinking_keeps_the_first_link() {
    let mut cache: Table<CachedConn<String>> = Table::new();
    try_cache_link(&mut cache, "c1", 7, Some("first".to_string()));
    try_cache_link(&mut cache, "c1", 8, Some("second".to_string()));
    let kept = cache.get("c1").unwrap();
    assert_eq!(kept.conversation_id, 7);
    assert_eq!(kept.handle, "first");
    try_cache_link::<String>(&mut cache, "c2", 9, None);
    assert!(!cache.contains_key("c2"));
}

#[test]
fn failed_swap_announces_nothing() {
    let mut cache: Table<CachedConn<String>> = Table::new();
    try_cache_link(&mut cache, "c1", 7, Some("h".to_string()));
    let cancelling = handle_terminal_event(&mut cache, "c1").unwrap();
    assert_eq!(
        cancelling.swap(),
        StatusSwap {
            conversation_id: 7,
            expected: ConversationStatus::InProgress,
            replacement: ConversationStatus::Cancelled,
        }
    );
    let step = cancelling.swapped(&Err::<bool, String>("locked".to_string()));
    assert!(matches!(step, WorkerStep::Receive));
}

#[test]
fn worker_looks_its_own_connection_up_to_link_it() {
    let mut worker: Worker<String> = Worker::new("c1".to_string());
    let step = worker.receive(Some(&envelope(1, "c1", linked(5))));
    match step {
        WorkerStep::Find(Finding { connection_id, purpose: Purpose::Link { conversation_id } }) => {
            assert_eq!(connection_id, "c1");
            assert_eq!(conversation_id, 5);
        }
        _ => panic!("the connection has to be looked up"),
    }
}

#[test]
fn worker_goes_on_after_failures() {
    let mut db = Db::fresh();
    let folder_id = db.seed_folder("/tmp/failures");
    let conv = db.create(folder_id);
    let mgr = Manager::with("c1", Some(conv));
    let mut worker = Worker::new("c1".to_string());
    drive(&mut worker, &mut db, &mgr, &envelope(1, "c1", linked(conv)));
    db.failures = 3;
    let lost = drive(&mut worker, &mut db, &mgr, &envelope(2, "c1", session_started("lost")));
    assert_eq!((lost.writes, lost.swaps), (3, 0));
    let kept = drive(&mut worker, &mut db, &mgr, &envelope(3, "c1", session_started("kept")));
    assert_eq!((kept.writes, kept.swaps), (1, 0));
    assert_eq!(db.external_id(conv), Some("kept"));
    db.failures = 1;
    let end = drive(&mut worker, &mut db, &Manager::new(), &envelope(4, "c1", error()));
    assert_eq!((end.writes, end.swaps), (0, 1));
    assert!(end.emitted.is_empty());
    db.failures = 0;
    let again = drive(&mut worker, &mut db, &mgr, &envelope(5, "c1", disconnected()));
    assert_eq!((again.writes, again.swaps), (0, 0));
    assert_eq!(db.status(conv), ConversationStatus::InProgress);
    drive(&mut worker, &mut db, &mgr, &envelope(6, "c1", linked(conv)));
    let last = drive(&mut worker, &mut db, &mgr, &envelope(7, "c1", disconnected()));
    assert_eq!(last.swaps, 1);
    assert_eq!(db.status(conv), ConversationStatus::Cancelled);
}

#[test]
fn worker_stops_when_its_mailbox_is_closed() {
    let mut worker: Worker<String> = Worker::new("c1".to_string());
    assert!(matches!(worker.receive(None), WorkerStep::Stop));
}

#[test]
fn run_leaves_the_row_as_its_events_make_it() {
    let mut db = Db::fresh();
    let folder_id = db.seed_folder("/tmp/run");
    let conv = db.create(folder_id);
    let other = db.create(folder_id);
    let mgr = Manager::with("c1", Some(conv));
    let mut worker = Worker::new("c1".to_string());
    let events = [
        linked(conv),
        session_started("s1"),
        turn_complete("s1", "refusal", "claude_code"),
        session_started("s2"),
        turn_complete("s2", "end_turn", "claude_code"),
        turn_complete("s2", "cancelled", "claude_code"),
        error(),
        disconnected(),
    ];
    let mut seen = Vec::new();
    for (seq, event) in events.into_iter().enumerate() {
        drive(&mut worker, &mut db, &mgr, &envelope(seq as u64, "c1", event));
        seen.push(db.status(conv));
    }
    assert_eq!(
        seen,
        vec![
            ConversationStatus::InProgress,
            ConversationStatus::InProgress,
            ConversationStatus::Cancelled,
            ConversationStatus::Cancelled,
            ConversationStatus::PendingReview,
            ConversationStatus::PendingReview,
            ConversationStatus::PendingReview,
            ConversationStatus::PendingReview,
        ]
    );
    assert_eq!(db.external_id(conv), Some("s2"));
    assert_eq!(db.status(other), ConversationStatus::InProgress);
    assert!(db.external_id(other).is_none());
}

#[test]
fn one_worker_per_connection_until_its_end() {
    let mut db = Db::fresh();
    let folder_id = db.seed_folder("/tmp/workers");
    let a = db.create(folder_id);
    let b = db.create(folder_id);
    let mut mgr = Manager::with("a", Some(a));
    mgr.connections.insert("b".to_string(), Some(b));
    let mut bus = Bus::new();
    bus.send(&mut db, &mgr, BusReceipt::Event(envelope(1, "a", session_started("s1"))));
    bus.send(&mut db, &mgr, BusReceipt::Event(envelope(2, "b", session_started("s2"))));
    bus.send(&mut db, &mgr, BusReceipt::Event(envelope(3, "a", disconnected())));
    assert_eq!(bus.mailboxes.len(), 2);
    bus.send(&mut db, &mgr, BusReceipt::Event(envelope(4, "b", session_started("s3"))));
    assert_eq!(bus.mailboxes.len(), 2);
    bus.send(&mut db, &mgr, BusReceipt::Event(envelope(5, "a", session_started("s4"))));
    assert_eq!(bus.mailboxes.len(), 3);
    bus.drain(&mut db, &mgr);
    assert_eq!(db.external_id(a), Some("s4"));
    assert_eq!(db.external_id(b), Some("s3"));
}

#[test]
fn turn_lands_between_the_events_of_other_connections() {
    let mut db = Db::fresh();
    let folder_id = db.seed_folder("/tmp/mixed");
    let a = db.create(folder_id);
    let b = db.create(folder_id);
    let mut mgr = Manager::with("a", Some(a));
    mgr.connections.insert("b".to_string(), Some(b));
    let mut bus = Bus::new();
    for i in 0..100u64 {
        let id = if i % 2 == 0 { "a" } else { "b" };
        let env = envelope(i, id, session_started(&format!("{id}-{i}")));
        bus.send(&mut db, &mgr, BusReceipt::Event(env));
        let noise = envelope(i, id, content_delta("x"));
        bus.send(&mut db, &mgr, BusReceipt::Event(noise));
    }
    let turn = envelope(100, "a", turn_complete("s", "end_turn", "claude_code"));
    bus.send(&mut db, &mgr, BusReceipt::Event(turn));
    bus.drain(&mut db, &mgr);
    assert_eq!(db.status(a), ConversationStatus::PendingReview);
    assert_eq!(db.status(b), ConversationStatus::InProgress);
    assert_eq!(db.external_id(a), Some("a-98"));
    assert_eq!(db.external_id(b), Some("b-99"));
}

#[test]
fn closed_mailbox_is_replaced_with_the_next_event() {
    let mut db = Db::fresh();
    let folder_id = db.seed_folder("/tmp/closed");
    let conv = db.create(folder_id);
    let mgr = Manager::with("c1", Some(conv));
    let mut bus = Bus::new();
    bus.send(&mut db, &mgr, BusReceipt::Event(envelope(1, "c1", session_started("s1"))));
    bus.mailboxes[0].borrow_mut().open = false;
    bus.send(&mut db, &mgr, BusReceipt::Event(envelope(2, "c1", session_started("s2"))));
    assert_eq!(bus.mailboxes.len(), 1);
    bus.send(&mut db, &mgr, BusReceipt::Event(envelope(3, "c1", session_started("s3"))));
    assert_eq!(bus.mailboxes.len(), 2);
}

#[test]
fn lost_events_are_counted() {
    let mut db = Db::fresh();
    let mgr = Manager::new();
    let mut bus = Bus::new();
    bus.send(&mut db, &mgr, BusReceipt::Lagged(7));
    bus.send(&mut db, &mgr, BusReceipt::Lagged(5));
    assert_eq!(bus.lagged, 12);
    assert_eq!(bus.queue_full, 0);
    assert_eq!(DispatchStep::Receive.counts(), Counts { queue_full: 0, lagged: 0 });
}

#[test]
fn table_keeps_one_value_per_key() {
    let mut table: Table<u32> = Table::new();
    table.insert("a".to_string(), 1);
    table.insert("b".to_string(), 2);
    table.insert("a".to_string(), 3);
    assert_eq!(table.get("a"), Some(&3));
    assert_eq!(table.get("b"), Some(&2));
    assert_eq!(table.get("c"), None);
    assert_eq!(table.remove("a"), Some(3));
    assert_eq!(table.remove("a"), None);
    assert!(table.contains_key("b"));
    assert!(!table.contains_key("a"));
}
