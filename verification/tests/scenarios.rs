use std::collections::{BTreeMap, BTreeSet};

use serde_json::Value;
use vectorlink_task::handler::{Action, Event, Handler, Outcome, Stage};
use vectorlink_task::liveness::TaskLiveness;
use vectorlink_task::monitor::{
    process_existing_tasks, process_new_orphans, process_task_updates, Monitor, MonitorEnd,
    MonitorNext,
};
use vectorlink_task::queue::{NextTask, Queue};
use vectorlink_task::record::TaskData;
use vectorlink_task::request::{
    Request, Response, StoreError, TaskAliveError, TaskStateError, WatchEvent, WatchKind,
};
use vectorlink_task::status::TaskStatus;
use vectorlink_task::store::{KeyValue, Txn, TxnOp};
use vectorlink_task::task::{Step, Task};

#[derive(Clone)]
struct Entry {
    value: Vec<u8>,
    version: i64,
    create_revision: i64,
    mod_revision: i64,
    lease: i64,
}

struct Change {
    revision: i64,
    kind: WatchKind,
    kv: KeyValue,
}

/// A store in memory that does what the key-value store does, as far as the
/// task system asks.
struct FakeStore {
    kvs: BTreeMap<Vec<u8>, Entry>,
    revision: i64,
    leases: BTreeSet<i64>,
    next_lease: i64,
    log: Vec<Change>,
    compacted: i64,
    watch: Option<(Vec<u8>, WatchKind, i64)>,
}

fn kv_of(key: &[u8], entry: &Entry) -> KeyValue {
    KeyValue {
        key: key.to_vec(),
        value: entry.value.clone(),
        version: entry.version,
        create_revision: entry.create_revision,
        mod_revision: entry.mod_revision,
        lease: entry.lease,
    }
}

impl FakeStore {
    fn new() -> FakeStore {
        FakeStore {
            kvs: BTreeMap::new(),
            revision: 1,
            leases: BTreeSet::new(),
            next_lease: 7000,
            log: Vec::new(),
            compacted: 0,
            watch: None,
        }
    }

    fn has(&self, key: &[u8]) -> bool {
        self.kvs.contains_key(key)
    }

    fn value(&self, key: &[u8]) -> Vec<u8> {
        self.kvs[key].value.clone()
    }

    fn record(&self, key: &[u8]) -> TaskData {
        match TaskData::from_bytes(&self.kvs[key].value) {
            Ok(record) => record,
            Err(error) => panic!("no record at the key: {}", error.message()),
        }
    }

    fn write(&mut self, key: &[u8], value: &[u8], lease: i64, revision: i64) {
        let entry = match self.kvs.get(key) {
            Some(old) => Entry {
                value: value.to_vec(),
                version: old.version + 1,
                create_revision: old.create_revision,
                mod_revision: revision,
                lease,
            },
            None => Entry {
                value: value.to_vec(),
                version: 1,
                create_revision: revision,
                mod_revision: revision,
                lease,
            },
        };
        self.log.push(Change { revision, kind: WatchKind::Puts, kv: kv_of(key, &entry) });
        self.kvs.insert(key.to_vec(), entry);
    }

    fn remove(&mut self, key: &[u8], revision: i64) {
        if let Some(old) = self.kvs.remove(key) {
            self.log.push(Change { revision, kind: WatchKind::Deletes, kv: kv_of(key, &old) });
        }
    }

    fn put(&mut self, key: &[u8], value: &[u8]) {
        self.revision += 1;
        let revision = self.revision;
        self.write(key, value, 0, revision);
    }

    fn end_lease(&mut self, lease: i64) {
        if self.leases.remove(&lease) {
            let attached: Vec<Vec<u8>> = self
                .kvs
                .iter()
                .filter(|(_, entry)| entry.lease == lease)
                .map(|(key, _)| key.clone())
                .collect();
            if !attached.is_empty() {
                self.revision += 1;
            }
            let revision = self.revision;
            for key in attached {
                self.remove(&key, revision);
            }
        }
    }

    fn get_at(&self, key: &[u8], revision: i64) -> Vec<KeyValue> {
        if revision == 0 || revision >= self.revision {
            return match self.kvs.get(key) {
                Some(entry) => vec![kv_of(key, entry)],
                None => Vec::new(),
            };
        }
        let mut found: Option<&Change> = None;
        for change in &self.log {
            if change.revision <= revision && change.kv.key == key {
                found = Some(change);
            }
        }
        match found {
            Some(change) if change.kind == WatchKind::Puts => vec![KeyValue {
                key: change.kv.key.clone(),
                value: change.kv.value.clone(),
                version: change.kv.version,
                create_revision: change.kv.create_revision,
                mod_revision: change.kv.mod_revision,
                lease: change.kv.lease,
            }],
            _ => Vec::new(),
        }
    }

    fn txn(&mut self, txn: Txn) -> Response {
        let succeeded = txn.when.iter().all(|compare| {
            let version = self.kvs.get(&compare.key).map(|entry| entry.version).unwrap_or(0);
            version == compare.version
        });
        let ops = if succeeded { txn.and_then } else { txn.or_else };
        for op in &ops {
            if let TxnOp::Put { lease: Some(lease), .. } = op {
                if !self.leases.contains(lease) {
                    return Response::Failed { message: "requested lease not found".to_owned() };
                }
            }
        }
        let writes = ops.iter().any(|op| !matches!(op, TxnOp::Get { .. }));
        if writes {
            self.revision += 1;
        }
        let revision = self.revision;
        let mut gets = Vec::new();
        for op in ops {
            match op {
                TxnOp::Put { key, value, lease } => {
                    self.write(&key, &value, lease.unwrap_or(0), revision)
                }
                TxnOp::Delete { key } => self.remove(&key, revision),
                TxnOp::Get { key } => gets.push(self.get_at(&key, 0)),
            }
        }
        Response::TxnDone { succeeded, gets }
    }

    fn events(&mut self) -> Response {
        let (prefix, kind, from) = match &self.watch {
            Some(watch) => watch.clone(),
            None => return Response::Failed { message: "no watch".to_owned() },
        };
        if from <= self.compacted {
            self.watch = None;
            return Response::Events {
                revision: self.revision,
                canceled: true,
                compacted: true,
                events: Vec::new(),
            };
        }
        let mut events = Vec::new();
        for change in &self.log {
            if change.revision >= from && change.kind == kind && change.kv.key.starts_with(&prefix)
            {
                events.push(WatchEvent { kind: change.kind, kv: Some(kv_of(&change.kv.key, &Entry {
                    value: change.kv.value.clone(),
                    version: change.kv.version,
                    create_revision: change.kv.create_revision,
                    mod_revision: change.kv.mod_revision,
                    lease: change.kv.lease,
                })) });
            }
        }
        self.watch = Some((prefix, kind, self.revision + 1));
        if events.is_empty() {
            Response::EndOfEvents
        } else {
            Response::Events { revision: self.revision, canceled: false, compacted: false, events }
        }
    }

    fn perform(&mut self, request: Request) -> Response {
        match request {
            Request::Get { key, revision } => {
                Response::Kvs { kvs: self.get_at(&key, revision), more: false, revision: self.revision }
            }
            Request::Range { start, end, limit, by_creation, .. } => {
                let mut kvs: Vec<KeyValue> = self
                    .kvs
                    .iter()
                    .filter(|(key, _)| **key >= start && (end == vec![0] || **key < end))
                    .map(|(key, entry)| kv_of(key, entry))
                    .collect();
                if by_creation {
                    kvs.sort_by_key(|kv| kv.create_revision);
                }
                let mut more = false;
                if limit > 0 && kvs.len() > limit as usize {
                    kvs.truncate(limit as usize);
                    more = true;
                }
                Response::Kvs { kvs, more, revision: self.revision }
            }
            Request::Txn { txn } => self.txn(txn),
            Request::LeaseGrant { .. } => {
                self.next_lease += 1;
                self.leases.insert(self.next_lease);
                Response::LeaseGranted { lease: self.next_lease }
            }
            Request::LeaseKeepAlive { lease } => {
                Response::LeaseKeptAlive { ttl: if self.leases.contains(&lease) { 10 } else { 0 } }
            }
            Request::LeaseRevoke { lease } => {
                self.end_lease(lease);
                Response::Done
            }
            Request::Watch { prefix, start_revision, kind } => {
                self.watch = Some((prefix, kind, start_revision));
                self.events()
            }
            Request::NextEvents => self.events(),
            Request::CancelWatch => {
                self.watch = None;
                Response::Done
            }
        }
    }
}

fn json(text: &str) -> Value {
    serde_json::from_str(text).unwrap()
}

/// Carries a task operation through against the store. Each request takes
/// `tick` milliseconds.
fn run(store: &mut FakeStore, task: &mut Task, first: Step<Result<(), TaskStateError>>, clock: &mut u64, tick: u64) -> Result<(), TaskStateError> {
    let mut step = first;
    loop {
        match step {
            Step::Done(result) => return result,
            Step::Call(request) => {
                let response = store.perform(request);
                *clock += tick;
                step = task.proceed(response, *clock);
            }
        }
    }
}

fn run_live(store: &mut FakeStore, live: &mut TaskLiveness, first: Step<Result<(), TaskStateError>>, clock: &mut u64, tick: u64) -> Result<(), TaskStateError> {
    let mut step = first;
    loop {
        match step {
            Step::Done(result) => return result,
            Step::Call(request) => {
                let response = store.perform(request);
                *clock += tick;
                step = live.proceed(response, *clock);
            }
        }
    }
}

fn run_monitor(store: &mut FakeStore, started: (Monitor, Request)) -> Result<MonitorEnd, StoreError> {
    let (mut monitor, request) = started;
    let mut step = Step::Call(request);
    loop {
        match step {
            Step::Done(result) => return result,
            Step::Call(request) => {
                let response = store.perform(request);
                step = monitor.proceed(response);
            }
        }
    }
}

fn search(store: &mut FakeStore, queue: &Queue, clock: u64, limit: usize) -> Option<Result<Task, TaskStateError>> {
    let (mut search, request) = queue.next_task();
    let mut step: Step<Result<Task, TaskStateError>> = Step::Call(request);
    for _ in 0..limit {
        match step {
            Step::Done(result) => return Some(result),
            Step::Call(request) => {
                let response = store.perform(request);
                step = search.proceed(queue, response, clock);
            }
        }
    }
    None
}

/// The user's code of the scenarios: `initialize` returns `{"step":0}`, and
/// `process` counts the steps up to the `n` of `init`, storing each.
fn user_process(store: &mut FakeStore, live: &mut TaskLiveness, clock: &mut u64, crash_after: Option<u64>) -> Option<Outcome> {
    let n = live.init().unwrap()["n"].as_u64().unwrap();
    let mut step = live.progress().unwrap()["step"].as_u64().unwrap();
    while step < n {
        step += 1;
        let first = live.set_progress(json(&format!("{{\"step\":{}}}", step)), *clock);
        match run_live(store, live, first, clock, 100) {
            Ok(()) => {}
            Err(TaskStateError::Alive(TaskAliveError::Interrupted)) => {
                return Some(Outcome::Failed(json("\"interrupted\"")))
            }
            Err(error) => return Some(Outcome::Failed(Value::from(error.message()))),
        }
        if crash_after == Some(step) {
            return None;
        }
    }
    Some(Outcome::Returned(json("\"ok\"")))
}

/// Drives the worker's loop until it has ended one task and searches for
/// the next, or until the user's code crashes.
fn work(store: &mut FakeStore, queue: Queue, clock: &mut u64, crash_after: Option<u64>) -> Handler {
    let (mut handler, mut action) = Handler::new(queue);
    let mut worked = false;
    loop {
        match action {
            Action::Store(request) => {
                if worked && handler.stage() == Stage::Searching {
                    return handler;
                }
                let response = store.perform(request);
                *clock += 100;
                action = handler.process_queue(Event::Store(response), *clock);
            }
            Action::Initialize => {
                worked = true;
                action = handler.process_queue(
                    Event::User(Outcome::Returned(json("{\"step\":0}"))),
                    *clock,
                );
            }
            Action::Process => {
                worked = true;
                let mut live = TaskLiveness::new(handler.liveness().unwrap());
                match user_process(store, &mut live, clock, crash_after) {
                    Some(outcome) => {
                        action = handler.process_queue(Event::User(outcome), *clock);
                    }
                    None => return handler,
                }
            }
            Action::Stop(error) => panic!("the loop stopped: {}", error.message()),
        }
    }
}

#[test]
fn happy_path() {
    let mut store = FakeStore::new();
    store.put(b"tasks/svc/a", b"{\"status\":\"pending\",\"init\":{\"n\":3}}");
    let scanned = run_monitor(&mut store, process_existing_tasks()).unwrap();
    assert!(matches!(scanned, MonitorEnd::Scanned { .. }));
    assert!(store.has(b"queue/svc/a"));
    assert!(!store.has(b"claims/svc/a"));

    let mut clock = 0;
    let handler = work(&mut store, Queue::connect(b"svc", b"w1"), &mut clock, None);
    assert_eq!(handler.stage(), Stage::Searching);

    let record = store.record(b"tasks/svc/a");
    assert_eq!(record.status(), TaskStatus::Complete);
    assert_eq!(record.field("init"), Some(json("{\"n\":3}")));
    assert_eq!(record.field("progress"), Some(json("{\"step\":3}")));
    assert_eq!(record.field("result"), Some(json("\"ok\"")));
    assert_eq!(record.field("error"), None);
    assert!(!store.has(b"claims/svc/a"));
    assert!(!store.has(b"queue/svc/a"));
}

#[test]
fn worker_crash_and_resume() {
    let mut store = FakeStore::new();
    store.put(b"tasks/svc/a", b"{\"status\":\"pending\",\"init\":{\"n\":3}}");
    let scanned = run_monitor(&mut store, process_existing_tasks()).unwrap();
    let revision = match scanned.next() {
        MonitorNext::Watch { revision } => revision,
        _ => panic!("the scan is followed by the watches"),
    };

    let mut clock = 0;
    let crashed = work(&mut store, Queue::connect(b"svc", b"w1"), &mut clock, Some(1));
    assert_eq!(crashed.stage(), Stage::Processing);
    assert!(store.has(b"claims/svc/a"));
    assert_eq!(store.value(b"claims/svc/a"), b"w1".to_vec());
    assert_eq!(store.record(b"tasks/svc/a").status(), TaskStatus::Running);
    assert_eq!(store.record(b"tasks/svc/a").field("progress"), Some(json("{\"step\":1}")));

    // The worker is gone: its lease runs out, and the claim with it.
    let lease = store.kvs[&b"claims/svc/a".to_vec()].lease;
    store.end_lease(lease);
    assert!(!store.has(b"claims/svc/a"));

    let ended = run_monitor(&mut store, process_new_orphans(revision)).unwrap();
    assert_eq!(ended, MonitorEnd::Ended);
    assert_eq!(store.record(b"tasks/svc/a").status(), TaskStatus::Resuming);
    assert!(!store.has(b"queue/svc/a"));

    let ended = run_monitor(&mut store, process_task_updates(revision)).unwrap();
    assert_eq!(ended, MonitorEnd::Ended);
    assert!(store.has(b"queue/svc/a"));

    let handler = work(&mut store, Queue::connect(b"svc", b"w2"), &mut clock, None);
    assert_eq!(handler.stage(), Stage::Searching);
    let record = store.record(b"tasks/svc/a");
    assert_eq!(record.status(), TaskStatus::Complete);
    assert_eq!(record.field("progress"), Some(json("{\"step\":3}")));
    assert_eq!(record.field("result"), Some(json("\"ok\"")));
    assert!(!store.has(b"claims/svc/a"));
    assert!(!store.has(b"queue/svc/a"));
}

#[test]
fn cancellation() {
    let mut store = FakeStore::new();
    store.put(b"tasks/svc/a", b"{\"status\":\"pending\",\"init\":{\"n\":3}}");
    run_monitor(&mut store, process_existing_tasks()).unwrap();
    let queue = Queue::connect(b"svc", b"w1");
    let mut clock = 0;
    let mut task = search(&mut store, &queue, clock, 20).unwrap().unwrap();
    let first = task.start(clock);
    run(&mut store, &mut task, first, &mut clock, 0).unwrap();
    assert_eq!(store.record(b"tasks/svc/a").status(), TaskStatus::Running);

    store.put(b"interrupt/svc/a", b"canceled");

    // Within the interval no renewal is made, and the interrupt stays.
    clock += 500;
    let first = task.alive(clock);
    assert!(matches!(first, Step::Done(Ok(()))));
    assert!(store.has(b"interrupt/svc/a"));
    assert_eq!(store.record(b"tasks/svc/a").status(), TaskStatus::Running);

    // The next keep-alive consumes it.
    clock += 1000;
    let first = task.alive(clock);
    assert!(matches!(first, Step::Call(Request::LeaseKeepAlive { .. })));
    let result = run(&mut store, &mut task, first, &mut clock, 0);
    assert!(matches!(result, Err(TaskStateError::Alive(TaskAliveError::Interrupted))));
    assert_eq!(task.status(), TaskStatus::Canceled);
    assert_eq!(store.record(b"tasks/svc/a").status(), TaskStatus::Canceled);
    assert!(!store.has(b"interrupt/svc/a"));
    assert!(store.has(b"claims/svc/a"));

    // The runtime records nothing over it, and gives up the claim.
    let first = task.release_claim();
    run(&mut store, &mut task, first, &mut clock, 0).unwrap();
    assert!(!store.has(b"claims/svc/a"));
    assert!(!task.has_lease());
    assert_eq!(store.record(b"tasks/svc/a").status(), TaskStatus::Canceled);
}

#[test]
fn cancellation_under_the_runtime() {
    let mut store = FakeStore::new();
    store.put(b"tasks/svc/a", b"{\"status\":\"pending\",\"init\":{\"n\":3}}");
    run_monitor(&mut store, process_existing_tasks()).unwrap();
    let (mut handler, mut action) = Handler::new(Queue::connect(b"svc", b"w1"));
    let mut clock = 0;
    let mut done = false;
    while !done {
        match action {
            Action::Store(request) => {
                let response = store.perform(request);
                clock += 100;
                action = handler.process_queue(Event::Store(response), clock);
                if handler.stage() == Stage::Searching && store.has(b"interrupt/svc/b") {
                    done = true;
                }
            }
            Action::Initialize => {
                action = handler
                    .process_queue(Event::User(Outcome::Returned(json("{\"step\":0}"))), clock);
            }
            Action::Process => {
                store.put(b"interrupt/svc/a", b"canceled");
                store.put(b"interrupt/svc/b", b"paused");
                clock += 2000;
                let mut live = TaskLiveness::new(handler.liveness().unwrap());
                let outcome = user_process(&mut store, &mut live, &mut clock, None).unwrap();
                assert!(matches!(outcome, Outcome::Failed(_)));
                action = handler.process_queue(Event::User(outcome), clock);
            }
            Action::Stop(error) => panic!("the loop stopped: {}", error.message()),
        }
    }
    let record = store.record(b"tasks/svc/a");
    assert_eq!(record.status(), TaskStatus::Canceled);
    assert_eq!(record.field("error"), None);
    assert_eq!(record.field("result"), None);
    assert!(!store.has(b"interrupt/svc/a"));
    assert!(!store.has(b"claims/svc/a"));
}

#[test]
fn unparseable_record() {
    let mut store = FakeStore::new();
    store.put(b"tasks/svc/b", b"{not json");
    run_monitor(&mut store, process_existing_tasks()).unwrap();
    let record = store.record(b"tasks/svc/b");
    assert_eq!(record.status(), TaskStatus::Error);
    let error = record.field("error").unwrap();
    assert!(error.as_str().unwrap().starts_with("unparsable task: "));
    assert_eq!(record.field("original"), Some(Value::from("{not json")));
    assert!(!store.has(b"queue/svc/b"));
    assert!(!store.has(b"claims/svc/b"));

    // No worker ever claims it: the monitor queues nothing for a task in Error.
    run_monitor(&mut store, process_existing_tasks()).unwrap();
    assert!(!store.has(b"queue/svc/b"));
    let queue = Queue::connect(b"svc", b"w1");
    assert!(search(&mut store, &queue, 0, 6).is_none());
}

#[test]
fn unparseable_record_is_left_alone_once_it_has_changed() {
    let mut store = FakeStore::new();
    store.put(b"tasks/svc/b", b"{not json");
    let (mut monitor, request) = process_existing_tasks();
    let response = store.perform(request);
    let step = monitor.proceed(response);
    store.put(b"tasks/svc/b", b"{\"status\":\"paused\"}");
    match step {
        Step::Call(request) => {
            let response = store.perform(request);
            assert!(matches!(response, Response::TxnDone { succeeded: false, .. }));
        }
        Step::Done(_) => panic!("the record is to be replaced"),
    }
    assert_eq!(store.record(b"tasks/svc/b").status(), TaskStatus::Paused);
}

#[test]
fn parent_child_wake() {
    let mut store = FakeStore::new();
    store.put(b"tasks/svc/p", b"{\"status\":\"waiting\",\"waiting\":[\"svc/c\"],\"progress\":7}");
    store.put(b"tasks/svc/c", b"{\"status\":\"running\",\"parent\":\"svc/p\"}");
    let scanned = run_monitor(&mut store, process_existing_tasks()).unwrap();
    let revision = match scanned.next() {
        MonitorNext::Watch { revision } => revision,
        _ => panic!("the scan is followed by the watches"),
    };
    // The child runs without a claim here, so the scan has taken it back to
    // Resuming and the parent still waits.
    assert_eq!(store.record(b"tasks/svc/p").status(), TaskStatus::Waiting);

    store.put(b"tasks/svc/c", b"{\"status\":\"complete\",\"parent\":\"svc/p\"}");
    run_monitor(&mut store, process_task_updates(revision)).unwrap();
    let parent = store.record(b"tasks/svc/p");
    assert_eq!(parent.status(), TaskStatus::Resuming);
    assert_eq!(parent.field("progress"), Some(json("7")));
    assert_eq!(parent.waiting(), Some(vec!["svc/c".to_owned()]));

    // The write of the parent is an update like any other: the monitor
    // queues the parent on it.
    run_monitor(&mut store, process_task_updates(revision)).unwrap();
    assert!(store.has(b"queue/svc/p"));
}

#[test]
fn waiting_task_wakes_only_when_all_it_waits_for_have_ended() {
    let mut store = FakeStore::new();
    store.put(b"tasks/svc/x", b"{\"status\":\"complete\"}");
    store.put(b"tasks/svc/y", b"{\"status\":\"paused\"}");
    store.put(b"tasks/svc/p", b"{\"status\":\"waiting\",\"waiting\":[\"svc/x\",\"svc/y\"]}");
    run_monitor(&mut store, process_existing_tasks()).unwrap();
    assert_eq!(store.record(b"tasks/svc/p").status(), TaskStatus::Waiting);

    store.put(b"tasks/svc/y", b"{\"status\":\"canceled\"}");
    run_monitor(&mut store, process_existing_tasks()).unwrap();
    assert_eq!(store.record(b"tasks/svc/p").status(), TaskStatus::Resuming);
}

#[test]
fn waiting_for_nothing_wakes_at_once() {
    let mut store = FakeStore::new();
    store.put(b"tasks/svc/p", b"{\"status\":\"waiting\"}");
    store.put(b"tasks/svc/q", b"{\"status\":\"waiting\",\"waiting\":[]}");
    run_monitor(&mut store, process_existing_tasks()).unwrap();
    assert_eq!(store.record(b"tasks/svc/p").status(), TaskStatus::Resuming);
    assert_eq!(store.record(b"tasks/svc/q").status(), TaskStatus::Resuming);
}

#[test]
fn concurrent_claim_race() {
    let mut store = FakeStore::new();
    store.put(b"tasks/svc/a", b"{\"status\":\"pending\"}");
    run_monitor(&mut store, process_existing_tasks()).unwrap();
    let first = Queue::connect(b"svc", b"w1");
    let second = Queue::connect(b"svc", b"w2");
    let (mut search1, request1) = first.next_task();
    let (mut search2, request2) = second.next_task();
    // Both see the same queue entry.
    let page1 = store.perform(request1);
    let page2 = store.perform(request2);
    let grant1 = match search1.proceed(&first, page1, 0) {
        Step::Call(request) => request,
        Step::Done(_) => panic!("a lease is asked for"),
    };
    let grant2 = match search2.proceed(&second, page2, 0) {
        Step::Call(request) => request,
        Step::Done(_) => panic!("a lease is asked for"),
    };
    assert!(matches!(grant1, Request::LeaseGrant { ttl: 10 }));
    let lease1 = store.perform(grant1);
    let lease2 = store.perform(grant2);
    let claim1 = match search1.proceed(&first, lease1, 0) {
        Step::Call(request) => request,
        Step::Done(_) => panic!("the claim is tried"),
    };
    let claim2 = match search2.proceed(&second, lease2, 0) {
        Step::Call(request) => request,
        Step::Done(_) => panic!("the claim is tried"),
    };
    let won = store.perform(claim1);
    assert!(matches!(won, Response::TxnDone { succeeded: true, .. }));
    assert!(!store.has(b"queue/svc/a"));
    let lost = store.perform(claim2);
    assert!(matches!(lost, Response::TxnDone { succeeded: false, .. }));
    assert_eq!(store.value(b"claims/svc/a"), b"w1".to_vec());
    assert!(!store.has(b"queue/svc/a"));

    // The winner reads the record and has the task.
    let load = match search1.proceed(&first, won, 0) {
        Step::Call(request) => request,
        Step::Done(_) => panic!("the record is read"),
    };
    let record = store.perform(load);
    match search1.proceed(&first, record, 5) {
        Step::Done(Ok(task)) => {
            assert_eq!(task.task_id(), b"svc/a");
            assert_eq!(task.status(), TaskStatus::Pending);
            assert!(task.has_lease());
        }
        _ => panic!("the winner has the task"),
    }
    // The loser goes on: the queue has nothing more, so it turns to the watch.
    match search2.proceed(&second, lost, 0) {
        Step::Call(Request::Watch { prefix, kind, .. }) => {
            assert_eq!(prefix, b"queue/svc/".to_vec());
            assert_eq!(kind, WatchKind::Puts);
        }
        _ => panic!("the loser goes on searching"),
    }
}

#[test]
fn enqueue_twice_is_enqueue_once() {
    let mut store = FakeStore::new();
    store.put(b"tasks/svc/a", b"{\"status\":\"pending\"}");
    run_monitor(&mut store, process_existing_tasks()).unwrap();
    let version = store.kvs[&b"queue/svc/a".to_vec()].version;
    let revision = store.revision;
    run_monitor(&mut store, process_existing_tasks()).unwrap();
    assert_eq!(store.kvs[&b"queue/svc/a".to_vec()].version, version);
    assert_eq!(store.revision, revision);
    assert_eq!(store.kvs.len(), 2);
}

#[test]
fn queue_entry_and_claim_never_stand_together() {
    let mut store = FakeStore::new();
    store.put(b"tasks/svc/a", b"{\"status\":\"pending\"}");
    run_monitor(&mut store, process_existing_tasks()).unwrap();
    let queue = Queue::connect(b"svc", b"w1");
    let (mut search, request) = queue.next_task();
    let mut step: Step<Result<Task, TaskStateError>> = Step::Call(request);
    loop {
        assert!(!(store.has(b"queue/svc/a") && store.has(b"claims/svc/a")));
        match step {
            Step::Done(_) => break,
            Step::Call(request) => {
                let response = store.perform(request);
                step = search.proceed(&queue, response, 0);
            }
        }
    }
    assert!(store.has(b"claims/svc/a"));
    // The monitor does not queue a task that is claimed.
    run_monitor(&mut store, process_existing_tasks()).unwrap();
    assert!(!store.has(b"queue/svc/a"));
}

#[test]
fn lost_lease_is_seen_on_the_next_renewal_and_halts_writes() {
    let mut store = FakeStore::new();
    store.put(b"tasks/svc/a", b"{\"status\":\"pending\"}");
    run_monitor(&mut store, process_existing_tasks()).unwrap();
    let queue = Queue::connect(b"svc", b"w1");
    let mut clock = 0;
    let mut task = search(&mut store, &queue, clock, 20).unwrap().unwrap();
    let first = task.start(clock);
    run(&mut store, &mut task, first, &mut clock, 0).unwrap();
    let lease = store.kvs[&b"claims/svc/a".to_vec()].lease;
    store.end_lease(lease);
    let before = store.value(b"tasks/svc/a");

    clock += 1500;
    let first = task.set_progress(json("1"), clock);
    let result = run(&mut store, &mut task, first, &mut clock, 0);
    assert!(matches!(result, Err(TaskStateError::LeaseExpired)));
    assert!(task.is_expired());
    assert_eq!(store.value(b"tasks/svc/a"), before);

    // From now on nothing is asked of the store.
    assert!(matches!(task.set_progress(json("2"), clock), Step::Done(Err(TaskStateError::LeaseExpired))));
    assert!(matches!(task.finish(json("3"), clock + 5000), Step::Done(Err(TaskStateError::LeaseExpired))));
    assert!(matches!(task.alive(clock + 5000), Step::Done(Err(TaskStateError::LeaseExpired))));
    assert_eq!(store.value(b"tasks/svc/a"), before);
}

#[test]
fn write_under_a_lost_lease_changes_nothing() {
    let mut store = FakeStore::new();
    store.put(b"tasks/svc/a", b"{\"status\":\"pending\"}");
    run_monitor(&mut store, process_existing_tasks()).unwrap();
    let queue = Queue::connect(b"svc", b"w1");
    let mut clock = 0;
    let mut task = search(&mut store, &queue, clock, 20).unwrap().unwrap();
    let lease = store.kvs[&b"claims/svc/a".to_vec()].lease;
    store.end_lease(lease);
    let before = store.value(b"tasks/svc/a");
    // No renewal is due yet, so the write goes out, and the store refuses it.
    let first = task.start(clock);
    assert!(matches!(first, Step::Call(Request::Txn { .. })));
    let result = run(&mut store, &mut task, first, &mut clock, 0);
    assert!(matches!(result, Err(TaskStateError::Etcd(_))));
    assert_eq!(store.value(b"tasks/svc/a"), before);
    assert!(!store.has(b"claims/svc/a"));
}

#[test]
fn compaction_makes_the_monitor_scan_anew() {
    let mut store = FakeStore::new();
    store.put(b"tasks/svc/a", b"{\"status\":\"pending\"}");
    let scanned = run_monitor(&mut store, process_existing_tasks()).unwrap();
    let revision = match scanned.next() {
        MonitorNext::Watch { revision } => revision,
        _ => panic!("the scan is followed by the watches"),
    };
    assert_eq!(MonitorEnd::Scanned { revision: 41 }.next(), MonitorNext::Watch { revision: 42 });
    store.put(b"tasks/svc/b", b"{\"status\":\"pending\"}");
    store.compacted = store.revision;
    let ended = run_monitor(&mut store, process_task_updates(revision)).unwrap();
    assert_eq!(ended, MonitorEnd::Compacted);
    assert_eq!(ended.next(), MonitorNext::Rescan);
    assert!(!store.has(b"queue/svc/b"));
    run_monitor(&mut store, process_existing_tasks()).unwrap();
    assert!(store.has(b"queue/svc/b"));
    assert_eq!(MonitorEnd::Canceled.next(), MonitorNext::Exit);
    assert_eq!(MonitorEnd::Ended.next(), MonitorNext::Exit);
}

#[test]
fn next_task_takes_the_oldest_entry_first_and_waits_on_the_watch() {
    let mut store = FakeStore::new();
    store.put(b"tasks/svc/z", b"{\"status\":\"pending\"}");
    store.put(b"tasks/svc/a", b"{\"status\":\"resuming\"}");
    store.put(b"tasks/other/a", b"{\"status\":\"pending\"}");
    run_monitor(&mut store, process_task_updates(1)).unwrap();
    let queue = Queue::connect(b"svc", b"w1");
    let first = search(&mut store, &queue, 0, 20).unwrap().unwrap();
    assert_eq!(first.task_id(), b"svc/z");
    let second = search(&mut store, &queue, 0, 20).unwrap().unwrap();
    assert_eq!(second.task_id(), b"svc/a");
    assert_eq!(second.status(), TaskStatus::Resuming);
    assert!(store.has(b"queue/other/a"));

    // Nothing is left for the service: the search turns to the watch.
    let (mut search, request) = queue.next_task();
    let page = store.perform(request);
    let watch = match search.proceed(&queue, page, 0) {
        Step::Call(request) => request,
        Step::Done(_) => panic!("the search goes on"),
    };
    assert!(matches!(watch, Request::Watch { kind: WatchKind::Puts, .. }));
    store.put(b"tasks/svc/late", b"{\"status\":\"pending\"}");
    run_monitor(&mut store, process_existing_tasks()).unwrap();
    let mut step = search.proceed(&queue, store.perform(watch), 0);
    let task = loop {
        match step {
            Step::Done(result) => break result.unwrap(),
            Step::Call(request) => {
                let response = store.perform(request);
                step = search.proceed(&queue, response, 0);
            }
        }
    };
    assert_eq!(task.task_id(), b"svc/late");
    assert!(store.watch.is_none());
}

use vectorlink_task::resume::{resume, resume_all, ResumeStep};
use vectorlink_task::spawn::{spawn_child, SpawnStep};

fn run_resume(store: &mut FakeStore, task_id: &[u8]) -> Result<bool, TaskStateError> {
    let (mut state, mut request) = resume(task_id);
    loop {
        let response = store.perform(request);
        match state.proceed(response) {
            ResumeStep::Done(result) => return result,
            ResumeStep::Call(next, then) => {
                state = next;
                request = then;
            }
        }
    }
}

#[test]
fn resume_takes_a_task_in_error_back_to_resuming() {
    let mut store = FakeStore::new();
    store.put(b"tasks/svc/a", b"{\"status\":\"error\",\"error\":\"boom\",\"progress\":{\"step\":2}}");
    store.put(b"tasks/svc/b", b"{\"status\":\"complete\",\"result\":1}");
    store.put(b"tasks/svc/c", b"no record");
    assert_eq!(run_resume(&mut store, b"svc/a").unwrap(), true);
    let record = store.record(b"tasks/svc/a");
    assert_eq!(record.status(), TaskStatus::Resuming);
    assert_eq!(record.field("error"), None);
    assert_eq!(record.field("progress"), Some(json("{\"step\":2}")));
    assert_eq!(run_resume(&mut store, b"svc/a").unwrap(), false);
    assert_eq!(run_resume(&mut store, b"svc/b").unwrap(), false);
    assert_eq!(store.record(b"tasks/svc/b").status(), TaskStatus::Complete);
    assert_eq!(run_resume(&mut store, b"svc/missing").unwrap(), false);
    assert!(matches!(run_resume(&mut store, b"svc/c"), Err(TaskStateError::Json(_))));
}

#[test]
fn resume_leaves_a_record_that_changed_meanwhile() {
    let mut store = FakeStore::new();
    store.put(b"tasks/svc/a", b"{\"status\":\"error\"}");
    let (state, request) = resume(b"svc/a");
    let read = store.perform(request);
    let (state, write) = match state.proceed(read) {
        ResumeStep::Call(state, request) => (state, request),
        ResumeStep::Done(_) => panic!("the record is written"),
    };
    store.put(b"tasks/svc/a", b"{\"status\":\"error\",\"error\":\"again\"}");
    let answer = store.perform(write);
    match state.proceed(answer) {
        ResumeStep::Done(Ok(resumed)) => assert!(!resumed),
        _ => panic!("the resume ends"),
    }
    assert_eq!(store.record(b"tasks/svc/a").status(), TaskStatus::Error);
}

#[test]
fn resume_all_resumes_every_task_under_the_prefix() {
    let mut store = FakeStore::new();
    store.put(b"tasks/svc/a1", b"{\"status\":\"error\"}");
    store.put(b"tasks/svc/a2", b"{\"status\":\"running\"}");
    store.put(b"tasks/svc/a3", b"{\"status\":\"error\",\"error\":7}");
    store.put(b"tasks/svc/b1", b"{\"status\":\"error\"}");
    store.put(b"tasks/other/a1", b"{\"status\":\"error\"}");
    let (mut all, request) = resume_all(b"svc/a");
    let mut step = Step::Call(request);
    let result = loop {
        match step {
            Step::Done(result) => break result,
            Step::Call(request) => {
                let response = store.perform(request);
                step = all.proceed(response);
            }
        }
    };
    assert!(result.is_ok());
    assert_eq!(store.record(b"tasks/svc/a1").status(), TaskStatus::Resuming);
    assert_eq!(store.record(b"tasks/svc/a2").status(), TaskStatus::Running);
    assert_eq!(store.record(b"tasks/svc/a3").status(), TaskStatus::Resuming);
    assert_eq!(store.record(b"tasks/svc/a3").field("error"), None);
    assert_eq!(store.record(b"tasks/svc/b1").status(), TaskStatus::Error);
    assert_eq!(store.record(b"tasks/other/a1").status(), TaskStatus::Error);
}

fn run_spawn(store: &mut FakeStore, parent: &Task, child: &[u8], init: Value) -> Result<(), TaskStateError> {
    let (mut state, mut request) = spawn_child(parent, child, init);
    loop {
        let response = store.perform(request);
        match state.proceed(response) {
            SpawnStep::Done(result) => return result,
            SpawnStep::Call(next, then) => {
                state = next;
                request = then;
            }
        }
    }
}

#[test]
fn spawn_child_creates_a_pending_child_of_the_parent() {
    let mut store = FakeStore::new();
    let parent = Task::new(
        b"svc/p".to_vec(),
        b"w1".to_vec(),
        Some(1),
        TaskData::new(TaskStatus::Running),
        0,
    );
    run_spawn(&mut store, &parent, b"svc/c", json("{\"n\":1}")).unwrap();
    let child = store.record(b"tasks/svc/c");
    assert_eq!(child.status(), TaskStatus::Pending);
    assert_eq!(child.parent(), Some("svc/p".to_owned()));
    assert_eq!(child.children(), None);
    assert_eq!(child.field("init"), Some(json("{\"n\":1}")));

    // A child that is still at work is not spawned over.
    let again = run_spawn(&mut store, &parent, b"svc/c", json("2"));
    assert!(matches!(again, Err(TaskStateError::TaskAlreadyRunning)));
    assert_eq!(store.record(b"tasks/svc/c").field("init"), Some(json("{\"n\":1}")));

    // One that has ended is, and so is what is no record.
    store.put(b"tasks/svc/c", b"{\"status\":\"complete\",\"result\":5}");
    run_spawn(&mut store, &parent, b"svc/c", json("3")).unwrap();
    assert_eq!(store.record(b"tasks/svc/c").status(), TaskStatus::Pending);
    assert_eq!(store.record(b"tasks/svc/c").field("result"), None);
    store.put(b"tasks/svc/d", b"garbage");
    run_spawn(&mut store, &parent, b"svc/d", json("4")).unwrap();
    assert_eq!(store.record(b"tasks/svc/d").field("init"), Some(json("4")));
}
