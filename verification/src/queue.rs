//! The queue of a service, as a worker sees it: the way to the next task
//! that can be claimed.

use crate::key::{
    claim_key, get_increment_key, key_after_prefix, prefix_range_end, queue_key,
    queue_key_task_id, queue_prefix_bytes, spec_claim_key, spec_queue_key, spec_task_key,
    task_key,
};
use crate::record::{record_of_bytes, TaskData};
use crate::request::{
    missing_record, record_is_missing, unexpected, unexpected_response, Request, RequestView,
    Response, ResponseView, StoreError, TaskStateError, TaskStateErrorView, WatchEvent,
    WatchEventView, WatchKind,
};
use crate::store::{kvs_view, KeyValue, KeyValueView};
use crate::task::{PhaseView, Step, Task, TaskView, LEASE_TTL_SECONDS};
use crate::txn::{claim_txn, spec_claim_txn};
use vstd::prelude::*;
use vstd::slice::slice_to_vec;

verus! {

/// The number of queue entries that one scan of the queue asks for.
pub const QUEUE_PAGE_SIZE: i64 = 100;

/// The queue of one service, for one worker.
pub struct Queue {
    service_name: Vec<u8>,
    identity: Vec<u8>,
}

pub struct QueueView {
    pub service_name: Seq<u8>,
    /// The identity of the worker: the value of the claims that it makes.
    pub identity: Seq<u8>,
}

impl View for Queue {
    type V = QueueView;

    closed spec fn view(&self) -> QueueView {
        QueueView { service_name: self.service_name@, identity: self.identity@ }
    }
}

impl QueueView {
    /// The prefix of the ids of the service's tasks: `<service>/`.
    pub open spec fn id_prefix(self) -> Seq<u8> {
        self.service_name.push(47u8)
    }

    /// The prefix of the service's queue entries: `queue/<service>/`.
    pub open spec fn queue_prefix(self) -> Seq<u8> {
        spec_queue_key(self.id_prefix())
    }

    /// The scan of the service's queue from `start` on: a page of entries in
    /// the order of their creation.
    pub open spec fn scan(self, start: Seq<u8>) -> RequestView {
        RequestView::Range {
            start,
            end: prefix_range_end(self.queue_prefix()),
            limit: QUEUE_PAGE_SIZE,
            revision: 0,
            by_creation: true,
        }
    }
}

/// The ids of the tasks whose queue entries are `kvs`, in their order. A key
/// that is too short for a queue entry names no task.
pub open spec fn queued_ids(kvs: Seq<KeyValueView>) -> Seq<Seq<u8>>
    decreases kvs.len(),
{
    if kvs.len() == 0 {
        Seq::empty()
    } else if kvs.last().key.len() >= queue_prefix_bytes().len() {
        queued_ids(kvs.drop_last()).push(
            kvs.last().key.skip(queue_prefix_bytes().len() as int),
        )
    } else {
        queued_ids(kvs.drop_last())
    }
}

/// The queue entries that the events of a watch tell of: the keys that were
/// written.
pub open spec fn written_kvs(events: Seq<WatchEventView>) -> Seq<KeyValueView>
    decreases events.len(),
{
    if events.len() == 0 {
        Seq::empty()
    } else {
        let last = events.last();
        if last.kind == WatchKind::Puts && last.kv is Some {
            written_kvs(events.drop_last()).push(last.kv->0)
        } else {
            written_kvs(events.drop_last())
        }
    }
}

/// Where the search for the next task stands.
pub enum NextPhase {
    /// A page of the queue was asked for.
    Scanning,
    /// A lease was asked for, to claim the task `task_id` with.
    Granting { task_id: Vec<u8> },
    /// The claim transaction for the task `task_id` was handed out.
    Claiming { task_id: Vec<u8>, lease: i64 },
    /// The record of the task `task_id`, just claimed, was asked for.
    Loading { task_id: Vec<u8>, lease: i64 },
    /// Events of the watch on the queue were asked for.
    Watching,
    /// The end of the watch was asked for; the task is claimed.
    Canceling { task: Task },
}

pub enum NextPhaseView {
    Scanning,
    Granting { task_id: Seq<u8> },
    Claiming { task_id: Seq<u8>, lease: i64 },
    Loading { task_id: Seq<u8>, lease: i64 },
    Watching,
    Canceling { task: TaskView },
}

impl View for NextPhase {
    type V = NextPhaseView;

    open spec fn view(&self) -> NextPhaseView {
        match self {
            NextPhase::Scanning => NextPhaseView::Scanning,
            NextPhase::Granting { task_id } => NextPhaseView::Granting { task_id: task_id@ },
            NextPhase::Claiming { task_id, lease } => NextPhaseView::Claiming {
                task_id: task_id@,
                lease: *lease,
            },
            NextPhase::Loading { task_id, lease } => NextPhaseView::Loading {
                task_id: task_id@,
                lease: *lease,
            },
            NextPhase::Watching => NextPhaseView::Watching,
            NextPhase::Canceling { task } => NextPhaseView::Canceling { task: task@ },
        }
    }
}

/// The search for the next task that can be claimed.
pub struct NextTask {
    phase: NextPhase,
    revision: i64,
    candidates: Vec<Vec<u8>>,
    next: usize,
    more: bool,
    last_key: Vec<u8>,
    watching: bool,
}

pub struct NextTaskView {
    pub phase: NextPhaseView,
    /// The revision of the store at the first page of the scan: the anchor
    /// of the watch. Zero before the first page has come.
    pub revision: i64,
    /// The ids of the tasks that the last page or batch of events told of.
    pub candidates: Seq<Seq<u8>>,
    /// How many of the candidates were tried.
    pub next: int,
    /// Whether the queue has entries beyond the last page.
    pub more: bool,
    /// The last key of the last page.
    pub last_key: Seq<u8>,
    /// Whether the scan has given way to the watch.
    pub watching: bool,
}

impl View for NextTask {
    type V = NextTaskView;

    closed spec fn view(&self) -> NextTaskView {
        NextTaskView {
            phase: self.phase@,
            revision: self.revision,
            candidates: self.candidates@.map_values(|id: Vec<u8>| id@),
            next: self.next as int,
            more: self.more,
            last_key: self.last_key@,
            watching: self.watching,
        }
    }
}

/// What the search hands back, as the contracts speak of it.
pub enum NextStepView {
    Call(RequestView),
    Done(Result<TaskView, TaskStateErrorView>),
}

pub open spec fn next_step_view(step: Step<Result<Task, TaskStateError>>) -> NextStepView {
    match step {
        Step::Call(request) => NextStepView::Call(request@),
        Step::Done(Ok(task)) => NextStepView::Done(Ok(task@)),
        Step::Done(Err(error)) => NextStepView::Done(Err(error@)),
    }
}

impl NextTaskView {
    /// The search at its start.
    pub open spec fn initial() -> NextTaskView {
        NextTaskView {
            phase: NextPhaseView::Scanning,
            revision: 0,
            candidates: Seq::empty(),
            next: 0,
            more: false,
            last_key: Seq::empty(),
            watching: false,
        }
    }

    /// What the search does when it has no answer to wait for: it tries the
    /// next candidate, by asking for a lease to claim it with; without a
    /// candidate it asks for the next page of the queue, where there is one;
    /// at the end of the queue it installs a watch at the revision of the
    /// first page, and from then on waits for its events.
    pub open spec fn advances(
        self,
        queue: QueueView,
        after: NextTaskView,
        step: NextStepView,
    ) -> bool {
        if 0 <= self.next < self.candidates.len() {
            after == (NextTaskView {
                phase: NextPhaseView::Granting { task_id: self.candidates[self.next] },
                next: self.next + 1,
                ..self
            }) && step == NextStepView::Call(RequestView::LeaseGrant { ttl: LEASE_TTL_SECONDS })
        } else if !self.watching && self.more {
            after == (NextTaskView { phase: NextPhaseView::Scanning, ..self }) && step
                == NextStepView::Call(queue.scan(self.last_key.push(0u8)))
        } else if !self.watching {
            after == (NextTaskView { phase: NextPhaseView::Watching, watching: true, ..self })
                && step == NextStepView::Call(
                RequestView::Watch {
                    prefix: queue.queue_prefix(),
                    start_revision: self.revision,
                    kind: WatchKind::Puts,
                },
            )
        } else {
            after == (NextTaskView { phase: NextPhaseView::Watching, ..self }) && step
                == NextStepView::Call(RequestView::NextEvents)
        }
    }

    /// The search with no answer to wait for.
    pub open spec fn at_rest(self) -> NextTaskView {
        NextTaskView { phase: NextPhaseView::Scanning, ..self }
    }

    /// The search starts over: with the first page of the queue.
    pub open spec fn restarts(
        self,
        queue: QueueView,
        after: NextTaskView,
        step: NextStepView,
    ) -> bool {
        after == NextTaskView::initial() && step == NextStepView::Call(
            queue.scan(queue.queue_prefix()),
        )
    }

    /// The next step of the search, on the answer `response` that came at
    /// the time `now`.
    pub open spec fn proceeds(
        self,
        queue: QueueView,
        response: ResponseView,
        now: u64,
        after: NextTaskView,
        step: NextStepView,
    ) -> bool {
        match (self.phase, response) {
            (_, ResponseView::Failed { message }) => after == self.at_rest() && step == NextStepView::Done(
                Err(TaskStateErrorView::Etcd(message)),
            ),
            (NextPhaseView::Scanning, ResponseView::Kvs { kvs, more, revision }) => (NextTaskView {
                revision: if self.revision == 0 {
                    revision
                } else {
                    self.revision
                },
                candidates: queued_ids(kvs),
                next: 0,
                more: more && kvs.len() > 0,
                last_key: if kvs.len() > 0 {
                    kvs.last().key
                } else {
                    self.last_key
                },
                ..self
            }).advances(queue, after, step),
            (NextPhaseView::Granting { task_id }, ResponseView::LeaseGranted { lease }) => after
                == (NextTaskView { phase: NextPhaseView::Claiming { task_id, lease }, ..self })
                && step == NextStepView::Call(
                RequestView::Txn {
                    txn: spec_claim_txn(
                        spec_queue_key(task_id),
                        spec_claim_key(task_id),
                        queue.identity,
                        lease,
                    ),
                },
            ),
            (NextPhaseView::Claiming { task_id, lease }, ResponseView::TxnDone { succeeded, .. }) =>
                if succeeded {
                    after == (NextTaskView {
                        phase: NextPhaseView::Loading { task_id, lease },
                        ..self
                    }) && step == NextStepView::Call(
                        RequestView::Get { key: spec_task_key(task_id), revision: 0 },
                    )
                } else {
                    self.advances(queue, after, step)
                },
            (NextPhaseView::Loading { task_id, lease }, ResponseView::Kvs { kvs, .. }) => if kvs.len()
                == 0 {
                after == self.at_rest() && step == NextStepView::Done(
                    Err(TaskStateErrorView::Etcd(record_is_missing())),
                )
            } else {
                match record_of_bytes(kvs[0].value) {
                    Err(error) => after == self.at_rest() && step == NextStepView::Done(
                        Err(TaskStateErrorView::Json(error)),
                    ),
                    Ok(record) => {
                        let task = TaskView {
                            task_id,
                            identity: queue.identity,
                            lease: Some(lease),
                            state: record,
                            last_renew: now,
                            expired: false,
                            phase: PhaseView::Idle,
                        };
                        if self.watching {
                            after == (NextTaskView {
                                phase: NextPhaseView::Canceling { task },
                                ..self
                            }) && step == NextStepView::Call(RequestView::CancelWatch)
                        } else {
                            after == self.at_rest() && step == NextStepView::Done(Ok(task))
                        }
                    },
                }
            },
            (NextPhaseView::Watching, ResponseView::Events { canceled, events, .. }) => if canceled {
                self.restarts(queue, after, step)
            } else {
                (NextTaskView { candidates: queued_ids(written_kvs(events)), next: 0, ..self }).advances(
                    queue,
                    after,
                    step,
                )
            },
            (NextPhaseView::Watching, ResponseView::EndOfEvents) => self.restarts(
                queue,
                after,
                step,
            ),
            (NextPhaseView::Canceling { task }, _) => after == self.at_rest() && step == NextStepView::Done(
                Ok(task),
            ),
            _ => after == self.at_rest() && step == NextStepView::Done(
                Err(TaskStateErrorView::Etcd(unexpected_response())),
            ),
        }
    }
}

/// The ids of the tasks whose queue entries are `kvs`, in their order.
fn ids_of(kvs: &Vec<KeyValue>) -> (ids: Vec<Vec<u8>>)
    ensures
        ids@.map_values(|id: Vec<u8>| id@) == queued_ids(kvs_view(kvs@)),
{
    let ghost all = kvs_view(kvs@);
    let mut ids: Vec<Vec<u8>> = Vec::new();
    let mut i: usize = 0;
    while i < kvs.len()
        invariant
            i <= kvs.len(),
            all == kvs_view(kvs@),
            ids@.map_values(|id: Vec<u8>| id@) == queued_ids(all.take(i as int)),
        decreases kvs.len() - i,
    {
        proof {
            assert(all.take(i + 1).drop_last() == all.take(i as int));
        }
        let ghost before = ids@.map_values(|id: Vec<u8>| id@);
        let key = kvs[i].key.as_slice();
        if key.len() >= 6 {
            let id = slice_to_vec(queue_key_task_id(key));
            ids.push(id);
            assert(ids@.map_values(|id: Vec<u8>| id@) =~= before.push(
                all[i as int].key.skip(queue_prefix_bytes().len() as int),
            ));
        }
        i = i + 1;
    }
    assert(all.take(i as int) == all);
    ids
}

/// A copy of a key of the store.
pub fn clone_kv(kv: &KeyValue) -> (copy: KeyValue)
    ensures
        copy@ == kv@,
{
    KeyValue {
        key: kv.key.clone(),
        value: kv.value.clone(),
        version: kv.version,
        create_revision: kv.create_revision,
        mod_revision: kv.mod_revision,
        lease: kv.lease,
    }
}

/// The keys that the events of a watch tell to be written.
fn kvs_written(events: &Vec<WatchEvent>) -> (kvs: Vec<KeyValue>)
    ensures
        kvs_view(kvs@) == written_kvs(events@.map_values(|event: WatchEvent| event@)),
{
    let ghost all = events@.map_values(|event: WatchEvent| event@);
    let mut kvs: Vec<KeyValue> = Vec::new();
    let mut i: usize = 0;
    while i < events.len()
        invariant
            i <= events.len(),
            all == events@.map_values(|event: WatchEvent| event@),
            kvs_view(kvs@) == written_kvs(all.take(i as int)),
        decreases events.len() - i,
    {
        proof {
            assert(all.take(i + 1).drop_last() == all.take(i as int));
        }
        if events[i].kind == WatchKind::Puts {
            match &events[i].kv {
                Some(kv) => {
                    kvs.push(clone_kv(kv));
                },
                None => {},
            }
        }
        i = i + 1;
    }
    assert(all.take(i as int) == all);
    kvs
}

impl Queue {
    /// The queue of the service `service_name`, for the worker `identity`.
    pub fn connect(service_name: &[u8], identity: &[u8]) -> (queue: Queue)
        ensures
            queue@ == (QueueView { service_name: service_name@, identity: identity@ }),
    {
        Queue { service_name: slice_to_vec(service_name), identity: slice_to_vec(identity) }
    }

    pub fn identity(&self) -> (identity: &[u8])
        ensures
            identity@ == self@.identity,
    {
        self.identity.as_slice()
    }

    /// The id of the task that the service knows as `name`:
    /// `<service>/<name>`.
    pub fn task_id(&self, name: &[u8]) -> (task_id: Vec<u8>)
        ensures
            task_id@ == self@.id_prefix() + name@,
    {
        let mut task_id = self.service_name.clone();
        task_id.push(47u8);
        task_id.extend_from_slice(name);
        task_id
    }

    /// The prefix of the service's queue entries.
    pub fn queue_prefix(&self) -> (prefix: Vec<u8>)
        ensures
            prefix@ == self@.queue_prefix(),
    {
        let mut id_prefix = self.service_name.clone();
        id_prefix.push(47u8);
        queue_key(id_prefix.as_slice())
    }

    /// The scan of the service's queue from `start` on.
    fn scan(&self, start: Vec<u8>) -> (request: Request)
        ensures
            request@ == self@.scan(start@),
    {
        let prefix = self.queue_prefix();
        let end = key_after_prefix(prefix.as_slice());
        Request::Range { start, end, limit: QUEUE_PAGE_SIZE, revision: 0, by_creation: true }
    }

    /// Starts the search for the next task that can be claimed: with the
    /// first page of the queue, oldest entries first.
    pub fn next_task(&self) -> (started: (NextTask, Request))
        ensures
            started.0@ == NextTaskView::initial(),
            started.1@ == self@.scan(self@.queue_prefix()),
    {
        let search = NextTask {
            phase: NextPhase::Scanning,
            revision: 0,
            candidates: Vec::new(),
            next: 0,
            more: false,
            last_key: Vec::new(),
            watching: false,
        };
        assert(search@.candidates =~= Seq::empty());
        let prefix = self.queue_prefix();
        (search, self.scan(prefix))
    }
}

impl NextTask {
    /// What the search does when it has no answer to wait for.
    fn advance(&mut self, queue: &Queue) -> (step: Step<Result<Task, TaskStateError>>)
        ensures
            old(self)@.advances(queue@, final(self)@, next_step_view(step)),
    {
        if self.next < self.candidates.len() {
            let task_id = self.candidates[self.next].clone();
            self.next = self.next + 1;
            self.phase = NextPhase::Granting { task_id };
            Step::Call(Request::LeaseGrant { ttl: LEASE_TTL_SECONDS })
        } else if !self.watching && self.more {
            let start = get_increment_key(self.last_key.as_slice());
            self.phase = NextPhase::Scanning;
            Step::Call(queue.scan(start))
        } else if !self.watching {
            self.watching = true;
            self.phase = NextPhase::Watching;
            Step::Call(
                Request::Watch {
                    prefix: queue.queue_prefix(),
                    start_revision: self.revision,
                    kind: WatchKind::Puts,
                },
            )
        } else {
            self.phase = NextPhase::Watching;
            Step::Call(Request::NextEvents)
        }
    }

    /// The search starts over.
    fn restart(&mut self, queue: &Queue) -> (step: Step<Result<Task, TaskStateError>>)
        ensures
            old(self)@.restarts(queue@, final(self)@, next_step_view(step)),
    {
        self.phase = NextPhase::Scanning;
        self.revision = 0;
        self.candidates = Vec::new();
        self.next = 0;
        self.more = false;
        self.last_key = Vec::new();
        self.watching = false;
        assert(self@.candidates =~= Seq::empty());
        let prefix = queue.queue_prefix();
        Step::Call(queue.scan(prefix))
    }

    /// Takes the answer of the store to the request that was handed out
    /// last, at the time `now`, and hands out what comes next: a request, or
    /// the task that was claimed.
    pub fn proceed(&mut self, queue: &Queue, response: Response, now: u64) -> (step: Step<
        Result<Task, TaskStateError>,
    >)
        ensures
            old(self)@.proceeds(queue@, response@, now, final(self)@, next_step_view(step)),
    {
        let mut phase = NextPhase::Scanning;
        core::mem::swap(&mut self.phase, &mut phase);
        match (phase, response) {
            (_, Response::Failed { message }) => Step::Done(
                Err(TaskStateError::Etcd(StoreError { message })),
            ),
            (NextPhase::Scanning, Response::Kvs { kvs, more, revision }) => {
                if self.revision == 0 {
                    self.revision = revision;
                }
                self.candidates = ids_of(&kvs);
                self.next = 0;
                self.more = more && kvs.len() > 0;
                if kvs.len() > 0 {
                    self.last_key = kvs[kvs.len() - 1].key.clone();
                }
                self.advance(queue)
            },
            (NextPhase::Granting { task_id }, Response::LeaseGranted { lease }) => {
                let queue_key = queue_key(task_id.as_slice());
                let claim_key = claim_key(task_id.as_slice());
                let txn = claim_txn(
                    queue_key.as_slice(),
                    claim_key.as_slice(),
                    queue.identity.as_slice(),
                    lease,
                );
                self.phase = NextPhase::Claiming { task_id, lease };
                Step::Call(Request::Txn { txn })
            },
            (NextPhase::Claiming { task_id, lease }, Response::TxnDone { succeeded, gets }) => {
                if succeeded {
                    let key = task_key(task_id.as_slice());
                    self.phase = NextPhase::Loading { task_id, lease };
                    Step::Call(Request::Get { key, revision: 0 })
                } else {
                    self.advance(queue)
                }
            },
            (NextPhase::Loading { task_id, lease }, Response::Kvs { kvs, more, revision }) => {
                if kvs.len() == 0 {
                    Step::Done(Err(missing_record()))
                } else {
                    match TaskData::from_bytes(kvs[0].value.as_slice()) {
                        Err(error) => Step::Done(Err(TaskStateError::Json(error))),
                        Ok(record) => {
                            let task = Task::new(
                                task_id,
                                queue.identity.clone(),
                                Some(lease),
                                record,
                                now,
                            );
                            if self.watching {
                                self.phase = NextPhase::Canceling { task };
                                Step::Call(Request::CancelWatch)
                            } else {
                                Step::Done(Ok(task))
                            }
                        },
                    }
                }
            },
            (NextPhase::Watching, Response::Events { revision, canceled, compacted, events }) => {
                if canceled {
                    self.restart(queue)
                } else {
                    let kvs = kvs_written(&events);
                    self.candidates = ids_of(&kvs);
                    self.next = 0;
                    self.advance(queue)
                }
            },
            (NextPhase::Watching, Response::EndOfEvents) => self.restart(queue),
            (NextPhase::Canceling { task }, _) => Step::Done(Ok(task)),
            _ => Step::Done(Err(unexpected())),
        }
    }
}

} // verus!
