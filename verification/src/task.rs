//! A claimed task: the lease, the claim and the interrupt of one task, held
//! together as one session.
//!
//! Every operation on a task is a short exchange with the store. The task
//! hands out one request at a time; `proceed` takes the answer and hands out
//! the next, until the operation is done. Whatever the operation, it renews
//! the lease first where a renewal is due, and looks for an interrupt then.

use crate::json::json_document_pretty;
use crate::key::{
    claim_key, interrupt_key, spec_claim_key, spec_interrupt_key, spec_task_key, task_key,
};
use crate::record::{fields_encode, TaskData, TaskDataView};
use crate::request::{
    missing_record, record_is_missing, unexpected, unexpected_response, Request, RequestView,
    Response, ResponseView, StoreError, TaskAliveError, TaskStateError, TaskStateErrorView,
};
use crate::status::{InterruptReason, TaskStatus};
use crate::store::KeyValue;
use crate::txn::{interrupt_txn, spec_interrupt_txn, spec_update_txn, update_txn};
use serde_json::Value;
use vstd::prelude::*;

verus! {

/// A renewal of the lease is due once this many milliseconds have passed
/// since the last one.
pub const RENEW_INTERVAL_MS: u64 = 1000;

/// The seconds that the lease of a claim lives without a renewal.
pub const LEASE_TTL_SECONDS: i64 = 10;

/// What the library hands back from a machine: the next request to perform,
/// or the result.
pub enum Step<T> {
    Call(Request),
    Done(T),
}

/// What an operation does once the lease is known to be alive.
pub enum Plan {
    Nothing,
    /// Write `record` as the task's record, and revoke the lease after it
    /// where `release` says so.
    Write { record: TaskData, release: bool },
    /// Read the task's record.
    Fetch,
}

pub enum PlanView {
    Nothing,
    Write { record: TaskDataView, release: bool },
    Fetch,
}

impl View for Plan {
    type V = PlanView;

    open spec fn view(&self) -> PlanView {
        match self {
            Plan::Nothing => PlanView::Nothing,
            Plan::Write { record, release } => PlanView::Write {
                record: record@,
                release: *release,
            },
            Plan::Fetch => PlanView::Fetch,
        }
    }
}

/// Where an operation on a task stands: which answer of the store it waits
/// for.
pub enum Phase {
    /// No operation is under way.
    Idle,
    /// The renewal of the lease.
    Renewing(Plan),
    /// The read of the interrupt key.
    ReadingInterrupt(Plan),
    /// The transaction that consumes the interrupt and writes `record`.
    Consuming { record: TaskData, then_fetch: bool },
    /// The transaction that writes `record`.
    Writing { record: TaskData, release: bool },
    /// The revocation of the lease.
    Revoking,
    /// The read of the task's record.
    Fetching,
}

pub enum PhaseView {
    Idle,
    Renewing(PlanView),
    ReadingInterrupt(PlanView),
    Consuming { record: TaskDataView, then_fetch: bool },
    Writing { record: TaskDataView, release: bool },
    Revoking,
    Fetching,
}

impl View for Phase {
    type V = PhaseView;

    open spec fn view(&self) -> PhaseView {
        match self {
            Phase::Idle => PhaseView::Idle,
            Phase::Renewing(plan) => PhaseView::Renewing(plan@),
            Phase::ReadingInterrupt(plan) => PhaseView::ReadingInterrupt(plan@),
            Phase::Consuming { record, then_fetch } => PhaseView::Consuming {
                record: record@,
                then_fetch: *then_fetch,
            },
            Phase::Writing { record, release } => PhaseView::Writing {
                record: record@,
                release: *release,
            },
            Phase::Revoking => PhaseView::Revoking,
            Phase::Fetching => PhaseView::Fetching,
        }
    }
}

/// A task as a worker holds it.
pub struct Task {
    task_id: Vec<u8>,
    queue_identity: Vec<u8>,
    lease: Option<i64>,
    state: TaskData,
    last_renew: u64,
    expired: bool,
    phase: Phase,
}

pub struct TaskView {
    /// The id of the task: `<service>/<id>`.
    pub task_id: Seq<u8>,
    /// The identity of the worker, which is the value of its claims.
    pub identity: Seq<u8>,
    /// The lease of the claim. A task that is only looked at has none.
    pub lease: Option<i64>,
    /// The task's record, as last read or written.
    pub state: TaskDataView,
    /// When the lease was last renewed, in milliseconds.
    pub last_renew: u64,
    /// The lease was found gone. Nothing is asked of the store any more.
    pub expired: bool,
    pub phase: PhaseView,
}

/// What a task operation hands back, as the contracts speak of it.
pub enum TaskStepView {
    Call(RequestView),
    Done(Result<(), TaskStateErrorView>),
}

pub open spec fn task_step_view(step: Step<Result<(), TaskStateError>>) -> TaskStepView {
    match step {
        Step::Call(request) => TaskStepView::Call(request@),
        Step::Done(Ok(())) => TaskStepView::Done(Ok(())),
        Step::Done(Err(error)) => TaskStepView::Done(Err(error@)),
    }
}

/// `bytes` is a document of `record`, indented for a reader.
pub open spec fn is_document_of(bytes: Seq<u8>, record: TaskDataView) -> bool {
    exists|fields: Seq<(Seq<char>, Value)>|
        fields_encode(fields, record) && bytes == #[trigger] json_document_pretty(fields)
}

impl View for Task {
    type V = TaskView;

    closed spec fn view(&self) -> TaskView {
        TaskView {
            task_id: self.task_id@,
            identity: self.queue_identity@,
            lease: self.lease,
            state: self.state@,
            last_renew: self.last_renew,
            expired: self.expired,
            phase: self.phase@,
        }
    }
}

impl TaskView {
    /// Only a task with a lease waits for an answer to a renewal, a write or
    /// a revocation.
    pub open spec fn wf(self) -> bool {
        match self.phase {
            PhaseView::Idle => true,
            PhaseView::Fetching => true,
            _ => self.lease is Some,
        }
    }

    pub open spec fn with_phase(self, phase: PhaseView) -> TaskView {
        TaskView { phase, ..self }
    }

    /// A renewal of the lease is due at the time `now`.
    pub open spec fn renewal_due(self, now: u64) -> bool {
        now > self.last_renew && now - self.last_renew > RENEW_INTERVAL_MS
    }

    /// `request` is the update transaction that writes a document of
    /// `record` under the task's lease.
    pub open spec fn is_update(self, request: RequestView, record: TaskDataView) -> bool {
        &&& self.lease matches Some(lease)
        &&& request matches RequestView::Txn { txn }
        &&& exists|bytes: Seq<u8>|
            is_document_of(bytes, record) && txn == #[trigger] spec_update_txn(
                spec_claim_key(self.task_id),
                self.identity,
                lease,
                spec_task_key(self.task_id),
                bytes,
            )
    }

    /// `request` is the transaction that writes a document of `record`
    /// under the task's lease and removes the task's interrupt key.
    pub open spec fn is_interrupt_update(self, request: RequestView, record: TaskDataView) -> bool {
        &&& self.lease matches Some(lease)
        &&& request matches RequestView::Txn { txn }
        &&& exists|bytes: Seq<u8>|
            is_document_of(bytes, record) && txn == #[trigger] spec_interrupt_txn(
                spec_claim_key(self.task_id),
                self.identity,
                lease,
                spec_task_key(self.task_id),
                bytes,
                spec_interrupt_key(self.task_id),
            )
    }

    /// What follows once the lease is known to be alive: nothing more, the
    /// write of the plan's record, or the read of the task's record. Without
    /// a lease nothing is written.
    pub open spec fn follows(self, plan: PlanView, after: TaskView, step: TaskStepView) -> bool {
        match plan {
            PlanView::Nothing => after == self.with_phase(PhaseView::Idle) && step
                == TaskStepView::Done(Ok(())),
            PlanView::Write { record, release } => if self.lease is Some {
                &&& after == self.with_phase(PhaseView::Writing { record, release })
                &&& step matches TaskStepView::Call(request)
                &&& self.is_update(request, record)
            } else {
                after == self.with_phase(PhaseView::Idle) && step == TaskStepView::Done(
                    Err(TaskStateErrorView::LeaseExpired),
                )
            },
            PlanView::Fetch => after == self.with_phase(PhaseView::Fetching) && step
                == TaskStepView::Call(
                RequestView::Get { key: spec_task_key(self.task_id), revision: 0 },
            ),
        }
    }

    /// The start of an operation with the plan `plan`, at the time `now`.
    /// A task whose lease was found gone asks nothing of the store any more.
    /// Where a renewal is due, the operation starts with it.
    pub open spec fn begins(
        self,
        plan: PlanView,
        now: u64,
        after: TaskView,
        step: TaskStepView,
    ) -> bool {
        if self.expired {
            after == self && step == TaskStepView::Done(Err(TaskStateErrorView::LeaseExpired))
        } else if self.lease is Some && self.renewal_due(now) {
            after == self.with_phase(PhaseView::Renewing(plan)) && step == TaskStepView::Call(
                RequestView::LeaseKeepAlive { lease: self.lease->0 },
            )
        } else {
            self.with_phase(PhaseView::Idle).follows(plan, after, step)
        }
    }

    /// The interrupt that a read of the interrupt key has found, if it is
    /// one that the task's state gives way to: an interrupt moves a task
    /// that is Running, and no other.
    pub open spec fn interrupt_found(self, kvs: Seq<crate::store::KeyValueView>) -> Option<
        InterruptReason,
    > {
        if kvs.len() > 0 && self.state.status == TaskStatus::Running {
            InterruptReason::spec_from_value(kvs[0].value)
        } else {
            None
        }
    }

    /// The next step of the operation under way, on the answer `response`
    /// that came at the time `now`.
    pub open spec fn proceeds(
        self,
        response: ResponseView,
        now: u64,
        after: TaskView,
        step: TaskStepView,
    ) -> bool {
        match (self.phase, response) {
            (PhaseView::Idle, _) => after == self && step == TaskStepView::Done(
                Err(TaskStateErrorView::Etcd(unexpected_response())),
            ),
            (PhaseView::Renewing(_), ResponseView::Failed { message }) => after == self.with_phase(
                PhaseView::Idle,
            ) && step == TaskStepView::Done(Err(TaskStateErrorView::KeepAliveFailed(message))),
            (PhaseView::ReadingInterrupt(_), ResponseView::Failed { message }) => after
                == self.with_phase(PhaseView::Idle) && step == TaskStepView::Done(
                Err(TaskStateErrorView::KeepAliveFailed(message)),
            ),
            (_, ResponseView::Failed { message }) => after == self.with_phase(PhaseView::Idle)
                && step == TaskStepView::Done(Err(TaskStateErrorView::Etcd(message))),
            (PhaseView::Renewing(plan), ResponseView::LeaseKeptAlive { ttl }) => if ttl <= 0 {
                after == (TaskView { expired: true, phase: PhaseView::Idle, ..self }) && step
                    == TaskStepView::Done(Err(TaskStateErrorView::LeaseExpired))
            } else {
                after == self.with_phase(PhaseView::ReadingInterrupt(plan)) && step
                    == TaskStepView::Call(
                    RequestView::Get { key: spec_interrupt_key(self.task_id), revision: 0 },
                )
            },
            (PhaseView::ReadingInterrupt(plan), ResponseView::Kvs { kvs, .. }) => match
            self.interrupt_found(kvs) {
                Some(reason) => {
                    let record = self.state.with_status(reason.spec_status());
                    &&& after == self.with_phase(
                        PhaseView::Consuming { record, then_fetch: plan is Fetch },
                    )
                    &&& step matches TaskStepView::Call(request)
                    &&& self.is_interrupt_update(request, record)
                },
                None => (TaskView { last_renew: now, phase: PhaseView::Idle, ..self }).follows(
                    plan,
                    after,
                    step,
                ),
            },
            (PhaseView::Consuming { record, then_fetch }, ResponseView::TxnDone { .. }) => {
                let consumed = TaskView {
                    state: record,
                    last_renew: now,
                    phase: PhaseView::Idle,
                    ..self
                };
                if then_fetch {
                    consumed.follows(PlanView::Fetch, after, step)
                } else {
                    after == consumed && step == TaskStepView::Done(
                        Err(TaskStateErrorView::Interrupted),
                    )
                }
            },
            (PhaseView::Writing { record, release }, ResponseView::TxnDone { .. }) => {
                let written = TaskView { state: record, ..self };
                if release && self.lease is Some {
                    after == written.with_phase(PhaseView::Revoking) && step
                        == TaskStepView::Call(
                        RequestView::LeaseRevoke { lease: self.lease->0 },
                    )
                } else {
                    after == written.with_phase(PhaseView::Idle) && step == TaskStepView::Done(
                        Ok(()),
                    )
                }
            },
            (PhaseView::Revoking, ResponseView::Done) => after == (TaskView {
                lease: None,
                phase: PhaseView::Idle,
                ..self
            }) && step == TaskStepView::Done(Ok(())),
            (PhaseView::Fetching, ResponseView::Kvs { kvs, .. }) => if kvs.len() == 0 {
                after == self.with_phase(PhaseView::Idle) && step == TaskStepView::Done(
                    Err(TaskStateErrorView::Etcd(record_is_missing())),
                )
            } else {
                match crate::record::record_of_bytes(kvs[0].value) {
                    Ok(record) => after == (TaskView {
                        state: record,
                        phase: PhaseView::Idle,
                        ..self
                    }) && step == TaskStepView::Done(Ok(())),
                    Err(error) => after == self.with_phase(PhaseView::Idle) && step
                        == TaskStepView::Done(Err(TaskStateErrorView::Json(error))),
                }
            },
            _ => after == self.with_phase(PhaseView::Idle) && step == TaskStepView::Done(
                Err(TaskStateErrorView::Etcd(unexpected_response())),
            ),
        }
    }
}

impl Task {
    #[verifier::type_invariant]
    spec fn well_formed(self) -> bool {
        self@.wf()
    }

    /// A task as a worker holds it from now on: with the record `state` that
    /// was read for it, and under `lease` where the worker has claimed it.
    pub fn new(
        task_id: Vec<u8>,
        identity: Vec<u8>,
        lease: Option<i64>,
        state: TaskData,
        now: u64,
    ) -> (task: Task)
        ensures
            task@ == (TaskView {
                task_id: task_id@,
                identity: identity@,
                lease,
                state: state@,
                last_renew: now,
                expired: false,
                phase: PhaseView::Idle,
            }),
    {
        Task {
            task_id,
            queue_identity: identity,
            lease,
            state,
            last_renew: now,
            expired: false,
            phase: Phase::Idle,
        }
    }

    pub fn task_id(&self) -> (task_id: &[u8])
        ensures
            task_id@ == self@.task_id,
    {
        self.task_id.as_slice()
    }

    /// The task's record, as last read or written.
    pub fn state(&self) -> (state: &TaskData)
        ensures
            state@ == self@.state,
    {
        &self.state
    }

    pub fn status(&self) -> (status: TaskStatus)
        ensures
            status == self@.state.status,
    {
        self.state.status()
    }

    /// The lease of the claim.
    pub fn lease(&self) -> (lease: Option<i64>)
        ensures
            lease == self@.lease,
    {
        self.lease
    }

    pub fn has_lease(&self) -> (has_lease: bool)
        ensures
            has_lease == self@.lease is Some,
    {
        self.lease.is_some()
    }

    /// Whether the lease was found gone.
    pub fn is_expired(&self) -> (expired: bool)
        ensures
            expired == self@.expired,
    {
        self.expired
    }

    /// The slot `init` of the record: what the task was created with.
    pub fn init(&self) -> (value: Option<Value>)
        ensures
            value == self@.state.slot("init"@),
    {
        self.state.field("init")
    }

    /// The slot `progress` of the record.
    pub fn progress(&self) -> (value: Option<Value>)
        ensures
            value == self@.state.slot("progress"@),
    {
        self.state.field("progress")
    }

    /// The slot `result` of the record.
    pub fn result(&self) -> (value: Option<Value>)
        ensures
            value == self@.state.slot("result"@),
    {
        self.state.field("result")
    }

    /// The slot `error` of the record.
    pub fn error(&self) -> (value: Option<Value>)
        ensures
            value == self@.state.slot("error"@),
    {
        self.state.field("error")
    }

    fn renewal_due(&self, now: u64) -> (due: bool)
        ensures
            due == self@.renewal_due(now),
    {
        now > self.last_renew && now - self.last_renew > RENEW_INTERVAL_MS
    }

    /// What follows once the lease is known to be alive.
    fn follow(&mut self, plan: Plan) -> (step: Step<Result<(), TaskStateError>>)
        requires
            old(self)@.phase is Idle,
        ensures
            old(self)@.follows(plan@, final(self)@, task_step_view(step)),
    {
        match plan {
            Plan::Nothing => {
                self.phase = Phase::Idle;
                Step::Done(Ok(()))
            },
            Plan::Write { record, release } => {
                let bytes = record.to_bytes_pretty();
                let ghost document = bytes@;
                let claim = claim_key(self.task_id.as_slice());
                let task = task_key(self.task_id.as_slice());
                let lease = match self.lease {
                    Some(lease) => lease,
                    None => {
                        return Step::Done(Err(TaskStateError::LeaseExpired));
                    },
                };
                let txn = update_txn(
                    claim.as_slice(),
                    self.queue_identity.as_slice(),
                    lease,
                    task.as_slice(),
                    bytes,
                );
                assert(txn@ == spec_update_txn(
                    spec_claim_key(self@.task_id),
                    self@.identity,
                    lease,
                    spec_task_key(self@.task_id),
                    document,
                ));
                let ghost before = self@;
                let ghost written = record@;
                self.phase = Phase::Writing { record, release };
                let step = Step::Call(Request::Txn { txn });
                assert(self@ == before.with_phase(
                    PhaseView::Writing { record: written, release },
                ));
                step
            },
            Plan::Fetch => {
                let key = task_key(self.task_id.as_slice());
                self.phase = Phase::Fetching;
                Step::Call(Request::Get { key, revision: 0 })
            },
        }
    }

    /// The start of an operation.
    fn begin(&mut self, plan: Plan, now: u64) -> (step: Step<Result<(), TaskStateError>>)
        ensures
            old(self)@.begins(plan@, now, final(self)@, task_step_view(step)),
    {
        if self.expired {
            return Step::Done(Err(TaskStateError::LeaseExpired));
        }
        match self.lease {
            Some(lease) => {
                if self.renewal_due(now) {
                    self.phase = Phase::Renewing(plan);
                    return Step::Call(Request::LeaseKeepAlive { lease });
                }
            },
            None => {},
        }
        self.phase = Phase::Idle;
        self.follow(plan)
    }

    /// Proves to the store that the worker is alive, where that is due: at
    /// most one renewal is made in each interval, however often this is
    /// called. With the renewal an interrupt is looked for, and consumed
    /// where there is one.
    pub fn alive(&mut self, now: u64) -> (step: Step<Result<(), TaskStateError>>)
        requires
            old(self)@.lease is Some,
        ensures
            old(self)@.begins(PlanView::Nothing, now, final(self)@, task_step_view(step)),
    {
        self.begin(Plan::Nothing, now)
    }

    /// Reads the task's record anew. A worker that holds the claim proves
    /// itself alive first, where that is due.
    pub fn refresh_state(&mut self, now: u64) -> (step: Step<Result<(), TaskStateError>>)
        ensures
            old(self)@.begins(PlanView::Fetch, now, final(self)@, task_step_view(step)),
    {
        self.begin(Plan::Fetch, now)
    }

    /// Stores `progress` in the slot `progress` of the record. The state of
    /// the task stays as it is.
    pub fn set_progress(&mut self, progress: Value, now: u64) -> (step: Step<
        Result<(), TaskStateError>,
    >)
        requires
            old(self)@.lease is Some,
        ensures
            old(self)@.begins(
                PlanView::Write {
                    record: old(self)@.state.with_slot("progress"@, progress),
                    release: false,
                },
                now,
                final(self)@,
                task_step_view(step),
            ),
    {
        let mut record = self.state.duplicate();
        proof {
            lemma_slot_names();
        }
        let stored = record.set_field("progress", progress);
        self.begin(Plan::Write { record, release: false }, now)
    }

    /// Takes a task that is Pending to Running.
    pub fn start(&mut self, now: u64) -> (step: Step<Result<(), TaskStateError>>)
        requires
            old(self)@.lease is Some,
            old(self)@.state.status == TaskStatus::Pending,
        ensures
            old(self)@.begins(
                PlanView::Write {
                    record: old(self)@.state.with_status(TaskStatus::Running),
                    release: false,
                },
                now,
                final(self)@,
                task_step_view(step),
            ),
    {
        let mut record = self.state.duplicate();
        record.set_status(TaskStatus::Running);
        self.begin(Plan::Write { record, release: false }, now)
    }

    /// Takes a task that is Resuming to Running.
    pub fn resume(&mut self, now: u64) -> (step: Step<Result<(), TaskStateError>>)
        requires
            old(self)@.lease is Some,
            old(self)@.state.status == TaskStatus::Resuming,
        ensures
            old(self)@.begins(
                PlanView::Write {
                    record: old(self)@.state.with_status(TaskStatus::Running),
                    release: false,
                },
                now,
                final(self)@,
                task_step_view(step),
            ),
    {
        let mut record = self.state.duplicate();
        record.set_status(TaskStatus::Running);
        self.begin(Plan::Write { record, release: false }, now)
    }

    /// Takes a task that is Running to Complete, with `result` in the slot
    /// `result` of the record, and gives up the claim after it.
    pub fn finish(&mut self, result: Value, now: u64) -> (step: Step<Result<(), TaskStateError>>)
        requires
            old(self)@.lease is Some,
            old(self)@.state.status == TaskStatus::Running,
        ensures
            old(self)@.begins(
                PlanView::Write {
                    record: old(self)@.state.with_slot("result"@, result).with_status(
                        TaskStatus::Complete,
                    ),
                    release: true,
                },
                now,
                final(self)@,
                task_step_view(step),
            ),
    {
        let mut record = self.state.duplicate();
        proof {
            lemma_slot_names();
        }
        let stored = record.set_field("result", result);
        record.set_status(TaskStatus::Complete);
        self.begin(Plan::Write { record, release: true }, now)
    }

    /// Takes a task that is Running to Error, with `error` in the slot
    /// `error` of the record, and gives up the claim after it.
    pub fn finish_error(&mut self, error: Value, now: u64) -> (step: Step<
        Result<(), TaskStateError>,
    >)
        requires
            old(self)@.lease is Some,
            old(self)@.state.status == TaskStatus::Running,
        ensures
            old(self)@.begins(
                PlanView::Write {
                    record: old(self)@.state.with_slot("error"@, error).with_status(
                        TaskStatus::Error,
                    ),
                    release: true,
                },
                now,
                final(self)@,
                task_step_view(step),
            ),
    {
        let mut record = self.state.duplicate();
        proof {
            lemma_slot_names();
        }
        let stored = record.set_field("error", error);
        record.set_status(TaskStatus::Error);
        self.begin(Plan::Write { record, release: true }, now)
    }

    /// Takes a task that is Running to Waiting, blocked on the tasks
    /// `waiting`, and gives up the claim after it, so that the task can be
    /// queued again once it is woken.
    pub fn begin_wait(&mut self, waiting: Vec<String>, now: u64) -> (step: Step<
        Result<(), TaskStateError>,
    >)
        requires
            old(self)@.lease is Some,
            old(self)@.state.status == TaskStatus::Running,
        ensures
            old(self)@.begins(
                PlanView::Write {
                    record: (TaskDataView {
                        waiting: Some(crate::json::texts_view(waiting@)),
                        ..old(self)@.state
                    }).with_status(TaskStatus::Waiting),
                    release: true,
                },
                now,
                final(self)@,
                task_step_view(step),
            ),
    {
        let mut record = self.state.duplicate();
        record.set_waiting(Some(waiting));
        record.set_status(TaskStatus::Waiting);
        self.begin(Plan::Write { record, release: true }, now)
    }

    /// The interrupt that a read of the interrupt key has found.
    fn interrupt_found(&self, kvs: &Vec<KeyValue>) -> (reason: Option<InterruptReason>)
        ensures
            reason == self@.interrupt_found(crate::store::kvs_view(kvs@)),
    {
        if kvs.len() > 0 && self.state.status() == TaskStatus::Running {
            InterruptReason::from_value(kvs[0].value.as_slice())
        } else {
            None
        }
    }

    /// Takes the answer of the store to the request that was handed out
    /// last, at the time `now`, and hands out what comes next.
    pub fn proceed(&mut self, response: Response, now: u64) -> (step: Step<
        Result<(), TaskStateError>,
    >)
        ensures
            old(self)@.proceeds(response@, now, final(self)@, task_step_view(step)),
    {
        proof {
            use_type_invariant(&*self);
        }
        let mut phase = Phase::Idle;
        core::mem::swap(&mut self.phase, &mut phase);
        let ghost before = old(self)@;
        match (phase, response) {
            (Phase::Idle, _) => Step::Done(Err(unexpected())),
            (Phase::Renewing(_), Response::Failed { message }) => Step::Done(
                Err(TaskStateError::Alive(TaskAliveError::KeepAliveFailed(StoreError { message }))),
            ),
            (Phase::ReadingInterrupt(_), Response::Failed { message }) => Step::Done(
                Err(TaskStateError::Alive(TaskAliveError::KeepAliveFailed(StoreError { message }))),
            ),
            (_, Response::Failed { message }) => Step::Done(
                Err(TaskStateError::Etcd(StoreError { message })),
            ),
            (Phase::Renewing(plan), Response::LeaseKeptAlive { ttl }) => {
                if ttl <= 0 {
                    self.expired = true;
                    Step::Done(Err(TaskStateError::LeaseExpired))
                } else {
                    self.phase = Phase::ReadingInterrupt(plan);
                    let key = interrupt_key(self.task_id.as_slice());
                    Step::Call(Request::Get { key, revision: 0 })
                }
            },
            (Phase::ReadingInterrupt(plan), Response::Kvs { kvs, more, revision }) => {
                match self.interrupt_found(&kvs) {
                    Some(reason) => {
                        let mut record = self.state.duplicate();
                        record.set_status(reason.status());
                        let bytes = record.to_bytes_pretty();
                        let ghost document = bytes@;
                        let claim = claim_key(self.task_id.as_slice());
                        let task = task_key(self.task_id.as_slice());
                        let interrupt = interrupt_key(self.task_id.as_slice());
                        let lease = match self.lease {
                            Some(lease) => lease,
                            None => {
                                return Step::Done(Err(TaskStateError::LeaseExpired));
                            },
                        };
                        let txn = interrupt_txn(
                            claim.as_slice(),
                            self.queue_identity.as_slice(),
                            lease,
                            task.as_slice(),
                            bytes,
                            interrupt.as_slice(),
                        );
                        assert(txn@ == spec_interrupt_txn(
                            spec_claim_key(before.task_id),
                            before.identity,
                            lease,
                            spec_task_key(before.task_id),
                            document,
                            spec_interrupt_key(before.task_id),
                        ));
                        let then_fetch = matches!(plan, Plan::Fetch);
                        self.phase = Phase::Consuming { record, then_fetch };
                        Step::Call(Request::Txn { txn })
                    },
                    None => {
                        self.last_renew = now;
                        self.follow(plan)
                    },
                }
            },
            (Phase::Consuming { record, then_fetch }, Response::TxnDone { succeeded, gets }) => {
                self.state = record;
                self.last_renew = now;
                if then_fetch {
                    self.follow(Plan::Fetch)
                } else {
                    Step::Done(Err(TaskStateError::Alive(TaskAliveError::Interrupted)))
                }
            },
            (Phase::Writing { record, release }, Response::TxnDone { succeeded, gets }) => {
                self.state = record;
                match self.lease {
                    Some(lease) => {
                        if release {
                            self.phase = Phase::Revoking;
                            Step::Call(Request::LeaseRevoke { lease })
                        } else {
                            Step::Done(Ok(()))
                        }
                    },
                    None => Step::Done(Ok(())),
                }
            },
            (Phase::Revoking, Response::Done) => {
                self.lease = None;
                Step::Done(Ok(()))
            },
            (Phase::Fetching, Response::Kvs { kvs, more, revision }) => {
                if kvs.len() == 0 {
                    Step::Done(Err(missing_record()))
                } else {
                    match TaskData::from_bytes(kvs[0].value.as_slice()) {
                        Ok(record) => {
                            self.state = record;
                            Step::Done(Ok(()))
                        },
                        Err(error) => Step::Done(Err(TaskStateError::Json(error))),
                    }
                }
            },
            _ => Step::Done(Err(unexpected())),
        }
    }

    /// A copy of the task for another holder of the same claim, with no
    /// operation under way.
    pub fn duplicate(&self) -> (copy: Task)
        ensures
            copy@ == self@.with_phase(PhaseView::Idle),
    {
        Task {
            task_id: self.task_id.clone(),
            queue_identity: self.queue_identity.clone(),
            lease: self.lease,
            state: self.state.duplicate(),
            last_renew: self.last_renew,
            expired: self.expired,
            phase: Phase::Idle,
        }
    }

    /// Gives up the claim: the lease is revoked, and the claim goes with it.
    /// A task without a lease has nothing to give up.
    pub fn release_claim(&mut self) -> (step: Step<Result<(), TaskStateError>>)
        ensures
            match old(self)@.lease {
                Some(lease) => final(self)@ == old(self)@.with_phase(PhaseView::Revoking)
                    && task_step_view(step) == TaskStepView::Call(
                    RequestView::LeaseRevoke { lease },
                ),
                None => final(self)@ == old(self)@.with_phase(PhaseView::Idle) && task_step_view(
                    step,
                ) == TaskStepView::Done(Ok(())),
            },
    {
        match self.lease {
            Some(lease) => {
                self.phase = Phase::Revoking;
                Step::Call(Request::LeaseRevoke { lease })
            },
            None => {
                self.phase = Phase::Idle;
                Step::Done(Ok(()))
            },
        }
    }
}

/// The names of the payload slots that the library writes are none of the
/// names that it reads.
pub proof fn lemma_slot_names()
    ensures
        !crate::record::is_known_name("progress"@),
        !crate::record::is_known_name("result"@),
        !crate::record::is_known_name("error"@),
        !crate::record::is_known_name("init"@),
{
    reveal_strlit("progress");
    reveal_strlit("result");
    reveal_strlit("error");
    reveal_strlit("init");
    reveal_strlit("status");
    reveal_strlit("parent");
    reveal_strlit("children");
    reveal_strlit("waiting");
    assert("progress"@.len() == 8 && "progress"@[0] == 'p');
    assert("result"@.len() == 6 && "result"@[0] == 'r');
    assert("error"@.len() == 5 && "init"@.len() == 4);
}

/// A worker that has found its lease gone halts: whatever it is asked to do
/// for the task from then on, it asks nothing of the store, and says that
/// the lease has expired. And it finds the lease gone on the first renewal
/// that is confirmed with no time left.
pub proof fn lemma_lost_lease_halts_writes(
    task: TaskView,
    plan: PlanView,
    ttl: i64,
    now: u64,
    after: TaskView,
    step: TaskStepView,
)
    ensures
        task.expired && task.begins(plan, now, after, step) ==> after == task && step
            == TaskStepView::Done(Err(TaskStateErrorView::LeaseExpired)),
        task.phase is Renewing && ttl <= 0 && task.proceeds(
            ResponseView::LeaseKeptAlive { ttl },
            now,
            after,
            step,
        ) ==> after.expired && step == TaskStepView::Done(Err(TaskStateErrorView::LeaseExpired)),
{
}

/// An interrupt is consumed by the keep-alive that reads it, and by nothing
/// else. A keep-alive whose read finds no interrupt leaves the record as it
/// is; an interrupt that is written after that read stays in the store, for
/// no request goes out before the next renewal is due; and the keep-alive
/// that is made then and finds the interrupt moves the task, if it is
/// Running, to the state that the interrupt names.
pub proof fn lemma_interrupt_is_consumed_by_the_keep_alive_that_reads_it(
    task: TaskView,
    kvs: Seq<crate::store::KeyValueView>,
    reason: InterruptReason,
    now: u64,
    later: u64,
    after: TaskView,
    step: TaskStepView,
)
    requires
        task.phase == PhaseView::ReadingInterrupt(PlanView::Nothing),
        task.lease is Some,
        !task.expired,
    ensures
        kvs.len() == 0 && task.proceeds(
            ResponseView::Kvs { kvs, more: false, revision: 0 },
            now,
            after,
            step,
        ) ==> {
            &&& step == TaskStepView::Done(Ok(()))
            &&& after.state == task.state
            &&& after.last_renew == now
            &&& forall|next: TaskView, request: TaskStepView|
                later <= now + RENEW_INTERVAL_MS && #[trigger] after.begins(
                    PlanView::Nothing,
                    later,
                    next,
                    request,
                ) ==> request == TaskStepView::Done(Ok(())) && next.state == task.state
            &&& forall|next: TaskView, request: TaskStepView|
                later > now + RENEW_INTERVAL_MS && #[trigger] after.begins(
                    PlanView::Nothing,
                    later,
                    next,
                    request,
                ) ==> request == TaskStepView::Call(
                    RequestView::LeaseKeepAlive { lease: task.lease->0 },
                )
        },
        kvs.len() > 0 && kvs[0].value == reason.spec_value() && task.state.status
            == TaskStatus::Running && task.proceeds(
            ResponseView::Kvs { kvs, more: false, revision: 0 },
            now,
            after,
            step,
        ) ==> {
            &&& step matches TaskStepView::Call(request)
            &&& task.is_interrupt_update(request, task.state.with_status(reason.spec_status()))
        },
{
    crate::status::lemma_interrupt_reason(reason, task.state.status);
}

/// A final state is sticky for the worker: no interrupt moves a task that
/// is Complete, in Error or Canceled.
pub proof fn lemma_interrupt_leaves_final_states(
    task: TaskView,
    kvs: Seq<crate::store::KeyValueView>,
)
    requires
        task.state.status.spec_is_final(),
    ensures
        task.interrupt_found(kvs) is None,
{
}

} // verus!
