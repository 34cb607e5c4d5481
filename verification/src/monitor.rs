//! The monitor's decisions: what is to be done about a task record that was
//! written, and about a claim that went away.
//!
//! The monitor keeps the queue true to the records. A task that waits to be
//! run gets a queue entry; a task that runs without an owner is taken back to
//! Resuming; a task that has ended wakes the parent that waits for it; a
//! task that waits for tasks that have all ended is woken; a record that
//! cannot be read is replaced by one that says so.

use crate::json::{json_document, texts_view};
use crate::key::{
    claim_key, claim_key_task_id, claims_prefix, claims_prefix_bytes, get_increment_key,
    interrupt_key, key_after_prefix, prefix_range_end, queue_key, spec_claim_key,
    spec_interrupt_key, spec_queue_key, spec_task_key, task_key, task_key_task_id, tasks_prefix,
    tasks_prefix_bytes,
};
use crate::queue::clone_kv;
use crate::record::{
    fields_encode, record_of_bytes, RecordError, TaskData, TaskDataView,
};
use crate::request::{
    unexpected_response, Request, RequestView, Response, ResponseView, StoreError, WatchEvent,
    WatchEventView, WatchKind,
};
use crate::status::TaskStatus;
use crate::store::{kvs_view, KeyValue, KeyValueView};
use crate::txn::{
    enqueue_txn, get_all_txn, guarded_put_txn, resume_unclaimed_txn, spec_enqueue_txn,
    spec_get_all_txn, spec_guarded_put_txn, spec_resume_unclaimed_txn,
};
use serde_json::Value;
use vstd::prelude::*;
use vstd::slice::slice_to_vec;
use vstd::utf8::encode_utf8;

verus! {

/// `bytes` is a document of `record`, in the compact form.
pub open spec fn is_compact_document_of(bytes: Seq<u8>, record: TaskDataView) -> bool {
    exists|fields: Seq<(Seq<char>, Value)>|
        fields_encode(fields, record) && bytes == #[trigger] json_document(fields)
}

/// The id of the task whose record stands at `key`. A key that is too short
/// for a record names no task.
pub open spec fn recorded_task(key: Seq<u8>) -> Option<Seq<u8>> {
    if key.len() >= tasks_prefix_bytes().len() {
        Some(key.skip(tasks_prefix_bytes().len() as int))
    } else {
        None
    }
}

/// `request` is the write of a document of `record` at the key of `kv`,
/// guarded by the version of `kv`.
pub open spec fn is_guarded_write(
    request: RequestView,
    kv: KeyValueView,
    record: TaskDataView,
) -> bool {
    &&& request matches RequestView::Txn { txn }
    &&& exists|bytes: Seq<u8>|
        is_compact_document_of(bytes, record) && txn == #[trigger] spec_guarded_put_txn(
            kv.key,
            kv.version,
            bytes,
        )
}

/// `request` is the transaction that takes the task of `kv` back to
/// Resuming, provided its record still has the version of `kv` and nobody
/// holds its claim, and clears its interrupt.
pub open spec fn is_orphan_resume(
    request: RequestView,
    kv: KeyValueView,
    task_id: Seq<u8>,
    record: TaskDataView,
) -> bool {
    &&& request matches RequestView::Txn { txn }
    &&& exists|bytes: Seq<u8>|
        is_compact_document_of(bytes, record.with_status(TaskStatus::Resuming)) && txn
            == #[trigger] spec_resume_unclaimed_txn(
            kv.key,
            kv.version,
            spec_claim_key(task_id),
            bytes,
            spec_interrupt_key(task_id),
        )
}

/// `request` replaces what stands at the key of `kv`, which is no record, by
/// a record in the state Error that holds the diagnostic and the original
/// text, guarded by the version of `kv`.
pub open spec fn is_unparsable_write(
    request: RequestView,
    kv: KeyValueView,
    message: Seq<char>,
) -> bool {
    exists|record: TaskDataView|
        #![trigger is_guarded_write(request, kv, record)]
        record.is_unparsable(message, kv.value) && is_guarded_write(request, kv, record)
}

/// The keys of the records of the tasks `ids`.
pub open spec fn record_keys(ids: Seq<Seq<char>>) -> Seq<Seq<u8>> {
    ids.map_values(|id: Seq<char>| spec_task_key(encode_utf8(id)))
}

/// Every one of `count` reads has found a record, and each of them is in a
/// final state.
pub open spec fn all_final(gets: Seq<Seq<KeyValueView>>, count: int) -> bool {
    gets.len() == count && forall|i: int|
        0 <= i < gets.len() ==> is_final_record(#[trigger] gets[i])
}

/// The read has found a record in a final state.
pub open spec fn is_final_record(kvs: Seq<KeyValueView>) -> bool {
    kvs.len() > 0 && (record_of_bytes(kvs[0].value) matches Ok(record)
        && record.status.spec_is_final())
}

/// What the monitor waits for while it deals with one record.
pub enum Dispatch {
    /// The answer to a transaction, after which nothing is left to do.
    Writing,
    /// The record of the parent of the task `child_id`, which has ended.
    ReadingParent { child_id: Vec<u8> },
    /// The records of the tasks that the task of `task` waits for.
    ReadingDependencies { task: KeyValue, record: TaskData },
}

pub enum DispatchView {
    Writing,
    ReadingParent { child_id: Seq<u8> },
    ReadingDependencies { task: KeyValueView, record: TaskDataView },
}

impl View for Dispatch {
    type V = DispatchView;

    open spec fn view(&self) -> DispatchView {
        match self {
            Dispatch::Writing => DispatchView::Writing,
            Dispatch::ReadingParent { child_id } => DispatchView::ReadingParent {
                child_id: child_id@,
            },
            Dispatch::ReadingDependencies { task, record } => DispatchView::ReadingDependencies {
                task: task@,
                record: record@,
            },
        }
    }
}

/// What the monitor does next about one record: a request, with what it
/// waits for then, or nothing more.
pub enum DispatchStep {
    Call(Dispatch, Request),
    Done(Result<(), StoreError>),
}

pub enum DispatchStepView {
    Call(DispatchView, RequestView),
    Done(Result<(), Seq<char>>),
}

impl View for DispatchStep {
    type V = DispatchStepView;

    open spec fn view(&self) -> DispatchStepView {
        match self {
            DispatchStep::Call(dispatch, request) => DispatchStepView::Call(dispatch@, request@),
            DispatchStep::Done(Ok(())) => DispatchStepView::Done(Ok(())),
            DispatchStep::Done(Err(error)) => DispatchStepView::Done(Err(error.message@)),
        }
    }
}

/// What the monitor does about the waiting task of `kv`, whose record is
/// `record`: a task that waits for nothing is woken at once; else the
/// records of the tasks it waits for are read, all in one transaction.
pub open spec fn resumes_waiting(
    kv: KeyValueView,
    record: TaskDataView,
    step: DispatchStepView,
) -> bool {
    if record.status != TaskStatus::Waiting {
        step == DispatchStepView::Done(Ok(()))
    } else if record.waiting is None || record.waiting->0.len() == 0 {
        &&& step matches DispatchStepView::Call(DispatchView::Writing, request)
        &&& is_guarded_write(request, kv, record.with_status(TaskStatus::Resuming))
    } else {
        step == DispatchStepView::Call(
            DispatchView::ReadingDependencies { task: kv, record },
            RequestView::Txn { txn: spec_get_all_txn(record_keys(record.waiting->0)) },
        )
    }
}

/// What the monitor does about the task of `kv` that has ended, whose record
/// is `record`: where the record names a parent, the parent's record is
/// read.
pub open spec fn wakes_parent(
    kv: KeyValueView,
    record: TaskDataView,
    step: DispatchStepView,
) -> bool {
    match (record.parent, recorded_task(kv.key)) {
        (Some(parent), Some(task_id)) => step == DispatchStepView::Call(
            DispatchView::ReadingParent { child_id: task_id },
            RequestView::Get { key: spec_task_key(encode_utf8(parent)), revision: 0 },
        ),
        _ => step == DispatchStepView::Done(Ok(())),
    }
}

/// What the monitor does about the record that stands at `kv`.
pub open spec fn dispatches(kv: KeyValueView, step: DispatchStepView) -> bool {
    match record_of_bytes(kv.value) {
        Err(error) => {
            &&& step matches DispatchStepView::Call(DispatchView::Writing, request)
            &&& is_unparsable_write(request, kv, RecordError::spec_message(error))
        },
        Ok(record) => match recorded_task(kv.key) {
            None => step == DispatchStepView::Done(Ok(())),
            Some(task_id) => match record.status {
                TaskStatus::Pending | TaskStatus::Resuming => step == DispatchStepView::Call(
                    DispatchView::Writing,
                    RequestView::Txn {
                        txn: spec_enqueue_txn(spec_claim_key(task_id), spec_queue_key(task_id)),
                    },
                ),
                TaskStatus::Running => {
                    &&& step matches DispatchStepView::Call(DispatchView::Writing, request)
                    &&& is_orphan_resume(request, kv, task_id, record)
                },
                TaskStatus::Complete | TaskStatus::Error | TaskStatus::Canceled => wakes_parent(
                    kv,
                    record,
                    step,
                ),
                TaskStatus::Waiting => resumes_waiting(kv, record, step),
                TaskStatus::Paused => step == DispatchStepView::Done(Ok(())),
            },
        },
    }
}

/// What the monitor does next about a record, on the answer `response`.
pub open spec fn dispatch_proceeds(
    dispatch: DispatchView,
    response: ResponseView,
    step: DispatchStepView,
) -> bool {
    match (dispatch, response) {
        (_, ResponseView::Failed { message }) => step == DispatchStepView::Done(Err(message)),
        (DispatchView::Writing, ResponseView::TxnDone { .. }) => step == DispatchStepView::Done(
            Ok(()),
        ),
        (DispatchView::ReadingParent { child_id }, ResponseView::Kvs { kvs, .. }) => if kvs.len()
            > 0 && (record_of_bytes(kvs[0].value) matches Ok(parent) && parent.status
            == TaskStatus::Waiting && parent.waits_for(child_id)) {
            &&& step matches DispatchStepView::Call(DispatchView::Writing, request)
            &&& is_guarded_write(
                request,
                kvs[0],
                record_of_bytes(kvs[0].value)->Ok_0.with_status(TaskStatus::Resuming),
            )
        } else {
            step == DispatchStepView::Done(Ok(()))
        },
        (
            DispatchView::ReadingDependencies { task, record },
            ResponseView::TxnDone { gets, .. },
        ) => if record.waiting is Some && all_final(gets, record.waiting->0.len() as int) {
            &&& step matches DispatchStepView::Call(DispatchView::Writing, request)
            &&& is_guarded_write(request, task, record.with_status(TaskStatus::Resuming))
        } else {
            step == DispatchStepView::Done(Ok(()))
        },
        _ => step == DispatchStepView::Done(Err(unexpected_response())),
    }
}

/// The transaction that takes a task to Resuming, provided its record has
/// not changed since it was read as `task`. It wakes a task that waits, and
/// it is the write by which an operator resumes a task.
pub fn wake_up_waiting_task(task: &KeyValue, task_data: &TaskData) -> (request: Request)
    ensures
        is_guarded_write(request@, task@, task_data@.with_status(TaskStatus::Resuming)),
{
    let mut woken = task_data.duplicate();
    woken.set_status(TaskStatus::Resuming);
    let bytes = woken.to_bytes();
    let ghost document = bytes@;
    let txn = guarded_put_txn(task.key.as_slice(), task.version, bytes);
    assert(txn@ == spec_guarded_put_txn(task@.key, task@.version, document));
    Request::Txn { txn }
}

/// The transaction that takes a task that runs without an owner back to
/// Resuming and clears its interrupt.
pub fn resume_unclaimed(kv: &KeyValue, task_data: &TaskData) -> (request: Option<Request>)
    ensures
        match recorded_task(kv@.key) {
            Some(task_id) => request matches Some(request) && is_orphan_resume(
                request@,
                kv@,
                task_id,
                task_data@,
            ),
            None => request is None,
        },
{
    if kv.key.len() < 6 {
        return None;
    }
    let task_id = task_key_task_id(kv.key.as_slice());
    let interrupt = interrupt_key(task_id);
    let claim = claim_key(task_id);
    let mut resumed = task_data.duplicate();
    resumed.set_status(TaskStatus::Resuming);
    let bytes = resumed.to_bytes();
    let ghost document = bytes@;
    let txn = resume_unclaimed_txn(
        kv.key.as_slice(),
        kv.version,
        claim.as_slice(),
        bytes,
        interrupt.as_slice(),
    );
    assert(txn@ == spec_resume_unclaimed_txn(
        kv@.key,
        kv@.version,
        spec_claim_key(task_id@),
        document,
        spec_interrupt_key(task_id@),
    ));
    Some(Request::Txn { txn })
}

/// What is to be done about a task that has ended: its parent is looked up,
/// where it has one.
pub fn wake_up_parent(task: &KeyValue, task_data: &TaskData) -> (step: DispatchStep)
    ensures
        wakes_parent(task@, task_data@, step@),
{
    if task.key.len() < 6 {
        return DispatchStep::Done(Ok(()));
    }
    match task_data.parent() {
        None => DispatchStep::Done(Ok(())),
        Some(parent) => {
            let child_id = slice_to_vec(task_key_task_id(task.key.as_slice()));
            let key = task_key(parent.as_str().as_bytes());
            DispatchStep::Call(
                Dispatch::ReadingParent { child_id },
                Request::Get { key, revision: 0 },
            )
        },
    }
}

/// What is to be done about a task that waits: it is woken at once where it
/// waits for nothing, and else the records of the tasks it waits for are
/// read.
pub fn try_resume_waiting(task: &KeyValue, task_data: &TaskData) -> (step: DispatchStep)
    ensures
        resumes_waiting(task@, task_data@, step@),
{
    if task_data.status() != TaskStatus::Waiting {
        return DispatchStep::Done(Ok(()));
    }
    match task_data.waiting() {
        None => DispatchStep::Call(Dispatch::Writing, wake_up_waiting_task(task, task_data)),
        Some(waiting) => {
            if waiting.len() == 0 {
                return DispatchStep::Call(
                    Dispatch::Writing,
                    wake_up_waiting_task(task, task_data),
                );
            }
            let mut keys: Vec<Vec<u8>> = Vec::new();
            let mut i: usize = 0;
            while i < waiting.len()
                invariant
                    i <= waiting.len(),
                    keys.len() == i,
                    forall|j: int|
                        0 <= j < i ==> keys[j]@ == spec_task_key(encode_utf8(waiting[j]@)),
                decreases waiting.len() - i,
            {
                keys.push(task_key(waiting[i].as_str().as_bytes()));
                i = i + 1;
            }
            assert(keys@.map_values(|key: Vec<u8>| key@) =~= record_keys(texts_view(waiting@)));
            let txn = get_all_txn(&keys);
            DispatchStep::Call(
                Dispatch::ReadingDependencies {
                    task: clone_kv(task),
                    record: task_data.duplicate(),
                },
                Request::Txn { txn },
            )
        },
    }
}

/// What is to be done about the record that stands at `kv`, written a
/// moment ago or found by a scan.
pub fn try_enqueue_task(kv: &KeyValue) -> (step: DispatchStep)
    ensures
        dispatches(kv@, step@),
{
    match TaskData::from_bytes(kv.value.as_slice()) {
        Err(error) => {
            let message = error.message();
            let replacement = TaskData::unparsable(message.as_str(), kv.value.as_slice());
            let bytes = replacement.to_bytes();
            let ghost document = bytes@;
            let txn = guarded_put_txn(kv.key.as_slice(), kv.version, bytes);
            assert(txn@ == spec_guarded_put_txn(kv@.key, kv@.version, document));
            let request = Request::Txn { txn };
            assert(is_guarded_write(request@, kv@, replacement@));
            DispatchStep::Call(Dispatch::Writing, request)
        },
        Ok(parsed) => {
            if kv.key.len() < 6 {
                return DispatchStep::Done(Ok(()));
            }
            let task_id = task_key_task_id(kv.key.as_slice());
            match parsed.status() {
                TaskStatus::Pending | TaskStatus::Resuming => {
                    let claim = claim_key(task_id);
                    let queue = queue_key(task_id);
                    let txn = enqueue_txn(claim.as_slice(), queue.as_slice());
                    DispatchStep::Call(Dispatch::Writing, Request::Txn { txn })
                },
                TaskStatus::Running => match resume_unclaimed(kv, &parsed) {
                    Some(request) => DispatchStep::Call(Dispatch::Writing, request),
                    None => DispatchStep::Done(Ok(())),
                },
                TaskStatus::Complete | TaskStatus::Error | TaskStatus::Canceled => wake_up_parent(
                    kv,
                    &parsed,
                ),
                TaskStatus::Waiting => try_resume_waiting(kv, &parsed),
                TaskStatus::Paused => DispatchStep::Done(Ok(())),
            }
        },
    }
}

/// Whether every one of `count` reads has found a record in a final state.
fn check_all_final(gets: &Vec<Vec<KeyValue>>, count: usize) -> (all: bool)
    ensures
        all == all_final(gets@.map_values(|kvs: Vec<KeyValue>| kvs_view(kvs@)), count as int),
{
    let ghost views = gets@.map_values(|kvs: Vec<KeyValue>| kvs_view(kvs@));
    if gets.len() != count {
        return false;
    }
    let mut i: usize = 0;
    while i < gets.len()
        invariant
            i <= gets.len(),
            gets.len() == count,
            views == gets@.map_values(|kvs: Vec<KeyValue>| kvs_view(kvs@)),
            forall|j: int| 0 <= j < i ==> is_final_record(#[trigger] views[j]),
        decreases gets.len() - i,
    {
        let kvs = &gets[i];
        assert(views[i as int] == kvs_view(kvs@));
        if kvs.len() == 0 {
            return false;
        }
        match TaskData::from_bytes(kvs[0].value.as_slice()) {
            Ok(record) => {
                if !record.status().is_final() {
                    return false;
                }
            },
            Err(_) => {
                return false;
            },
        }
        i = i + 1;
    }
    true
}

impl Dispatch {
    /// Takes the answer of the store to the request that was handed out
    /// last, and hands out what comes next.
    pub fn proceed(self, response: Response) -> (step: DispatchStep)
        ensures
            dispatch_proceeds(self@, response@, step@),
    {
        match (self, response) {
            (_, Response::Failed { message }) => DispatchStep::Done(Err(StoreError { message })),
            (Dispatch::Writing, Response::TxnDone { succeeded, gets }) => DispatchStep::Done(
                Ok(()),
            ),
            (Dispatch::ReadingParent { child_id }, Response::Kvs { kvs, more, revision }) => {
                if kvs.len() == 0 {
                    return DispatchStep::Done(Ok(()));
                }
                match TaskData::from_bytes(kvs[0].value.as_slice()) {
                    Ok(parent) => {
                        if parent.status() == TaskStatus::Waiting && parent.waits_for(
                            child_id.as_slice(),
                        ) {
                            DispatchStep::Call(
                                Dispatch::Writing,
                                wake_up_waiting_task(&kvs[0], &parent),
                            )
                        } else {
                            DispatchStep::Done(Ok(()))
                        }
                    },
                    Err(_) => DispatchStep::Done(Ok(())),
                }
            },
            (
                Dispatch::ReadingDependencies { task, record },
                Response::TxnDone { succeeded, gets },
            ) => {
                match record.waiting() {
                    Some(waiting) => {
                        if check_all_final(&gets, waiting.len()) {
                            DispatchStep::Call(
                                Dispatch::Writing,
                                wake_up_waiting_task(&task, &record),
                            )
                        } else {
                            DispatchStep::Done(Ok(()))
                        }
                    },
                    None => DispatchStep::Done(Ok(())),
                }
            },
            _ => DispatchStep::Done(
                Err(
                    StoreError {
                        message: "the store answered a request that was not made".to_owned(),
                    },
                ),
            ),
        }
    }
}

/// The number of records that one scan of the tasks asks for.
pub const MONITOR_PAGE_SIZE: i64 = 10000;

/// What the monitor goes through.
#[derive(Clone, Copy, Debug, PartialEq, Eq, Structural)]
pub enum Source {
    /// All records of tasks, page by page, as of one revision.
    Scan,
    /// The records of tasks as they are written.
    Updates,
    /// The claims as they go away.
    Orphans,
}

/// How a pass of the monitor ended.
#[derive(Clone, Copy, Debug, PartialEq, Eq, Structural)]
pub enum MonitorEnd {
    /// The scan has seen every record as of `revision`.
    Scanned { revision: i64 },
    /// The store canceled the watch.
    Canceled,
    /// The store canceled the watch because it no longer keeps the
    /// revisions that the watch was to start from.
    Compacted,
    /// The watch has no more to tell.
    Ended,
}

/// What the monitor does after a pass.
#[derive(Clone, Copy, Debug, PartialEq, Eq, Structural)]
pub enum MonitorNext {
    /// Watch the records and the claims, from `revision` on.
    Watch { revision: i64 },
    /// Scan all records anew.
    Rescan,
    /// Leave.
    Exit,
}

impl MonitorEnd {
    /// What follows a pass that ended so. After a scan the watches start
    /// one revision later, so that no event is missed and none is seen
    /// twice. A watch that was cut off by compaction has missed events: a
    /// fresh scan makes up for them.
    pub open spec fn spec_next(self) -> MonitorNext {
        match self {
            MonitorEnd::Scanned { revision } => if revision < i64::MAX {
                MonitorNext::Watch { revision: (revision + 1) as i64 }
            } else {
                MonitorNext::Rescan
            },
            MonitorEnd::Compacted => MonitorNext::Rescan,
            MonitorEnd::Canceled => MonitorNext::Exit,
            MonitorEnd::Ended => MonitorNext::Exit,
        }
    }

    #[verifier::when_used_as_spec(spec_next)]
    pub fn next(self) -> (next: MonitorNext)
        ensures
            next == self.spec_next(),
    {
        match self {
            MonitorEnd::Scanned { revision } => if revision < i64::MAX {
                MonitorNext::Watch { revision: revision + 1 }
            } else {
                MonitorNext::Rescan
            },
            MonitorEnd::Compacted => MonitorNext::Rescan,
            MonitorEnd::Canceled => MonitorNext::Exit,
            MonitorEnd::Ended => MonitorNext::Exit,
        }
    }
}

/// What a pass of the monitor waits for.
pub enum MonitorPhase {
    /// A page of records, or a batch of events.
    AwaitItems,
    /// The record of a task whose claim went away.
    AwaitRecord,
    /// An answer for the record that is dealt with.
    AwaitDispatch(Dispatch),
}

pub enum MonitorPhaseView {
    AwaitItems,
    AwaitRecord,
    AwaitDispatch(DispatchView),
}

impl View for MonitorPhase {
    type V = MonitorPhaseView;

    open spec fn view(&self) -> MonitorPhaseView {
        match self {
            MonitorPhase::AwaitItems => MonitorPhaseView::AwaitItems,
            MonitorPhase::AwaitRecord => MonitorPhaseView::AwaitRecord,
            MonitorPhase::AwaitDispatch(dispatch) => MonitorPhaseView::AwaitDispatch(dispatch@),
        }
    }
}

/// A pass of the monitor: a scan of all records, or a watch.
pub struct Monitor {
    source: Source,
    revision: i64,
    items: Vec<KeyValue>,
    next: usize,
    full: bool,
    phase: MonitorPhase,
}

pub struct MonitorView {
    pub source: Source,
    /// Of a scan: the revision as of which it reads, zero before the first
    /// page has come. Of a watch: the revision of the last batch of events.
    pub revision: i64,
    /// The keys of the last page or batch.
    pub items: Seq<KeyValueView>,
    /// How many of them were dealt with.
    pub next: int,
    /// Whether the last page of the scan was full, so that more may follow.
    pub full: bool,
    pub phase: MonitorPhaseView,
}

impl View for Monitor {
    type V = MonitorView;

    closed spec fn view(&self) -> MonitorView {
        MonitorView {
            source: self.source,
            revision: self.revision,
            items: kvs_view(self.items@),
            next: self.next as int,
            full: self.full,
            phase: self.phase@,
        }
    }
}

pub enum MonitorStepView {
    Call(RequestView),
    Done(Result<MonitorEnd, Seq<char>>),
}

pub open spec fn monitor_step_view(
    step: crate::task::Step<Result<MonitorEnd, StoreError>>,
) -> MonitorStepView {
    match step {
        crate::task::Step::Call(request) => MonitorStepView::Call(request@),
        crate::task::Step::Done(Ok(end)) => MonitorStepView::Done(Ok(end)),
        crate::task::Step::Done(Err(error)) => MonitorStepView::Done(Err(error.message@)),
    }
}

/// The keys that the events of the kind `kind` tell of.
pub open spec fn event_kvs(events: Seq<WatchEventView>, kind: WatchKind) -> Seq<KeyValueView>
    decreases events.len(),
{
    if events.len() == 0 {
        Seq::empty()
    } else {
        let last = events.last();
        if last.kind == kind && last.kv is Some {
            event_kvs(events.drop_last(), kind).push(last.kv->0)
        } else {
            event_kvs(events.drop_last(), kind)
        }
    }
}

/// The page of the scan of all records that starts at `start`.
pub open spec fn scan_page(start: Seq<u8>, revision: i64) -> RequestView {
    RequestView::Range {
        start,
        end: prefix_range_end(tasks_prefix_bytes()),
        limit: MONITOR_PAGE_SIZE,
        revision,
        by_creation: false,
    }
}

impl Source {
    /// The kind of events that a watch on this source asks for.
    pub open spec fn spec_kind(self) -> WatchKind {
        match self {
            Source::Orphans => WatchKind::Deletes,
            _ => WatchKind::Puts,
        }
    }
}

impl MonitorView {
    pub open spec fn with_phase(self, phase: MonitorPhaseView) -> MonitorView {
        MonitorView { phase, ..self }
    }

    /// What the pass does about the record `kv`: whatever `dispatches`
    /// says. Where nothing is to be done about it, the pass goes on.
    pub open spec fn deals_with(
        self,
        kv: KeyValueView,
        after: MonitorView,
        step: MonitorStepView,
    ) -> bool
        decreases self.items.len() - self.next, 1int,
    {
        exists|outcome: DispatchStepView| #[trigger]
            dispatches(kv, outcome) && match outcome {
                DispatchStepView::Call(dispatch, request) => after == self.with_phase(
                    MonitorPhaseView::AwaitDispatch(dispatch),
                ) && step == MonitorStepView::Call(request),
                DispatchStepView::Done(Ok(())) => self.advances(after, step),
                DispatchStepView::Done(Err(message)) => after == self.with_phase(
                    MonitorPhaseView::AwaitItems,
                ) && step == MonitorStepView::Done(Err(message)),
            }
    }

    /// What the pass does at the end of its items: the scan asks for the
    /// next page where the last one was full, and ends else; a watch asks
    /// for the next events.
    pub open spec fn turns_page(self, after: MonitorView, step: MonitorStepView) -> bool {
        &&& after == self.with_phase(MonitorPhaseView::AwaitItems)
        &&& match self.source {
            Source::Scan => if self.full && self.items.len() > 0 {
                step == MonitorStepView::Call(
                    scan_page(self.items.last().key.push(0u8), self.revision),
                )
            } else {
                step == MonitorStepView::Done(
                    Ok(MonitorEnd::Scanned { revision: self.revision }),
                )
            },
            _ => step == MonitorStepView::Call(RequestView::NextEvents),
        }
    }

    /// What the pass does when it waits for nothing: it turns to the next
    /// of its items. A record is dealt with at once. Of a claim that went
    /// away the task's record is read first, as of the revision of the
    /// event.
    pub open spec fn advances(self, after: MonitorView, step: MonitorStepView) -> bool
        decreases self.items.len() - self.next, 0int,
    {
        if 0 <= self.next < self.items.len() {
            let item = self.items[self.next];
            let taken = MonitorView { next: self.next + 1, ..self };
            if self.source == Source::Orphans {
                if item.key.len() >= claims_prefix_bytes().len() {
                    after == taken.with_phase(MonitorPhaseView::AwaitRecord) && step
                        == MonitorStepView::Call(
                        RequestView::Get {
                            key: spec_task_key(item.key.skip(claims_prefix_bytes().len() as int)),
                            revision: self.revision,
                        },
                    )
                } else {
                    taken.advances(after, step)
                }
            } else {
                taken.deals_with(item, after, step)
            }
        } else {
            self.turns_page(after, step)
        }
    }

    /// The next step of the pass, on the answer `response`.
    pub open spec fn proceeds(
        self,
        response: ResponseView,
        after: MonitorView,
        step: MonitorStepView,
    ) -> bool {
        match (self.phase, response) {
            (_, ResponseView::Failed { message }) => after == self.with_phase(
                MonitorPhaseView::AwaitItems,
            ) && step == MonitorStepView::Done(Err(message)),
            (MonitorPhaseView::AwaitItems, ResponseView::Kvs { kvs, revision, .. }) => if self.source
                == Source::Scan {
                (MonitorView {
                    revision: if self.revision == 0 {
                        revision
                    } else {
                        self.revision
                    },
                    items: kvs,
                    next: 0,
                    full: kvs.len() == MONITOR_PAGE_SIZE,
                    phase: MonitorPhaseView::AwaitItems,
                    ..self
                }).advances(after, step)
            } else {
                after == self && step == MonitorStepView::Done(Err(unexpected_response()))
            },
            (
                MonitorPhaseView::AwaitItems,
                ResponseView::Events { revision, canceled, compacted, events },
            ) => if self.source == Source::Scan {
                after == self && step == MonitorStepView::Done(Err(unexpected_response()))
            } else if canceled {
                after == self && step == MonitorStepView::Done(
                    Ok(
                        if compacted {
                            MonitorEnd::Compacted
                        } else {
                            MonitorEnd::Canceled
                        },
                    ),
                )
            } else {
                (MonitorView {
                    revision,
                    items: event_kvs(events, self.source.spec_kind()),
                    next: 0,
                    phase: MonitorPhaseView::AwaitItems,
                    ..self
                }).advances(after, step)
            },
            (MonitorPhaseView::AwaitItems, ResponseView::EndOfEvents) => if self.source
                == Source::Scan {
                after == self && step == MonitorStepView::Done(Err(unexpected_response()))
            } else {
                after == self && step == MonitorStepView::Done(Ok(MonitorEnd::Ended))
            },
            (MonitorPhaseView::AwaitRecord, ResponseView::Kvs { kvs, .. }) => {
                let resting = self.with_phase(MonitorPhaseView::AwaitItems);
                if kvs.len() == 0 {
                    resting.advances(after, step)
                } else {
                    resting.deals_with(kvs[0], after, step)
                }
            },
            (MonitorPhaseView::AwaitDispatch(dispatch), _) => {
                let resting = self.with_phase(MonitorPhaseView::AwaitItems);
                exists|outcome: DispatchStepView| #[trigger]
                    dispatch_proceeds(dispatch, response, outcome) && match outcome {
                        DispatchStepView::Call(dispatch, request) => after == self.with_phase(
                            MonitorPhaseView::AwaitDispatch(dispatch),
                        ) && step == MonitorStepView::Call(request),
                        DispatchStepView::Done(Ok(())) => resting.advances(after, step),
                        DispatchStepView::Done(Err(message)) => after == resting && step
                            == MonitorStepView::Done(Err(message)),
                    }
            },
            _ => after == self.with_phase(MonitorPhaseView::AwaitItems) && step
                == MonitorStepView::Done(Err(unexpected_response())),
        }
    }
}

/// The keys that the events of the kind `kind` tell of.
fn kvs_of_events(events: &Vec<WatchEvent>, kind: WatchKind) -> (kvs: Vec<KeyValue>)
    ensures
        kvs_view(kvs@) == event_kvs(events@.map_values(|event: WatchEvent| event@), kind),
{
    let ghost all = events@.map_values(|event: WatchEvent| event@);
    let mut kvs: Vec<KeyValue> = Vec::new();
    let mut i: usize = 0;
    while i < events.len()
        invariant
            i <= events.len(),
            all == events@.map_values(|event: WatchEvent| event@),
            kvs_view(kvs@) == event_kvs(all.take(i as int), kind),
        decreases events.len() - i,
    {
        proof {
            assert(all.take(i + 1).drop_last() == all.take(i as int));
        }
        if events[i].kind == kind {
            match &events[i].kv {
                Some(kv) => {
                    kvs.push(clone_kv(kv));
                },
                None => {},
            }
        }
        i = i + 1;
    }
    assert(all.take(i as int) == all);
    kvs
}

/// The page of the scan of all records that starts at `start`.
fn page(start: Vec<u8>, revision: i64) -> (request: Request)
    ensures
        request@ == scan_page(start@, revision),
{
    let prefix = tasks_prefix();
    let end = key_after_prefix(prefix.as_slice());
    Request::Range { start, end, limit: MONITOR_PAGE_SIZE, revision, by_creation: false }
}

/// Starts the scan of the records of all tasks: whatever is to be done about
/// a task is done, and the revision as of which the records were read is
/// handed back at the end.
pub fn process_existing_tasks() -> (started: (Monitor, Request))
    ensures
        started.0@ == (MonitorView {
            source: Source::Scan,
            revision: 0,
            items: Seq::empty(),
            next: 0,
            full: false,
            phase: MonitorPhaseView::AwaitItems,
        }),
        started.1@ == scan_page(tasks_prefix_bytes(), 0),
{
    let monitor = Monitor {
        source: Source::Scan,
        revision: 0,
        items: Vec::new(),
        next: 0,
        full: false,
        phase: MonitorPhase::AwaitItems,
    };
    assert(monitor@.items =~= Seq::empty());
    (monitor, page(tasks_prefix(), 0))
}

/// Starts the watch on the records of tasks, from `revision` on: whatever
/// is to be done about a record that is written is done.
pub fn process_task_updates(revision: i64) -> (started: (Monitor, Request))
    ensures
        started.0@ == (MonitorView {
            source: Source::Updates,
            revision,
            items: Seq::empty(),
            next: 0,
            full: false,
            phase: MonitorPhaseView::AwaitItems,
        }),
        started.1@ == (RequestView::Watch {
            prefix: tasks_prefix_bytes(),
            start_revision: revision,
            kind: WatchKind::Puts,
        }),
{
    let monitor = Monitor {
        source: Source::Updates,
        revision,
        items: Vec::new(),
        next: 0,
        full: false,
        phase: MonitorPhase::AwaitItems,
    };
    assert(monitor@.items =~= Seq::empty());
    (
        monitor,
        Request::Watch { prefix: tasks_prefix(), start_revision: revision, kind: WatchKind::Puts },
    )
}

/// Starts the watch on the claims, from `revision` on: of each claim that
/// goes away the task's record is read, as of the revision of the event,
/// and whatever is to be done about it is done.
pub fn process_new_orphans(revision: i64) -> (started: (Monitor, Request))
    ensures
        started.0@ == (MonitorView {
            source: Source::Orphans,
            revision,
            items: Seq::empty(),
            next: 0,
            full: false,
            phase: MonitorPhaseView::AwaitItems,
        }),
        started.1@ == (RequestView::Watch {
            prefix: claims_prefix_bytes(),
            start_revision: revision,
            kind: WatchKind::Deletes,
        }),
{
    let monitor = Monitor {
        source: Source::Orphans,
        revision,
        items: Vec::new(),
        next: 0,
        full: false,
        phase: MonitorPhase::AwaitItems,
    };
    assert(monitor@.items =~= Seq::empty());
    (
        monitor,
        Request::Watch {
            prefix: claims_prefix(),
            start_revision: revision,
            kind: WatchKind::Deletes,
        },
    )
}

impl Source {
    pub fn kind(self) -> (kind: WatchKind)
        ensures
            kind == self.spec_kind(),
    {
        match self {
            Source::Orphans => WatchKind::Deletes,
            _ => WatchKind::Puts,
        }
    }
}

impl Monitor {
    pub fn source(&self) -> (source: Source)
        ensures
            source == self@.source,
    {
        self.source
    }

    fn deal_with(&mut self, kv: &KeyValue) -> (step: crate::task::Step<
        Result<MonitorEnd, StoreError>,
    >)
        ensures
            old(self)@.deals_with(kv@, final(self)@, monitor_step_view(step)),
        decreases old(self)@.items.len() - old(self)@.next, 1int,
    {
        let outcome = try_enqueue_task(kv);
        match outcome {
            DispatchStep::Call(dispatch, request) => {
                self.phase = MonitorPhase::AwaitDispatch(dispatch);
                crate::task::Step::Call(request)
            },
            DispatchStep::Done(Ok(())) => self.advance(),
            DispatchStep::Done(Err(error)) => {
                self.phase = MonitorPhase::AwaitItems;
                crate::task::Step::Done(Err(error))
            },
        }
    }

    fn turn_page(&mut self) -> (step: crate::task::Step<Result<MonitorEnd, StoreError>>)
        ensures
            old(self)@.turns_page(final(self)@, monitor_step_view(step)),
    {
        self.phase = MonitorPhase::AwaitItems;
        match self.source {
            Source::Scan => {
                if self.full && self.items.len() > 0 {
                    let last = &self.items[self.items.len() - 1];
                    let start = get_increment_key(last.key.as_slice());
                    crate::task::Step::Call(page(start, self.revision))
                } else {
                    crate::task::Step::Done(Ok(MonitorEnd::Scanned { revision: self.revision }))
                }
            },
            _ => crate::task::Step::Call(Request::NextEvents),
        }
    }

    fn advance(&mut self) -> (step: crate::task::Step<Result<MonitorEnd, StoreError>>)
        ensures
            old(self)@.advances(final(self)@, monitor_step_view(step)),
        decreases old(self)@.items.len() - old(self)@.next, 0int,
    {
        if self.next < self.items.len() {
            let item = clone_kv(&self.items[self.next]);
            self.next = self.next + 1;
            if self.source == Source::Orphans {
                if item.key.len() >= 7 {
                    let task_id = claim_key_task_id(item.key.as_slice());
                    let key = task_key(task_id);
                    self.phase = MonitorPhase::AwaitRecord;
                    crate::task::Step::Call(Request::Get { key, revision: self.revision })
                } else {
                    self.advance()
                }
            } else {
                self.deal_with(&item)
            }
        } else {
            self.turn_page()
        }
    }

    /// Takes the answer of the store to the request that was handed out
    /// last, and hands out what comes next: a request, or the end of the
    /// pass.
    pub fn proceed(&mut self, response: Response) -> (step: crate::task::Step<
        Result<MonitorEnd, StoreError>,
    >)
        ensures
            old(self)@.proceeds(response@, final(self)@, monitor_step_view(step)),
    {
        let mut phase = MonitorPhase::AwaitItems;
        core::mem::swap(&mut self.phase, &mut phase);
        match (phase, response) {
            (_, Response::Failed { message }) => crate::task::Step::Done(
                Err(StoreError { message }),
            ),
            (MonitorPhase::AwaitItems, Response::Kvs { kvs, more, revision }) => {
                if self.source == Source::Scan {
                    if self.revision == 0 {
                        self.revision = revision;
                    }
                    self.full = kvs.len() == 10000;
                    self.items = kvs;
                    self.next = 0;
                    self.advance()
                } else {
                    crate::task::Step::Done(Err(unexpected_store_error()))
                }
            },
            (
                MonitorPhase::AwaitItems,
                Response::Events { revision, canceled, compacted, events },
            ) => {
                if self.source == Source::Scan {
                    crate::task::Step::Done(Err(unexpected_store_error()))
                } else if canceled {
                    crate::task::Step::Done(
                        Ok(
                            if compacted {
                                MonitorEnd::Compacted
                            } else {
                                MonitorEnd::Canceled
                            },
                        ),
                    )
                } else {
                    self.revision = revision;
                    self.items = kvs_of_events(&events, self.source.kind());
                    self.next = 0;
                    self.advance()
                }
            },
            (MonitorPhase::AwaitItems, Response::EndOfEvents) => {
                if self.source == Source::Scan {
                    crate::task::Step::Done(Err(unexpected_store_error()))
                } else {
                    crate::task::Step::Done(Ok(MonitorEnd::Ended))
                }
            },
            (MonitorPhase::AwaitRecord, Response::Kvs { kvs, more, revision }) => {
                if kvs.len() == 0 {
                    self.advance()
                } else {
                    self.deal_with(&kvs[0])
                }
            },
            (MonitorPhase::AwaitDispatch(dispatch), response) => {
                let outcome = dispatch.proceed(response);
                match outcome {
                    DispatchStep::Call(dispatch, request) => {
                        self.phase = MonitorPhase::AwaitDispatch(dispatch);
                        crate::task::Step::Call(request)
                    },
                    DispatchStep::Done(Ok(())) => self.advance(),
                    DispatchStep::Done(Err(error)) => crate::task::Step::Done(Err(error)),
                }
            },
            _ => crate::task::Step::Done(Err(unexpected_store_error())),
        }
    }
}

/// The error by which the monitor reports an answer of the store that does
/// not fit the request it was given for.
pub fn unexpected_store_error() -> (error: StoreError)
    ensures
        error.message@ == unexpected_response(),
{
    StoreError { message: "the store answered a request that was not made".to_owned() }
}

/// A final state is sticky for the monitor: about a task that is Complete,
/// in Error or Canceled it writes nothing at the task's key. All it does is
/// read the record of the parent, where the task has one.
pub proof fn lemma_monitor_leaves_final_records(kv: KeyValueView, step: DispatchStepView)
    requires
        record_of_bytes(kv.value) matches Ok(record) && record.status.spec_is_final(),
        dispatches(kv, step),
    ensures
        step is Done || (step matches DispatchStepView::Call(dispatch, request) && dispatch
            is ReadingParent && request is Get),
{
}

/// A task that is Pending or Resuming gets a queue entry by the very step
/// that the monitor takes on its record: the enqueue transaction, after
/// which the task has a queue entry or a claim.
pub proof fn lemma_monitor_enqueues_what_waits(kv: KeyValueView, step: DispatchStepView)
    requires
        record_of_bytes(kv.value) matches Ok(record) && (record.status == TaskStatus::Pending
            || record.status == TaskStatus::Resuming),
        recorded_task(kv.key) is Some,
        dispatches(kv, step),
    ensures
        step == DispatchStepView::Call(
            DispatchView::Writing,
            RequestView::Txn {
                txn: spec_enqueue_txn(
                    spec_claim_key(recorded_task(kv.key)->0),
                    spec_queue_key(recorded_task(kv.key)->0),
                ),
            },
        ),
{
}

/// A task that its worker abandoned while it ran stands, once another worker
/// has picked it up and it runs again, as the first worker left it: the step
/// to Resuming that the monitor writes and the step back to Running that the
/// second worker writes change the status and nothing else, so the second
/// worker reads the progress that the first has stored.
pub proof fn lemma_pickup_restores_the_record(record: TaskDataView)
    requires
        record.status == TaskStatus::Running,
    ensures
        record.with_status(TaskStatus::Resuming).with_status(TaskStatus::Running) == record,
        forall|name: Seq<char>|
            record.with_status(TaskStatus::Resuming).slot(name) == #[trigger] record.slot(name),
{
}

/// A watch that the store cut off because the revisions it was to start
/// from are gone leads to a fresh scan of all records, and to nothing else.
pub proof fn lemma_compaction_leads_to_rescan(
    monitor: MonitorView,
    revision: i64,
    events: Seq<WatchEventView>,
    after: MonitorView,
    step: MonitorStepView,
)
    requires
        monitor.source != Source::Scan,
        monitor.phase is AwaitItems,
        monitor.proceeds(
            ResponseView::Events { revision, canceled: true, compacted: true, events },
            after,
            step,
        ),
    ensures
        step == MonitorStepView::Done(Ok(MonitorEnd::Compacted)),
        MonitorEnd::Compacted.spec_next() == MonitorNext::Rescan,
{
}

} // verus!
