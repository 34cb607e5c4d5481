//! The spawning of a child task, and what becomes of a run of the user's
//! code that did not return.

use crate::handler::Outcome;
use crate::json::{json_shape, text_of_bytes, text_value, utf8_lossy, JsonShape};
use crate::key::{spec_task_key, task_key};
use crate::monitor::is_compact_document_of;
use crate::record::{record_of_bytes, TaskData, TaskDataView};
use crate::request::{
    unexpected, unexpected_response, Request, RequestView, Response, ResponseView, StoreError,
    TaskStateError, TaskStateErrorView,
};
use crate::status::TaskStatus;
use crate::store::{kvs_view, KeyValue, KeyValueView};
use crate::task::Task;
use crate::txn::{guarded_put_txn, spec_guarded_put_txn};
use serde_json::Value;
use vstd::prelude::*;

verus! {

/// What the spawning of a child waits for.
pub enum SpawnChild {
    /// What stands at the child's key, if anything does. `record` is the
    /// record that the child is to get.
    Reading { child_key: Vec<u8>, record: TaskData },
    /// The answer to the write of the child's record.
    Writing,
}

pub enum SpawnChildView {
    Reading { child_key: Seq<u8>, record: TaskDataView },
    Writing,
}

impl View for SpawnChild {
    type V = SpawnChildView;

    open spec fn view(&self) -> SpawnChildView {
        match self {
            SpawnChild::Reading { child_key, record } => SpawnChildView::Reading {
                child_key: child_key@,
                record: record@,
            },
            SpawnChild::Writing => SpawnChildView::Writing,
        }
    }
}

pub enum SpawnStep {
    Call(SpawnChild, Request),
    Done(Result<(), TaskStateError>),
}

pub enum SpawnStepView {
    Call(SpawnChildView, RequestView),
    Done(Result<(), TaskStateErrorView>),
}

impl View for SpawnStep {
    type V = SpawnStepView;

    open spec fn view(&self) -> SpawnStepView {
        match self {
            SpawnStep::Call(spawn, request) => SpawnStepView::Call(spawn@, request@),
            SpawnStep::Done(Ok(())) => SpawnStepView::Done(Ok(())),
            SpawnStep::Done(Err(error)) => SpawnStepView::Done(Err(error@)),
        }
    }
}

/// The record of a child of the task `parent` that is created with `init`:
/// Pending, with the parent's id, and `init` in the slot `init`.
pub open spec fn child_record(parent: Seq<u8>, init: Value) -> TaskDataView {
    TaskDataView {
        status: TaskStatus::Pending,
        parent: Some(utf8_lossy(parent)),
        children: None,
        waiting: None,
        other_fields: seq![("init"@, init)],
    }
}

/// What stands at the child's key does not stand in the way of the child:
/// there is nothing, or a task that has ended, or something that is no
/// record.
pub open spec fn may_be_replaced(kvs: Seq<KeyValueView>) -> bool {
    kvs.len() == 0 || match record_of_bytes(kvs[0].value) {
        Ok(existing) => existing.status.spec_is_final(),
        Err(_) => true,
    }
}

/// `request` is the write of a document of `record` at `child_key`, guarded
/// by the version `version` of that key; version 0 says that the key must
/// not exist.
pub open spec fn is_child_write(
    request: RequestView,
    child_key: Seq<u8>,
    version: i64,
    record: TaskDataView,
) -> bool {
    &&& request matches RequestView::Txn { txn }
    &&& exists|bytes: Seq<u8>|
        is_compact_document_of(bytes, record) && txn == #[trigger] spec_guarded_put_txn(
            child_key,
            version,
            bytes,
        )
}

/// The next step of the spawning of a child, on the answer `response`. The
/// child's record is written only where no task that is still at work
/// stands at its key, and only if the key has not changed since it was read.
pub open spec fn spawn_proceeds(
    spawn: SpawnChildView,
    response: ResponseView,
    step: SpawnStepView,
) -> bool {
    match (spawn, response) {
        (_, ResponseView::Failed { message }) => step == SpawnStepView::Done(
            Err(TaskStateErrorView::Etcd(message)),
        ),
        (SpawnChildView::Reading { child_key, record }, ResponseView::Kvs { kvs, .. }) =>
            if may_be_replaced(kvs) {
                &&& step matches SpawnStepView::Call(SpawnChildView::Writing, request)
                &&& is_child_write(
                    request,
                    child_key,
                    if kvs.len() > 0 {
                        kvs[0].version
                    } else {
                        0
                    },
                    record,
                )
            } else {
                step == SpawnStepView::Done(Err(TaskStateErrorView::TaskAlreadyRunning))
            },
        (SpawnChildView::Writing, ResponseView::TxnDone { succeeded, .. }) => if succeeded {
            step == SpawnStepView::Done(Ok(()))
        } else {
            step == SpawnStepView::Done(Err(TaskStateErrorView::TaskAlreadyRunning))
        },
        _ => step == SpawnStepView::Done(Err(TaskStateErrorView::Etcd(unexpected_response()))),
    }
}

/// Starts the spawning of the child `child_id` of the task `parent`, with
/// `init` as what the child is created with: what stands at the child's key
/// is read.
pub fn spawn_child(parent: &Task, child_id: &[u8], init: Value) -> (started: (
    SpawnChild,
    Request,
))
    ensures
        started.0@ == (SpawnChildView::Reading {
            child_key: spec_task_key(child_id@),
            record: child_record(parent@.task_id, init),
        }),
        started.1@ == (RequestView::Get { key: spec_task_key(child_id@), revision: 0 }),
{
    let mut record = TaskData::new(TaskStatus::Pending);
    record.set_parent(Some(text_of_bytes(parent.task_id())));
    proof {
        crate::task::lemma_slot_names();
    }
    let stored = record.set_field("init", init);
    let child_key = task_key(child_id);
    let key = task_key(child_id);
    (SpawnChild::Reading { child_key, record }, Request::Get { key, revision: 0 })
}

/// Whether what stands at the child's key stands in the way of the child.
fn check_may_be_replaced(kvs: &Vec<KeyValue>) -> (may: bool)
    ensures
        may == may_be_replaced(kvs_view(kvs@)),
{
    if kvs.len() == 0 {
        return true;
    }
    match TaskData::from_bytes(kvs[0].value.as_slice()) {
        Ok(existing) => existing.status().is_final(),
        Err(_) => true,
    }
}

impl SpawnChild {
    /// Takes the answer of the store to the request that was handed out
    /// last, and hands out what comes next.
    pub fn proceed(self, response: Response) -> (step: SpawnStep)
        ensures
            spawn_proceeds(self@, response@, step@),
    {
        match (self, response) {
            (_, Response::Failed { message }) => SpawnStep::Done(
                Err(TaskStateError::Etcd(StoreError { message })),
            ),
            (SpawnChild::Reading { child_key, record }, Response::Kvs { kvs, more, revision }) => {
                if !check_may_be_replaced(&kvs) {
                    return SpawnStep::Done(Err(TaskStateError::TaskAlreadyRunning));
                }
                let version = if kvs.len() > 0 {
                    kvs[0].version
                } else {
                    0
                };
                let bytes = record.to_bytes();
                let txn = guarded_put_txn(child_key.as_slice(), version, bytes);
                let request = Request::Txn { txn };
                SpawnStep::Call(SpawnChild::Writing, request)
            },
            (SpawnChild::Writing, Response::TxnDone { succeeded, gets }) => {
                if succeeded {
                    SpawnStep::Done(Ok(()))
                } else {
                    SpawnStep::Done(Err(TaskStateError::TaskAlreadyRunning))
                }
            },
            _ => SpawnStep::Done(Err(unexpected())),
        }
    }
}

/// How the run of a task's code on a thread of its own has ended.
pub enum Joined<R> {
    Returned(R),
    Panicked,
}

/// The text that stands for a fault of which nothing was recorded.
pub open spec fn no_error_was_set() -> Seq<char> {
    "task errored but no error was set"@
}

/// What a run of a task's code comes to: what it returned, or, where it did
/// not return, the error that was recorded for the task when it faulted.
pub fn catch_panic<R>(joined: Joined<R>, recorded: Option<String>) -> (result: Result<R, String>)
    ensures
        match joined {
            Joined::Returned(returned) => result == Ok::<R, String>(returned),
            Joined::Panicked => result matches Err(error) && error@ == match recorded {
                Some(recorded) => recorded@,
                None => no_error_was_set(),
            },
        },
{
    match joined {
        Joined::Returned(returned) => Ok(returned),
        Joined::Panicked => match recorded {
            Some(error) => Err(error),
            None => Err(String::from_str("task errored but no error was set")),
        },
    }
}

/// The outcome that a fault in the user's code is recorded as: an error that
/// says that the task panicked, and how.
pub fn panic_outcome(message: &str) -> (outcome: Outcome)
    ensures
        outcome matches Outcome::Failed(error) && json_shape(error) == JsonShape::Text(
            "task panicked: "@ + message@,
        ),
{
    let text = String::from_str("task panicked: ").concat(message);
    Outcome::Failed(text_value(text.as_str()))
}

} // verus!
