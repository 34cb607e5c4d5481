//! The operator's resume: a task that ended in Error is taken back to
//! Resuming, so that the monitor queues it again.

use crate::key::{key_after_prefix, prefix_range_end, spec_task_key, task_key, tasks_prefix_bytes};
use crate::monitor::{is_guarded_write, wake_up_waiting_task};
use crate::record::{record_of_bytes, TaskData, TaskDataView};
use crate::request::{
    unexpected, unexpected_response, Request, RequestView, Response, ResponseView, StoreError,
    TaskStateError, TaskStateErrorView,
};
use crate::status::TaskStatus;
use crate::store::{kvs_view, KeyValue, KeyValueView};
use crate::task::Step;
use vstd::prelude::*;

verus! {

/// What the resume of one task waits for.
#[derive(Clone, Copy, Debug, PartialEq, Eq, Structural)]
pub enum Resume {
    /// The record of the task.
    Reading,
    /// The answer to the write of the record.
    Writing,
}

pub enum ResumeStepView {
    Call(Resume, RequestView),
    /// Whether the task was resumed.
    Done(Result<bool, TaskStateErrorView>),
}

pub enum ResumeStep {
    Call(Resume, Request),
    Done(Result<bool, TaskStateError>),
}

impl View for ResumeStep {
    type V = ResumeStepView;

    open spec fn view(&self) -> ResumeStepView {
        match self {
            ResumeStep::Call(resume, request) => ResumeStepView::Call(*resume, request@),
            ResumeStep::Done(Ok(resumed)) => ResumeStepView::Done(Ok(*resumed)),
            ResumeStep::Done(Err(error)) => ResumeStepView::Done(Err(error@)),
        }
    }
}

/// The record of a task that ended in Error, as the operator's resume writes
/// it: in the state Resuming, and without the slot `error`.
pub open spec fn resumed_record(record: TaskDataView) -> TaskDataView {
    record.without_slot("error"@).with_status(TaskStatus::Resuming)
}

/// The next step of the resume of one task, on the answer `response`. A
/// task without a record is not resumed, nor is one that is not in Error.
/// The write is guarded by the version of the record that was read; a
/// record that has changed meanwhile is left as it is, and the task is not
/// resumed.
pub open spec fn resume_proceeds(
    resume: Resume,
    response: ResponseView,
    step: ResumeStepView,
) -> bool {
    match (resume, response) {
        (_, ResponseView::Failed { message }) => step == ResumeStepView::Done(
            Err(TaskStateErrorView::Etcd(message)),
        ),
        (Resume::Reading, ResponseView::Kvs { kvs, .. }) => if kvs.len() == 0 {
            step == ResumeStepView::Done(Ok(false))
        } else {
            match record_of_bytes(kvs[0].value) {
                Err(error) => step == ResumeStepView::Done(Err(TaskStateErrorView::Json(error))),
                Ok(record) => if record.status != TaskStatus::Error {
                    step == ResumeStepView::Done(Ok(false))
                } else {
                    &&& step matches ResumeStepView::Call(Resume::Writing, request)
                    &&& is_guarded_write(request, kvs[0], resumed_record(record))
                },
            }
        },
        (Resume::Writing, ResponseView::TxnDone { succeeded, .. }) => step == ResumeStepView::Done(
            Ok(succeeded),
        ),
        _ => step == ResumeStepView::Done(Err(TaskStateErrorView::Etcd(unexpected_response()))),
    }
}

/// Starts the resume of the task `task_id`: its record is read.
pub fn resume(task_id: &[u8]) -> (started: (Resume, Request))
    ensures
        started.0 == Resume::Reading,
        started.1@ == (RequestView::Get { key: spec_task_key(task_id@), revision: 0 }),
{
    (Resume::Reading, Request::Get { key: task_key(task_id), revision: 0 })
}

impl Resume {
    /// Takes the answer of the store to the request that was handed out
    /// last, and hands out what comes next.
    pub fn proceed(self, response: Response) -> (step: ResumeStep)
        ensures
            resume_proceeds(self, response@, step@),
    {
        match (self, response) {
            (_, Response::Failed { message }) => ResumeStep::Done(
                Err(TaskStateError::Etcd(StoreError { message })),
            ),
            (Resume::Reading, Response::Kvs { kvs, more, revision }) => {
                if kvs.len() == 0 {
                    return ResumeStep::Done(Ok(false));
                }
                match TaskData::from_bytes(kvs[0].value.as_slice()) {
                    Err(error) => ResumeStep::Done(Err(TaskStateError::Json(error))),
                    Ok(record) => {
                        if record.status() != TaskStatus::Error {
                            return ResumeStep::Done(Ok(false));
                        }
                        let mut resumed = record;
                        resumed.remove_field("error");
                        let request = wake_up_waiting_task(&kvs[0], &resumed);
                        ResumeStep::Call(Resume::Writing, request)
                    },
                }
            },
            (Resume::Writing, Response::TxnDone { succeeded, gets }) => ResumeStep::Done(
                Ok(succeeded),
            ),
            _ => ResumeStep::Done(Err(unexpected())),
        }
    }
}

/// The resume of all tasks whose ids start with a prefix.
pub struct ResumeAll {
    items: Vec<KeyValue>,
    next: usize,
    current: Option<Resume>,
}

pub struct ResumeAllView {
    /// The records that were found under the prefix.
    pub items: Seq<KeyValueView>,
    /// How many of them were dealt with.
    pub next: int,
    /// The resume under way. Without one, the records are awaited.
    pub current: Option<Resume>,
}

impl View for ResumeAll {
    type V = ResumeAllView;

    closed spec fn view(&self) -> ResumeAllView {
        ResumeAllView {
            items: kvs_view(self.items@),
            next: self.next as int,
            current: self.current,
        }
    }
}

pub enum ResumeAllStepView {
    Call(RequestView),
    Done(Result<(), TaskStateErrorView>),
}

pub open spec fn resume_all_step_view(step: Step<Result<(), TaskStateError>>) -> ResumeAllStepView {
    match step {
        Step::Call(request) => ResumeAllStepView::Call(request@),
        Step::Done(Ok(())) => ResumeAllStepView::Done(Ok(())),
        Step::Done(Err(error)) => ResumeAllStepView::Done(Err(error@)),
    }
}

impl ResumeAllView {
    /// What the resume of all does when it waits for nothing: it turns to
    /// the next record and starts the resume of its task, by reading the
    /// record anew. A key that is too short for a record is passed over.
    pub open spec fn advances(self, after: ResumeAllView, step: ResumeAllStepView) -> bool
        decreases self.items.len() - self.next,
    {
        if 0 <= self.next < self.items.len() {
            let key = self.items[self.next].key;
            let taken = ResumeAllView { next: self.next + 1, current: None, ..self };
            if key.len() >= tasks_prefix_bytes().len() {
                after == (ResumeAllView { current: Some(Resume::Reading), ..taken }) && step
                    == ResumeAllStepView::Call(RequestView::Get { key, revision: 0 })
            } else {
                taken.advances(after, step)
            }
        } else {
            after == (ResumeAllView { current: None, ..self }) && step == ResumeAllStepView::Done(
                Ok(()),
            )
        }
    }

    /// The next step of the resume of all, on the answer `response`.
    pub open spec fn proceeds(
        self,
        response: ResponseView,
        after: ResumeAllView,
        step: ResumeAllStepView,
    ) -> bool {
        match self.current {
            None => match response {
                ResponseView::Kvs { kvs, .. } => (ResumeAllView {
                    items: kvs,
                    next: 0,
                    current: None,
                }).advances(after, step),
                ResponseView::Failed { message } => after == self && step
                    == ResumeAllStepView::Done(Err(TaskStateErrorView::Etcd(message))),
                _ => after == self && step == ResumeAllStepView::Done(
                    Err(TaskStateErrorView::Etcd(unexpected_response())),
                ),
            },
            Some(resume) => exists|outcome: ResumeStepView| #[trigger]
                resume_proceeds(resume, response, outcome) && match outcome {
                    ResumeStepView::Call(resume, request) => after == (ResumeAllView {
                        current: Some(resume),
                        ..self
                    }) && step == ResumeAllStepView::Call(request),
                    ResumeStepView::Done(Ok(_)) => (ResumeAllView {
                        current: None,
                        ..self
                    }).advances(after, step),
                    ResumeStepView::Done(Err(error)) => after == (ResumeAllView {
                        current: None,
                        ..self
                    }) && step == ResumeAllStepView::Done(Err(error)),
                },
        }
    }
}

/// Starts the resume of all tasks whose ids start with `task_prefix`: their
/// records are read.
pub fn resume_all(task_prefix: &[u8]) -> (started: (ResumeAll, Request))
    ensures
        started.0@ == (ResumeAllView { items: Seq::empty(), next: 0, current: None }),
        started.1@ == (RequestView::Range {
            start: spec_task_key(task_prefix@),
            end: prefix_range_end(spec_task_key(task_prefix@)),
            limit: 0,
            revision: 0,
            by_creation: false,
        }),
{
    let all = ResumeAll { items: Vec::new(), next: 0, current: None };
    assert(all@.items =~= Seq::empty());
    let start = task_key(task_prefix);
    let end = key_after_prefix(start.as_slice());
    (all, Request::Range { start, end, limit: 0, revision: 0, by_creation: false })
}

impl ResumeAll {
    fn advance(&mut self) -> (step: Step<Result<(), TaskStateError>>)
        ensures
            old(self)@.advances(final(self)@, resume_all_step_view(step)),
        decreases old(self)@.items.len() - old(self)@.next,
    {
        self.current = None;
        if self.next < self.items.len() {
            let key = self.items[self.next].key.clone();
            self.next = self.next + 1;
            if key.len() >= 6 {
                self.current = Some(Resume::Reading);
                Step::Call(Request::Get { key, revision: 0 })
            } else {
                self.advance()
            }
        } else {
            Step::Done(Ok(()))
        }
    }

    /// Takes the answer of the store to the request that was handed out
    /// last, and hands out what comes next.
    pub fn proceed(&mut self, response: Response) -> (step: Step<Result<(), TaskStateError>>)
        ensures
            old(self)@.proceeds(response@, final(self)@, resume_all_step_view(step)),
    {
        match self.current {
            None => match response {
                Response::Kvs { kvs, more, revision } => {
                    self.items = kvs;
                    self.next = 0;
                    self.advance()
                },
                Response::Failed { message } => Step::Done(
                    Err(TaskStateError::Etcd(StoreError { message })),
                ),
                _ => Step::Done(Err(unexpected())),
            },
            Some(resume) => {
                let outcome = resume.proceed(response);
                match outcome {
                    ResumeStep::Call(resume, request) => {
                        self.current = Some(resume);
                        Step::Call(request)
                    },
                    ResumeStep::Done(Ok(_)) => {
                        self.current = None;
                        self.advance()
                    },
                    ResumeStep::Done(Err(error)) => {
                        self.current = None;
                        Step::Done(Err(error))
                    },
                }
            },
        }
    }
}

} // verus!
