//! The worker's loop: claim a task, run the user's `initialize` and
//! `process` on it, and record how it ended.
//!
//! The loop is a machine. It hands out what is to be done next, a request to
//! the store or a run of the user's code, and takes what came of it.

use crate::queue::{NextStepView, NextTask, NextTaskView, Queue, QueueView};
use crate::request::{
    unexpected, unexpected_response, Request, RequestView, Response, ResponseView, StoreError,
    TaskAliveError, TaskStateError, TaskStateErrorView,
};
use crate::status::TaskStatus;
use crate::task::{task_step_view, PhaseView, PlanView, Step, Task, TaskStepView, TaskView};
use serde_json::Value;
use vstd::prelude::*;

verus! {

/// How a run of the user's code ended: with a value, or with an error that
/// the task is to record.
#[derive(Debug)]
pub enum Outcome {
    Returned(Value),
    Failed(Value),
}

/// What the loop is told.
#[derive(Debug)]
pub enum Event {
    /// The answer of the store to the request that was handed out last.
    Store(Response),
    /// The end of the run of the user's code that was handed out last.
    User(Outcome),
}

pub enum EventView {
    Store(ResponseView),
    User(Outcome),
}

impl View for Event {
    type V = EventView;

    open spec fn view(&self) -> EventView {
        match self {
            Event::Store(response) => EventView::Store(response@),
            Event::User(outcome) => EventView::User(*outcome),
        }
    }
}

/// What the loop hands out.
#[derive(Debug)]
pub enum Action {
    /// A request to perform against the store.
    Store(Request),
    /// The user's `initialize` is to be run on the task.
    Initialize,
    /// The user's `process` is to be run on the task.
    Process,
    /// The loop has ended, on an error that it cannot go on from.
    Stop(TaskStateError),
}

pub enum ActionView {
    Store(RequestView),
    Initialize,
    Process,
    Stop(TaskStateErrorView),
}

impl View for Action {
    type V = ActionView;

    open spec fn view(&self) -> ActionView {
        match self {
            Action::Store(request) => ActionView::Store(request@),
            Action::Initialize => ActionView::Initialize,
            Action::Process => ActionView::Process,
            Action::Stop(error) => ActionView::Stop(error@),
        }
    }
}

/// Where the loop stands.
#[derive(Clone, Copy, Debug, PartialEq, Eq, Structural)]
pub enum Stage {
    /// The next task is searched for.
    Searching,
    /// A task that is Pending is taken to Running.
    Starting,
    /// The user's `initialize` runs.
    Initializing,
    /// The record is read again after `initialize`.
    RefreshingInit,
    /// What `initialize` returned is stored as the progress.
    StoringProgress,
    /// The error of `initialize` is recorded.
    FailingInit,
    /// A task that is Resuming is taken to Running.
    Resuming,
    /// The user's `process` runs.
    Processing,
    /// The record is read again after `process`.
    Refreshing,
    /// The end of the task is recorded.
    Finishing,
    /// The claim is given up.
    Releasing,
    /// The loop has ended.
    Stopped,
}

/// The worker's loop.
pub struct Handler {
    queue: Queue,
    stage: Stage,
    search: NextTask,
    task: Option<Task>,
    outcome: Option<Outcome>,
}

pub struct HandlerView {
    pub queue: QueueView,
    pub stage: Stage,
    pub search: NextTaskView,
    /// The task that the loop holds.
    pub task: Option<TaskView>,
    /// What the user's code returned, until it is recorded.
    pub outcome: Option<Outcome>,
}

pub open spec fn task_option_view(task: Option<Task>) -> Option<TaskView> {
    match task {
        Some(task) => Some(task@),
        None => None,
    }
}

impl View for Handler {
    type V = HandlerView;

    closed spec fn view(&self) -> HandlerView {
        HandlerView {
            queue: self.queue@,
            stage: self.stage,
            search: self.search@,
            task: task_option_view(self.task),
            outcome: self.outcome,
        }
    }
}

/// The text by which the loop reports a task that was handed to it in a
/// state in which the monitor queues no task.
pub open spec fn not_in_proper_state() -> Seq<char> {
    "task was not in proper state"@
}

impl HandlerView {
    /// The loop as it searches for its next task.
    pub open spec fn searching(self) -> HandlerView {
        HandlerView {
            stage: Stage::Searching,
            search: NextTaskView::initial(),
            task: None,
            outcome: None,
            ..self
        }
    }

    /// The loop turns to the search for its next task.
    pub open spec fn searches(self, after: HandlerView, action: ActionView) -> bool {
        after == self.searching() && action == ActionView::Store(
            self.queue.scan(self.queue.queue_prefix()),
        )
    }

    /// The loop ends on `error`.
    pub open spec fn stops(
        self,
        error: TaskStateErrorView,
        after: HandlerView,
        action: ActionView,
    ) -> bool {
        after == (HandlerView { stage: Stage::Stopped, ..self }) && action == ActionView::Stop(
            error,
        )
    }

    /// An operation on the task was begun for the stage `stage`, and left the
    /// task as `task` with the step `step`. A request goes out. A lease that
    /// was found gone ends the work on the task: the loop writes nothing
    /// further for it and turns to the next one.
    pub open spec fn starts(
        self,
        stage: Stage,
        task: TaskView,
        step: TaskStepView,
        after: HandlerView,
        action: ActionView,
    ) -> bool {
        match step {
            TaskStepView::Call(request) => after == (HandlerView {
                stage,
                task: Some(task),
                ..self
            }) && action == ActionView::Store(request),
            TaskStepView::Done(Err(TaskStateErrorView::LeaseExpired)) => self.searches(
                after,
                action,
            ),
            TaskStepView::Done(Err(error)) => (HandlerView { task: Some(task), ..self }).stops(
                error,
                after,
                action,
            ),
            TaskStepView::Done(Ok(())) => (HandlerView { task: Some(task), ..self }).stops(
                TaskStateErrorView::Etcd(unexpected_response()),
                after,
                action,
            ),
        }
    }

    /// The loop gives up the claim of the task `task`.
    pub open spec fn releases(
        self,
        task: TaskView,
        after: HandlerView,
        action: ActionView,
    ) -> bool {
        match task.lease {
            Some(lease) => after == (HandlerView {
                stage: Stage::Releasing,
                task: Some(task.with_phase(PhaseView::Revoking)),
                ..self
            }) && action == ActionView::Store(RequestView::LeaseRevoke { lease }),
            None => self.searches(after, action),
        }
    }

    /// The record was read again after a run of the user's code, and the
    /// task stands as `task`. A task that is still Running gets what the
    /// user's code returned: after `initialize` a value becomes the
    /// progress, after `process` the result; an error ends the task in
    /// Error. A task that is Running no longer was paused or canceled
    /// meanwhile. Its record stays as it is, and the claim is given up.
    pub open spec fn records(
        self,
        initialized: bool,
        task: TaskView,
        now: u64,
        after: HandlerView,
        action: ActionView,
    ) -> bool {
        let cleared = HandlerView { outcome: None, ..self };
        if task.state.status != TaskStatus::Running || task.lease is None {
            cleared.releases(task, after, action)
        } else {
            match self.outcome {
                None => cleared.stops(
                    TaskStateErrorView::Etcd(unexpected_response()),
                    after,
                    action,
                ),
                Some(Outcome::Returned(value)) => exists|started: TaskView, step: TaskStepView|
                    #![trigger cleared.starts(Stage::Finishing, started, step, after, action)]
                    #![trigger cleared.starts(Stage::StoringProgress, started, step, after, action)]
                    if initialized {
                        task.begins(
                            PlanView::Write {
                                record: task.state.with_slot("progress"@, value),
                                release: false,
                            },
                            now,
                            started,
                            step,
                        ) && cleared.starts(Stage::StoringProgress, started, step, after, action)
                    } else {
                        task.begins(
                            PlanView::Write {
                                record: task.state.with_slot("result"@, value).with_status(
                                    TaskStatus::Complete,
                                ),
                                release: true,
                            },
                            now,
                            started,
                            step,
                        ) && cleared.starts(Stage::Finishing, started, step, after, action)
                    },
                Some(Outcome::Failed(error)) => exists|started: TaskView, step: TaskStepView|
                    #![trigger cleared.starts(Stage::Finishing, started, step, after, action)]
                    #![trigger cleared.starts(Stage::FailingInit, started, step, after, action)]
                    task.begins(
                        PlanView::Write {
                            record: task.state.with_slot("error"@, error).with_status(
                                TaskStatus::Error,
                            ),
                            release: true,
                        },
                        now,
                        started,
                        step,
                    ) && cleared.starts(
                        if initialized {
                            Stage::FailingInit
                        } else {
                            Stage::Finishing
                        },
                        started,
                        step,
                        after,
                        action,
                    ),
            }
        }
    }

    /// The user's code is to be run on the task and has ended. The record
    /// is read again before anything is written, since the user's code may
    /// have consumed an interrupt.
    pub open spec fn refreshes(
        self,
        stage: Stage,
        outcome: Outcome,
        now: u64,
        after: HandlerView,
        action: ActionView,
    ) -> bool {
        let kept = HandlerView { outcome: Some(outcome), ..self };
        match self.task {
            None => self.stops(TaskStateErrorView::Etcd(unexpected_response()), after, action),
            Some(task) => exists|started: TaskView, step: TaskStepView|
                #![trigger kept.starts(stage, started, step, after, action)]
                task.begins(PlanView::Fetch, now, started, step) && kept.starts(
                    stage,
                    started,
                    step,
                    after,
                    action,
                ),
        }
    }

    /// The operation of the stage `self.stage` has ended well and left the
    /// task as `task`.
    pub open spec fn completes(
        self,
        task: TaskView,
        now: u64,
        after: HandlerView,
        action: ActionView,
    ) -> bool {
        let held = HandlerView { task: Some(task), ..self };
        match self.stage {
            Stage::Starting => after == (HandlerView { stage: Stage::Initializing, ..held })
                && action == ActionView::Initialize,
            Stage::StoringProgress => after == (HandlerView { stage: Stage::Processing, ..held })
                && action == ActionView::Process,
            Stage::Resuming => after == (HandlerView { stage: Stage::Processing, ..held })
                && action == ActionView::Process,
            Stage::RefreshingInit => held.records(true, task, now, after, action),
            Stage::Refreshing => held.records(false, task, now, after, action),
            _ => self.searches(after, action),
        }
    }

    /// A step `step` of the operation under way has left the task as `task`.
    /// A request goes out; an operation that ended well leads on; one that an
    /// interrupt ended leads to the release of the claim; a lease that was
    /// found gone leads to the next task; any other error ends the loop.
    pub open spec fn drives(
        self,
        task: TaskView,
        step: TaskStepView,
        now: u64,
        after: HandlerView,
        action: ActionView,
    ) -> bool {
        match step {
            TaskStepView::Call(request) => after == (HandlerView { task: Some(task), ..self })
                && action == ActionView::Store(request),
            TaskStepView::Done(Ok(())) => self.completes(task, now, after, action),
            TaskStepView::Done(Err(TaskStateErrorView::LeaseExpired)) => self.searches(
                after,
                action,
            ),
            TaskStepView::Done(Err(TaskStateErrorView::Interrupted)) => if self.stage
                == Stage::Releasing {
                self.searches(after, action)
            } else {
                (HandlerView { outcome: None, ..self }).releases(task, after, action)
            },
            TaskStepView::Done(Err(error)) => (HandlerView { task: Some(task), ..self }).stops(
                error,
                after,
                action,
            ),
        }
    }

    /// The search has handed out the task `task`, just claimed. A task that
    /// is Pending is started, one that is Resuming is resumed. No other
    /// task is ever queued; one that comes all the same ends the loop.
    pub open spec fn adopts(
        self,
        task: TaskView,
        now: u64,
        after: HandlerView,
        action: ActionView,
    ) -> bool {
        if task.lease is None {
            self.stops(TaskStateErrorView::Etcd(unexpected_response()), after, action)
        } else if task.state.status == TaskStatus::Pending || task.state.status
            == TaskStatus::Resuming {
            exists|started: TaskView, step: TaskStepView|
                #![trigger self.starts(Stage::Starting, started, step, after, action)]
                #![trigger self.starts(Stage::Resuming, started, step, after, action)]
                task.begins(
                    PlanView::Write {
                        record: task.state.with_status(TaskStatus::Running),
                        release: false,
                    },
                    now,
                    started,
                    step,
                ) && self.starts(
                    if task.state.status == TaskStatus::Pending {
                        Stage::Starting
                    } else {
                        Stage::Resuming
                    },
                    started,
                    step,
                    after,
                    action,
                )
        } else {
            self.stops(TaskStateErrorView::Etcd(not_in_proper_state()), after, action)
        }
    }

    /// The next step of the loop, on the event `event` that came at the time
    /// `now`.
    pub open spec fn proceeds(
        self,
        event: EventView,
        now: u64,
        after: HandlerView,
        action: ActionView,
    ) -> bool {
        match (self.stage, event) {
            (Stage::Stopped, _) => self.stops(
                TaskStateErrorView::Etcd(unexpected_response()),
                after,
                action,
            ),
            (Stage::Searching, EventView::Store(response)) => exists|
                search: NextTaskView,
                step: NextStepView,
            |
                #![trigger self.search.proceeds(self.queue, response, now, search, step)]
                self.search.proceeds(self.queue, response, now, search, step) && match step {
                    NextStepView::Call(request) => after == (HandlerView { search, ..self })
                        && action == ActionView::Store(request),
                    NextStepView::Done(Err(error)) => (HandlerView { search, ..self }).stops(
                        error,
                        after,
                        action,
                    ),
                    NextStepView::Done(Ok(task)) => (HandlerView { search, ..self }).adopts(
                        task,
                        now,
                        after,
                        action,
                    ),
                },
            (Stage::Initializing, EventView::User(outcome)) => self.refreshes(
                Stage::RefreshingInit,
                outcome,
                now,
                after,
                action,
            ),
            (Stage::Processing, EventView::User(outcome)) => self.refreshes(
                Stage::Refreshing,
                outcome,
                now,
                after,
                action,
            ),
            (Stage::Initializing, _) => self.stops(
                TaskStateErrorView::Etcd(unexpected_response()),
                after,
                action,
            ),
            (Stage::Processing, _) => self.stops(
                TaskStateErrorView::Etcd(unexpected_response()),
                after,
                action,
            ),
            (_, EventView::Store(response)) => match self.task {
                None => self.stops(
                    TaskStateErrorView::Etcd(unexpected_response()),
                    after,
                    action,
                ),
                Some(task) => exists|next: TaskView, step: TaskStepView|
                    #![trigger self.drives(next, step, now, after, action)]
                    task.proceeds(response, now, next, step) && self.drives(
                        next,
                        step,
                        now,
                        after,
                        action,
                    ),
            },
            (_, EventView::User(_)) => self.stops(
                TaskStateErrorView::Etcd(unexpected_response()),
                after,
                action,
            ),
        }
    }
}

impl Handler {
    /// The loop of a worker on the queue `queue`, and its first action: the
    /// search for a task.
    pub fn new(queue: Queue) -> (started: (Handler, Action))
        ensures
            started.0@ == (HandlerView {
                queue: queue@,
                stage: Stage::Searching,
                search: NextTaskView::initial(),
                task: None,
                outcome: None,
            }),
            started.1@ == ActionView::Store(queue@.scan(queue@.queue_prefix())),
    {
        let (search, request) = queue.next_task();
        (
            Handler { queue, stage: Stage::Searching, search, task: None, outcome: None },
            Action::Store(request),
        )
    }

    pub fn stage(&self) -> (stage: Stage)
        ensures
            stage == self@.stage,
    {
        self.stage
    }

    /// The task that the loop holds.
    pub fn task(&self) -> (task: &Option<Task>)
        ensures
            task_option_view(*task) == self@.task,
    {
        &self.task
    }

    /// The task for the user's code: a copy that holds the same claim.
    pub fn liveness(&self) -> (task: Option<Task>)
        ensures
            match self@.task {
                Some(held) => task_option_view(task) == Some(held.with_phase(PhaseView::Idle)),
                None => task is None,
            },
    {
        match &self.task {
            Some(task) => Some(task.duplicate()),
            None => None,
        }
    }

    fn search_again(&mut self) -> (action: Action)
        ensures
            old(self)@.searches(final(self)@, action@),
    {
        let (search, request) = self.queue.next_task();
        self.search = search;
        self.stage = Stage::Searching;
        self.task = None;
        self.outcome = None;
        Action::Store(request)
    }

    fn stop(&mut self, error: TaskStateError) -> (action: Action)
        ensures
            old(self)@.stops(error@, final(self)@, action@),
    {
        self.stage = Stage::Stopped;
        Action::Stop(error)
    }

    fn started(&mut self, stage: Stage, task: Task, step: Step<Result<(), TaskStateError>>) -> (action:
        Action)
        ensures
            old(self)@.starts(stage, task@, task_step_view(step), final(self)@, action@),
    {
        match step {
            Step::Call(request) => {
                self.stage = stage;
                self.task = Some(task);
                Action::Store(request)
            },
            Step::Done(Err(TaskStateError::LeaseExpired)) => self.search_again(),
            Step::Done(Err(error)) => {
                self.task = Some(task);
                self.stop(error)
            },
            Step::Done(Ok(())) => {
                self.task = Some(task);
                self.stop(unexpected())
            },
        }
    }

    fn release(&mut self, task: Task) -> (action: Action)
        ensures
            old(self)@.releases(task@, final(self)@, action@),
    {
        let mut task = task;
        let has_lease = task.has_lease();
        match task.release_claim() {
            Step::Call(request) => {
                self.stage = Stage::Releasing;
                self.task = Some(task);
                Action::Store(request)
            },
            Step::Done(_) => self.search_again(),
        }
    }

    fn record(&mut self, initialized: bool, task: Task, now: u64) -> (action: Action)
        ensures
            (HandlerView { task: Some(task@), ..old(self)@ }).records(
                initialized,
                task@,
                now,
                final(self)@,
                action@,
            ),
    {
        let mut task = task;
        let ghost held = HandlerView { task: Some(task@), ..old(self)@ };
        let ghost cleared = HandlerView { outcome: None, ..held };
        let outcome = self.outcome.take();
        if task.status() != TaskStatus::Running || !task.has_lease() {
            return self.release(task);
        }
        match outcome {
            None => {
                self.task = Some(task);
                self.stop(unexpected())
            },
            Some(Outcome::Returned(value)) => {
                if initialized {
                    let step = task.set_progress(value, now);
                    let ghost view = task_step_view(step);
                    let ghost after_begin = task@;
                    let action = self.started(Stage::StoringProgress, task, step);
                    assert(cleared.starts(
                        Stage::StoringProgress,
                        after_begin,
                        view,
                        self@,
                        action@,
                    ));
                    action
                } else {
                    let step = task.finish(value, now);
                    let ghost view = task_step_view(step);
                    let ghost after_begin = task@;
                    let action = self.started(Stage::Finishing, task, step);
                    assert(cleared.starts(Stage::Finishing, after_begin, view, self@, action@));
                    action
                }
            },
            Some(Outcome::Failed(error)) => {
                let step = task.finish_error(error, now);
                let ghost view = task_step_view(step);
                let ghost after_begin = task@;
                let stage = if initialized {
                    Stage::FailingInit
                } else {
                    Stage::Finishing
                };
                let action = self.started(stage, task, step);
                assert(cleared.starts(stage, after_begin, view, self@, action@));
                action
            },
        }
    }

    fn refresh(&mut self, stage: Stage, outcome: Outcome, now: u64) -> (action: Action)
        ensures
            old(self)@.refreshes(stage, outcome, now, final(self)@, action@),
    {
        let ghost kept = HandlerView { outcome: Some(outcome), ..old(self)@ };
        match self.task.take() {
            None => self.stop(unexpected()),
            Some(task) => {
                let mut task = task;
                self.outcome = Some(outcome);
                let step = task.refresh_state(now);
                let ghost view = task_step_view(step);
                let ghost after_begin = task@;
                let action = self.started(stage, task, step);
                assert(kept.starts(stage, after_begin, view, self@, action@));
                action
            },
        }
    }

    fn complete(&mut self, task: Task, now: u64) -> (action: Action)
        ensures
            old(self)@.completes(task@, now, final(self)@, action@),
    {
        match self.stage {
            Stage::Starting => {
                self.task = Some(task);
                self.stage = Stage::Initializing;
                Action::Initialize
            },
            Stage::StoringProgress => {
                self.task = Some(task);
                self.stage = Stage::Processing;
                Action::Process
            },
            Stage::Resuming => {
                self.task = Some(task);
                self.stage = Stage::Processing;
                Action::Process
            },
            Stage::RefreshingInit => self.record(true, task, now),
            Stage::Refreshing => self.record(false, task, now),
            _ => self.search_again(),
        }
    }

    fn drive(&mut self, task: Task, step: Step<Result<(), TaskStateError>>, now: u64) -> (action:
        Action)
        ensures
            old(self)@.drives(task@, task_step_view(step), now, final(self)@, action@),
    {
        match step {
            Step::Call(request) => {
                self.task = Some(task);
                Action::Store(request)
            },
            Step::Done(Ok(())) => self.complete(task, now),
            Step::Done(Err(TaskStateError::LeaseExpired)) => self.search_again(),
            Step::Done(Err(TaskStateError::Alive(TaskAliveError::Interrupted))) => {
                if self.stage == Stage::Releasing {
                    self.search_again()
                } else {
                    self.outcome = None;
                    self.release(task)
                }
            },
            Step::Done(Err(error)) => {
                self.task = Some(task);
                self.stop(error)
            },
        }
    }

    fn adopt(&mut self, task: Task, now: u64) -> (action: Action)
        ensures
            old(self)@.adopts(task@, now, final(self)@, action@),
    {
        let mut task = task;
        let status = task.status();
        if !task.has_lease() {
            self.stop(unexpected())
        } else if status == TaskStatus::Pending {
            let step = task.start(now);
            self.started(Stage::Starting, task, step)
        } else if status == TaskStatus::Resuming {
            let step = task.resume(now);
            self.started(Stage::Resuming, task, step)
        } else {
            self.stop(
                TaskStateError::Etcd(
                    StoreError { message: String::from_str("task was not in proper state") },
                ),
            )
        }
    }

    /// Takes what came of the action that was handed out last, at the time
    /// `now`, and hands out the next action.
    pub fn process_queue(&mut self, event: Event, now: u64) -> (action: Action)
        ensures
            old(self)@.proceeds(event@, now, final(self)@, action@),
    {
        match (self.stage, event) {
            (Stage::Stopped, _) => self.stop(unexpected()),
            (Stage::Searching, Event::Store(response)) => {
                let step = self.search.proceed(&self.queue, response, now);
                match step {
                    Step::Call(request) => Action::Store(request),
                    Step::Done(Err(error)) => self.stop(error),
                    Step::Done(Ok(task)) => self.adopt(task, now),
                }
            },
            (Stage::Initializing, Event::User(outcome)) => self.refresh(
                Stage::RefreshingInit,
                outcome,
                now,
            ),
            (Stage::Processing, Event::User(outcome)) => self.refresh(
                Stage::Refreshing,
                outcome,
                now,
            ),
            (Stage::Initializing, _) => self.stop(unexpected()),
            (Stage::Processing, _) => self.stop(unexpected()),
            (_, Event::Store(response)) => {
                let ghost before = old(self)@;
                match self.task.take() {
                    None => self.stop(unexpected()),
                    Some(task) => {
                        let mut task = task;
                        let step = task.proceed(response, now);
                        let ghost view = task_step_view(step);
                        let ghost next = task@;
                        let action = self.drive(task, step, now);
                        assert(before.drives(next, view, now, self@, action@)) by {
                        }
                        action
                    },
                }
            },
            (_, Event::User(_)) => self.stop(unexpected()),
        }
    }
}

} // verus!
