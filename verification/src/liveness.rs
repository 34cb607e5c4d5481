//! The handle that the user's code holds on its task, and the ways to keep
//! the lease alive over a long piece of work.

use crate::request::{
    LeaseExpired, Request, RequestView, Response, ResponseView, TaskStateError,
    TaskStateErrorView,
};
use crate::task::{task_step_view, PlanView, Step, Task, TaskStepView, TaskView};
use serde_json::Value;
use vstd::prelude::*;

verus! {

/// What a confirmed renewal says of the lease: with time left the lease is
/// alive; with none it was lost before the renewal came.
pub fn send_keep_alive(ttl: i64) -> (alive: Result<(), LeaseExpired>)
    ensures
        alive is Ok <==> ttl > 0,
{
    if ttl > 0 {
        Ok(())
    } else {
        Err(LeaseExpired)
    }
}

/// What the background renewer is told.
#[derive(Clone, Copy, Debug, PartialEq, Eq, Structural)]
pub enum RenewerEvent {
    /// The renewer was started.
    Started,
    /// An interval has passed.
    Tick,
    /// A renewal was confirmed, with `ttl` seconds left.
    KeptAlive { ttl: i64 },
    /// A renewal failed.
    Failed,
}

/// What the background renewer does next.
#[derive(Clone, Copy, Debug)]
pub enum RenewerAction {
    /// Wait for the next interval.
    WaitTick,
    /// Renew the lease.
    KeepAlive { lease: i64 },
    /// Stop: the guard was released, or the lease is lost.
    Stop(Result<(), LeaseExpired>),
}

/// The next action of the background renewer of the lease `lease`. The
/// renewer renews once in each interval for as long as its guard is held. It
/// stops when the guard is released, and when the lease is found lost, which
/// a failed renewal stands for as well.
pub open spec fn spec_keep_alive_continuously(
    lease: i64,
    held: bool,
    event: RenewerEvent,
) -> RenewerAction {
    match event {
        RenewerEvent::Started => if held {
            RenewerAction::WaitTick
        } else {
            RenewerAction::Stop(Ok(()))
        },
        RenewerEvent::Tick => RenewerAction::KeepAlive { lease },
        RenewerEvent::KeptAlive { ttl } => if ttl <= 0 {
            RenewerAction::Stop(Err(LeaseExpired))
        } else if held {
            RenewerAction::WaitTick
        } else {
            RenewerAction::Stop(Ok(()))
        },
        RenewerEvent::Failed => RenewerAction::Stop(Err(LeaseExpired)),
    }
}

#[verifier::when_used_as_spec(spec_keep_alive_continuously)]
pub fn keep_alive_continuously(lease: i64, held: bool, event: RenewerEvent) -> (action:
    RenewerAction)
    ensures
        action == spec_keep_alive_continuously(lease, held, event),
{
    match event {
        RenewerEvent::Started => if held {
            RenewerAction::WaitTick
        } else {
            RenewerAction::Stop(Ok(()))
        },
        RenewerEvent::Tick => RenewerAction::KeepAlive { lease },
        RenewerEvent::KeptAlive { ttl } => match send_keep_alive(ttl) {
            Err(expired) => RenewerAction::Stop(Err(expired)),
            Ok(()) => if held {
                RenewerAction::WaitTick
            } else {
                RenewerAction::Stop(Ok(()))
            },
        },
        RenewerEvent::Failed => RenewerAction::Stop(Err(LeaseExpired)),
    }
}

/// The guard of a span over which the lease is renewed in the background.
/// Whoever holds it is to join it at the end of the span, to learn whether
/// the lease has lasted.
pub struct LivenessGuard {
    expecting_liveness: bool,
}

impl LivenessGuard {
    /// Nobody has asked yet whether the lease has lasted.
    pub closed spec fn unjoined(self) -> bool {
        self.expecting_liveness
    }

    /// The guard of a span that starts now.
    pub fn new() -> (guard: LivenessGuard)
        ensures
            guard.unjoined(),
    {
        LivenessGuard { expecting_liveness: true }
    }

    /// The end of the span: whether the lease has lasted over it.
    /// `lease_alive` says whether the renewer has found the lease alive
    /// throughout.
    pub fn join(&mut self, lease_alive: bool) -> (lasted: Result<(), TaskStateError>)
        ensures
            !final(self).unjoined(),
            match lasted {
                Ok(()) => !old(self).unjoined() || lease_alive,
                Err(error) => old(self).unjoined() && !lease_alive && error@
                    == TaskStateErrorView::LeaseExpired,
            },
    {
        if self.expecting_liveness {
            self.expecting_liveness = false;
            if !lease_alive {
                return Err(TaskStateError::LeaseExpired);
            }
        }
        Ok(())
    }

    /// Whether letting go of the guard now is a fault: it is, where the
    /// lease was lost and nobody has joined the guard to learn of it.
    pub fn faults_on_drop(&self, lease_alive: bool) -> (faults: bool)
        ensures
            faults == (self.unjoined() && !lease_alive),
    {
        self.expecting_liveness && !lease_alive
    }
}

/// The handle on a task for the user's code.
pub struct TaskLiveness {
    task: Task,
}

impl View for TaskLiveness {
    type V = TaskView;

    closed spec fn view(&self) -> TaskView {
        self.task@
    }
}

impl TaskLiveness {
    pub fn new(task: Task) -> (live: TaskLiveness)
        ensures
            live@ == task@,
    {
        TaskLiveness { task }
    }

    /// Whether the task was claimed under a lease. Only then can its lease
    /// be renewed and its record be written.
    pub fn has_lease(&self) -> (has_lease: bool)
        ensures
            has_lease == self@.lease is Some,
    {
        self.task.has_lease()
    }

    /// The renewal of the lease, where one is due.
    pub fn keepalive(&mut self, now: u64) -> (step: Step<Result<(), TaskStateError>>)
        requires
            old(self)@.lease is Some,
        ensures
            old(self)@.begins(PlanView::Nothing, now, final(self)@, task_step_view(step)),
    {
        self.task.alive(now)
    }

    /// What the task was created with.
    pub fn init(&self) -> (value: Option<Value>)
        ensures
            value == self@.state.slot("init"@),
    {
        self.task.init()
    }

    /// The progress that was stored last.
    pub fn progress(&self) -> (value: Option<Value>)
        ensures
            value == self@.state.slot("progress"@),
    {
        self.task.progress()
    }

    /// Stores `progress` as the progress of the task.
    pub fn set_progress(&mut self, progress: Value, now: u64) -> (step: Step<
        Result<(), TaskStateError>,
    >)
        requires
            old(self)@.lease is Some,
        ensures
            old(self)@.begins(
                PlanView::Write {
                    record: old(self)@.state.with_slot("progress"@, progress),
                    release: false,
                },
                now,
                final(self)@,
                task_step_view(step),
            ),
    {
        self.task.set_progress(progress, now)
    }

    /// Takes the answer of the store to the request that was handed out
    /// last.
    pub fn proceed(&mut self, response: Response, now: u64) -> (step: Step<
        Result<(), TaskStateError>,
    >)
        ensures
            old(self)@.proceeds(response@, now, final(self)@, task_step_view(step)),
    {
        self.task.proceed(response, now)
    }

    /// The start of a span over which the lease is renewed in the
    /// background: the renewal to make first, at once and whatever the time
    /// of the last one, and the guard of the span. A task without a lease
    /// has nothing to renew.
    pub fn guarded_keepalive(&self) -> (started: Option<(Request, LivenessGuard)>)
        ensures
            match self@.lease {
                Some(lease) => started matches Some(pair) && pair.0@
                    == (RequestView::LeaseKeepAlive { lease }) && pair.1.unjoined(),
                None => started is None,
            },
    {
        match self.task.lease() {
            Some(lease) => Some((Request::LeaseKeepAlive { lease }, LivenessGuard::new())),
            None => None,
        }
    }

    /// The handle for code that cannot wait on the store itself: it hands
    /// its wishes over, one at a time, and `serve` carries them out.
    pub fn into_sync(self) -> (sync: SyncTaskLiveness)
        ensures
            sync@ == (SyncTaskLivenessView {
                task: self@,
                init: self@.state.slot("init"@),
                progress: self@.state.slot("progress"@),
                serving: None,
                renewing: false,
            }),
    {
        let init = self.task.init();
        let progress = self.task.progress();
        SyncTaskLiveness { task: self.task, init, progress, serving: None, renewing: false }
    }
}

/// What the blocking side asks for.
#[derive(Debug)]
pub enum ExchangeItem {
    /// One renewal of the lease.
    SendKeepalive,
    /// Renewals in the background from now on.
    KeepAliveContinuously,
    /// The progress to store.
    Progress(Value),
}

/// The handle on a task for blocking code, and the side that serves it.
pub struct SyncTaskLiveness {
    task: Task,
    init: Option<Value>,
    progress: Option<Value>,
    serving: Option<ExchangeItem>,
    renewing: bool,
}

pub struct SyncTaskLivenessView {
    pub task: TaskView,
    pub init: Option<Value>,
    /// The progress that was stored last.
    pub progress: Option<Value>,
    /// The wish that is being carried out.
    pub serving: Option<ExchangeItem>,
    /// Whether the lease is renewed in the background.
    pub renewing: bool,
}

impl View for SyncTaskLiveness {
    type V = SyncTaskLivenessView;

    closed spec fn view(&self) -> SyncTaskLivenessView {
        SyncTaskLivenessView {
            task: self.task@,
            init: self.init,
            progress: self.progress,
            serving: self.serving,
            renewing: self.renewing,
        }
    }
}

impl SyncTaskLivenessView {
    /// A wish was carried out, or has failed. A progress that was stored is
    /// the progress that the handle knows from now on; renewals in the
    /// background start once the renewal in front of them has gone well.
    pub open spec fn settles(
        self,
        task: TaskView,
        step: TaskStepView,
        after: SyncTaskLivenessView,
    ) -> bool {
        match step {
            TaskStepView::Call(_) => after == (SyncTaskLivenessView { task, ..self }),
            TaskStepView::Done(Ok(())) => after == (SyncTaskLivenessView {
                task,
                serving: None,
                progress: match self.serving {
                    Some(ExchangeItem::Progress(progress)) => Some(progress),
                    _ => self.progress,
                },
                renewing: self.renewing || self.serving == Some(
                    ExchangeItem::KeepAliveContinuously,
                ),
                ..self
            }),
            TaskStepView::Done(Err(_)) => after == (SyncTaskLivenessView {
                task,
                serving: None,
                ..self
            }),
        }
    }

    /// The start of the carrying out of the wish `item`.
    pub open spec fn serves(
        self,
        item: ExchangeItem,
        now: u64,
        after: SyncTaskLivenessView,
        step: TaskStepView,
    ) -> bool {
        exists|task: TaskView|
            #![trigger (SyncTaskLivenessView { serving: Some(item), ..self }).settles(task, step, after)]
            self.task.begins(
                match item {
                    ExchangeItem::Progress(progress) => PlanView::Write {
                        record: self.task.state.with_slot("progress"@, progress),
                        release: false,
                    },
                    _ => PlanView::Nothing,
                },
                now,
                task,
                step,
            ) && (SyncTaskLivenessView { serving: Some(item), ..self }).settles(task, step, after)
    }

    /// The next step of the carrying out, on the answer `response`.
    pub open spec fn proceeds(
        self,
        response: ResponseView,
        now: u64,
        after: SyncTaskLivenessView,
        step: TaskStepView,
    ) -> bool {
        exists|task: TaskView|
            #![trigger self.settles(task, step, after)]
            self.task.proceeds(response, now, task, step) && self.settles(task, step, after)
    }
}

impl SyncTaskLiveness {
    pub fn init(&self) -> (value: &Option<Value>)
        ensures
            *value == self@.init,
    {
        &self.init
    }

    /// The progress that was stored last.
    pub fn progress(&self) -> (value: &Option<Value>)
        ensures
            *value == self@.progress,
    {
        &self.progress
    }

    /// Whether the task was claimed under a lease. Only then can a wish be
    /// carried out.
    pub fn has_lease(&self) -> (has_lease: bool)
        ensures
            has_lease == self@.task.lease is Some,
    {
        self.task.has_lease()
    }

    /// Whether the lease is renewed in the background.
    pub fn is_renewing(&self) -> (renewing: bool)
        ensures
            renewing == self@.renewing,
    {
        self.renewing
    }

    fn settle(&mut self, step: &Step<Result<(), TaskStateError>>)
        ensures
            old(self)@.settles(old(self)@.task, task_step_view(*step), final(self)@),
    {
        match step {
            Step::Call(_) => {},
            Step::Done(Ok(())) => {
                match self.serving.take() {
                    Some(ExchangeItem::Progress(progress)) => {
                        self.progress = Some(progress);
                    },
                    Some(ExchangeItem::KeepAliveContinuously) => {
                        self.renewing = true;
                    },
                    _ => {},
                }
            },
            Step::Done(Err(_)) => {
                self.serving = None;
            },
        }
    }

    /// Carries out the wish `item` of the blocking side.
    pub fn serve(&mut self, item: ExchangeItem, now: u64) -> (step: Step<
        Result<(), TaskStateError>,
    >)
        requires
            old(self)@.task.lease is Some,
        ensures
            old(self)@.serves(item, now, final(self)@, task_step_view(step)),
    {
        let ghost before = old(self)@;
        let step = match &item {
            ExchangeItem::Progress(progress) => self.task.set_progress(progress.clone(), now),
            _ => self.task.alive(now),
        };
        self.serving = Some(item);
        let ghost served = self@;
        self.settle(&step);
        assert((SyncTaskLivenessView { serving: Some(item), ..before }).settles(
            served.task,
            task_step_view(step),
            self@,
        ));
        step
    }

    /// Stores `progress` as the progress of the task.
    pub fn set_progress(&mut self, progress: Value, now: u64) -> (step: Step<
        Result<(), TaskStateError>,
    >)
        requires
            old(self)@.task.lease is Some,
        ensures
            old(self)@.serves(
                ExchangeItem::Progress(progress),
                now,
                final(self)@,
                task_step_view(step),
            ),
    {
        self.serve(ExchangeItem::Progress(progress), now)
    }

    /// The renewal of the lease, where one is due.
    pub fn keepalive(&mut self, now: u64) -> (step: Step<Result<(), TaskStateError>>)
        requires
            old(self)@.task.lease is Some,
        ensures
            old(self)@.serves(
                ExchangeItem::SendKeepalive,
                now,
                final(self)@,
                task_step_view(step),
            ),
    {
        self.serve(ExchangeItem::SendKeepalive, now)
    }

    /// The start of a span over which the lease is renewed in the
    /// background: a renewal, after which the renewals in the background
    /// begin, and the guard of the span.
    pub fn guarded_keepalive(&mut self, now: u64) -> (started: (
        Step<Result<(), TaskStateError>>,
        LivenessGuard,
    ))
        requires
            old(self)@.task.lease is Some,
        ensures
            old(self)@.serves(
                ExchangeItem::KeepAliveContinuously,
                now,
                final(self)@,
                task_step_view(started.0),
            ),
            started.1.unjoined(),
    {
        (self.serve(ExchangeItem::KeepAliveContinuously, now), LivenessGuard::new())
    }

    /// The renewal at the end of a span of blocking work, which shows
    /// whether the lease has lasted over the whole span.
    pub fn blocking_keepalive(&mut self, now: u64) -> (step: Step<Result<(), TaskStateError>>)
        requires
            old(self)@.task.lease is Some,
        ensures
            old(self)@.serves(
                ExchangeItem::SendKeepalive,
                now,
                final(self)@,
                task_step_view(step),
            ),
    {
        self.keepalive(now)
    }

    /// Takes the answer of the store to the request that was handed out
    /// last.
    pub fn proceed(&mut self, response: Response, now: u64) -> (step: Step<
        Result<(), TaskStateError>,
    >)
        ensures
            old(self)@.proceeds(response@, now, final(self)@, task_step_view(step)),
    {
        let ghost before = old(self)@;
        let step = self.task.proceed(response, now);
        let ghost served = self@;
        self.settle(&step);
        assert(before.settles(served.task, task_step_view(step), self@));
        step
    }
}

} // verus!
