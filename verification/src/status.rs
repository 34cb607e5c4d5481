//! The states of a task and the transitions between them.

use vstd::prelude::*;

verus! {

/// The state of a task. `Complete`, `Error` and `Canceled` are final.
#[derive(Clone, Copy, Debug, PartialEq, Eq, Structural)]
pub enum TaskStatus {
    Pending,
    Resuming,
    Running,
    Waiting,
    Paused,
    Complete,
    Error,
    Canceled,
}

/// Why the owner of a task was asked to stop working on it.
#[derive(Clone, Copy, Debug, PartialEq, Eq, Structural)]
pub enum InterruptReason {
    Paused,
    Canceled,
}

/// The moves of the task state machine.
#[derive(Clone, Copy, Debug, PartialEq, Eq, Structural)]
pub enum Transition {
    /// Pending to Running, by the worker that claimed the task.
    Start,
    /// Resuming to Running, by the worker that claimed the task.
    Resume,
    /// Running to Complete.
    Finish,
    /// Running to Error.
    FinishError,
    /// Running to Paused, on a `paused` interrupt.
    Pause,
    /// Running to Canceled, on a `canceled` interrupt.
    Cancel,
    /// Running to Waiting.
    BeginWait,
    /// Waiting to Resuming, by the monitor.
    WakeUp,
    /// Error or Paused to Resuming, by an operator.
    OperatorResume,
}

impl Transition {
    /// The state that the move leads to.
    pub open spec fn spec_target(self) -> TaskStatus {
        match self {
            Transition::Start => TaskStatus::Running,
            Transition::Resume => TaskStatus::Running,
            Transition::Finish => TaskStatus::Complete,
            Transition::FinishError => TaskStatus::Error,
            Transition::Pause => TaskStatus::Paused,
            Transition::Cancel => TaskStatus::Canceled,
            Transition::BeginWait => TaskStatus::Waiting,
            Transition::WakeUp => TaskStatus::Resuming,
            Transition::OperatorResume => TaskStatus::Resuming,
        }
    }

    /// The move may be made from `from`.
    pub open spec fn spec_allowed_from(self, from: TaskStatus) -> bool {
        match self {
            Transition::Start => from == TaskStatus::Pending,
            Transition::Resume => from == TaskStatus::Resuming,
            Transition::Finish => from == TaskStatus::Running,
            Transition::FinishError => from == TaskStatus::Running,
            Transition::Pause => from == TaskStatus::Running,
            Transition::Cancel => from == TaskStatus::Running,
            Transition::BeginWait => from == TaskStatus::Running,
            Transition::WakeUp => from == TaskStatus::Waiting,
            Transition::OperatorResume => from == TaskStatus::Error || from == TaskStatus::Paused,
        }
    }

    #[verifier::when_used_as_spec(spec_target)]
    pub fn target(self) -> (to: TaskStatus)
        ensures
            to == self.spec_target(),
    {
        match self {
            Transition::Start => TaskStatus::Running,
            Transition::Resume => TaskStatus::Running,
            Transition::Finish => TaskStatus::Complete,
            Transition::FinishError => TaskStatus::Error,
            Transition::Pause => TaskStatus::Paused,
            Transition::Cancel => TaskStatus::Canceled,
            Transition::BeginWait => TaskStatus::Waiting,
            Transition::WakeUp => TaskStatus::Resuming,
            Transition::OperatorResume => TaskStatus::Resuming,
        }
    }

    #[verifier::when_used_as_spec(spec_allowed_from)]
    pub fn allowed_from(self, from: TaskStatus) -> (allowed: bool)
        ensures
            allowed == self.spec_allowed_from(from),
    {
        match self {
            Transition::Start => from == TaskStatus::Pending,
            Transition::Resume => from == TaskStatus::Resuming,
            Transition::Finish => from == TaskStatus::Running,
            Transition::FinishError => from == TaskStatus::Running,
            Transition::Pause => from == TaskStatus::Running,
            Transition::Cancel => from == TaskStatus::Running,
            Transition::BeginWait => from == TaskStatus::Running,
            Transition::WakeUp => from == TaskStatus::Waiting,
            Transition::OperatorResume => from == TaskStatus::Error || from == TaskStatus::Paused,
        }
    }
}

impl TaskStatus {
    pub open spec fn spec_is_final(&self) -> bool {
        *self == TaskStatus::Complete || *self == TaskStatus::Error || *self
            == TaskStatus::Canceled
    }

    /// The name under which the state stands in a task record.
    pub open spec fn spec_name(self) -> Seq<char> {
        match self {
            TaskStatus::Pending => "pending"@,
            TaskStatus::Resuming => "resuming"@,
            TaskStatus::Running => "running"@,
            TaskStatus::Waiting => "waiting"@,
            TaskStatus::Paused => "paused"@,
            TaskStatus::Complete => "complete"@,
            TaskStatus::Error => "error"@,
            TaskStatus::Canceled => "canceled"@,
        }
    }

    /// The state that a name stands for, if it is the name of one.
    pub open spec fn spec_from_name(name: Seq<char>) -> Option<TaskStatus> {
        if name == "pending"@ {
            Some(TaskStatus::Pending)
        } else if name == "resuming"@ {
            Some(TaskStatus::Resuming)
        } else if name == "running"@ {
            Some(TaskStatus::Running)
        } else if name == "waiting"@ {
            Some(TaskStatus::Waiting)
        } else if name == "paused"@ {
            Some(TaskStatus::Paused)
        } else if name == "complete"@ {
            Some(TaskStatus::Complete)
        } else if name == "error"@ {
            Some(TaskStatus::Error)
        } else if name == "canceled"@ {
            Some(TaskStatus::Canceled)
        } else {
            None
        }
    }

    /// The state after the move `by`, where the move may be made from this
    /// state.
    pub open spec fn spec_transition(self, by: Transition) -> Option<TaskStatus> {
        if by.spec_allowed_from(self) {
            Some(by.spec_target())
        } else {
            None
        }
    }

    /// Whether the task has reached a state that it leaves only by an
    /// operator's resume.
    #[verifier::when_used_as_spec(spec_is_final)]
    pub fn is_final(&self) -> (is_final: bool)
        ensures
            is_final == self.spec_is_final(),
    {
        matches!(self, TaskStatus::Complete | TaskStatus::Error | TaskStatus::Canceled)
    }

    pub fn name(&self) -> (name: String)
        ensures
            name@ == self.spec_name(),
    {
        match self {
            TaskStatus::Pending => String::from_str("pending"),
            TaskStatus::Resuming => String::from_str("resuming"),
            TaskStatus::Running => String::from_str("running"),
            TaskStatus::Waiting => String::from_str("waiting"),
            TaskStatus::Paused => String::from_str("paused"),
            TaskStatus::Complete => String::from_str("complete"),
            TaskStatus::Error => String::from_str("error"),
            TaskStatus::Canceled => String::from_str("canceled"),
        }
    }

    pub fn from_name(name: &str) -> (status: Option<TaskStatus>)
        ensures
            status == TaskStatus::spec_from_name(name@),
    {
        let name = String::from_str(name);
        if name == String::from_str("pending") {
            Some(TaskStatus::Pending)
        } else if name == String::from_str("resuming") {
            Some(TaskStatus::Resuming)
        } else if name == String::from_str("running") {
            Some(TaskStatus::Running)
        } else if name == String::from_str("waiting") {
            Some(TaskStatus::Waiting)
        } else if name == String::from_str("paused") {
            Some(TaskStatus::Paused)
        } else if name == String::from_str("complete") {
            Some(TaskStatus::Complete)
        } else if name == String::from_str("error") {
            Some(TaskStatus::Error)
        } else if name == String::from_str("canceled") {
            Some(TaskStatus::Canceled)
        } else {
            None
        }
    }

    /// Makes the move `by`: the new state where the move is legal from this
    /// one, and nothing where it is not.
    pub fn transition(self, by: Transition) -> (next: Option<TaskStatus>)
        ensures
            next == self.spec_transition(by),
    {
        if by.allowed_from(self) {
            Some(by.target())
        } else {
            None
        }
    }
}

impl InterruptReason {
    /// The bytes under which the reason stands in an interrupt key's value:
    /// `paused` or `canceled`.
    pub open spec fn spec_value(self) -> Seq<u8> {
        match self {
            InterruptReason::Paused => seq![112u8, 97u8, 117u8, 115u8, 101u8, 100u8],
            InterruptReason::Canceled => seq![
                99u8,
                97u8,
                110u8,
                99u8,
                101u8,
                108u8,
                101u8,
                100u8,
            ],
        }
    }

    pub open spec fn spec_from_value(value: Seq<u8>) -> Option<InterruptReason> {
        if value == InterruptReason::Paused.spec_value() {
            Some(InterruptReason::Paused)
        } else if value == InterruptReason::Canceled.spec_value() {
            Some(InterruptReason::Canceled)
        } else {
            None
        }
    }

    /// The state that a running task goes to on this interrupt.
    pub open spec fn spec_status(self) -> TaskStatus {
        match self {
            InterruptReason::Paused => TaskStatus::Paused,
            InterruptReason::Canceled => TaskStatus::Canceled,
        }
    }

    /// The move that this interrupt makes.
    pub open spec fn spec_transition(self) -> Transition {
        match self {
            InterruptReason::Paused => Transition::Pause,
            InterruptReason::Canceled => Transition::Cancel,
        }
    }

    pub fn value(self) -> (value: Vec<u8>)
        ensures
            value@ == self.spec_value(),
    {
        match self {
            InterruptReason::Paused => vec![112u8, 97u8, 117u8, 115u8, 101u8, 100u8],
            InterruptReason::Canceled => vec![
                99u8,
                97u8,
                110u8,
                99u8,
                101u8,
                108u8,
                101u8,
                100u8,
            ],
        }
    }

    /// Reads an interrupt key's value.
    pub fn from_value(value: &[u8]) -> (reason: Option<InterruptReason>)
        ensures
            reason == InterruptReason::spec_from_value(value@),
    {
        let paused = InterruptReason::Paused.value();
        let canceled = InterruptReason::Canceled.value();
        if bytes_equal(value, paused.as_slice()) {
            Some(InterruptReason::Paused)
        } else if bytes_equal(value, canceled.as_slice()) {
            Some(InterruptReason::Canceled)
        } else {
            None
        }
    }

    #[verifier::when_used_as_spec(spec_status)]
    pub fn status(self) -> (status: TaskStatus)
        ensures
            status == self.spec_status(),
    {
        match self {
            InterruptReason::Paused => TaskStatus::Paused,
            InterruptReason::Canceled => TaskStatus::Canceled,
        }
    }
}

/// Whether two byte strings hold the same bytes.
pub fn bytes_equal(a: &[u8], b: &[u8]) -> (equal: bool)
    ensures
        equal == (a@ == b@),
{
    if a.len() != b.len() {
        return false;
    }
    let mut i: usize = 0;
    while i < a.len()
        invariant
            i <= a.len(),
            a.len() == b.len(),
            a@.subrange(0, i as int) == b@.subrange(0, i as int),
        decreases a.len() - i,
    {
        if a[i] != b[i] {
            return false;
        }
        i = i + 1;
    }
    assert(a@ == a@.subrange(0, i as int));
    assert(b@ == b@.subrange(0, i as int));
    true
}

/// The names of the eight states differ, each from each.
proof fn lemma_status_names_differ()
    ensures
        "pending"@.len() == 7 && "pending"@[0] == 'p' && "pending"@[1] == 'e',
        "resuming"@.len() == 8 && "resuming"@[0] == 'r' && "resuming"@[1] == 'e',
        "running"@.len() == 7 && "running"@[0] == 'r',
        "waiting"@.len() == 7 && "waiting"@[0] == 'w',
        "paused"@.len() == 6,
        "complete"@.len() == 8 && "complete"@[0] == 'c' && "complete"@[1] == 'o',
        "error"@.len() == 5,
        "canceled"@.len() == 8 && "canceled"@[0] == 'c' && "canceled"@[1] == 'a',
{
    reveal_strlit("pending");
    reveal_strlit("resuming");
    reveal_strlit("running");
    reveal_strlit("waiting");
    reveal_strlit("paused");
    reveal_strlit("complete");
    reveal_strlit("error");
    reveal_strlit("canceled");
}

/// A state is read back from its name.
pub proof fn lemma_status_name_round_trip(status: TaskStatus)
    ensures
        TaskStatus::spec_from_name(status.spec_name()) == Some(status),
{
    lemma_status_names_differ();
}

/// A name that stands for a state is that state's name: no two names stand
/// for one state.
pub proof fn lemma_status_from_name_is_name(name: Seq<char>)
    ensures
        TaskStatus::spec_from_name(name) matches Some(status) ==> status.spec_name() == name,
{
}

/// An interrupt reason is read back from its value, and the state it leads
/// to is the target of its move, which is legal from Running only.
pub proof fn lemma_interrupt_reason(reason: InterruptReason, from: TaskStatus)
    ensures
        InterruptReason::spec_from_value(reason.spec_value()) == Some(reason),
        reason.spec_transition().spec_target() == reason.spec_status(),
        reason.spec_transition().spec_allowed_from(from) <==> from == TaskStatus::Running,
{
}

/// A final state is sticky: from Complete, Error or Canceled no move is legal
/// but the operator's resume, and that one from Error only.
pub proof fn lemma_final_is_sticky(from: TaskStatus, by: Transition)
    requires
        from.spec_is_final(),
    ensures
        from.spec_transition(by) is Some ==> by == Transition::OperatorResume && from
            == TaskStatus::Error && from.spec_transition(by) == Some(TaskStatus::Resuming),
{
}

/// The legal moves are exactly those of the state diagram.
pub proof fn lemma_transition_table(from: TaskStatus, by: Transition, to: TaskStatus)
    ensures
        from.spec_transition(by) == Some(to) <==> ({
            ||| (by == Transition::Start && from == TaskStatus::Pending && to
                == TaskStatus::Running)
            ||| (by == Transition::Resume && from == TaskStatus::Resuming && to
                == TaskStatus::Running)
            ||| (by == Transition::Finish && from == TaskStatus::Running && to
                == TaskStatus::Complete)
            ||| (by == Transition::FinishError && from == TaskStatus::Running && to
                == TaskStatus::Error)
            ||| (by == Transition::Pause && from == TaskStatus::Running && to
                == TaskStatus::Paused)
            ||| (by == Transition::Cancel && from == TaskStatus::Running && to
                == TaskStatus::Canceled)
            ||| (by == Transition::BeginWait && from == TaskStatus::Running && to
                == TaskStatus::Waiting)
            ||| (by == Transition::WakeUp && from == TaskStatus::Waiting && to
                == TaskStatus::Resuming)
            ||| (by == Transition::OperatorResume && (from == TaskStatus::Error || from
                == TaskStatus::Paused) && to == TaskStatus::Resuming)
        }),
{
}

} // verus!
