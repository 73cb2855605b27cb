//! Workflow types: information about a run, workflow errors, the commands a
//! workflow body hands to its state machine, and the sequence counters of a
//! workflow context.
use vstd::prelude::*;
use crate::outside::SystemTime;
use std::time::Duration;

verus! {

/// Information about a workflow execution.
#[derive(Debug, Clone)]
pub struct WorkflowInfo {
    /// The workflow ID.
    pub workflow_id: String,
    /// The run ID.
    pub run_id: String,
    /// The workflow type name.
    pub workflow_type: String,
    /// The namespace.
    pub namespace: String,
    /// The task queue.
    pub task_queue: String,
    /// Current attempt (starts at 1).
    pub attempt: u32,
    /// When the workflow execution started.
    pub start_time: Option<SystemTime>,
    /// Timeout for the entire workflow run.
    pub workflow_run_timeout: Option<Duration>,
    /// Timeout for a single workflow execution.
    pub workflow_execution_timeout: Option<Duration>,
}

impl Default for WorkflowInfo {
    /// Empty identifiers, the `default` namespace, attempt 1 and no times.
    fn default() -> (info: Self)
        ensures
            info.workflow_id@ == Seq::<char>::empty(),
            info.run_id@ == Seq::<char>::empty(),
            info.workflow_type@ == Seq::<char>::empty(),
            info.namespace@ == "default"@,
            info.task_queue@ == Seq::<char>::empty(),
            info.attempt == 1,
            info.start_time is None,
            info.workflow_run_timeout is None,
            info.workflow_execution_timeout is None,
    {
        WorkflowInfo {
            workflow_id: String::new(),
            run_id: String::new(),
            workflow_type: String::new(),
            namespace: String::from_str("default"),
            task_queue: String::new(),
            attempt: 1,
            start_time: None,
            workflow_run_timeout: None,
            workflow_execution_timeout: None,
        }
    }
}

/// Error type for workflow operations.
#[derive(Debug, Clone, PartialEq, Eq)]
pub enum WorkflowError {
    /// Activity execution failed.
    ActivityFailed(String),
    /// Activity timed out.
    ActivityTimedOut,
    /// Workflow was cancelled.
    Cancelled,
    /// Child workflow failed.
    ChildWorkflowFailed(String),
    /// Serialization/deserialization error.
    Serialization(String),
    /// Internal SDK error.
    Internal(String),
    /// Application-specific error.
    Application {
        /// Error message.
        message: String,
        /// Error type for matching.
        error_type: String,
    },
}

/// The abstract value of a [`WorkflowError`].
pub enum WorkflowErrorView {
    ActivityFailed(Seq<char>),
    ActivityTimedOut,
    Cancelled,
    ChildWorkflowFailed(Seq<char>),
    Serialization(Seq<char>),
    Internal(Seq<char>),
    Application { message: Seq<char>, error_type: Seq<char> },
}

impl View for WorkflowError {
    type V = WorkflowErrorView;

    open spec fn view(&self) -> WorkflowErrorView {
        match self {
            WorkflowError::ActivityFailed(m) => WorkflowErrorView::ActivityFailed(m@),
            WorkflowError::ActivityTimedOut => WorkflowErrorView::ActivityTimedOut,
            WorkflowError::Cancelled => WorkflowErrorView::Cancelled,
            WorkflowError::ChildWorkflowFailed(m) => WorkflowErrorView::ChildWorkflowFailed(m@),
            WorkflowError::Serialization(m) => WorkflowErrorView::Serialization(m@),
            WorkflowError::Internal(m) => WorkflowErrorView::Internal(m@),
            WorkflowError::Application { message, error_type } => WorkflowErrorView::Application {
                message: message@,
                error_type: error_type@,
            },
        }
    }
}

impl WorkflowErrorView {
    /// The text of the error, as it is shown to users and sent to the server.
    pub open spec fn text(self) -> Seq<char> {
        match self {
            WorkflowErrorView::ActivityFailed(m) => "activity failed: "@ + m,
            WorkflowErrorView::ActivityTimedOut => "activity timed out"@,
            WorkflowErrorView::Cancelled => "workflow cancelled"@,
            WorkflowErrorView::ChildWorkflowFailed(m) => "child workflow failed: "@ + m,
            WorkflowErrorView::Serialization(m) => "serialization error: "@ + m,
            WorkflowErrorView::Internal(m) => "internal error: "@ + m,
            WorkflowErrorView::Application { message, .. } => message,
        }
    }
}

/// `head` followed by `tail`, as a new string.
pub(crate) fn joined(head: &str, tail: &str) -> (s: String)
    ensures
        s@ == head@ + tail@,
{
    let mut s = String::from_str(head);
    s.append(tail);
    s
}

impl WorkflowError {
    /// Create an application error.
    pub fn application(message: &str, error_type: &str) -> (e: Self)
        ensures
            e@ == (WorkflowErrorView::Application { message: message@, error_type: error_type@ }),
    {
        WorkflowError::Application {
            message: String::from_str(message),
            error_type: String::from_str(error_type),
        }
    }

    /// The error's text: the message of the variant, with the variant's
    /// prefix where it has one.
    pub fn to_string(&self) -> (s: String)
        ensures
            s@ == self@.text(),
    {
        match self {
            WorkflowError::ActivityFailed(m) => joined("activity failed: ", m.as_str()),
            WorkflowError::ActivityTimedOut => String::from_str("activity timed out"),
            WorkflowError::Cancelled => String::from_str("workflow cancelled"),
            WorkflowError::ChildWorkflowFailed(m) => joined("child workflow failed: ", m.as_str()),
            WorkflowError::Serialization(m) => joined("serialization error: ", m.as_str()),
            WorkflowError::Internal(m) => joined("internal error: ", m.as_str()),
            WorkflowError::Application { message, .. } => message.clone(),
        }
    }
}

/// Result of an activity execution, as a workflow receives it. `P` is the
/// payload of a completed activity.
#[derive(Debug)]
pub enum ActivityResult<P> {
    /// The activity completed with this payload.
    Completed(P),
    /// The activity failed with this message.
    Failed(String),
    /// The activity was cancelled.
    Cancelled,
    /// The activity timed out.
    TimedOut,
}

impl<P> ActivityResult<P> {
    /// What a workflow's call of an activity returns for this result: the
    /// payload when it completed, else the matching workflow error.
    pub fn into_outcome(self) -> (r: Result<P, WorkflowError>)
        ensures
            match self {
                ActivityResult::Completed(p) => r == Ok::<P, WorkflowError>(p),
                ActivityResult::Failed(m) => r is Err && r->Err_0@ == WorkflowErrorView::ActivityFailed(m@),
                ActivityResult::Cancelled => r is Err && r->Err_0@ == WorkflowErrorView::Cancelled,
                ActivityResult::TimedOut => r is Err && r->Err_0@ == WorkflowErrorView::ActivityTimedOut,
            },
    {
        match self {
            ActivityResult::Completed(p) => Ok(p),
            ActivityResult::Failed(m) => Err(WorkflowError::ActivityFailed(m)),
            ActivityResult::Cancelled => Err(WorkflowError::Cancelled),
            ActivityResult::TimedOut => Err(WorkflowError::ActivityTimedOut),
        }
    }
}

/// Number of nanoseconds in a second.
pub const NANOS_PER_SEC: u32 = 1_000_000_000;

/// A span of time as whole seconds and the nanoseconds beyond them, as
/// `std::time::Duration` splits it.
#[derive(Debug, Clone, Copy, PartialEq, Eq, Structural)]
pub struct Timeout {
    /// Whole seconds.
    pub secs: u64,
    /// Nanoseconds beyond the whole seconds.
    pub nanos: u32,
}

impl Timeout {
    /// The nanoseconds lie below one second, as in every `Duration`.
    pub open spec fn wf(self) -> bool {
        self.nanos < NANOS_PER_SEC
    }
}

/// The scheduling options of an activity that reach the server.
#[derive(Debug, Clone)]
pub struct ActivitySchedule {
    /// Task queue to schedule the activity on (defaults to workflow's task queue).
    pub task_queue: Option<String>,
    /// Timeout from schedule to start.
    pub schedule_to_start_timeout: Option<Timeout>,
    /// Timeout from start to close.
    pub start_to_close_timeout: Option<Timeout>,
    /// Timeout from schedule to close.
    pub schedule_to_close_timeout: Option<Timeout>,
    /// Heartbeat timeout.
    pub heartbeat_timeout: Option<Timeout>,
    /// Retry policy.
    pub retry_policy: Option<RetrySchedule>,
}

/// The retry policy of an activity. The backoff coefficient, a
/// floating-point number, is carried as the bit pattern of its `f64`.
#[derive(Debug, Clone)]
pub struct RetrySchedule {
    /// Initial retry interval.
    pub initial_interval: Timeout,
    /// Bit pattern of the backoff coefficient.
    pub backoff_coefficient_bits: u64,
    /// Maximum retry interval.
    pub maximum_interval: Option<Timeout>,
    /// Maximum number of attempts (0 for unlimited).
    pub maximum_attempts: u32,
    /// Non-retryable error types.
    pub non_retryable_error_types: Vec<String>,
}

/// Abstract value of [`RetrySchedule`].
pub struct RetryScheduleView {
    pub initial_interval: Timeout,
    pub backoff_coefficient_bits: u64,
    pub maximum_interval: Option<Timeout>,
    pub maximum_attempts: u32,
    pub non_retryable_error_types: Seq<Seq<char>>,
}

impl View for RetrySchedule {
    type V = RetryScheduleView;

    open spec fn view(&self) -> RetryScheduleView {
        RetryScheduleView {
            initial_interval: self.initial_interval,
            backoff_coefficient_bits: self.backoff_coefficient_bits,
            maximum_interval: self.maximum_interval,
            maximum_attempts: self.maximum_attempts,
            non_retryable_error_types: self.non_retryable_error_types@.map_values(|t: String| t@),
        }
    }
}

impl RetryScheduleView {
    /// Its intervals are well formed.
    pub open spec fn wf(self) -> bool {
        self.initial_interval.wf() && opt_timeout_wf(self.maximum_interval)
    }
}

/// Abstract value of [`ActivitySchedule`].
pub struct ActivityScheduleView {
    pub task_queue: Option<Seq<char>>,
    pub schedule_to_start_timeout: Option<Timeout>,
    pub start_to_close_timeout: Option<Timeout>,
    pub schedule_to_close_timeout: Option<Timeout>,
    pub heartbeat_timeout: Option<Timeout>,
    pub retry_policy: Option<RetryScheduleView>,
}

/// Whether an optional timeout is absent or well formed.
pub open spec fn opt_timeout_wf(t: Option<Timeout>) -> bool {
    t matches Some(d) ==> d.wf()
}

impl View for ActivitySchedule {
    type V = ActivityScheduleView;

    open spec fn view(&self) -> ActivityScheduleView {
        ActivityScheduleView {
            task_queue: match self.task_queue {
                Some(q) => Some(q@),
                None => None,
            },
            schedule_to_start_timeout: self.schedule_to_start_timeout,
            start_to_close_timeout: self.start_to_close_timeout,
            schedule_to_close_timeout: self.schedule_to_close_timeout,
            heartbeat_timeout: self.heartbeat_timeout,
            retry_policy: match self.retry_policy {
                Some(r) => Some(r@),
                None => None,
            },
        }
    }
}

impl ActivityScheduleView {
    /// Every timeout is absent or well formed.
    pub open spec fn wf(self) -> bool {
        &&& opt_timeout_wf(self.schedule_to_start_timeout)
        &&& opt_timeout_wf(self.start_to_close_timeout)
        &&& opt_timeout_wf(self.schedule_to_close_timeout)
        &&& opt_timeout_wf(self.heartbeat_timeout)
        &&& (self.retry_policy matches Some(r) ==> r.wf())
    }
}

/// A command that a workflow body hands to its state machine. The channels
/// through which results come back stay with the caller.
#[derive(Debug)]
pub enum WorkflowCommand {
    /// Start a durable timer.
    StartTimer { seq: u32, duration: Timeout },
    /// Schedule an activity; `input` is the JSON encoding of its argument.
    ScheduleActivity { seq: u32, activity_type: String, input: Vec<u8>, options: ActivitySchedule },
    /// Subscribe to the signals of a name.
    SubscribeSignal { name: String },
    /// The workflow finished; `Ok` holds the JSON encoding of its result.
    Complete { result: Result<Vec<u8>, WorkflowError> },
}

/// Abstract value of [`WorkflowCommand`].
pub enum WorkflowCommandView {
    StartTimer { seq: u32, duration: Timeout },
    ScheduleActivity {
        seq: u32,
        activity_type: Seq<char>,
        input: Seq<u8>,
        options: ActivityScheduleView,
    },
    SubscribeSignal { name: Seq<char> },
    Complete { result: Result<Seq<u8>, WorkflowErrorView> },
}

/// The abstract value of a workflow's outcome.
pub open spec fn outcome_view(r: Result<Vec<u8>, WorkflowError>) -> Result<Seq<u8>, WorkflowErrorView> {
    match r {
        Ok(v) => Ok(v@),
        Err(e) => Err(e@),
    }
}

impl View for WorkflowCommand {
    type V = WorkflowCommandView;

    open spec fn view(&self) -> WorkflowCommandView {
        match self {
            WorkflowCommand::StartTimer { seq, duration } => WorkflowCommandView::StartTimer {
                seq: *seq,
                duration: *duration,
            },
            WorkflowCommand::ScheduleActivity { seq, activity_type, input, options } =>
                WorkflowCommandView::ScheduleActivity {
                seq: *seq,
                activity_type: activity_type@,
                input: input@,
                options: options@,
            },
            WorkflowCommand::SubscribeSignal { name } => WorkflowCommandView::SubscribeSignal {
                name: name@,
            },
            WorkflowCommand::Complete { result } => WorkflowCommandView::Complete {
                result: outcome_view(*result),
            },
        }
    }
}

impl WorkflowCommandView {
    /// Every duration in the command is well formed.
    pub open spec fn wf(self) -> bool {
        match self {
            WorkflowCommandView::StartTimer { duration, .. } => duration.wf(),
            WorkflowCommandView::ScheduleActivity { options, .. } => options.wf(),
            _ => true,
        }
    }
}

/// Shared state of a workflow context: the deterministic time, the replay
/// flag and the counters that number timers and activities.
#[derive(Debug)]
pub struct WorkflowSharedState {
    /// Current workflow time, once the server has sent one.
    pub current_time: Option<SystemTime>,
    /// Whether the workflow is replaying.
    pub is_replaying: bool,
    /// Sequence number of the next timer.
    pub next_timer_seq: u32,
    /// Sequence number of the next activity.
    pub next_activity_seq: u32,
}

impl Default for WorkflowSharedState {
    /// No time, not replaying, both counters at zero.
    fn default() -> (s: Self)
        ensures
            s.current_time is None,
            !s.is_replaying,
            s.next_timer_seq == 0,
            s.next_activity_seq == 0,
    {
        WorkflowSharedState {
            current_time: None,
            is_replaying: false,
            next_timer_seq: 0,
            next_activity_seq: 0,
        }
    }
}

impl WorkflowSharedState {
    /// Takes the next timer sequence number and advances the counter.
    pub fn next_timer_seq(&mut self) -> (seq: u32)
        requires
            old(self).next_timer_seq < u32::MAX,
        ensures
            seq == old(self).next_timer_seq,
            final(self).next_timer_seq == old(self).next_timer_seq + 1,
            final(self).next_activity_seq == old(self).next_activity_seq,
            final(self).is_replaying == old(self).is_replaying,
            final(self).current_time == old(self).current_time,
    {
        let seq: u32 = self.next_timer_seq;
        self.next_timer_seq = seq + 1;
        seq
    }

    /// Takes the next activity sequence number and advances the counter.
    pub fn next_activity_seq(&mut self) -> (seq: u32)
        requires
            old(self).next_activity_seq < u32::MAX,
        ensures
            seq == old(self).next_activity_seq,
            final(self).next_activity_seq == old(self).next_activity_seq + 1,
            final(self).next_timer_seq == old(self).next_timer_seq,
            final(self).is_replaying == old(self).is_replaying,
            final(self).current_time == old(self).current_time,
    {
        let seq: u32 = self.next_activity_seq;
        self.next_activity_seq = seq + 1;
        seq
    }
}

/// Registration information for a workflow: its type name and its handler.
pub struct WorkflowRegistration<H> {
    /// Workflow type name.
    pub name: String,
    /// Handler function.
    pub handler: H,
}

} // verus!
