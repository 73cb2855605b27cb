//! Workflow state machine.
//!
//! The machine tracks, for one workflow run, the commands that wait for the
//! server (timers and activities, by sequence number), whether cancellation
//! was requested, whether the workflow finished and with what result, and the
//! commands produced during the current activation, and the signal names the
//! workflow body subscribed to. An activation is processed in two phases:
//! `start_activation` clears the previous activation's commands, handles the
//! jobs the server sent and applies the commands the workflow body issued;
//! the caller then polls the body unless the workflow has completed, and
//! `end_activation` records the poll, applies the commands issued meanwhile
//! and yields the completion sent back to the server. The single steps are
//! public too.
use vstd::prelude::*;
use crate::outside::{json_parses, spec_is_json};
use crate::registry::Registry;
use crate::text::{decimal, decimal_string};
use crate::workflow::{
    opt_timeout_wf, outcome_view, ActivityScheduleView, RetrySchedule, RetryScheduleView, Timeout, WorkflowCommand, WorkflowCommandView,
    WorkflowError, WorkflowErrorView,
};

verus! {

/// Identifies a command by type and sequence number.
#[derive(Debug, Clone, Copy, PartialEq, Eq, Hash, Structural)]
pub enum CommandId {
    Timer(u32),
    Activity(u32),
    ChildWorkflow(u32),
}

/// A duration as the server's protocol writes it.
#[derive(Debug, Clone, Copy, PartialEq, Eq, Structural)]
pub struct ProtoDuration {
    pub seconds: i64,
    pub nanos: i32,
}

/// The protocol duration of a timeout: the same seconds and nanoseconds, or
/// zero when the seconds do not fit in an `i64` (the conversion fails and its
/// default is taken).
pub open spec fn proto_duration_of(t: Timeout) -> ProtoDuration {
    if t.secs <= i64::MAX as u64 {
        ProtoDuration { seconds: t.secs as i64, nanos: t.nanos as i32 }
    } else {
        ProtoDuration { seconds: 0, nanos: 0 }
    }
}

/// Converts a timeout into the protocol's duration.
pub fn proto_duration(t: Timeout) -> (d: ProtoDuration)
    requires
        t.wf(),
    ensures
        d == proto_duration_of(t),
{
    if t.secs <= i64::MAX as u64 {
        ProtoDuration { seconds: t.secs as i64, nanos: t.nanos as i32 }
    } else {
        ProtoDuration { seconds: 0, nanos: 0 }
    }
}

/// The protocol duration of an optional timeout.
pub open spec fn opt_proto_duration_of(t: Option<Timeout>) -> Option<ProtoDuration> {
    match t {
        Some(d) => Some(proto_duration_of(d)),
        None => None,
    }
}

fn opt_proto_duration(t: Option<Timeout>) -> (d: Option<ProtoDuration>)
    requires
        opt_timeout_wf(t),
    ensures
        d == opt_proto_duration_of(t),
{
    match t {
        Some(x) => Some(proto_duration(x)),
        None => None,
    }
}

/// How the server resolved an activity.
#[derive(Debug)]
pub enum ActivityResolution {
    /// Completed, with the bytes of its result payload if it had one.
    Completed { payload: Option<Vec<u8>> },
    /// Failed, with the message of its failure if it had one.
    Failed { message: Option<String> },
    /// Cancelled.
    Cancelled,
    /// A local activity backs off before its next attempt.
    Backoff,
}

/// Abstract value of [`ActivityResolution`].
pub enum ActivityResolutionView {
    Completed { payload: Option<Seq<u8>> },
    Failed { message: Option<Seq<char>> },
    Cancelled,
    Backoff,
}

impl View for ActivityResolution {
    type V = ActivityResolutionView;

    open spec fn view(&self) -> ActivityResolutionView {
        match self {
            ActivityResolution::Completed { payload } => ActivityResolutionView::Completed {
                payload: match payload {
                    Some(p) => Some(p@),
                    None => None,
                },
            },
            ActivityResolution::Failed { message } => ActivityResolutionView::Failed {
                message: match message {
                    Some(m) => Some(m@),
                    None => None,
                },
            },
            ActivityResolution::Cancelled => ActivityResolutionView::Cancelled,
            ActivityResolution::Backoff => ActivityResolutionView::Backoff,
        }
    }
}

/// One job of an activation sent by the server.
#[derive(Debug)]
pub enum ActivationJob {
    InitializeWorkflow,
    FireTimer { seq: u32 },
    /// An activity was resolved; `resolution` is `None` where the server sent
    /// no status.
    ResolveActivity { seq: u32, resolution: Option<ActivityResolution> },
    CancelWorkflow { reason: String },
    /// A signal arrived, with the payloads of its input.
    SignalWorkflow { signal_name: String, input: Vec<Vec<u8>> },
    QueryWorkflow { query_type: String },
    UpdateRandomSeed { randomness_seed: u64 },
    NotifyHasPatch { patch_id: String },
    RemoveFromCache,
    /// A job of a kind this machine does not handle.
    Other,
}

/// Abstract value of [`ActivationJob`].
pub enum ActivationJobView {
    InitializeWorkflow,
    FireTimer { seq: u32 },
    ResolveActivity { seq: u32, resolution: Option<ActivityResolutionView> },
    CancelWorkflow { reason: Seq<char> },
    SignalWorkflow { signal_name: Seq<char>, input: Seq<Seq<u8>> },
    QueryWorkflow { query_type: Seq<char> },
    UpdateRandomSeed { randomness_seed: u64 },
    NotifyHasPatch { patch_id: Seq<char> },
    RemoveFromCache,
    Other,
}

impl View for ActivationJob {
    type V = ActivationJobView;

    open spec fn view(&self) -> ActivationJobView {
        match self {
            ActivationJob::InitializeWorkflow => ActivationJobView::InitializeWorkflow,
            ActivationJob::FireTimer { seq } => ActivationJobView::FireTimer { seq: *seq },
            ActivationJob::ResolveActivity { seq, resolution } => ActivationJobView::ResolveActivity {
                seq: *seq,
                resolution: match resolution {
                    Some(r) => Some(r@),
                    None => None,
                },
            },
            ActivationJob::CancelWorkflow { reason } => ActivationJobView::CancelWorkflow {
                reason: reason@,
            },
            ActivationJob::SignalWorkflow { signal_name, input } => ActivationJobView::SignalWorkflow {
                signal_name: signal_name@,
                input: input@.map_values(|p: Vec<u8>| p@),
            },
            ActivationJob::QueryWorkflow { query_type } => ActivationJobView::QueryWorkflow {
                query_type: query_type@,
            },
            ActivationJob::UpdateRandomSeed { randomness_seed } => ActivationJobView::UpdateRandomSeed {
                randomness_seed: *randomness_seed,
            },
            ActivationJob::NotifyHasPatch { patch_id } => ActivationJobView::NotifyHasPatch {
                patch_id: patch_id@,
            },
            ActivationJob::RemoveFromCache => ActivationJobView::RemoveFromCache,
            ActivationJob::Other => ActivationJobView::Other,
        }
    }
}

/// Result of unblocking a command.
#[derive(Debug)]
pub enum UnblockResult {
    TimerFired,
    TimerCancelled,
    /// The activity completed; `None` stands for the JSON value `null`, which
    /// is taken when the payload is missing or is not JSON.
    ActivityCompleted(Option<Vec<u8>>),
    ActivityFailed(String),
    ActivityCancelled,
}

/// Abstract value of [`UnblockResult`].
pub enum UnblockResultView {
    TimerFired,
    TimerCancelled,
    ActivityCompleted(Option<Seq<u8>>),
    ActivityFailed(Seq<char>),
    ActivityCancelled,
}

impl View for UnblockResult {
    type V = UnblockResultView;

    open spec fn view(&self) -> UnblockResultView {
        match self {
            UnblockResult::TimerFired => UnblockResultView::TimerFired,
            UnblockResult::TimerCancelled => UnblockResultView::TimerCancelled,
            UnblockResult::ActivityCompleted(p) => UnblockResultView::ActivityCompleted(
                match p {
                    Some(v) => Some(v@),
                    None => None,
                },
            ),
            UnblockResult::ActivityFailed(m) => UnblockResultView::ActivityFailed(m@),
            UnblockResult::ActivityCancelled => UnblockResultView::ActivityCancelled,
        }
    }
}

/// What handling one job asks of the caller.
#[derive(Debug)]
pub enum JobOutcome {
    /// Nothing beyond the state change.
    Ignored,
    /// The pending command `id` was resolved with `result`.
    Unblocked { id: CommandId, result: UnblockResult },
    /// No command `id` was pending; nothing was unblocked.
    NotPending { id: CommandId },
    /// Cancellation must be signalled to the workflow body.
    CancelRequested,
    /// A signal of a subscribed name must be delivered to its subscribers;
    /// `None` stands for the JSON value `null`.
    DeliverSignal { name: String, payload: Option<Vec<u8>> },
}

/// Abstract value of [`JobOutcome`].
pub enum JobOutcomeView {
    Ignored,
    Unblocked { id: CommandId, result: UnblockResultView },
    NotPending { id: CommandId },
    CancelRequested,
    DeliverSignal { name: Seq<char>, payload: Option<Seq<u8>> },
}

impl View for JobOutcome {
    type V = JobOutcomeView;

    open spec fn view(&self) -> JobOutcomeView {
        match self {
            JobOutcome::Ignored => JobOutcomeView::Ignored,
            JobOutcome::Unblocked { id, result } => JobOutcomeView::Unblocked { id: *id, result: result@ },
            JobOutcome::NotPending { id } => JobOutcomeView::NotPending { id: *id },
            JobOutcome::CancelRequested => JobOutcomeView::CancelRequested,
            JobOutcome::DeliverSignal { name, payload } => JobOutcomeView::DeliverSignal {
                name: name@,
                payload: match payload {
                    Some(p) => Some(p@),
                    None => None,
                },
            },
        }
    }
}

/// An activity scheduling command sent to the server.
#[derive(Debug)]
pub struct ScheduleActivityCommand {
    pub seq: u32,
    pub activity_id: String,
    pub activity_type: String,
    pub task_queue: String,
    /// The payloads of the arguments.
    pub arguments: Vec<Vec<u8>>,
    pub schedule_to_start_timeout: Option<ProtoDuration>,
    pub start_to_close_timeout: Option<ProtoDuration>,
    pub schedule_to_close_timeout: Option<ProtoDuration>,
    pub heartbeat_timeout: Option<ProtoDuration>,
    pub retry_policy: Option<ProtoRetryPolicy>,
}

/// A retry policy as the server's protocol writes it. The backoff
/// coefficient is the bit pattern of its `f64`.
#[derive(Debug)]
pub struct ProtoRetryPolicy {
    pub initial_interval: ProtoDuration,
    pub backoff_coefficient_bits: u64,
    pub maximum_interval: Option<ProtoDuration>,
    pub maximum_attempts: i32,
    pub non_retryable_error_types: Vec<String>,
}

/// Abstract value of [`ProtoRetryPolicy`].
pub struct ProtoRetryView {
    pub initial_interval: ProtoDuration,
    pub backoff_coefficient_bits: u64,
    pub maximum_interval: Option<ProtoDuration>,
    pub maximum_attempts: i32,
    pub non_retryable_error_types: Seq<Seq<char>>,
}

impl View for ProtoRetryPolicy {
    type V = ProtoRetryView;

    open spec fn view(&self) -> ProtoRetryView {
        ProtoRetryView {
            initial_interval: self.initial_interval,
            backoff_coefficient_bits: self.backoff_coefficient_bits,
            maximum_interval: self.maximum_interval,
            maximum_attempts: self.maximum_attempts,
            non_retryable_error_types: self.non_retryable_error_types@.map_values(|t: String| t@),
        }
    }
}

/// The protocol's count of attempts: the count itself, or the largest count
/// the protocol can write where it does not fit.
pub open spec fn proto_attempts(n: u32) -> i32 {
    if n <= i32::MAX as u32 {
        n as i32
    } else {
        i32::MAX
    }
}

/// The protocol's retry policy for a retry schedule.
pub open spec fn proto_retry_of(r: RetryScheduleView) -> ProtoRetryView {
    ProtoRetryView {
        initial_interval: proto_duration_of(r.initial_interval),
        backoff_coefficient_bits: r.backoff_coefficient_bits,
        maximum_interval: opt_proto_duration_of(r.maximum_interval),
        maximum_attempts: proto_attempts(r.maximum_attempts),
        non_retryable_error_types: r.non_retryable_error_types,
    }
}

/// The protocol's retry policy for an optional retry schedule.
pub open spec fn opt_proto_retry_of(r: Option<RetryScheduleView>) -> Option<ProtoRetryView> {
    match r {
        Some(x) => Some(proto_retry_of(x)),
        None => None,
    }
}

fn proto_retry(r: Option<RetrySchedule>) -> (p: Option<ProtoRetryPolicy>)
    requires
        r matches Some(x) ==> x@.wf(),
    ensures
        match p {
            Some(x) => opt_proto_retry_of(match r { Some(y) => Some(y@), None => None }) == Some(x@),
            None => r is None,
        },
{
    match r {
        Some(x) => {
            let attempts: i32 = if x.maximum_attempts <= i32::MAX as u32 {
                x.maximum_attempts as i32
            } else {
                i32::MAX
            };
            Some(ProtoRetryPolicy {
                initial_interval: proto_duration(x.initial_interval),
                backoff_coefficient_bits: x.backoff_coefficient_bits,
                maximum_interval: opt_proto_duration(x.maximum_interval),
                maximum_attempts: attempts,
                non_retryable_error_types: x.non_retryable_error_types,
            })
        },
        None => None,
    }
}

/// A copy of a list of strings.
fn copy_strings(v: &Vec<String>) -> (r: Vec<String>)
    ensures
        r@.map_values(|t: String| t@) == v@.map_values(|t: String| t@),
{
    let mut r: Vec<String> = Vec::new();
    let mut i: usize = 0;
    while i < v.len()
        invariant
            i <= v@.len(),
            r@.len() == i,
            forall|k: int| 0 <= k < i ==> (#[trigger] r@[k])@ == v@[k]@,
        decreases v@.len() - i,
    {
        r.push(v[i].clone());
        i = i + 1;
    }
    assert(r@.map_values(|t: String| t@) =~= v@.map_values(|t: String| t@));
    r
}

impl ProtoRetryPolicy {
    /// A copy of the policy.
    fn duplicate(&self) -> (p: Self)
        ensures
            p@ == self@,
    {
        ProtoRetryPolicy {
            initial_interval: self.initial_interval,
            backoff_coefficient_bits: self.backoff_coefficient_bits,
            maximum_interval: self.maximum_interval,
            maximum_attempts: self.maximum_attempts,
            non_retryable_error_types: copy_strings(&self.non_retryable_error_types),
        }
    }
}

/// Abstract value of [`ScheduleActivityCommand`].
pub struct ScheduleActivityView {
    pub seq: u32,
    pub activity_id: Seq<char>,
    pub activity_type: Seq<char>,
    pub task_queue: Seq<char>,
    pub arguments: Seq<Seq<u8>>,
    pub schedule_to_start_timeout: Option<ProtoDuration>,
    pub start_to_close_timeout: Option<ProtoDuration>,
    pub schedule_to_close_timeout: Option<ProtoDuration>,
    pub heartbeat_timeout: Option<ProtoDuration>,
    pub retry_policy: Option<ProtoRetryView>,
}

impl View for ScheduleActivityCommand {
    type V = ScheduleActivityView;

    open spec fn view(&self) -> ScheduleActivityView {
        ScheduleActivityView {
            seq: self.seq,
            activity_id: self.activity_id@,
            activity_type: self.activity_type@,
            task_queue: self.task_queue@,
            arguments: self.arguments@.map_values(|a: Vec<u8>| a@),
            schedule_to_start_timeout: self.schedule_to_start_timeout,
            start_to_close_timeout: self.start_to_close_timeout,
            schedule_to_close_timeout: self.schedule_to_close_timeout,
            heartbeat_timeout: self.heartbeat_timeout,
            retry_policy: match self.retry_policy {
                Some(r) => Some(r@),
                None => None,
            },
        }
    }
}

/// A command sent to the server in an activation completion.
#[derive(Debug)]
pub enum CoreCommand {
    StartTimer { seq: u32, start_to_fire_timeout: ProtoDuration },
    ScheduleActivity(ScheduleActivityCommand),
    /// The workflow completed; `result` is the JSON encoding of its value.
    CompleteWorkflowExecution { result: Vec<u8> },
    /// The workflow failed with this message.
    FailWorkflowExecution { message: String },
}

/// Abstract value of [`CoreCommand`].
pub enum CoreCommandView {
    StartTimer { seq: u32, start_to_fire_timeout: ProtoDuration },
    ScheduleActivity(ScheduleActivityView),
    CompleteWorkflowExecution { result: Seq<u8> },
    FailWorkflowExecution { message: Seq<char> },
}

impl View for CoreCommand {
    type V = CoreCommandView;

    open spec fn view(&self) -> CoreCommandView {
        match self {
            CoreCommand::StartTimer { seq, start_to_fire_timeout } => CoreCommandView::StartTimer {
                seq: *seq,
                start_to_fire_timeout: *start_to_fire_timeout,
            },
            CoreCommand::ScheduleActivity(c) => CoreCommandView::ScheduleActivity(c@),
            CoreCommand::CompleteWorkflowExecution { result } =>
                CoreCommandView::CompleteWorkflowExecution { result: result@ },
            CoreCommand::FailWorkflowExecution { message } => CoreCommandView::FailWorkflowExecution {
                message: message@,
            },
        }
    }
}

/// The answer to one activation: the run and the commands for the server.
#[derive(Debug)]
pub struct ActivationCompletion {
    pub run_id: String,
    pub commands: Vec<CoreCommand>,
}

/// Abstract value of [`ActivationCompletion`].
pub struct CompletionView {
    pub run_id: Seq<char>,
    pub commands: Seq<CoreCommandView>,
}

impl View for ActivationCompletion {
    type V = CompletionView;

    open spec fn view(&self) -> CompletionView {
        CompletionView {
            run_id: self.run_id@,
            commands: self.commands@.map_values(|c: CoreCommand| c@),
        }
    }
}

/// A copy of a list of payloads.
fn copy_payloads(v: &Vec<Vec<u8>>) -> (r: Vec<Vec<u8>>)
    ensures
        r@.map_values(|a: Vec<u8>| a@) == v@.map_values(|a: Vec<u8>| a@),
{
    let mut r: Vec<Vec<u8>> = Vec::new();
    let mut i: usize = 0;
    while i < v.len()
        invariant
            i <= v@.len(),
            r@.len() == i,
            forall|k: int| 0 <= k < i ==> (#[trigger] r@[k])@ == v@[k]@,
        decreases v@.len() - i,
    {
        r.push(v[i].clone());
        i = i + 1;
    }
    assert(r@.map_values(|a: Vec<u8>| a@) =~= v@.map_values(|a: Vec<u8>| a@));
    r
}

impl ScheduleActivityCommand {
    /// A copy of the command.
    fn duplicate(&self) -> (c: Self)
        ensures
            c@ == self@,
    {
        ScheduleActivityCommand {
            seq: self.seq,
            activity_id: self.activity_id.clone(),
            activity_type: self.activity_type.clone(),
            task_queue: self.task_queue.clone(),
            arguments: copy_payloads(&self.arguments),
            schedule_to_start_timeout: self.schedule_to_start_timeout,
            start_to_close_timeout: self.start_to_close_timeout,
            schedule_to_close_timeout: self.schedule_to_close_timeout,
            heartbeat_timeout: self.heartbeat_timeout,
            retry_policy: match &self.retry_policy {
                Some(r) => Some(r.duplicate()),
                None => None,
            },
        }
    }
}

impl CoreCommand {
    /// A copy of the command.
    fn duplicate(&self) -> (c: Self)
        ensures
            c@ == self@,
    {
        match self {
            CoreCommand::StartTimer { seq, start_to_fire_timeout } => CoreCommand::StartTimer {
                seq: *seq,
                start_to_fire_timeout: *start_to_fire_timeout,
            },
            CoreCommand::ScheduleActivity(s) => CoreCommand::ScheduleActivity(s.duplicate()),
            CoreCommand::CompleteWorkflowExecution { result } => CoreCommand::CompleteWorkflowExecution {
                result: result.clone(),
            },
            CoreCommand::FailWorkflowExecution { message } => CoreCommand::FailWorkflowExecution {
                message: message.clone(),
            },
        }
    }
}

/// A copy of a list of commands.
fn copy_commands(v: &Vec<CoreCommand>) -> (r: Vec<CoreCommand>)
    ensures
        r@.map_values(|c: CoreCommand| c@) == v@.map_values(|c: CoreCommand| c@),
{
    let mut r: Vec<CoreCommand> = Vec::new();
    let mut i: usize = 0;
    while i < v.len()
        invariant
            i <= v@.len(),
            r@.len() == i,
            forall|k: int| 0 <= k < i ==> (#[trigger] r@[k])@ == v@[k]@,
        decreases v@.len() - i,
    {
        r.push(v[i].duplicate());
        i = i + 1;
    }
    assert(r@.map_values(|c: CoreCommand| c@) =~= v@.map_values(|c: CoreCommand| c@));
    r
}

/// What a poll of the workflow body gave.
#[derive(Debug)]
pub enum PollOutcome {
    /// The body finished; `Ok` holds the JSON encoding of its value.
    Ready(Result<Vec<u8>, WorkflowError>),
    /// The body panicked.
    Panicked,
    /// The body waits for something.
    Pending,
}

/// Abstract value of [`PollOutcome`].
pub enum PollOutcomeView {
    Ready(Result<Seq<u8>, WorkflowErrorView>),
    Panicked,
    Pending,
}

impl View for PollOutcome {
    type V = PollOutcomeView;

    open spec fn view(&self) -> PollOutcomeView {
        match self {
            PollOutcome::Ready(r) => PollOutcomeView::Ready(outcome_view(*r)),
            PollOutcome::Panicked => PollOutcomeView::Panicked,
            PollOutcome::Pending => PollOutcomeView::Pending,
        }
    }
}

/// The workflow state machine of one run.
pub struct WorkflowMachine {
    run_id: String,
    /// The pending commands, each once. A vector rather than a hash set: the
    /// specifications of `HashSet` give no facts about lookups keyed by a
    /// type of this library, while a vector's contents can be reasoned about
    /// exactly.
    pending: Vec<CommandId>,
    outgoing: Vec<CoreCommand>,
    completed: bool,
    result: Option<Result<Vec<u8>, WorkflowError>>,
    cancel_requested: bool,
    subscriptions: Registry<()>,
}

/// Abstract state of a [`WorkflowMachine`].
pub struct MachineView {
    /// The run this machine drives.
    pub run_id: Seq<char>,
    /// Commands waiting to be unblocked by the server.
    pub pending: Set<CommandId>,
    /// Commands produced during the current activation.
    pub outgoing: Seq<CoreCommandView>,
    /// Whether the workflow has completed (or was evicted).
    pub completed: bool,
    /// The final result, once the workflow finished.
    pub result: Option<Result<Seq<u8>, WorkflowErrorView>>,
    /// Whether cancellation was requested.
    pub cancel_requested: bool,
    /// The signal names the workflow body subscribed to.
    pub subscriptions: Set<Seq<char>>,
}

impl View for WorkflowMachine {
    type V = MachineView;

    closed spec fn view(&self) -> MachineView {
        MachineView {
            run_id: self.run_id@,
            pending: self.pending@.to_set(),
            outgoing: self.outgoing@.map_values(|c: CoreCommand| c@),
            completed: self.completed,
            result: match self.result {
                Some(r) => Some(outcome_view(r)),
                None => None,
            },
            cancel_requested: self.cancel_requested,
            subscriptions: self.subscriptions.view().dom(),
        }
    }
}

/// The state of a new machine for run `run_id`.
pub open spec fn initial_machine(run_id: Seq<char>) -> MachineView {
    MachineView {
        run_id,
        pending: Set::empty(),
        outgoing: Seq::empty(),
        completed: false,
        result: None,
        cancel_requested: false,
        subscriptions: Set::empty(),
    }
}

/// Unblocking command `id` with `r`: the command leaves the pending set and
/// the caller is told, or, if it was not pending, nothing changes.
pub open spec fn unblock_step(m: MachineView, id: CommandId, r: UnblockResultView) -> (MachineView, JobOutcomeView) {
    if m.pending.contains(id) {
        (MachineView { pending: m.pending.remove(id), ..m }, JobOutcomeView::Unblocked { id, result: r })
    } else {
        (m, JobOutcomeView::NotPending { id })
    }
}

/// The value a completed activity delivers: its payload if it is JSON, else
/// `null` (`None`).
pub open spec fn completed_value(payload: Option<Seq<u8>>) -> Option<Seq<u8>> {
    match payload {
        Some(p) => if spec_is_json(p) { Some(p) } else { None },
        None => None,
    }
}

/// The message a failed activity delivers.
pub open spec fn failure_message(message: Option<Seq<char>>) -> Seq<char> {
    match message {
        Some(m) => m,
        None => "Activity failed"@,
    }
}

/// The value a signal delivers: its first payload if it is JSON, else `null`
/// (`None`).
pub open spec fn signal_payload(input: Seq<Seq<u8>>) -> Option<Seq<u8>> {
    if input.len() > 0 {
        completed_value(Some(input[0]))
    } else {
        None
    }
}

/// Handling one activation job.
pub open spec fn job_step(m: MachineView, job: ActivationJobView) -> (MachineView, JobOutcomeView) {
    match job {
        ActivationJobView::FireTimer { seq } => unblock_step(m, CommandId::Timer(seq), UnblockResultView::TimerFired),
        ActivationJobView::ResolveActivity { seq, resolution } => match resolution {
            Some(ActivityResolutionView::Completed { payload }) => unblock_step(
                m,
                CommandId::Activity(seq),
                UnblockResultView::ActivityCompleted(completed_value(payload)),
            ),
            Some(ActivityResolutionView::Failed { message }) => unblock_step(
                m,
                CommandId::Activity(seq),
                UnblockResultView::ActivityFailed(failure_message(message)),
            ),
            Some(ActivityResolutionView::Cancelled) => unblock_step(
                m,
                CommandId::Activity(seq),
                UnblockResultView::ActivityCancelled,
            ),
            _ => (m, JobOutcomeView::Ignored),
        },
        ActivationJobView::CancelWorkflow { .. } => (
            MachineView { cancel_requested: true, ..m },
            JobOutcomeView::CancelRequested,
        ),
        ActivationJobView::SignalWorkflow { signal_name, input } => if m.subscriptions.contains(signal_name) {
            (m, JobOutcomeView::DeliverSignal { name: signal_name, payload: signal_payload(input) })
        } else {
            (m, JobOutcomeView::Ignored)
        },
        ActivationJobView::RemoveFromCache => (MachineView { completed: true, ..m }, JobOutcomeView::Ignored),
        _ => (m, JobOutcomeView::Ignored),
    }
}

/// Handling a sequence of jobs in order: the state after the last, and the
/// outcome of each.
pub open spec fn jobs_step(m: MachineView, jobs: Seq<ActivationJobView>) -> (MachineView, Seq<JobOutcomeView>)
    decreases jobs.len(),
{
    if jobs.len() == 0 {
        (m, Seq::empty())
    } else {
        let (m1, outs) = jobs_step(m, jobs.drop_last());
        let (m2, o) = job_step(m1, jobs.last());
        (m2, outs.push(o))
    }
}

/// The task queue the server is told for an activity: the one given, or the
/// empty string, which stands for the workflow's own.
pub open spec fn task_queue_of(q: Option<Seq<char>>) -> Seq<char> {
    match q {
        Some(s) => s,
        None => Seq::empty(),
    }
}

/// The scheduling command for activity `seq` of type `activity_type`.
pub open spec fn schedule_command(
    seq: u32,
    activity_type: Seq<char>,
    input: Seq<u8>,
    options: ActivityScheduleView,
) -> ScheduleActivityView {
    ScheduleActivityView {
        seq,
        activity_id: decimal(seq as nat),
        activity_type,
        task_queue: task_queue_of(options.task_queue),
        arguments: seq![input],
        schedule_to_start_timeout: opt_proto_duration_of(options.schedule_to_start_timeout),
        start_to_close_timeout: opt_proto_duration_of(options.start_to_close_timeout),
        schedule_to_close_timeout: opt_proto_duration_of(options.schedule_to_close_timeout),
        heartbeat_timeout: opt_proto_duration_of(options.heartbeat_timeout),
        retry_policy: opt_proto_retry_of(options.retry_policy),
    }
}

/// Applying one command of the workflow body.
pub open spec fn command_step(m: MachineView, cmd: WorkflowCommandView) -> MachineView {
    match cmd {
        WorkflowCommandView::StartTimer { seq, duration } => MachineView {
            outgoing: m.outgoing.push(
                CoreCommandView::StartTimer { seq, start_to_fire_timeout: proto_duration_of(duration) },
            ),
            pending: m.pending.insert(CommandId::Timer(seq)),
            ..m
        },
        WorkflowCommandView::ScheduleActivity { seq, activity_type, input, options } => MachineView {
            outgoing: m.outgoing.push(
                CoreCommandView::ScheduleActivity(schedule_command(seq, activity_type, input, options)),
            ),
            pending: m.pending.insert(CommandId::Activity(seq)),
            ..m
        },
        WorkflowCommandView::SubscribeSignal { name } => MachineView {
            subscriptions: m.subscriptions.insert(name),
            ..m
        },
        WorkflowCommandView::Complete { result } => MachineView {
            completed: true,
            result: Some(result),
            ..m
        },
    }
}

/// Applying a sequence of commands in order.
pub open spec fn commands_step(m: MachineView, cmds: Seq<WorkflowCommandView>) -> MachineView
    decreases cmds.len(),
{
    if cmds.len() == 0 {
        m
    } else {
        command_step(commands_step(m, cmds.drop_last()), cmds.last())
    }
}

/// Recording what a poll of the workflow body gave.
pub open spec fn poll_step(m: MachineView, o: PollOutcomeView) -> MachineView {
    match o {
        PollOutcomeView::Ready(r) => MachineView { completed: true, result: Some(r), ..m },
        PollOutcomeView::Panicked => MachineView {
            completed: true,
            result: Some(Err(WorkflowErrorView::Internal("Workflow panicked"@))),
            ..m
        },
        PollOutcomeView::Pending => m,
    }
}

/// The commands of the completion: those of the activation, then, once the
/// workflow completed with a result, the command that completes or fails it.
pub open spec fn completion_commands(m: MachineView) -> Seq<CoreCommandView> {
    if m.completed {
        match m.result {
            Some(Ok(v)) => m.outgoing.push(CoreCommandView::CompleteWorkflowExecution { result: v }),
            Some(Err(e)) => m.outgoing.push(CoreCommandView::FailWorkflowExecution { message: e.text() }),
            None => m.outgoing,
        }
    } else {
        m.outgoing
    }
}

/// The completion of the current activation.
pub open spec fn completion_of(m: MachineView) -> CompletionView {
    CompletionView { run_id: m.run_id, commands: completion_commands(m) }
}

/// Removing the element at `i` of a sequence without duplicates removes
/// exactly that value and keeps the sequence free of duplicates.
proof fn lemma_remove_distinct(s: Seq<CommandId>, i: int)
    requires
        s.no_duplicates(),
        0 <= i < s.len(),
    ensures
        s.remove(i).no_duplicates(),
        s.remove(i).to_set() == s.to_set().remove(s[i]),
{
    let r = s.remove(i);
    assert forall|a: int, b: int| 0 <= a < b < r.len() implies r[a] != r[b] by {
        let a0: int = if a < i { a } else { a + 1 };
        let b0: int = if b < i { b } else { b + 1 };
        assert(r[a] == s[a0] && r[b] == s[b0]);
    }
    assert forall|x: CommandId| r.to_set().contains(x) <==> s.to_set().remove(s[i]).contains(x) by {
        if r.contains(x) {
            let j = choose|j: int| 0 <= j < r.len() && r[j] == x;
            let j0: int = if j < i { j } else { j + 1 };
            assert(s[j0] == x);
            assert(s.contains(x));
        }
        if s.contains(x) && x != s[i] {
            let k = choose|k: int| 0 <= k < s.len() && s[k] == x;
            let k0: int = if k < i { k } else { k - 1 };
            assert(r[k0] == x);
            assert(r.contains(x));
        }
    }
    assert(r.to_set() =~= s.to_set().remove(s[i]));
}

/// Appending a value that does not occur keeps a sequence free of duplicates.
proof fn lemma_push_distinct(s: Seq<CommandId>, x: CommandId)
    requires
        s.no_duplicates(),
        !s.contains(x),
    ensures
        s.push(x).no_duplicates(),
        s.push(x).to_set() == s.to_set().insert(x),
{
    let p = s.push(x);
    assert forall|a: int, b: int| 0 <= a < b < p.len() implies p[a] != p[b] by {
        if b == s.len() {
            assert(p[a] == s[a]);
        } else {
            assert(p[a] == s[a] && p[b] == s[b]);
        }
    }
    assert forall|y: CommandId| p.to_set().contains(y) <==> s.to_set().insert(x).contains(y) by {
        if p.contains(y) {
            let j = choose|j: int| 0 <= j < p.len() && p[j] == y;
            if j < s.len() {
                assert(s[j] == y);
            }
        }
        if s.contains(y) {
            let k = choose|k: int| 0 <= k < s.len() && s[k] == y;
            assert(p[k] == y);
        }
        if y == x {
            assert(p[s.len() as int] == y);
        }
    }
    assert(p.to_set() =~= s.to_set().insert(x));
}

impl WorkflowMachine {
    /// The pending commands are listed once each.
    pub closed spec fn wf(&self) -> bool {
        self.pending@.no_duplicates() && self.subscriptions.wf()
    }

    /// Create a new workflow machine for a workflow execution.
    pub fn new(run_id: String) -> (m: Self)
        ensures
            m.wf(),
            m@ == initial_machine(run_id@),
    {
        let m = WorkflowMachine {
            run_id,
            pending: Vec::new(),
            outgoing: Vec::new(),
            completed: false,
            result: None,
            cancel_requested: false,
            subscriptions: Registry::new(),
        };
        assert(m.subscriptions.view().dom() =~= Set::<Seq<char>>::empty());
        assert(m.pending@.to_set() =~= Set::<CommandId>::empty());
        assert(m.outgoing@.map_values(|c: CoreCommand| c@) =~= Seq::<CoreCommandView>::empty());
        m
    }

    /// Get the run ID.
    pub fn run_id(&self) -> (r: &str)
        ensures
            r@ == self@.run_id,
    {
        self.run_id.as_str()
    }

    /// Check if the workflow has completed.
    pub fn is_completed(&self) -> (b: bool)
        ensures
            b == self@.completed,
    {
        self.completed
    }

    /// Whether cancellation of the workflow was requested.
    pub fn is_cancel_requested(&self) -> (b: bool)
        ensures
            b == self@.cancel_requested,
    {
        self.cancel_requested
    }

    /// Whether command `id` waits to be unblocked.
    pub fn is_pending(&self, id: CommandId) -> (b: bool)
        ensures
            b == self@.pending.contains(id),
    {
        match self.pending_index(id) {
            Some(_) => true,
            None => false,
        }
    }

    fn pending_index(&self, id: CommandId) -> (r: Option<usize>)
        ensures
            match r {
                Some(i) => i < self.pending@.len() && self.pending@[i as int] == id,
                None => !self.pending@.contains(id),
            },
            r is None <==> !self@.pending.contains(id),
    {
        let mut i: usize = 0;
        while i < self.pending.len()
            invariant
                i <= self.pending@.len(),
                forall|j: int| 0 <= j < i ==> self.pending@[j] != id,
            decreases self.pending@.len() - i,
        {
            if self.pending[i] == id {
                assert(self.pending@.contains(id));
                return Some(i);
            }
            i = i + 1;
        }
        proof {
            if self.pending@.contains(id) {
                let k = choose|k: int| 0 <= k < self.pending@.len() && self.pending@[k] == id;
                assert(self.pending@[k] != id);
            }
        }
        None
    }

    fn insert_pending(&mut self, id: CommandId)
        requires
            old(self).wf(),
        ensures
            final(self).wf(),
            final(self)@ == (MachineView { pending: old(self)@.pending.insert(id), ..old(self)@ }),
    {
        match self.pending_index(id) {
            Some(_) => {
                assert(self@.pending.insert(id) =~= self@.pending);
            },
            None => {
                proof {
                    lemma_push_distinct(self.pending@, id);
                }
                self.pending.push(id);
            },
        }
    }

    fn unblock_command(&mut self, id: CommandId, result: UnblockResult) -> (out: JobOutcome)
        requires
            old(self).wf(),
        ensures
            final(self).wf(),
            (final(self)@, out@) == unblock_step(old(self)@, id, result@),
    {
        match self.pending_index(id) {
            Some(i) => {
                proof {
                    lemma_remove_distinct(self.pending@, i as int);
                }
                self.pending.remove(i);
                JobOutcome::Unblocked { id, result }
            },
            None => JobOutcome::NotPending { id },
        }
    }

    /// Starts an activation: the commands of the previous one are cleared.
    pub fn begin_activation(&mut self)
        requires
            old(self).wf(),
        ensures
            final(self).wf(),
            final(self)@ == (MachineView { outgoing: Seq::empty(), ..old(self)@ }),
    {
        self.outgoing = Vec::new();
        assert(self.outgoing@.map_values(|c: CoreCommand| c@) =~= Seq::<CoreCommandView>::empty());
    }

    /// Handles one job of an activation.
    pub fn handle_job(&mut self, job: ActivationJob) -> (out: JobOutcome)
        requires
            old(self).wf(),
        ensures
            final(self).wf(),
            (final(self)@, out@) == job_step(old(self)@, job@),
    {
        match job {
            ActivationJob::FireTimer { seq } => self.unblock_command(CommandId::Timer(seq), UnblockResult::TimerFired),
            ActivationJob::ResolveActivity { seq, resolution } => match resolution {
                Some(ActivityResolution::Completed { payload }) => {
                    let value = match payload {
                        Some(data) => if json_parses(data.as_slice()) {
                            Some(data)
                        } else {
                            None
                        },
                        None => None,
                    };
                    self.unblock_command(CommandId::Activity(seq), UnblockResult::ActivityCompleted(value))
                },
                Some(ActivityResolution::Failed { message }) => {
                    let msg = match message {
                        Some(m) => m,
                        None => String::from_str("Activity failed"),
                    };
                    self.unblock_command(CommandId::Activity(seq), UnblockResult::ActivityFailed(msg))
                },
                Some(ActivityResolution::Cancelled) => {
                    self.unblock_command(CommandId::Activity(seq), UnblockResult::ActivityCancelled)
                },
                _ => JobOutcome::Ignored,
            },
            ActivationJob::CancelWorkflow { .. } => {
                self.cancel_requested = true;
                JobOutcome::CancelRequested
            },
            ActivationJob::SignalWorkflow { signal_name, mut input } => {
                if self.subscriptions.contains(signal_name.as_str()) {
                    let payload = if input.len() > 0 {
                        let first = input.remove(0);
                        if json_parses(first.as_slice()) {
                            Some(first)
                        } else {
                            None
                        }
                    } else {
                        None
                    };
                    JobOutcome::DeliverSignal { name: signal_name, payload }
                } else {
                    JobOutcome::Ignored
                }
            },
            ActivationJob::RemoveFromCache => {
                self.completed = true;
                JobOutcome::Ignored
            },
            _ => JobOutcome::Ignored,
        }
    }

    /// Handles the jobs of an activation in order.
    pub fn handle_jobs(&mut self, jobs: Vec<ActivationJob>) -> (outs: Vec<JobOutcome>)
        requires
            old(self).wf(),
        ensures
            final(self).wf(),
            (final(self)@, outs@.map_values(|o: JobOutcome| o@))
                == jobs_step(old(self)@, jobs@.map_values(|j: ActivationJob| j@)),
    {
        let ghost all = jobs@.map_values(|j: ActivationJob| j@);
        let ghost orig = jobs@;
        let ghost start = self@;
        let mut rest = jobs;
        let mut outs: Vec<JobOutcome> = Vec::new();
        let mut i: usize = 0;
        let total: usize = rest.len();
        assert(all.take(0) =~= Seq::<ActivationJobView>::empty());
        assert(outs@.map_values(|o: JobOutcome| o@) =~= Seq::<JobOutcomeView>::empty());
        while rest.len() > 0
            invariant
                self.wf(),
                i <= all.len(),
                all.len() == orig.len(),
                orig.len() == total,
                forall|k: int| 0 <= k < all.len() ==> all[k] == (#[trigger] orig[k])@,
                rest@ == orig.skip(i as int),
                (self@, outs@.map_values(|o: JobOutcome| o@)) == jobs_step(start, all.take(i as int)),
            decreases rest@.len(),
        {
            let ghost before = outs@.map_values(|o: JobOutcome| o@);
            let job = rest.remove(0);
            assert(job == orig[i as int]);
            assert(rest@ =~= orig.skip(i as int + 1));
            let out = self.handle_job(job);
            outs.push(out);
            assert(all.take(i as int + 1).drop_last() =~= all.take(i as int));
            assert(outs@.map_values(|o: JobOutcome| o@) =~= before.push(out@));
            i = i + 1;
        }
        assert(all.take(i as int) =~= all);
        outs
    }

    /// Applies one command issued by the workflow body.
    pub fn apply_command(&mut self, cmd: WorkflowCommand)
        requires
            old(self).wf(),
            cmd@.wf(),
        ensures
            final(self).wf(),
            final(self)@ == command_step(old(self)@, cmd@),
    {
        let ghost before = self@;
        match cmd {
            WorkflowCommand::StartTimer { seq, duration } => {
                let ghost outs = self.outgoing@;
                let c = CoreCommand::StartTimer { seq, start_to_fire_timeout: proto_duration(duration) };
                self.outgoing.push(c);
                assert(self.outgoing@.map_values(|c: CoreCommand| c@)
                    =~= outs.map_values(|c: CoreCommand| c@).push(c@));
                self.insert_pending(CommandId::Timer(seq));
            },
            WorkflowCommand::ScheduleActivity { seq, activity_type, input, options } => {
                let ghost outs = self.outgoing@;
                let ghost input_view = input@;
                let task_queue = match options.task_queue {
                    Some(q) => q,
                    None => String::new(),
                };
                let mut arguments: Vec<Vec<u8>> = Vec::new();
                arguments.push(input);
                let sc = ScheduleActivityCommand {
                    seq,
                    activity_id: decimal_string(seq as u64),
                    activity_type,
                    task_queue,
                    arguments,
                    schedule_to_start_timeout: opt_proto_duration(options.schedule_to_start_timeout),
                    start_to_close_timeout: opt_proto_duration(options.start_to_close_timeout),
                    schedule_to_close_timeout: opt_proto_duration(options.schedule_to_close_timeout),
                    heartbeat_timeout: opt_proto_duration(options.heartbeat_timeout),
                    retry_policy: proto_retry(options.retry_policy),
                };
                assert(sc.arguments@.map_values(|a: Vec<u8>| a@) =~= seq![input_view]);
                let c = CoreCommand::ScheduleActivity(sc);
                self.outgoing.push(c);
                assert(self.outgoing@.map_values(|c: CoreCommand| c@)
                    =~= outs.map_values(|c: CoreCommand| c@).push(c@));
                self.insert_pending(CommandId::Activity(seq));
            },
            WorkflowCommand::SubscribeSignal { name } => {
                self.subscriptions.insert(name, ());
                assert(self@.subscriptions =~= before.subscriptions.insert(cmd@->SubscribeSignal_name));
            },
            WorkflowCommand::Complete { result } => {
                self.completed = true;
                self.result = Some(result);
            },
        }
    }

    /// Applies the commands issued by the workflow body, in order.
    pub fn apply_commands(&mut self, cmds: Vec<WorkflowCommand>)
        requires
            old(self).wf(),
            forall|i: int| 0 <= i < cmds@.len() ==> (#[trigger] cmds@[i])@.wf(),
        ensures
            final(self).wf(),
            final(self)@ == commands_step(old(self)@, cmds@.map_values(|c: WorkflowCommand| c@)),
    {
        let ghost all = cmds@.map_values(|c: WorkflowCommand| c@);
        let ghost start = self@;
        let ghost orig = cmds@;
        let mut rest = cmds;
        let mut i: usize = 0;
        let total: usize = rest.len();
        assert(all.take(0) =~= Seq::<WorkflowCommandView>::empty());
        while rest.len() > 0
            invariant
                self.wf(),
                i <= all.len(),
                all.len() == orig.len(),
                orig.len() == total,
                forall|k: int| 0 <= k < orig.len() ==> (#[trigger] orig[k])@.wf(),
                forall|k: int| 0 <= k < all.len() ==> all[k] == (#[trigger] orig[k])@,
                rest@ == orig.skip(i as int),
                self@ == commands_step(start, all.take(i as int)),
            decreases rest@.len(),
        {
            let cmd = rest.remove(0);
            assert(cmd == orig[i as int]);
            assert(rest@ =~= orig.skip(i as int + 1));
            self.apply_command(cmd);
            assert(all.take(i as int + 1).drop_last() =~= all.take(i as int));
            i = i + 1;
        }
        assert(all.take(i as int) =~= all);
    }

    /// Records what a poll of the workflow body gave.
    pub fn record_poll(&mut self, outcome: PollOutcome)
        requires
            old(self).wf(),
        ensures
            final(self).wf(),
            final(self)@ == poll_step(old(self)@, outcome@),
    {
        match outcome {
            PollOutcome::Ready(r) => {
                self.completed = true;
                self.result = Some(r);
            },
            PollOutcome::Panicked => {
                self.completed = true;
                self.result = Some(Err(WorkflowError::Internal(String::from_str("Workflow panicked"))));
            },
            PollOutcome::Pending => {},
        }
    }

    /// Runs the first phase of an activation: clears the commands of the
    /// previous activation, handles the jobs and applies the commands the
    /// workflow body issued before it is polled.
    pub fn start_activation(&mut self, jobs: Vec<ActivationJob>, before_poll: Vec<WorkflowCommand>) -> (outs: Vec<JobOutcome>)
        requires
            old(self).wf(),
            forall|i: int| 0 <= i < before_poll@.len() ==> (#[trigger] before_poll@[i])@.wf(),
        ensures
            final(self).wf(),
            (final(self)@, outs@.map_values(|o: JobOutcome| o@)) == start_phase(
                old(self)@,
                jobs@.map_values(|j: ActivationJob| j@),
                before_poll@.map_values(|c: WorkflowCommand| c@),
            ),
    {
        self.begin_activation();
        let outs = self.handle_jobs(jobs);
        self.apply_commands(before_poll);
        outs
    }

    /// Runs the second phase of an activation: records what polling the
    /// body gave unless the workflow has completed, applies the commands the
    /// body issued while polled, and builds the completion. A caller that did
    /// not poll the body passes `PollOutcome::Pending`.
    pub fn end_activation(&mut self, poll: PollOutcome, after_poll: Vec<WorkflowCommand>) -> (c: ActivationCompletion)
        requires
            old(self).wf(),
            forall|i: int| 0 <= i < after_poll@.len() ==> (#[trigger] after_poll@[i])@.wf(),
        ensures
            final(self).wf(),
            (final(self)@, c@) == end_phase(old(self)@, poll@, after_poll@.map_values(|c: WorkflowCommand| c@)),
    {
        if !self.completed {
            self.record_poll(poll);
        }
        self.apply_commands(after_poll);
        self.build_completion()
    }

    /// Runs a whole activation. After the first phase, `drive` is handed the
    /// outcomes of the jobs and whether the workflow has completed; it
    /// delivers the outcomes, polls the body unless the workflow has
    /// completed (answering `PollOutcome::Pending` then), and returns what
    /// the poll gave with the commands the body issued meanwhile. The second
    /// phase then records the poll and builds the completion.
    pub fn run_activation<F>(
        &mut self,
        jobs: Vec<ActivationJob>,
        before_poll: Vec<WorkflowCommand>,
        drive: F,
    ) -> (c: ActivationCompletion) where
        F: FnOnce(Vec<JobOutcome>, bool) -> (PollOutcome, Vec<WorkflowCommand>),
        requires
            old(self).wf(),
            forall|i: int| 0 <= i < before_poll@.len() ==> (#[trigger] before_poll@[i])@.wf(),
            forall|outs: Vec<JobOutcome>, completed: bool| #[trigger] drive.requires((outs, completed)),
            forall|outs: Vec<JobOutcome>, completed: bool, r: (PollOutcome, Vec<WorkflowCommand>)|
                #[trigger] drive.ensures((outs, completed), r) ==> forall|i: int|
                    0 <= i < r.1@.len() ==> (#[trigger] r.1@[i])@.wf(),
        ensures
            final(self).wf(),
            exists|outs: Vec<JobOutcome>, completed: bool, r: (PollOutcome, Vec<WorkflowCommand>)|
                #[trigger] drive.ensures((outs, completed), r) && outs@.map_values(|o: JobOutcome| o@)
                    == start_phase(
                    old(self)@,
                    jobs@.map_values(|j: ActivationJob| j@),
                    before_poll@.map_values(|c: WorkflowCommand| c@),
                ).1 && completed == start_phase(
                    old(self)@,
                    jobs@.map_values(|j: ActivationJob| j@),
                    before_poll@.map_values(|c: WorkflowCommand| c@),
                ).0.completed && (final(self)@, c@) == activation_step(
                    old(self)@,
                    jobs@.map_values(|j: ActivationJob| j@),
                    before_poll@.map_values(|c: WorkflowCommand| c@),
                    r.0@,
                    r.1@.map_values(|c: WorkflowCommand| c@),
                ),
    {
        let outs = self.start_activation(jobs, before_poll);
        let ghost delivered = outs;
        let completed = self.completed;
        let r = drive(outs, completed);
        let ghost result = r;
        let (poll, after_poll) = r;
        let c = self.end_activation(poll, after_poll);
        assert(drive.ensures((delivered, completed), result));
        c
    }

    /// Builds the completion of the current activation: its commands are
    /// those produced during the activation followed, once the workflow has
    /// completed with a result, by the command that completes or fails it.
    /// The machine is left as it was.
    pub fn build_completion(&self) -> (c: ActivationCompletion)
        requires
            self.wf(),
        ensures
            c@ == completion_of(self@),
    {
        let mut commands = copy_commands(&self.outgoing);
        let ghost outs = self.outgoing@.map_values(|c: CoreCommand| c@);
        if self.completed {
            match &self.result {
                Some(Ok(value)) => {
                    let c = CoreCommand::CompleteWorkflowExecution { result: value.clone() };
                    commands.push(c);
                    assert(commands@.map_values(|c: CoreCommand| c@) =~= outs.push(c@));
                },
                Some(Err(e)) => {
                    let c = CoreCommand::FailWorkflowExecution { message: e.to_string() };
                    commands.push(c);
                    assert(commands@.map_values(|c: CoreCommand| c@) =~= outs.push(c@));
                },
                None => {},
            }
        }
        ActivationCompletion { run_id: self.run_id.clone(), commands }
    }
}

/// Once a workflow has completed, no job, command or poll makes it
/// incomplete again, and no step changes the run or withdraws a cancellation
/// request.
pub proof fn lemma_steps_keep_completion(m: MachineView, job: ActivationJobView, cmd: WorkflowCommandView, o: PollOutcomeView)
    ensures
        m.completed ==> job_step(m, job).0.completed,
        m.completed ==> command_step(m, cmd).completed,
        m.completed ==> poll_step(m, o).completed,
        m.cancel_requested ==> job_step(m, job).0.cancel_requested,
        m.cancel_requested ==> command_step(m, cmd).cancel_requested,
        m.cancel_requested ==> poll_step(m, o).cancel_requested,
        job_step(m, job).0.run_id == m.run_id,
        command_step(m, cmd).run_id == m.run_id,
        poll_step(m, o).run_id == m.run_id,
{
}

/// Once a workflow has completed, it stays completed through any sequence of
/// jobs and any sequence of commands.
pub proof fn lemma_sequences_keep_completion(m: MachineView, jobs: Seq<ActivationJobView>, cmds: Seq<WorkflowCommandView>)
    requires
        m.completed,
    ensures
        jobs_step(m, jobs).0.completed,
        commands_step(m, cmds).completed,
    decreases jobs.len() + cmds.len(),
{
    if jobs.len() > 0 {
        lemma_sequences_keep_completion(m, jobs.drop_last(), cmds);
        let m1 = jobs_step(m, jobs.drop_last()).0;
        lemma_steps_keep_completion(m1, jobs.last(), WorkflowCommandView::SubscribeSignal { name: Seq::empty() }, PollOutcomeView::Pending);
    }
    if cmds.len() > 0 {
        lemma_sequences_keep_completion(m, Seq::empty(), cmds.drop_last());
        let m1 = commands_step(m, cmds.drop_last());
        lemma_steps_keep_completion(m1, ActivationJobView::Other, cmds.last(), PollOutcomeView::Pending);
    }
}

/// A timer that the workflow starts waits for the server; when the server
/// fires it, the workflow is told that it fired and the timer no longer
/// waits; a second firing of the same timer unblocks nothing.
pub proof fn lemma_started_timer_fires(m: MachineView, seq: u32, duration: Timeout)
    ensures
        ({
            let m1 = command_step(m, WorkflowCommandView::StartTimer { seq, duration });
            let (m2, out) = job_step(m1, ActivationJobView::FireTimer { seq });
            let (m3, out2) = job_step(m2, ActivationJobView::FireTimer { seq });
            &&& m1.pending.contains(CommandId::Timer(seq))
            &&& out == JobOutcomeView::Unblocked { id: CommandId::Timer(seq), result: UnblockResultView::TimerFired }
            &&& !m2.pending.contains(CommandId::Timer(seq))
            &&& out2 == JobOutcomeView::NotPending { id: CommandId::Timer(seq) }
            &&& m3 == m2
        }),
{
}

/// An activity that the workflow schedules waits for the server; when the
/// server resolves it as completed, the workflow receives its payload (or
/// `null` where the payload is missing or not JSON) and the activity no
/// longer waits.
pub proof fn lemma_scheduled_activity_resolves(
    m: MachineView,
    seq: u32,
    activity_type: Seq<char>,
    input: Seq<u8>,
    options: ActivityScheduleView,
    payload: Option<Seq<u8>>,
)
    ensures
        ({
            let m1 = command_step(m, WorkflowCommandView::ScheduleActivity { seq, activity_type, input, options });
            let job = ActivationJobView::ResolveActivity {
                seq,
                resolution: Some(ActivityResolutionView::Completed { payload }),
            };
            let (m2, out) = job_step(m1, job);
            &&& m1.pending.contains(CommandId::Activity(seq))
            &&& m1.outgoing.last() == CoreCommandView::ScheduleActivity(schedule_command(seq, activity_type, input, options))
            &&& out == JobOutcomeView::Unblocked {
                id: CommandId::Activity(seq),
                result: UnblockResultView::ActivityCompleted(completed_value(payload)),
            }
            &&& !m2.pending.contains(CommandId::Activity(seq))
        }),
{
}

/// Unblocking a command that does not wait changes nothing.
pub proof fn lemma_unblock_unknown(m: MachineView, id: CommandId, r: UnblockResultView)
    requires
        !m.pending.contains(id),
    ensures
        unblock_step(m, id, r) == (m, JobOutcomeView::NotPending { id }),
{
}

/// After the workflow body reports its outcome, the completion carries the
/// commands of the activation followed by the command that completes the
/// workflow with its value or fails it with the error's text.
pub proof fn lemma_outcome_reaches_completion(m: MachineView, result: Result<Seq<u8>, WorkflowErrorView>)
    ensures
        ({
            let by_command = command_step(m, WorkflowCommandView::Complete { result });
            let by_poll = poll_step(m, PollOutcomeView::Ready(result));
            let last = match result {
                Ok(v) => CoreCommandView::CompleteWorkflowExecution { result: v },
                Err(e) => CoreCommandView::FailWorkflowExecution { message: e.text() },
            };
            &&& completion_of(by_command).commands == m.outgoing.push(last)
            &&& completion_of(by_poll).commands == m.outgoing.push(last)
            &&& completion_of(by_command).run_id == m.run_id
        }),
{
}

/// A workflow evicted from the cache before finishing is completed but sends
/// no completion or failure command.
pub proof fn lemma_eviction_sends_no_outcome(m: MachineView)
    requires
        m.result is None,
    ensures
        job_step(m, ActivationJobView::RemoveFromCache).0.completed,
        completion_of(job_step(m, ActivationJobView::RemoveFromCache).0).commands == m.outgoing,
{
}

/// The first phase of an activation: the commands of the previous
/// activation are cleared, the jobs are handled, and the commands the body
/// issued before it is polled are applied.
pub open spec fn start_phase(
    m: MachineView,
    jobs: Seq<ActivationJobView>,
    before_poll: Seq<WorkflowCommandView>,
) -> (MachineView, Seq<JobOutcomeView>) {
    let m0 = MachineView { outgoing: Seq::empty(), ..m };
    let (m1, outs) = jobs_step(m0, jobs);
    (commands_step(m1, before_poll), outs)
}

/// The second phase of an activation: what polling the body gave is
/// recorded unless the workflow has completed (a completed workflow is not
/// polled), the commands the body issued while polled are applied, and the
/// completion is built.
pub open spec fn end_phase(
    m: MachineView,
    poll: PollOutcomeView,
    after_poll: Seq<WorkflowCommandView>,
) -> (MachineView, CompletionView) {
    let m3 = if m.completed { m } else { poll_step(m, poll) };
    let m4 = commands_step(m3, after_poll);
    (m4, completion_of(m4))
}

/// One activation as a whole: its first phase, then its second.
pub open spec fn activation_step(
    m: MachineView,
    jobs: Seq<ActivationJobView>,
    before_poll: Seq<WorkflowCommandView>,
    poll: PollOutcomeView,
    after_poll: Seq<WorkflowCommandView>,
) -> (MachineView, CompletionView) {
    end_phase(start_phase(m, jobs, before_poll).0, poll, after_poll)
}

/// No sequence of jobs or commands changes the run.
proof fn lemma_sequences_keep_run(m: MachineView, jobs: Seq<ActivationJobView>, cmds: Seq<WorkflowCommandView>)
    ensures
        jobs_step(m, jobs).0.run_id == m.run_id,
        commands_step(m, cmds).run_id == m.run_id,
    decreases jobs.len() + cmds.len(),
{
    if jobs.len() > 0 {
        lemma_sequences_keep_run(m, jobs.drop_last(), cmds);
    }
    if cmds.len() > 0 {
        lemma_sequences_keep_run(m, Seq::empty(), cmds.drop_last());
    }
}

/// Every completion answers for the machine's own run, and a workflow that
/// has completed is not driven again: what its body would give when polled
/// makes no difference to an activation.
pub proof fn lemma_activation_of_completed_run(
    m: MachineView,
    jobs: Seq<ActivationJobView>,
    before_poll: Seq<WorkflowCommandView>,
    poll: PollOutcomeView,
    other_poll: PollOutcomeView,
    after_poll: Seq<WorkflowCommandView>,
)
    ensures
        activation_step(m, jobs, before_poll, poll, after_poll).1.run_id == m.run_id,
        m.completed ==> activation_step(m, jobs, before_poll, poll, after_poll)
            == activation_step(m, jobs, before_poll, other_poll, after_poll),
{
    let m0 = MachineView { outgoing: Seq::empty(), ..m };
    lemma_sequences_keep_run(m0, jobs, Seq::empty());
    let m1 = jobs_step(m0, jobs).0;
    lemma_sequences_keep_run(m1, Seq::empty(), before_poll);
    let m2 = commands_step(m1, before_poll);
    let m3 = if m2.completed { m2 } else { poll_step(m2, poll) };
    lemma_sequences_keep_run(m3, Seq::empty(), after_poll);
    if m.completed {
        lemma_sequences_keep_completion(m0, jobs, Seq::empty());
        lemma_sequences_keep_completion(m1, Seq::empty(), before_poll);
    }
}

/// An activation answers only with what it produced: the commands left from
/// an earlier activation make no difference to it, so none of them is sent
/// again.
pub proof fn lemma_activation_sends_only_its_own_commands(
    m: MachineView,
    earlier: Seq<CoreCommandView>,
    jobs: Seq<ActivationJobView>,
    before_poll: Seq<WorkflowCommandView>,
    poll: PollOutcomeView,
    after_poll: Seq<WorkflowCommandView>,
)
    ensures
        activation_step(MachineView { outgoing: earlier, ..m }, jobs, before_poll, poll, after_poll)
            == activation_step(m, jobs, before_poll, poll, after_poll),
{
    assert(MachineView { outgoing: Seq::empty(), ..MachineView { outgoing: earlier, ..m } }
        == MachineView { outgoing: Seq::<CoreCommandView>::empty(), ..m });
}

/// A signal of a name the workflow body subscribed to is delivered with its
/// first payload (or `null`), and nothing else changes; a signal of a name
/// nobody subscribed to is ignored.
pub proof fn lemma_subscribed_signal_is_delivered(
    m: MachineView,
    name: Seq<char>,
    other: Seq<char>,
    input: Seq<Seq<u8>>,
)
    requires
        !m.subscriptions.contains(other),
        other != name,
    ensures
        ({
            let m1 = command_step(m, WorkflowCommandView::SubscribeSignal { name });
            &&& job_step(m1, ActivationJobView::SignalWorkflow { signal_name: name, input })
                == (m1, JobOutcomeView::DeliverSignal { name, payload: signal_payload(input) })
            &&& job_step(m1, ActivationJobView::SignalWorkflow { signal_name: other, input })
                == (m1, JobOutcomeView::Ignored)
        }),
{
}


/// Commands other than `Complete` neither complete the workflow nor change
/// its result, and what they do does not depend on either.
proof fn lemma_commands_ignore_result(
    m: MachineView,
    completed: bool,
    result: Option<Result<Seq<u8>, WorkflowErrorView>>,
    cmds: Seq<WorkflowCommandView>,
)
    requires
        forall|i: int| 0 <= i < cmds.len() ==> !(#[trigger] cmds[i] is Complete),
    ensures
        commands_step((MachineView { completed, result, ..m }), cmds)
            == (MachineView { completed, result, ..commands_step(m, cmds) }),
    decreases cmds.len(),
{
    if cmds.len() > 0 {
        assert(!(cmds[cmds.len() - 1] is Complete));
        lemma_commands_ignore_result(m, completed, result, cmds.drop_last());
    }
}

/// The second phase of an activation of a workflow that has not completed
/// records what the poll of its body gave: a body still pending leaves the
/// workflow running and the server receives only the activation's commands;
/// a body that finished completes the run with its value or fails it with
/// its error; a body that panicked fails the run with the message
/// "internal error: Workflow panicked". The commands the body issued besides
/// completing are sent first, in order.
pub proof fn lemma_poll_outcome_ends_run(m: MachineView, o: PollOutcomeView, cmds: Seq<WorkflowCommandView>)
    requires
        !m.completed,
        forall|i: int| 0 <= i < cmds.len() ==> !(#[trigger] cmds[i] is Complete),
    ensures
        ({
            let (m4, c) = end_phase(m, o, cmds);
            let sent = commands_step(m, cmds).outgoing;
            &&& c.run_id == m.run_id
            &&& (o is Pending ==> !m4.completed && c.commands == sent)
            &&& (o is Panicked ==> {
                &&& m4.completed
                &&& m4.result == Some(Err::<Seq<u8>, WorkflowErrorView>(
                    WorkflowErrorView::Internal("Workflow panicked"@),
                ))
                &&& c.commands == sent.push(
                    CoreCommandView::FailWorkflowExecution { message: "internal error: Workflow panicked"@ },
                )
            })
            &&& (o matches PollOutcomeView::Ready(Ok(v)) ==> m4.completed && c.commands == sent.push(
                CoreCommandView::CompleteWorkflowExecution { result: v },
            ))
            &&& (o matches PollOutcomeView::Ready(Err(e)) ==> m4.completed && c.commands == sent.push(
                CoreCommandView::FailWorkflowExecution { message: e.text() },
            ))
        }),
{
    reveal_strlit("internal error: ");
    reveal_strlit("Workflow panicked");
    reveal_strlit("internal error: Workflow panicked");
    assert("internal error: "@ + "Workflow panicked"@ =~= "internal error: Workflow panicked"@);
    lemma_sequences_keep_run(poll_step(m, o), Seq::empty(), cmds);
    match o {
        PollOutcomeView::Ready(r) => {
            lemma_commands_ignore_result(m, true, Some(r), cmds);
        },
        PollOutcomeView::Panicked => {
            lemma_commands_ignore_result(
                m,
                true,
                Some(Err(WorkflowErrorView::Internal("Workflow panicked"@))),
                cmds,
            );
        },
        PollOutcomeView::Pending => {
            lemma_commands_ignore_result(m, false, m.result, cmds);
            assert(MachineView { completed: false, result: m.result, ..m } == m);
        },
    }
}

/// A pending activity that the server resolves as completed, failed or
/// cancelled no longer waits, and nothing else about the machine changes;
/// the workflow is told how it ended (a failure with its message, or
/// "Activity failed" where the server gave none); a second resolution of
/// the same activity unblocks nothing. A backoff resolution leaves the
/// activity waiting.
pub proof fn lemma_resolution_releases_activity(m: MachineView, seq: u32, r: ActivityResolutionView)
    requires
        m.pending.contains(CommandId::Activity(seq)),
    ensures
        ({
            let id = CommandId::Activity(seq);
            let job = ActivationJobView::ResolveActivity { seq, resolution: Some(r) };
            let (m1, out) = job_step(m, job);
            let (m2, out2) = job_step(m1, job);
            &&& (!(r is Backoff) ==> {
                &&& m1 == MachineView { pending: m.pending.remove(id), ..m }
                &&& !m1.pending.contains(id)
                &&& out2 == JobOutcomeView::NotPending { id }
                &&& m2 == m1
            })
            &&& (r matches ActivityResolutionView::Failed { message: Some(text) } ==> out
                == JobOutcomeView::Unblocked { id, result: UnblockResultView::ActivityFailed(text) })
            &&& (r matches ActivityResolutionView::Failed { message: None } ==> out
                == JobOutcomeView::Unblocked { id, result: UnblockResultView::ActivityFailed("Activity failed"@) })
            &&& (r is Cancelled ==> out == JobOutcomeView::Unblocked { id, result: UnblockResultView::ActivityCancelled })
            &&& (r matches ActivityResolutionView::Completed { payload } ==> out
                == JobOutcomeView::Unblocked { id, result: UnblockResultView::ActivityCompleted(completed_value(payload)) })
            &&& (r is Backoff ==> m1 == m && m1.pending.contains(id) && out == JobOutcomeView::Ignored)
        }),
{
}

/// Whether a timeout sent to the server stands for the timeout given: absent
/// where none was given, and otherwise present, with the same seconds and
/// nanoseconds wherever the seconds fit the protocol.
pub open spec fn carries_timeout(sent: Option<ProtoDuration>, given: Option<Timeout>) -> bool {
    &&& (given is None <==> sent is None)
    &&& match given {
        Some(t) => t.secs <= i64::MAX ==> sent == Some(
            ProtoDuration { seconds: t.secs as i64, nanos: t.nanos as i32 },
        ),
        None => true,
    }
}

/// Scheduling an activity sends, after the commands already produced, one
/// command that carries each option in the field of the same name: its
/// sequence number as its id, its type, its input as the only argument, the
/// task queue given (or the empty one), each of the four timeouts, and the
/// retry policy.
pub proof fn lemma_schedule_carries_options(
    m: MachineView,
    seq: u32,
    activity_type: Seq<char>,
    input: Seq<u8>,
    options: ActivityScheduleView,
)
    ensures
        ({
            let m1 = command_step(m, WorkflowCommandView::ScheduleActivity { seq, activity_type, input, options });
            &&& m1.outgoing.len() == m.outgoing.len() + 1
            &&& m1.outgoing.drop_last() == m.outgoing
            &&& m1.outgoing.last() matches CoreCommandView::ScheduleActivity(s) && {
                &&& s.seq == seq
                &&& s.activity_id == decimal(seq as nat)
                &&& s.activity_type == activity_type
                &&& s.arguments == seq![input]
                &&& (options.task_queue matches Some(q) ==> s.task_queue == q)
                &&& (options.task_queue is None ==> s.task_queue.len() == 0)
                &&& carries_timeout(s.schedule_to_start_timeout, options.schedule_to_start_timeout)
                &&& carries_timeout(s.start_to_close_timeout, options.start_to_close_timeout)
                &&& carries_timeout(s.schedule_to_close_timeout, options.schedule_to_close_timeout)
                &&& carries_timeout(s.heartbeat_timeout, options.heartbeat_timeout)
                &&& (options.retry_policy is None <==> s.retry_policy is None)
                &&& (options.retry_policy matches Some(p) ==> s.retry_policy == Some(proto_retry_of(p)))
            }
        }),
{
    let m1 = command_step(m, WorkflowCommandView::ScheduleActivity { seq, activity_type, input, options });
    assert(m1.outgoing.drop_last() =~= m.outgoing);
}

/// A workflow that has not completed answers with exactly the commands of
/// its activation: nothing completes or fails it on its behalf. In
/// particular a cancellation request only records the request and tells the
/// body; the run goes on.
pub proof fn lemma_running_workflow_sends_only_its_commands(m: MachineView, reason: Seq<char>)
    requires
        !m.completed,
    ensures
        completion_of(m).commands == m.outgoing,
        ({
            let (m1, out) = job_step(m, ActivationJobView::CancelWorkflow { reason });
            &&& out == JobOutcomeView::CancelRequested
            &&& m1 == MachineView { cancel_requested: true, ..m }
            &&& !m1.completed
            &&& completion_of(m1).commands == m.outgoing
        }),
{
}

/// Commands are applied in the order the body issued them: applying one
/// batch and then another is applying the two joined.
pub proof fn lemma_commands_applied_in_order(m: MachineView, a: Seq<WorkflowCommandView>, b: Seq<WorkflowCommandView>)
    ensures
        commands_step(m, a + b) == commands_step(commands_step(m, a), b),
    decreases b.len(),
{
    if b.len() == 0 {
        assert(a + b =~= a);
    } else {
        lemma_commands_applied_in_order(m, a, b.drop_last());
        assert((a + b).drop_last() =~= a + b.drop_last());
        assert((a + b).last() == b.last());
    }
}

/// The server receives the timers and activities of a batch in the order
/// the body issued them, after the commands already produced: the command
/// at position `i` of the batch is the one it sends on its own.
pub proof fn lemma_commands_sent_in_order(m: MachineView, cmds: Seq<WorkflowCommandView>)
    requires
        forall|i: int| 0 <= i < cmds.len() ==> (#[trigger] cmds[i] is StartTimer || cmds[i] is ScheduleActivity),
    ensures
        commands_step(m, cmds).outgoing.len() == m.outgoing.len() + cmds.len(),
        commands_step(m, cmds).outgoing.take(m.outgoing.len() as int) == m.outgoing,
        forall|i: int| 0 <= i < cmds.len() ==> commands_step(m, cmds).outgoing[m.outgoing.len() + i]
            == command_step(m, #[trigger] cmds[i]).outgoing.last(),
    decreases cmds.len(),
{
    if cmds.len() > 0 {
        let rest = cmds.drop_last();
        assert forall|i: int| 0 <= i < rest.len() implies (#[trigger] rest[i] is StartTimer || rest[i] is ScheduleActivity) by {
            assert(rest[i] == cmds[i]);
        }
        lemma_commands_sent_in_order(m, rest);
        let m1 = commands_step(m, rest);
        let c = cmds.last();
        assert(c is StartTimer || c is ScheduleActivity) by {
            assert(cmds[cmds.len() - 1] is StartTimer || cmds[cmds.len() - 1] is ScheduleActivity);
        }
        let out = commands_step(m, cmds).outgoing;
        assert(out == m1.outgoing.push(command_step(m, c).outgoing.last()));
        assert(out.take(m.outgoing.len() as int) =~= m1.outgoing.take(m.outgoing.len() as int));
        assert forall|i: int| 0 <= i < cmds.len() implies out[m.outgoing.len() + i]
            == command_step(m, #[trigger] cmds[i]).outgoing.last() by {
            if i < rest.len() {
                assert(rest[i] == cmds[i]);
            }
        }
    }
}

} // verus!
