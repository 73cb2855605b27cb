use temporal::workflow::{ActivitySchedule, RetrySchedule, Timeout, WorkflowCommand, WorkflowError};
use temporal::workflow_machine::{
    proto_duration, ActivationJob, ActivityResolution, CommandId, CoreCommand, JobOutcome, PollOutcome,
    ProtoDuration, UnblockResult, WorkflowMachine,
};

fn no_options() -> ActivitySchedule {
    ActivitySchedule {
        task_queue: None,
        schedule_to_start_timeout: None,
        start_to_close_timeout: Some(Timeout { secs: 60, nanos: 0 }),
        schedule_to_close_timeout: None,
        heartbeat_timeout: None,
        retry_policy: None,
    }
}

#[test]
fn new_machine_is_idle() {
    let mut m = WorkflowMachine::new("run-1".to_string());
    assert_eq!(m.run_id(), "run-1");
    assert!(!m.is_completed());
    assert!(!m.is_cancel_requested());
    let c = m.build_completion();
    assert_eq!(c.run_id, "run-1");
    assert!(c.commands.is_empty());
}

#[test]
fn timer_is_started_then_fired() {
    let mut m = WorkflowMachine::new("run".to_string());
    m.begin_activation();
    m.apply_command(WorkflowCommand::StartTimer { seq: 1, duration: Timeout { secs: 5, nanos: 250 } });
    assert!(m.is_pending(CommandId::Timer(1)));
    let c = m.build_completion();
    assert_eq!(c.commands.len(), 1);
    match &c.commands[0] {
        CoreCommand::StartTimer { seq, start_to_fire_timeout } => {
            assert_eq!(*seq, 1);
            assert_eq!(*start_to_fire_timeout, ProtoDuration { seconds: 5, nanos: 250 });
        }
        other => panic!("unexpected {:?}", other),
    }
    m.begin_activation();
    let out = m.handle_job(ActivationJob::FireTimer { seq: 1 });
    assert!(matches!(out, JobOutcome::Unblocked { id: CommandId::Timer(1), result: UnblockResult::TimerFired }));
    assert!(!m.is_pending(CommandId::Timer(1)));
    let again = m.handle_job(ActivationJob::FireTimer { seq: 1 });
    assert!(matches!(again, JobOutcome::NotPending { id: CommandId::Timer(1) }));
}

#[test]
fn activity_is_scheduled_with_its_options() {
    let mut m = WorkflowMachine::new("run".to_string());
    let mut options = no_options();
    options.task_queue = Some("other-queue".to_string());
    m.apply_command(WorkflowCommand::ScheduleActivity {
        seq: 42,
        activity_type: "greet".to_string(),
        input: b"\"Alice\"".to_vec(),
        options,
    });
    let c = m.build_completion();
    match &c.commands[0] {
        CoreCommand::ScheduleActivity(s) => {
            assert_eq!(s.seq, 42);
            assert_eq!(s.activity_id, "42");
            assert_eq!(s.activity_type, "greet");
            assert_eq!(s.task_queue, "other-queue");
            assert_eq!(s.arguments, vec![b"\"Alice\"".to_vec()]);
            assert_eq!(s.start_to_close_timeout, Some(ProtoDuration { seconds: 60, nanos: 0 }));
            assert_eq!(s.schedule_to_start_timeout, None);
        }
        other => panic!("unexpected {:?}", other),
    }
    assert!(m.is_pending(CommandId::Activity(42)));
}

#[test]
fn activity_without_task_queue_uses_empty_name() {
    let mut m = WorkflowMachine::new("run".to_string());
    m.apply_command(WorkflowCommand::ScheduleActivity {
        seq: 1,
        activity_type: "echo".to_string(),
        input: b"null".to_vec(),
        options: no_options(),
    });
    let c = m.build_completion();
    match &c.commands[0] {
        CoreCommand::ScheduleActivity(s) => assert_eq!(s.task_queue, ""),
        other => panic!("unexpected {:?}", other),
    }
}

#[test]
fn completed_activity_delivers_json_payload_or_null() {
    let mut m = WorkflowMachine::new("run".to_string());
    for seq in 1..=3 {
        m.apply_command(WorkflowCommand::ScheduleActivity {
            seq,
            activity_type: "a".to_string(),
            input: Vec::new(),
            options: no_options(),
        });
    }
    let outs = m.handle_jobs(vec![
        ActivationJob::ResolveActivity {
            seq: 1,
            resolution: Some(ActivityResolution::Completed { payload: Some(b"{\"ok\":true}".to_vec()) }),
        },
        ActivationJob::ResolveActivity {
            seq: 2,
            resolution: Some(ActivityResolution::Completed { payload: Some(b"not json".to_vec()) }),
        },
        ActivationJob::ResolveActivity { seq: 3, resolution: Some(ActivityResolution::Completed { payload: None }) },
    ]);
    assert_eq!(outs.len(), 3);
    match &outs[0] {
        JobOutcome::Unblocked { id, result: UnblockResult::ActivityCompleted(Some(v)) } => {
            assert_eq!(*id, CommandId::Activity(1));
            assert_eq!(v, b"{\"ok\":true}");
        }
        other => panic!("unexpected {:?}", other),
    }
    assert!(matches!(outs[1], JobOutcome::Unblocked { result: UnblockResult::ActivityCompleted(None), .. }));
    assert!(matches!(outs[2], JobOutcome::Unblocked { result: UnblockResult::ActivityCompleted(None), .. }));
}

#[test]
fn failed_activity_message_defaults() {
    let mut m = WorkflowMachine::new("run".to_string());
    for seq in 1..=2 {
        m.apply_command(WorkflowCommand::ScheduleActivity {
            seq,
            activity_type: "a".to_string(),
            input: Vec::new(),
            options: no_options(),
        });
    }
    match m.handle_job(ActivationJob::ResolveActivity {
        seq: 1,
        resolution: Some(ActivityResolution::Failed { message: Some("disk full".to_string()) }),
    }) {
        JobOutcome::Unblocked { result: UnblockResult::ActivityFailed(msg), .. } => assert_eq!(msg, "disk full"),
        other => panic!("unexpected {:?}", other),
    }
    match m.handle_job(ActivationJob::ResolveActivity {
        seq: 2,
        resolution: Some(ActivityResolution::Failed { message: None }),
    }) {
        JobOutcome::Unblocked { result: UnblockResult::ActivityFailed(msg), .. } => assert_eq!(msg, "Activity failed"),
        other => panic!("unexpected {:?}", other),
    }
}

#[test]
fn cancelled_and_backoff_resolutions() {
    let mut m = WorkflowMachine::new("run".to_string());
    m.apply_command(WorkflowCommand::ScheduleActivity {
        seq: 9,
        activity_type: "a".to_string(),
        input: Vec::new(),
        options: no_options(),
    });
    let backoff = m.handle_job(ActivationJob::ResolveActivity { seq: 9, resolution: Some(ActivityResolution::Backoff) });
    assert!(matches!(backoff, JobOutcome::Ignored));
    assert!(m.is_pending(CommandId::Activity(9)));
    let none = m.handle_job(ActivationJob::ResolveActivity { seq: 9, resolution: None });
    assert!(matches!(none, JobOutcome::Ignored));
    let out = m.handle_job(ActivationJob::ResolveActivity { seq: 9, resolution: Some(ActivityResolution::Cancelled) });
    assert!(matches!(out, JobOutcome::Unblocked { result: UnblockResult::ActivityCancelled, .. }));
}

#[test]
fn unknown_command_is_not_pending() {
    let mut m = WorkflowMachine::new("run".to_string());
    let out = m.handle_job(ActivationJob::FireTimer { seq: 5 });
    assert!(matches!(out, JobOutcome::NotPending { id: CommandId::Timer(5) }));
}

#[test]
fn cancel_job_requests_cancellation() {
    let mut m = WorkflowMachine::new("run".to_string());
    let out = m.handle_job(ActivationJob::CancelWorkflow { reason: "user".to_string() });
    assert!(matches!(out, JobOutcome::CancelRequested));
    assert!(m.is_cancel_requested());
    assert!(!m.is_completed());
}

#[test]
fn other_jobs_change_nothing() {
    let mut m = WorkflowMachine::new("run".to_string());
    for job in vec![
        ActivationJob::InitializeWorkflow,
        ActivationJob::SignalWorkflow { signal_name: "s".to_string(), input: vec![b"1".to_vec()] },
        ActivationJob::QueryWorkflow { query_type: "q".to_string() },
        ActivationJob::UpdateRandomSeed { randomness_seed: 7 },
        ActivationJob::NotifyHasPatch { patch_id: "p".to_string() },
        ActivationJob::Other,
    ] {
        assert!(matches!(m.handle_job(job), JobOutcome::Ignored));
    }
    assert!(!m.is_completed());
    assert!(!m.is_cancel_requested());
}

#[test]
fn eviction_completes_without_outcome() {
    let mut m = WorkflowMachine::new("run".to_string());
    let out = m.handle_job(ActivationJob::RemoveFromCache);
    assert!(matches!(out, JobOutcome::Ignored));
    assert!(m.is_completed());
    assert!(m.build_completion().commands.is_empty());
}

#[test]
fn completion_carries_result() {
    let mut m = WorkflowMachine::new("run".to_string());
    m.apply_command(WorkflowCommand::StartTimer { seq: 1, duration: Timeout { secs: 1, nanos: 0 } });
    m.apply_commands(vec![WorkflowCommand::Complete { result: Ok(b"42".to_vec()) }]);
    assert!(m.is_completed());
    let c = m.build_completion();
    assert_eq!(c.commands.len(), 2);
    assert!(matches!(c.commands[0], CoreCommand::StartTimer { seq: 1, .. }));
    match &c.commands[1] {
        CoreCommand::CompleteWorkflowExecution { result } => assert_eq!(result, b"42"),
        other => panic!("unexpected {:?}", other),
    }
    // A later activation reports the outcome again, without the timer.
    m.begin_activation();
    let c2 = m.build_completion();
    assert_eq!(c2.commands.len(), 1);
}

#[test]
fn failure_carries_error_text() {
    let mut m = WorkflowMachine::new("run".to_string());
    m.record_poll(PollOutcome::Ready(Err(WorkflowError::ActivityFailed("boom".to_string()))));
    let c = m.build_completion();
    match &c.commands[0] {
        CoreCommand::FailWorkflowExecution { message } => assert_eq!(message, "activity failed: boom"),
        other => panic!("unexpected {:?}", other),
    }
}

#[test]
fn panicking_workflow_fails_internally() {
    let mut m = WorkflowMachine::new("run".to_string());
    m.record_poll(PollOutcome::Panicked);
    assert!(m.is_completed());
    match &m.build_completion().commands[0] {
        CoreCommand::FailWorkflowExecution { message } => assert_eq!(message, "internal error: Workflow panicked"),
        other => panic!("unexpected {:?}", other),
    }
}

#[test]
fn pending_poll_changes_nothing() {
    let mut m = WorkflowMachine::new("run".to_string());
    m.record_poll(PollOutcome::Pending);
    assert!(!m.is_completed());
    m.record_poll(PollOutcome::Ready(Ok(b"1".to_vec())));
    assert!(m.is_completed());
}

#[test]
fn completion_is_kept_once_reached() {
    let mut m = WorkflowMachine::new("run".to_string());
    m.handle_job(ActivationJob::RemoveFromCache);
    m.record_poll(PollOutcome::Pending);
    m.apply_command(WorkflowCommand::SubscribeSignal { name: "s".to_string() });
    m.handle_job(ActivationJob::InitializeWorkflow);
    assert!(m.is_completed());
}

#[test]
fn subscribe_signal_changes_nothing() {
    let mut m = WorkflowMachine::new("run".to_string());
    m.apply_command(WorkflowCommand::SubscribeSignal { name: "approval".to_string() });
    assert!(m.build_completion().commands.is_empty());
}

#[test]
fn proto_duration_keeps_or_zeroes() {
    assert_eq!(proto_duration(Timeout { secs: 3, nanos: 999_999_999 }), ProtoDuration { seconds: 3, nanos: 999_999_999 });
    assert_eq!(
        proto_duration(Timeout { secs: i64::MAX as u64, nanos: 1 }),
        ProtoDuration { seconds: i64::MAX, nanos: 1 }
    );
    assert_eq!(proto_duration(Timeout { secs: u64::MAX, nanos: 5 }), ProtoDuration { seconds: 0, nanos: 0 });
}

#[test]
fn begin_activation_clears_commands() {
    let mut m = WorkflowMachine::new("run".to_string());
    m.apply_command(WorkflowCommand::StartTimer { seq: 1, duration: Timeout { secs: 1, nanos: 0 } });
    m.begin_activation();
    assert!(m.build_completion().commands.is_empty());
    assert!(m.is_pending(CommandId::Timer(1)));
}

#[test]
fn building_a_completion_keeps_the_machine() {
    let mut m = WorkflowMachine::new("run".to_string());
    m.apply_command(WorkflowCommand::StartTimer { seq: 1, duration: Timeout { secs: 1, nanos: 0 } });
    let first = m.build_completion();
    let second = m.build_completion();
    assert_eq!(first.commands.len(), 1);
    assert_eq!(second.commands.len(), 1);
    assert!(m.is_pending(CommandId::Timer(1)));
}

#[test]
fn subscribed_signals_are_delivered() {
    let mut m = WorkflowMachine::new("run".to_string());
    m.apply_command(WorkflowCommand::SubscribeSignal { name: "approval".to_string() });
    match m.handle_job(ActivationJob::SignalWorkflow {
        signal_name: "approval".to_string(),
        input: vec![b"{\"ok\":true}".to_vec(), b"2".to_vec()],
    }) {
        JobOutcome::DeliverSignal { name, payload } => {
            assert_eq!(name, "approval");
            assert_eq!(payload, Some(b"{\"ok\":true}".to_vec()));
        }
        other => panic!("unexpected {:?}", other),
    }
    match m.handle_job(ActivationJob::SignalWorkflow { signal_name: "approval".to_string(), input: vec![] }) {
        JobOutcome::DeliverSignal { payload, .. } => assert_eq!(payload, None),
        other => panic!("unexpected {:?}", other),
    }
    let other = m.handle_job(ActivationJob::SignalWorkflow { signal_name: "other".to_string(), input: vec![] });
    assert!(matches!(other, JobOutcome::Ignored));
}

#[test]
fn retry_policy_reaches_the_server() {
    let mut m = WorkflowMachine::new("run".to_string());
    let mut options = no_options();
    options.retry_policy = Some(RetrySchedule {
        initial_interval: Timeout { secs: 1, nanos: 0 },
        backoff_coefficient_bits: 2.0f64.to_bits(),
        maximum_interval: Some(Timeout { secs: 100, nanos: 0 }),
        maximum_attempts: u32::MAX,
        non_retryable_error_types: vec!["Fatal".to_string()],
    });
    m.apply_command(WorkflowCommand::ScheduleActivity {
        seq: 1,
        activity_type: "a".to_string(),
        input: Vec::new(),
        options,
    });
    let c = m.build_completion();
    match &c.commands[0] {
        CoreCommand::ScheduleActivity(s) => {
            let r = s.retry_policy.as_ref().unwrap();
            assert_eq!(r.initial_interval, ProtoDuration { seconds: 1, nanos: 0 });
            assert_eq!(f64::from_bits(r.backoff_coefficient_bits), 2.0);
            assert_eq!(r.maximum_interval, Some(ProtoDuration { seconds: 100, nanos: 0 }));
            assert_eq!(r.maximum_attempts, i32::MAX);
            assert_eq!(r.non_retryable_error_types, vec!["Fatal".to_string()]);
        }
        other => panic!("unexpected {:?}", other),
    }
}

#[test]
fn two_phase_activation() {
    let mut m = WorkflowMachine::new("run".to_string());
    let outs = m.start_activation(
        vec![ActivationJob::InitializeWorkflow],
        vec![WorkflowCommand::StartTimer { seq: 1, duration: Timeout { secs: 2, nanos: 0 } }],
    );
    assert_eq!(outs.len(), 1);
    let c = m.end_activation(PollOutcome::Pending, vec![]);
    assert_eq!(c.commands.len(), 1);
    // The next activation fires the timer; the body finishes when polled.
    let outs = m.start_activation(vec![ActivationJob::FireTimer { seq: 1 }], vec![]);
    assert!(matches!(outs[0], JobOutcome::Unblocked { id: CommandId::Timer(1), .. }));
    let c = m.end_activation(PollOutcome::Ready(Ok(b"7".to_vec())), vec![]);
    assert_eq!(c.commands.len(), 1);
    assert!(matches!(c.commands[0], CoreCommand::CompleteWorkflowExecution { .. }));
    // A completed workflow's poll is not recorded.
    m.start_activation(vec![], vec![]);
    let c = m.end_activation(PollOutcome::Panicked, vec![]);
    match &c.commands[0] {
        CoreCommand::CompleteWorkflowExecution { result } => assert_eq!(result, b"7"),
        other => panic!("unexpected {:?}", other),
    }
}

#[test]
fn whole_activation_drives_the_body() {
    let mut m = WorkflowMachine::new("run".to_string());
    let mut seen: Vec<usize> = Vec::new();
    let c = m.run_activation(vec![ActivationJob::InitializeWorkflow], vec![], |outs, completed| {
        seen.push(outs.len());
        assert!(!completed);
        (PollOutcome::Pending, vec![WorkflowCommand::StartTimer { seq: 1, duration: Timeout { secs: 1, nanos: 0 } }])
    });
    assert_eq!(seen, vec![1]);
    assert_eq!(c.run_id, "run");
    assert_eq!(c.commands.len(), 1);
    assert!(matches!(c.commands[0], CoreCommand::StartTimer { seq: 1, .. }));
    // The timer fires; the body sees it unblocked and finishes.
    let c = m.run_activation(vec![ActivationJob::FireTimer { seq: 1 }], vec![], |outs, completed| {
        assert!(matches!(outs[0], JobOutcome::Unblocked { id: CommandId::Timer(1), result: UnblockResult::TimerFired }));
        assert!(!completed);
        (PollOutcome::Ready(Ok(b"1".to_vec())), vec![])
    });
    assert_eq!(c.commands.len(), 1);
    assert!(matches!(c.commands[0], CoreCommand::CompleteWorkflowExecution { .. }));
    // Once completed, the body is told so and what it answers is not recorded.
    let c = m.run_activation(vec![], vec![], |_, completed| {
        assert!(completed);
        (PollOutcome::Panicked, vec![])
    });
    match &c.commands[0] {
        CoreCommand::CompleteWorkflowExecution { result } => assert_eq!(result, b"1"),
        other => panic!("unexpected {:?}", other),
    }
}
