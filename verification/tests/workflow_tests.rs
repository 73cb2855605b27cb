use temporal::workflow::{ActivityResult, WorkflowError, WorkflowInfo, WorkflowRegistration, WorkflowSharedState};

#[test]
fn workflow_info_default() {
    let info = WorkflowInfo::default();
    assert_eq!(info.namespace, "default");
    assert_eq!(info.attempt, 1);
    assert_eq!(info.workflow_id, "");
    assert_eq!(info.run_id, "");
    assert_eq!(info.workflow_type, "");
    assert_eq!(info.task_queue, "");
    assert!(info.start_time.is_none());
    assert!(info.workflow_run_timeout.is_none());
    assert!(info.workflow_execution_timeout.is_none());
}

#[test]
fn workflow_error_texts() {
    assert_eq!(WorkflowError::ActivityFailed("x".to_string()).to_string(), "activity failed: x");
    assert_eq!(WorkflowError::ActivityTimedOut.to_string(), "activity timed out");
    assert_eq!(WorkflowError::Cancelled.to_string(), "workflow cancelled");
    assert_eq!(WorkflowError::ChildWorkflowFailed("c".to_string()).to_string(), "child workflow failed: c");
    assert_eq!(WorkflowError::Serialization("s".to_string()).to_string(), "serialization error: s");
    assert_eq!(WorkflowError::Internal("i".to_string()).to_string(), "internal error: i");
    assert_eq!(WorkflowError::application("denied", "Policy").to_string(), "denied");
}

#[test]
fn workflow_error_application_fields() {
    assert_eq!(
        WorkflowError::application("denied", "Policy"),
        WorkflowError::Application { message: "denied".to_string(), error_type: "Policy".to_string() }
    );
}

#[test]
fn activity_result_outcomes() {
    assert_eq!(ActivityResult::Completed(5u8).into_outcome(), Ok(5u8));
    assert_eq!(
        ActivityResult::<u8>::Failed("boom".to_string()).into_outcome(),
        Err(WorkflowError::ActivityFailed("boom".to_string()))
    );
    assert_eq!(ActivityResult::<u8>::Cancelled.into_outcome(), Err(WorkflowError::Cancelled));
    assert_eq!(ActivityResult::<u8>::TimedOut.into_outcome(), Err(WorkflowError::ActivityTimedOut));
}

#[test]
fn sequence_numbers_count_up_separately() {
    let mut s = WorkflowSharedState::default();
    assert!(!s.is_replaying);
    assert!(s.current_time.is_none());
    assert_eq!(s.next_timer_seq(), 0);
    assert_eq!(s.next_timer_seq(), 1);
    assert_eq!(s.next_activity_seq(), 0);
    assert_eq!(s.next_timer_seq(), 2);
    assert_eq!(s.next_activity_seq(), 1);
}

#[test]
fn workflow_registration_holds_name_and_handler() {
    let r = WorkflowRegistration { name: "order".to_string(), handler: 7u32 };
    assert_eq!(r.name, "order");
    assert_eq!(r.handler, 7);
}
