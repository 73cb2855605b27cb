use temporal::activity::{ActivityContext, ActivityError, ActivityInfo};
use temporal::worker::Worker;

#[test]
fn test_activity_context_info() {
    let info = ActivityInfo {
        activity_id: "test-activity-123".to_string(),
        activity_type: "greet".to_string(),
        workflow_id: "test-workflow-456".to_string(),
        run_id: "run-789".to_string(),
        task_queue: "test-queue".to_string(),
        attempt: 1,
        scheduled_time: None,
        start_time: None,
    };

    let ctx = ActivityContext::new(info);

    assert_eq!(ctx.activity_id(), "test-activity-123");
    assert_eq!(ctx.activity_type(), "greet");
    assert_eq!(ctx.workflow_id(), "test-workflow-456");
    assert_eq!(ctx.attempt(), 1);
    assert!(!ctx.is_cancelled());
}

#[test]
fn test_activity_error_types() {
    let cancelled = ActivityError::cancelled("user cancelled");
    assert!(matches!(cancelled, ActivityError::Cancelled(_)));

    let failed = ActivityError::failed("something went wrong");
    assert!(matches!(failed, ActivityError::Failed(_)));

    let app_error = ActivityError::application("invalid input", "ValidationError");
    assert!(matches!(app_error, ActivityError::Application { non_retryable: false, .. }));

    let non_retry = ActivityError::non_retryable("fatal error", "FatalError");
    assert!(matches!(non_retry, ActivityError::Application { non_retryable: true, .. }));
}

#[test]
fn test_worker_builder_validation() {
    // Missing client
    let result = Worker::<(), ()>::builder().task_queue("test-queue").build();
    assert!(result.is_err());
}
