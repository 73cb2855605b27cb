use temporal::activity::{ActivityContext, ActivityError, ActivityInfo};
use tokio_util::sync::CancellationToken;

#[test]
fn activity_info_default_is_first_attempt() {
    let info = ActivityInfo::default();
    assert_eq!(info.attempt, 1);
    assert_eq!(info.activity_id, "");
    assert_eq!(info.task_queue, "");
    assert!(info.scheduled_time.is_none());
    assert!(info.start_time.is_none());
}

#[test]
fn activity_context_sees_cancellation_of_its_token() {
    let token = CancellationToken::new();
    let ctx = ActivityContext::new_with_cancel(ActivityInfo::default(), token.clone());
    assert!(!ctx.is_cancelled());
    token.cancel();
    assert!(ctx.is_cancelled());
    assert!(ctx.cancel_token().is_cancelled());
}

#[test]
fn activity_context_clone_shares_cancellation() {
    let token = CancellationToken::new();
    let ctx = ActivityContext::new_with_cancel(ActivityInfo::default(), token.clone());
    let copy = ctx.clone();
    token.cancel();
    assert!(copy.is_cancelled());
}

#[test]
fn activity_context_info_is_kept() {
    let mut info = ActivityInfo::default();
    info.run_id = "run-1".to_string();
    info.attempt = 3;
    let ctx = ActivityContext::new(info);
    assert_eq!(ctx.info().run_id, "run-1");
    assert_eq!(ctx.attempt(), 3);
}

#[test]
fn activity_error_texts() {
    assert_eq!(ActivityError::cancelled("user cancelled").to_string(), "activity cancelled: user cancelled");
    assert_eq!(ActivityError::failed("boom").to_string(), "activity failed: boom");
    assert_eq!(ActivityError::Serialization("bad".to_string()).to_string(), "serialization error: bad");
    assert_eq!(ActivityError::Panic("oops".to_string()).to_string(), "activity panicked: oops");
    assert_eq!(ActivityError::application("invalid input", "ValidationError").to_string(), "invalid input");
}

#[test]
fn activity_error_application_fields() {
    match ActivityError::non_retryable("fatal error", "FatalError") {
        ActivityError::Application { message, error_type, non_retryable } => {
            assert_eq!(message, "fatal error");
            assert_eq!(error_type, "FatalError");
            assert!(non_retryable);
        }
        other => panic!("unexpected {:?}", other),
    }
    match ActivityError::cancelled("x") {
        ActivityError::Cancelled(m) => assert_eq!(m, "x"),
        other => panic!("unexpected {:?}", other),
    }
}
