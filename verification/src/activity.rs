//! Activity types: information about an execution, the context an activity
//! runs with, and activity errors.
use vstd::prelude::*;
use crate::outside::{cancellation_token_is_cancelled, new_cancellation_token, SystemTime};
use crate::workflow::joined;
use tokio_util::sync::CancellationToken;

verus! {

/// Information about an activity execution.
#[derive(Debug, Clone)]
pub struct ActivityInfo {
    /// Unique activity ID.
    pub activity_id: String,
    /// Activity type name.
    pub activity_type: String,
    /// Workflow ID this activity belongs to.
    pub workflow_id: String,
    /// Run ID of the workflow.
    pub run_id: String,
    /// Task queue the activity was scheduled on.
    pub task_queue: String,
    /// Current attempt number (starts at 1).
    pub attempt: u32,
    /// Scheduled time.
    pub scheduled_time: Option<SystemTime>,
    /// Start time of this attempt.
    pub start_time: Option<SystemTime>,
}

impl Default for ActivityInfo {
    /// Empty identifiers, attempt 1 and no times.
    fn default() -> (info: Self)
        ensures
            info.activity_id@ == Seq::<char>::empty(),
            info.activity_type@ == Seq::<char>::empty(),
            info.workflow_id@ == Seq::<char>::empty(),
            info.run_id@ == Seq::<char>::empty(),
            info.task_queue@ == Seq::<char>::empty(),
            info.attempt == 1,
            info.scheduled_time is None,
            info.start_time is None,
    {
        ActivityInfo {
            activity_id: String::new(),
            activity_type: String::new(),
            workflow_id: String::new(),
            run_id: String::new(),
            task_queue: String::new(),
            attempt: 1,
            scheduled_time: None,
            start_time: None,
        }
    }
}

/// The context passed to activity functions: the activity's information and
/// the token through which cancellation is requested.
#[derive(Clone, Debug)]
pub struct ActivityContext {
    info: ActivityInfo,
    cancel_token: CancellationToken,
}

impl ActivityContext {
    /// The information this context was created with.
    pub closed spec fn spec_info(&self) -> ActivityInfo {
        self.info
    }

    /// Create a new activity context with a token of its own.
    pub fn new(info: ActivityInfo) -> (ctx: Self)
        ensures
            ctx.spec_info() == info,
    {
        ActivityContext { info, cancel_token: new_cancellation_token() }
    }

    /// Create a new activity context with the given cancellation token.
    pub fn new_with_cancel(info: ActivityInfo, cancel_token: CancellationToken) -> (ctx: Self)
        ensures
            ctx.spec_info() == info,
            ctx.spec_token() == cancel_token,
    {
        ActivityContext { info, cancel_token }
    }

    /// The cancellation token of this activity.
    pub fn cancel_token(&self) -> (t: &CancellationToken)
        ensures
            *t == self.spec_token(),
    {
        &self.cancel_token
    }

    /// The cancellation token of this activity.
    pub closed spec fn spec_token(&self) -> CancellationToken {
        self.cancel_token
    }

    /// Check if the activity has been cancelled, that is, whether
    /// cancellation was requested through the token or one of its clones.
    pub fn is_cancelled(&self) -> bool {
        cancellation_token_is_cancelled(&self.cancel_token)
    }

    /// Get information about this activity.
    pub fn info(&self) -> (i: &ActivityInfo)
        ensures
            *i == self.spec_info(),
    {
        &self.info
    }

    /// Get the activity ID.
    pub fn activity_id(&self) -> (s: &str)
        ensures
            s@ == self.spec_info().activity_id@,
    {
        self.info.activity_id.as_str()
    }

    /// Get the activity type name.
    pub fn activity_type(&self) -> (s: &str)
        ensures
            s@ == self.spec_info().activity_type@,
    {
        self.info.activity_type.as_str()
    }

    /// Get the workflow ID this activity is part of.
    pub fn workflow_id(&self) -> (s: &str)
        ensures
            s@ == self.spec_info().workflow_id@,
    {
        self.info.workflow_id.as_str()
    }

    /// Get the attempt number (starts at 1).
    pub fn attempt(&self) -> (a: u32)
        ensures
            a == self.spec_info().attempt,
    {
        self.info.attempt
    }
}

/// Error type for activities.
#[derive(Debug, Clone, PartialEq, Eq)]
pub enum ActivityError {
    /// The activity was cancelled.
    Cancelled(String),
    /// The activity failed with an error.
    Failed(String),
    /// Serialization/deserialization error.
    Serialization(String),
    /// The activity panicked.
    Panic(String),
    /// Application-specific error.
    Application {
        /// Error message.
        message: String,
        /// Error type for matching.
        error_type: String,
        /// Whether this error is non-retryable.
        non_retryable: bool,
    },
}

impl ActivityError {
    /// The error's text.
    pub open spec fn text(self) -> Seq<char> {
        match self {
            ActivityError::Cancelled(m) => "activity cancelled: "@ + m@,
            ActivityError::Failed(m) => "activity failed: "@ + m@,
            ActivityError::Serialization(m) => "serialization error: "@ + m@,
            ActivityError::Panic(m) => "activity panicked: "@ + m@,
            ActivityError::Application { message, .. } => message@,
        }
    }

    /// The error's text.
    pub fn to_string(&self) -> (s: String)
        ensures
            s@ == self.text(),
    {
        match self {
            ActivityError::Cancelled(m) => joined("activity cancelled: ", m.as_str()),
            ActivityError::Failed(m) => joined("activity failed: ", m.as_str()),
            ActivityError::Serialization(m) => joined("serialization error: ", m.as_str()),
            ActivityError::Panic(m) => joined("activity panicked: ", m.as_str()),
            ActivityError::Application { message, .. } => message.clone(),
        }
    }

    /// Create a cancelled error.
    pub fn cancelled(message: &str) -> (e: Self)
        ensures
            e matches ActivityError::Cancelled(m) && m@ == message@,
    {
        ActivityError::Cancelled(String::from_str(message))
    }

    /// Create a failed error.
    pub fn failed(message: &str) -> (e: Self)
        ensures
            e matches ActivityError::Failed(m) && m@ == message@,
    {
        ActivityError::Failed(String::from_str(message))
    }

    /// Create a retryable application error.
    pub fn application(message: &str, error_type: &str) -> (e: Self)
        ensures
            e matches ActivityError::Application { message: m, error_type: t, non_retryable }
                && m@ == message@ && t@ == error_type@ && !non_retryable,
    {
        ActivityError::Application {
            message: String::from_str(message),
            error_type: String::from_str(error_type),
            non_retryable: false,
        }
    }

    /// Create a non-retryable application error.
    pub fn non_retryable(message: &str, error_type: &str) -> (e: Self)
        ensures
            e matches ActivityError::Application { message: m, error_type: t, non_retryable }
                && m@ == message@ && t@ == error_type@ && non_retryable,
    {
        ActivityError::Application {
            message: String::from_str(message),
            error_type: String::from_str(error_type),
            non_retryable: true,
        }
    }
}

/// Registration information for an activity: its type name and its handler.
pub struct ActivityRegistration<H> {
    /// Activity type name.
    pub name: String,
    /// Handler function.
    pub handler: H,
}

} // verus!
