//! Error types of the SDK.
use vstd::prelude::*;
use crate::activity::ActivityError;
use crate::outside::{url_error_text, url_parse_error_text};
use crate::workflow::joined;

verus! {

/// Errors that can occur with the client.
#[derive(Debug, Clone, PartialEq, Eq)]
pub enum ClientError {
    /// Failed to connect to the server.
    Connection(String),
    /// Invalid configuration.
    InvalidConfig(String),
    /// Workflow not found.
    WorkflowNotFound(String),
    /// Operation timed out.
    Timeout,
}

impl ClientError {
    /// The error's text.
    pub open spec fn text(self) -> Seq<char> {
        match self {
            ClientError::Connection(m) => "connection failed: "@ + m@,
            ClientError::InvalidConfig(m) => "invalid configuration: "@ + m@,
            ClientError::WorkflowNotFound(m) => "workflow not found: "@ + m@,
            ClientError::Timeout => "operation timed out"@,
        }
    }

    /// The error's text.
    pub fn to_string(&self) -> (s: String)
        ensures
            s@ == self.text(),
    {
        match self {
            ClientError::Connection(m) => joined("connection failed: ", m.as_str()),
            ClientError::InvalidConfig(m) => joined("invalid configuration: ", m.as_str()),
            ClientError::WorkflowNotFound(m) => joined("workflow not found: ", m.as_str()),
            ClientError::Timeout => String::from_str("operation timed out"),
        }
    }
}

/// Errors that can occur with the worker.
#[derive(Debug, Clone, PartialEq, Eq)]
pub enum WorkerError {
    /// Worker initialization failed.
    Init(String),
    /// Worker is already running.
    AlreadyRunning,
    /// Worker shutdown failed.
    Shutdown(String),
    /// Activity registration failed.
    ActivityRegistration(String),
    /// Workflow registration failed.
    WorkflowRegistration(String),
}

impl WorkerError {
    /// The error's text.
    pub open spec fn text(self) -> Seq<char> {
        match self {
            WorkerError::Init(m) => "initialization failed: "@ + m@,
            WorkerError::AlreadyRunning => "worker is already running"@,
            WorkerError::Shutdown(m) => "shutdown failed: "@ + m@,
            WorkerError::ActivityRegistration(m) => "activity registration failed: "@ + m@,
            WorkerError::WorkflowRegistration(m) => "workflow registration failed: "@ + m@,
        }
    }

    /// The error's text.
    pub fn to_string(&self) -> (s: String)
        ensures
            s@ == self.text(),
    {
        match self {
            WorkerError::Init(m) => joined("initialization failed: ", m.as_str()),
            WorkerError::AlreadyRunning => String::from_str("worker is already running"),
            WorkerError::Shutdown(m) => joined("shutdown failed: ", m.as_str()),
            WorkerError::ActivityRegistration(m) => joined("activity registration failed: ", m.as_str()),
            WorkerError::WorkflowRegistration(m) => joined("workflow registration failed: ", m.as_str()),
        }
    }
}

/// Errors that can occur in the core SDK layer. Transport and gRPC errors
/// are held as their text.
#[derive(Debug, PartialEq, Eq)]
pub enum CoreError {
    /// Failed to connect to the Temporal server.
    Connection(String),
    /// Invalid configuration provided.
    InvalidConfig(String),
    /// Worker initialization failed.
    WorkerInit(String),
    /// Runtime initialization failed.
    RuntimeInit(String),
    /// gRPC transport error.
    Transport(String),
    /// gRPC status error.
    Grpc(String),
    /// URL parsing error.
    InvalidUrl(url::ParseError),
    /// Internal error from sdk-core.
    Internal(String),
}

impl CoreError {
    /// The error's text: the kind, then the message; for a URL error, the
    /// URL parser's text of the error.
    pub open spec fn text(self) -> Seq<char> {
        match self {
            CoreError::Connection(m) => "connection failed: "@ + m@,
            CoreError::InvalidConfig(m) => "invalid configuration: "@ + m@,
            CoreError::WorkerInit(m) => "worker initialization failed: "@ + m@,
            CoreError::RuntimeInit(m) => "runtime initialization failed: "@ + m@,
            CoreError::Transport(m) => "transport error: "@ + m@,
            CoreError::Grpc(m) => "gRPC error: "@ + m@,
            CoreError::InvalidUrl(e) => "invalid URL: "@ + url_error_text(e),
            CoreError::Internal(m) => "internal error: "@ + m@,
        }
    }

    /// The error's text.
    pub fn to_string(&self) -> (s: String)
        ensures
            s@ == self.text(),
    {
        match self {
            CoreError::Connection(m) => joined("connection failed: ", m.as_str()),
            CoreError::InvalidConfig(m) => joined("invalid configuration: ", m.as_str()),
            CoreError::WorkerInit(m) => joined("worker initialization failed: ", m.as_str()),
            CoreError::RuntimeInit(m) => joined("runtime initialization failed: ", m.as_str()),
            CoreError::Transport(m) => joined("transport error: ", m.as_str()),
            CoreError::Grpc(m) => joined("gRPC error: ", m.as_str()),
            CoreError::InvalidUrl(e) => {
                let text = url_parse_error_text(e);
                joined("invalid URL: ", text.as_str())
            },
            CoreError::Internal(m) => joined("internal error: ", m.as_str()),
        }
    }
}

/// The main error type for Temporal SDK operations.
#[derive(Debug)]
pub enum Error {
    /// Client connection error.
    Client(ClientError),
    /// Worker error.
    Worker(WorkerError),
    /// Activity error.
    Activity(ActivityError),
    /// Core SDK error.
    Core(CoreError),
}

impl Error {
    /// The error's text: the kind, then the inner error's text.
    pub fn to_string(&self) -> (s: String)
        ensures
            match self {
                Error::Client(e) => s@ == "client error: "@ + e.text(),
                Error::Worker(e) => s@ == "worker error: "@ + e.text(),
                Error::Activity(e) => s@ == "activity error: "@ + e.text(),
                Error::Core(e) => s@ == "core error: "@ + e.text(),
            },
    {
        match self {
            Error::Client(e) => joined("client error: ", e.to_string().as_str()),
            Error::Worker(e) => joined("worker error: ", e.to_string().as_str()),
            Error::Activity(e) => joined("activity error: ", e.to_string().as_str()),
            Error::Core(e) => joined("core error: ", e.to_string().as_str()),
        }
    }
}

impl From<ClientError> for Error {
    fn from(e: ClientError) -> (r: Self) {
        Error::Client(e)
    }
}

impl vstd::std_specs::convert::FromSpecImpl<ClientError> for Error {
    open spec fn obeys_from_spec() -> bool {
        true
    }

    open spec fn from_spec(e: ClientError) -> Self {
        Error::Client(e)
    }
}

impl From<WorkerError> for Error {
    fn from(e: WorkerError) -> (r: Self) {
        Error::Worker(e)
    }
}

impl vstd::std_specs::convert::FromSpecImpl<WorkerError> for Error {
    open spec fn obeys_from_spec() -> bool {
        true
    }

    open spec fn from_spec(e: WorkerError) -> Self {
        Error::Worker(e)
    }
}

impl From<ActivityError> for Error {
    fn from(e: ActivityError) -> (r: Self) {
        Error::Activity(e)
    }
}

impl vstd::std_specs::convert::FromSpecImpl<ActivityError> for Error {
    open spec fn obeys_from_spec() -> bool {
        true
    }

    open spec fn from_spec(e: ActivityError) -> Self {
        Error::Activity(e)
    }
}

impl From<CoreError> for Error {
    fn from(e: CoreError) -> (r: Self) {
        Error::Core(e)
    }
}

impl vstd::std_specs::convert::FromSpecImpl<CoreError> for Error {
    open spec fn obeys_from_spec() -> bool {
        true
    }

    open spec fn from_spec(e: CoreError) -> Self {
        Error::Core(e)
    }
}

} // verus!
