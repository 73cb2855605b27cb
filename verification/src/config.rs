//! Configuration of the connection to the server and of the worker that
//! polls it.
use vstd::prelude::*;
use crate::workflow::joined;
use url::Url;

verus! {

/// The name the SDK reports itself by.
pub const SDK_NAME: &'static str = "temporal-rs";

/// The version the SDK reports itself by.
pub const SDK_VERSION: &'static str = "0.1.0";

/// Configuration for a worker.
#[derive(Debug, Clone)]
pub struct WorkerOptions {
    /// The task queue to poll from.
    pub task_queue: String,
    /// Maximum concurrent workflow tasks.
    pub max_concurrent_workflow_tasks: usize,
    /// Maximum concurrent activity tasks.
    pub max_concurrent_activities: usize,
    /// Maximum concurrent local activity tasks.
    pub max_concurrent_local_activities: usize,
    /// Build ID for versioning.
    pub build_id: String,
}

/// The build ID a worker reports unless another is set.
pub open spec fn default_build_id() -> Seq<char> {
    "temporal-rs-0.1.0"@
}

impl WorkerOptions {
    /// Create new worker options for the given task queue: at most 100
    /// concurrent tasks of each kind, and the SDK's own build ID.
    pub fn new(task_queue: &str) -> (o: Self)
        ensures
            o.task_queue@ == task_queue@,
            o.max_concurrent_workflow_tasks == 100,
            o.max_concurrent_activities == 100,
            o.max_concurrent_local_activities == 100,
            o.build_id@ == default_build_id(),
    {
        WorkerOptions {
            task_queue: String::from_str(task_queue),
            max_concurrent_workflow_tasks: 100,
            max_concurrent_activities: 100,
            max_concurrent_local_activities: 100,
            build_id: String::from_str("temporal-rs-0.1.0"),
        }
    }

    /// Set the maximum concurrent workflow tasks.
    pub fn with_max_concurrent_workflow_tasks(self, max: usize) -> (o: Self)
        ensures
            o == (WorkerOptions { max_concurrent_workflow_tasks: max, ..self }),
    {
        WorkerOptions { max_concurrent_workflow_tasks: max, ..self }
    }

    /// Set the maximum concurrent activity tasks.
    pub fn with_max_concurrent_activities(self, max: usize) -> (o: Self)
        ensures
            o == (WorkerOptions { max_concurrent_activities: max, ..self }),
    {
        WorkerOptions { max_concurrent_activities: max, ..self }
    }

    /// Set the build ID for versioning.
    pub fn with_build_id(self, build_id: &str) -> (o: Self)
        ensures
            o.build_id@ == build_id@,
            o.task_queue == self.task_queue,
            o.max_concurrent_workflow_tasks == self.max_concurrent_workflow_tasks,
            o.max_concurrent_activities == self.max_concurrent_activities,
            o.max_concurrent_local_activities == self.max_concurrent_local_activities,
    {
        WorkerOptions { build_id: String::from_str(build_id), ..self }
    }
}

/// Options for configuring a client connection.
#[derive(Debug, Clone)]
pub struct ClientConfig {
    /// The Temporal server URL (e.g., "http://localhost:7233").
    pub target_url: Url,
    /// The namespace to connect to.
    pub namespace: String,
    /// Client identity string.
    pub identity: String,
    /// Client name for metrics/logging.
    pub client_name: String,
    /// Client version for metrics/logging.
    pub client_version: String,
}

impl ClientConfig {
    /// Create a new client configuration for a client running on the host
    /// `hostname`: its identity is `temporal-rs@` followed by the host name,
    /// and it reports the SDK's name and version.
    pub fn new(target_url: Url, namespace: &str, hostname: &str) -> (c: Self)
        ensures
            c.target_url == target_url,
            c.namespace@ == namespace@,
            c.identity@ == "temporal-rs@"@ + hostname@,
            c.client_name@ == "temporal-rs"@,
            c.client_version@ == "0.1.0"@,
    {
        ClientConfig {
            target_url,
            namespace: String::from_str(namespace),
            identity: joined("temporal-rs@", hostname),
            client_name: String::from_str("temporal-rs"),
            client_version: String::from_str("0.1.0"),
        }
    }

    /// Set the client identity.
    pub fn with_identity(self, identity: &str) -> (c: Self)
        ensures
            c.identity@ == identity@,
            c.target_url == self.target_url,
            c.namespace == self.namespace,
            c.client_name == self.client_name,
            c.client_version == self.client_version,
    {
        ClientConfig { identity: String::from_str(identity), ..self }
    }
}

} // verus!
