use temporal::client::{parse_core_target, parse_target, target_text};
use temporal::config::{ClientConfig, WorkerOptions};
use temporal::containers::{ContainerError, ContainerOptions, TemporalContainer, DEFAULT_IMAGE, DEFAULT_TAG, GRPC_PORT, HTTP_PORT};
use temporal::error::{ClientError, CoreError, Error, WorkerError};
use temporal::fixtures::{unique_task_queue, unique_workflow_id, TEST_NAMESPACE, TEST_TASK_QUEUE};
use temporal::text::decimal_string;

#[test]
fn worker_options_defaults_and_setters() {
    let o = WorkerOptions::new("q");
    assert_eq!(o.task_queue, "q");
    assert_eq!(o.max_concurrent_workflow_tasks, 100);
    assert_eq!(o.max_concurrent_activities, 100);
    assert_eq!(o.max_concurrent_local_activities, 100);
    assert_eq!(o.build_id, "temporal-rs-0.1.0");
    let o = o.with_max_concurrent_workflow_tasks(7).with_max_concurrent_activities(8).with_build_id("b1");
    assert_eq!(o.max_concurrent_workflow_tasks, 7);
    assert_eq!(o.max_concurrent_activities, 8);
    assert_eq!(o.max_concurrent_local_activities, 100);
    assert_eq!(o.build_id, "b1");
    assert_eq!(o.task_queue, "q");
}

#[test]
fn client_config_identity() {
    let url = url::Url::parse("http://localhost:7233").unwrap();
    let c = ClientConfig::new(url.clone(), "default", "box");
    assert_eq!(c.identity, "temporal-rs@box");
    assert_eq!(c.client_name, "temporal-rs");
    assert_eq!(c.client_version, "0.1.0");
    assert_eq!(c.namespace, "default");
    assert_eq!(c.target_url, url);
    let c = c.with_identity("me");
    assert_eq!(c.identity, "me");
    assert_eq!(c.namespace, "default");
}

#[test]
fn target_gets_http_scheme() {
    assert_eq!(target_text("localhost:7233"), "http://localhost:7233");
    assert_eq!(target_text("http://localhost:7233"), "http://localhost:7233");
    assert_eq!(target_text("https://example.com"), "https://example.com");
    assert_eq!(target_text(&target_text("localhost:7233")), "http://localhost:7233");
}

#[test]
fn parse_target_accepts_addresses() {
    let u = parse_target("localhost:7233").unwrap();
    assert_eq!(u.as_str(), "http://localhost:7233/");
    assert_eq!(u, url::Url::parse("http://localhost:7233").unwrap());
    let u = parse_target("https://example.com:7233").unwrap();
    assert_eq!(u.scheme(), "https");
}

#[test]
fn parse_target_reports_invalid_url() {
    match parse_target("http://[::1") {
        Err(Error::Client(ClientError::InvalidConfig(m))) => assert_eq!(m, "invalid URL: invalid IPv6 address"),
        other => panic!("unexpected {:?}", other),
    }
}

#[test]
fn core_target_needs_full_url() {
    assert_eq!(parse_core_target("http://example.com:1/x").unwrap().as_str(), "http://example.com:1/x");
    match parse_target("http://") {
        Err(Error::Client(ClientError::InvalidConfig(m))) => assert_eq!(m, "invalid URL: empty host"),
        other => panic!("unexpected {:?}", other),
    }
    match parse_core_target("localhost") {
        Err(CoreError::InvalidUrl(e)) => assert_eq!(e, url::ParseError::RelativeUrlWithoutBase),
        other => panic!("unexpected {:?}", other),
    }
}

#[test]
fn error_texts() {
    assert_eq!(ClientError::Connection("refused".to_string()).to_string(), "connection failed: refused");
    assert_eq!(ClientError::InvalidConfig("x".to_string()).to_string(), "invalid configuration: x");
    assert_eq!(ClientError::WorkflowNotFound("w".to_string()).to_string(), "workflow not found: w");
    assert_eq!(ClientError::Timeout.to_string(), "operation timed out");
    assert_eq!(WorkerError::Init("x".to_string()).to_string(), "initialization failed: x");
    assert_eq!(WorkerError::AlreadyRunning.to_string(), "worker is already running");
    assert_eq!(WorkerError::Shutdown("x".to_string()).to_string(), "shutdown failed: x");
    assert_eq!(WorkerError::ActivityRegistration("x".to_string()).to_string(), "activity registration failed: x");
    assert_eq!(WorkerError::WorkflowRegistration("x".to_string()).to_string(), "workflow registration failed: x");
    assert_eq!(CoreError::WorkerInit("x".to_string()).to_string(), "worker initialization failed: x");
    assert_eq!(CoreError::InvalidUrl(url::ParseError::EmptyHost).to_string(), "invalid URL: empty host");
    assert_eq!(
        Error::Worker(WorkerError::Init("client is required".to_string())).to_string(),
        "worker error: initialization failed: client is required"
    );
    assert_eq!(Error::Core(CoreError::Grpc("x".to_string())).to_string(), "core error: gRPC error: x");
    assert_eq!(
        Error::Core(CoreError::InvalidUrl(url::ParseError::RelativeUrlWithoutBase)).to_string(),
        "core error: invalid URL: relative URL without a base"
    );
    assert_eq!(
        CoreError::InvalidUrl(url::ParseError::SetHostOnCannotBeABaseUrl).to_string(),
        "invalid URL: a cannot-be-a-base URL doesn\u{2019}t have a host to set"
    );
}

#[test]
fn container_endpoint() {
    let c = TemporalContainer::new(49153);
    assert_eq!(c.grpc_port(), 49153);
    assert_eq!(c.endpoint(), "http://localhost:49153");
    assert_eq!(c.endpoint_url().unwrap().port(), Some(49153));
    assert_eq!(TemporalContainer::new(0).endpoint(), "http://localhost:0");
}

#[test]
fn container_defaults() {
    let o = ContainerOptions::default();
    assert_eq!(o.image, "temporalio/auto-setup");
    assert_eq!(o.tag, "1.24.2");
    assert_eq!(o.startup_timeout_secs, 120);
    assert_eq!(DEFAULT_IMAGE, o.image);
    assert_eq!(DEFAULT_TAG, o.tag);
    assert_eq!(GRPC_PORT, 7233);
    assert_eq!(HTTP_PORT, 8233);
    assert_eq!(ContainerError::StartFailed("x".to_string()).to_string(), "container failed to start: x");
    assert_eq!(ContainerError::PortMapping("y".to_string()).to_string(), "port mapping failed: y");
}

#[test]
fn unique_names_have_prefix_and_random_suffix() {
    let q = unique_task_queue("test-register");
    assert_eq!(q.len(), "test-register".len() + 7);
    assert!(q.starts_with("test-register-"));
    assert!(q["test-register-".len()..].chars().all(|c| c.is_ascii_alphanumeric()));
    let w = unique_workflow_id("wf");
    assert_eq!(w.len(), 11);
    assert!(w.starts_with("wf-"));
    assert!(w[3..].chars().all(|c| c.is_ascii_alphanumeric()));
    assert_eq!(TEST_NAMESPACE, "default");
    assert_eq!(TEST_TASK_QUEUE, "test-task-queue");
}

#[test]
fn decimal_rendering() {
    assert_eq!(decimal_string(0), "0");
    assert_eq!(decimal_string(7), "7");
    assert_eq!(decimal_string(10), "10");
    assert_eq!(decimal_string(7233), "7233");
    assert_eq!(decimal_string(u64::MAX), u64::MAX.to_string());
}
