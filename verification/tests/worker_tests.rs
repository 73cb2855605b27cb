use temporal::activity::ActivityRegistration;
use temporal::error::{Error, WorkerError};
use temporal::worker::{Worker, WorkerBuilder, WorkflowCache};

#[test]
fn build_requires_client_first() {
    match WorkerBuilder::<u8, u8>::new().build() {
        Err(Error::Worker(WorkerError::Init(m))) => assert_eq!(m, "client is required"),
        _ => panic!("expected a missing client error"),
    }
}

#[test]
fn build_requires_task_queue() {
    match Worker::<u8, u8>::builder().client(1).build() {
        Err(Error::Worker(WorkerError::Init(m))) => assert_eq!(m, "task_queue is required"),
        _ => panic!("expected a missing task queue error"),
    }
}

#[test]
fn build_keeps_parts() {
    let worker = Worker::<&str, u32>::builder()
        .client("client")
        .task_queue("queue")
        .activity_handler("echo", 1)
        .activity_registration(ActivityRegistration { name: "greet".to_string(), handler: 2 })
        .activity_handler("echo", 3)
        .max_concurrent_activities(4)
        .max_concurrent_workflow_tasks(5)
        .build()
        .unwrap();
    assert_eq!(worker.task_queue(), "queue");
    assert_eq!(*worker.client(), "client");
    assert_eq!(worker.activity("echo"), Some(&3));
    assert_eq!(worker.activity("greet"), Some(&2));
    assert_eq!(worker.activity("missing"), None);
    let mut names = worker.activity_names();
    names.sort();
    assert_eq!(names, vec!["echo".to_string(), "greet".to_string()]);
}

#[test]
fn register_activity_replaces() {
    let mut worker = Worker::<(), u32>::builder().client(()).task_queue("q").build().unwrap();
    worker.register_activity("a", 1);
    worker.register_activity("a", 2);
    worker.register_activity("b", 3);
    assert_eq!(worker.activity("a"), Some(&2));
    assert_eq!(worker.activity_names().len(), 2);
}

#[test]
fn cache_creates_once() {
    let mut cache: WorkflowCache<u32> = WorkflowCache::new();
    assert!(!cache.contains("run-1"));
    assert!(cache.get_or_create("run-1", || 10));
    assert!(!cache.get_or_create("run-1", || 20));
    assert_eq!(cache.take("run-1"), Some(10));
    assert!(!cache.contains("run-1"));
    assert_eq!(cache.take("run-1"), None);
    cache.put("run-1", 11);
    assert!(cache.contains("run-1"));
    cache.remove("run-1");
    assert!(!cache.contains("run-1"));
    assert!(cache.get_or_create("run-1", || 12));
}

#[test]
fn build_keeps_concurrency_limits() {
    let worker = Worker::<(), ()>::builder()
        .client(())
        .task_queue("q")
        .max_concurrent_activities(4)
        .max_concurrent_workflow_tasks(5)
        .build()
        .unwrap();
    assert_eq!(worker.max_concurrent_activities(), Some(4));
    assert_eq!(worker.max_concurrent_workflow_tasks(), Some(5));
    let o = worker.core_options();
    assert_eq!(o.task_queue, "q");
    assert_eq!(o.max_concurrent_activities, 4);
    assert_eq!(o.max_concurrent_workflow_tasks, 5);
    assert_eq!(o.max_concurrent_local_activities, 100);
}

#[test]
fn unset_limits_take_defaults() {
    let worker = Worker::<(), ()>::builder().client(()).task_queue("q").build().unwrap();
    assert_eq!(worker.max_concurrent_activities(), None);
    let o = worker.core_options();
    assert_eq!(o.max_concurrent_activities, 100);
    assert_eq!(o.max_concurrent_workflow_tasks, 100);
    assert_eq!(o.build_id, "temporal-rs-0.1.0");
}

#[test]
fn cache_does_not_call_create_for_a_cached_run() {
    let mut cache: WorkflowCache<u32> = WorkflowCache::new();
    assert!(cache.get_or_create("r", || 1));
    assert!(!cache.get_or_create("r", || panic!("must not be called")));
    assert_eq!(cache.take("r"), Some(1));
}
