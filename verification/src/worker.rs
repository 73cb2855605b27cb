//! Worker configuration: the builder that checks a worker's required parts,
//! the worker's registered activities, and the cache of workflow machines.
//!
//! `C` is the client type and `H` the activity handler type; both are
//! carried through without being read.
use vstd::prelude::*;
use crate::activity::ActivityRegistration;
use crate::config::{default_build_id, WorkerOptions};
use crate::error::{Error, WorkerError};
use crate::registry::Registry;

verus! {

/// Builder for creating workers.
pub struct WorkerBuilder<C, H> {
    client: Option<C>,
    task_queue: Option<String>,
    activities: Registry<H>,
    max_concurrent_activities: Option<usize>,
    max_concurrent_workflow_tasks: Option<usize>,
}

/// Abstract value of a [`WorkerBuilder`].
pub struct WorkerBuilderView<C, H> {
    pub client: Option<C>,
    pub task_queue: Option<Seq<char>>,
    pub activities: Map<Seq<char>, H>,
    pub max_concurrent_activities: Option<usize>,
    pub max_concurrent_workflow_tasks: Option<usize>,
}

impl<C, H> View for WorkerBuilder<C, H> {
    type V = WorkerBuilderView<C, H>;

    closed spec fn view(&self) -> WorkerBuilderView<C, H> {
        WorkerBuilderView {
            client: self.client,
            task_queue: match self.task_queue {
                Some(q) => Some(q@),
                None => None,
            },
            activities: self.activities.view(),
            max_concurrent_activities: self.max_concurrent_activities,
            max_concurrent_workflow_tasks: self.max_concurrent_workflow_tasks,
        }
    }
}

/// The error a worker build gives when a required part is missing.
pub open spec fn missing_part_error(e: Error, text: Seq<char>) -> bool {
    e matches Error::Worker(WorkerError::Init(m)) && m@ == text
}

impl<C, H> WorkerBuilder<C, H> {
    /// No activity name is stored twice.
    pub closed spec fn wf(&self) -> bool {
        self.activities.wf()
    }

    /// Create a new worker builder with nothing set.
    pub fn new() -> (b: Self)
        ensures
            b.wf(),
            b@ == (WorkerBuilderView::<C, H> {
                client: None,
                task_queue: None,
                activities: Map::empty(),
                max_concurrent_activities: None,
                max_concurrent_workflow_tasks: None,
            }),
    {
        WorkerBuilder {
            client: None,
            task_queue: None,
            activities: Registry::new(),
            max_concurrent_activities: None,
            max_concurrent_workflow_tasks: None,
        }
    }

    /// Set the client to use.
    pub fn client(self, client: C) -> (b: Self)
        requires
            self.wf(),
        ensures
            b.wf(),
            b@ == (WorkerBuilderView { client: Some(client), ..self@ }),
    {
        WorkerBuilder { client: Some(client), ..self }
    }

    /// Set the task queue to poll from.
    pub fn task_queue(self, task_queue: &str) -> (b: Self)
        requires
            self.wf(),
        ensures
            b.wf(),
            b@ == (WorkerBuilderView { task_queue: Some(task_queue@), ..self@ }),
    {
        WorkerBuilder { task_queue: Some(String::from_str(task_queue)), ..self }
    }

    /// Register an activity from a registration struct; a handler registered
    /// before under the same name is replaced.
    pub fn activity_registration(self, registration: ActivityRegistration<H>) -> (b: Self)
        requires
            self.wf(),
        ensures
            b.wf(),
            b@ == (WorkerBuilderView {
                activities: self@.activities.insert(registration.name@, registration.handler),
                ..self@
            }),
    {
        let mut b = self;
        b.activities.insert(registration.name, registration.handler);
        b
    }

    /// Register an activity by name and handler; a handler registered before
    /// under the same name is replaced.
    pub fn activity_handler(self, name: &str, handler: H) -> (b: Self)
        requires
            self.wf(),
        ensures
            b.wf(),
            b@ == (WorkerBuilderView { activities: self@.activities.insert(name@, handler), ..self@ }),
    {
        let mut b = self;
        b.activities.insert(String::from_str(name), handler);
        b
    }

    /// Set the maximum concurrent activity executions.
    pub fn max_concurrent_activities(self, max: usize) -> (b: Self)
        requires
            self.wf(),
        ensures
            b.wf(),
            b@ == (WorkerBuilderView { max_concurrent_activities: Some(max), ..self@ }),
    {
        WorkerBuilder { max_concurrent_activities: Some(max), ..self }
    }

    /// Set the maximum concurrent workflow task executions.
    pub fn max_concurrent_workflow_tasks(self, max: usize) -> (b: Self)
        requires
            self.wf(),
        ensures
            b.wf(),
            b@ == (WorkerBuilderView { max_concurrent_workflow_tasks: Some(max), ..self@ }),
    {
        WorkerBuilder { max_concurrent_workflow_tasks: Some(max), ..self }
    }

    /// Build the worker. The client is checked first, then the task queue;
    /// a missing one gives a worker initialization error that names it.
    pub fn build(self) -> (r: Result<Worker<C, H>, Error>)
        requires
            self.wf(),
        ensures
            self@.client is None ==> (r is Err && missing_part_error(r->Err_0, "client is required"@)),
            self@.client is Some && self@.task_queue is None ==> (r is Err && missing_part_error(
                r->Err_0,
                "task_queue is required"@,
            )),
            self@.client is Some && self@.task_queue is Some ==> (r is Ok && r->Ok_0.wf() && r->Ok_0@
                == (WorkerView {
                client: self@.client->Some_0,
                task_queue: self@.task_queue->Some_0,
                activities: self@.activities,
                max_concurrent_activities: self@.max_concurrent_activities,
                max_concurrent_workflow_tasks: self@.max_concurrent_workflow_tasks,
            })),
    {
        let client = match self.client {
            Some(c) => c,
            None => {
                return Err(Error::Worker(WorkerError::Init(String::from_str("client is required"))));
            },
        };
        let task_queue = match self.task_queue {
            Some(q) => q,
            None => {
                return Err(Error::Worker(WorkerError::Init(String::from_str("task_queue is required"))));
            },
        };
        Ok(Worker {
            client,
            task_queue,
            activities: self.activities,
            max_concurrent_activities: self.max_concurrent_activities,
            max_concurrent_workflow_tasks: self.max_concurrent_workflow_tasks,
        })
    }
}

/// A worker's configuration: its client, the task queue it polls, the
/// activities it executes, and the concurrency limits set on its builder.
pub struct Worker<C, H> {
    client: C,
    task_queue: String,
    activities: Registry<H>,
    max_concurrent_activities: Option<usize>,
    max_concurrent_workflow_tasks: Option<usize>,
}

/// Abstract value of a [`Worker`].
pub struct WorkerView<C, H> {
    pub client: C,
    pub task_queue: Seq<char>,
    pub activities: Map<Seq<char>, H>,
    pub max_concurrent_activities: Option<usize>,
    pub max_concurrent_workflow_tasks: Option<usize>,
}

impl<C, H> View for Worker<C, H> {
    type V = WorkerView<C, H>;

    closed spec fn view(&self) -> WorkerView<C, H> {
        WorkerView {
            client: self.client,
            task_queue: self.task_queue@,
            activities: self.activities.view(),
            max_concurrent_activities: self.max_concurrent_activities,
            max_concurrent_workflow_tasks: self.max_concurrent_workflow_tasks,
        }
    }
}

impl<C, H> Worker<C, H> {
    /// No activity name is stored twice.
    pub closed spec fn wf(&self) -> bool {
        self.activities.wf()
    }

    /// Create a new worker builder.
    pub fn builder() -> (b: WorkerBuilder<C, H>)
        ensures
            b.wf(),
            b@ == (WorkerBuilderView::<C, H> {
                client: None,
                task_queue: None,
                activities: Map::empty(),
                max_concurrent_activities: None,
                max_concurrent_workflow_tasks: None,
            }),
    {
        WorkerBuilder::new()
    }

    /// Get the task queue this worker is polling.
    pub fn task_queue(&self) -> (q: &str)
        ensures
            q@ == self@.task_queue,
    {
        self.task_queue.as_str()
    }

    /// The maximum concurrent activity executions set on the builder.
    pub fn max_concurrent_activities(&self) -> (m: Option<usize>)
        ensures
            m == self@.max_concurrent_activities,
    {
        self.max_concurrent_activities
    }

    /// The maximum concurrent workflow task executions set on the builder.
    pub fn max_concurrent_workflow_tasks(&self) -> (m: Option<usize>)
        ensures
            m == self@.max_concurrent_workflow_tasks,
    {
        self.max_concurrent_workflow_tasks
    }

    /// The options the worker's core worker is created with: its task queue,
    /// and the concurrency limits set on the builder where they were set (the
    /// defaults of [`WorkerOptions::new`] elsewhere).
    pub fn core_options(&self) -> (o: WorkerOptions)
        ensures
            o.task_queue@ == self@.task_queue,
            o.max_concurrent_activities == match self@.max_concurrent_activities {
                Some(m) => m,
                None => 100,
            },
            o.max_concurrent_workflow_tasks == match self@.max_concurrent_workflow_tasks {
                Some(m) => m,
                None => 100,
            },
            o.max_concurrent_local_activities == 100,
            o.build_id@ == default_build_id(),
    {
        let mut o = WorkerOptions::new(self.task_queue.as_str());
        if let Some(m) = self.max_concurrent_activities {
            o = o.with_max_concurrent_activities(m);
        }
        if let Some(m) = self.max_concurrent_workflow_tasks {
            o = o.with_max_concurrent_workflow_tasks(m);
        }
        o
    }

    /// Get the client this worker is using.
    pub fn client(&self) -> (c: &C)
        ensures
            *c == self@.client,
    {
        &self.client
    }

    /// Register an activity by name; a handler registered before under the
    /// same name is replaced.
    pub fn register_activity(&mut self, name: &str, handler: H)
        requires
            old(self).wf(),
        ensures
            final(self).wf(),
            final(self)@ == (WorkerView { activities: old(self)@.activities.insert(name@, handler), ..old(self)@ }),
    {
        self.activities.insert(String::from_str(name), handler);
    }

    /// The handler registered under `name`.
    pub fn activity(&self, name: &str) -> (h: Option<&H>)
        requires
            self.wf(),
        ensures
            h is Some <==> self@.activities.contains_key(name@),
            h matches Some(x) ==> *x == self@.activities[name@],
    {
        self.activities.get(name)
    }

    /// The names of the registered activities.
    pub fn activity_names(&self) -> (ns: Vec<String>)
        requires
            self.wf(),
        ensures
            ns@.len() == self@.activities.len(),
            forall|k: Seq<char>| self@.activities.contains_key(k) <==> exists|i: int| 0 <= i < ns@.len() && #[trigger] ns@[i]@ == k,
    {
        self.activities.names()
    }
}

/// Cache of workflow machines by run ID. `M` is the machine type.
pub struct WorkflowCache<M> {
    machines: Registry<M>,
}

impl<M> WorkflowCache<M> {
    /// The machines by run ID.
    pub closed spec fn view(&self) -> Map<Seq<char>, M> {
        self.machines.view()
    }

    /// No run ID is stored twice.
    pub closed spec fn wf(&self) -> bool {
        self.machines.wf()
    }

    /// Create a new, empty workflow cache.
    pub fn new() -> (c: Self)
        ensures
            c.wf(),
            c.view() == Map::<Seq<char>, M>::empty(),
    {
        WorkflowCache { machines: Registry::new() }
    }

    /// Whether a machine is cached for `run_id`.
    pub fn contains(&self, run_id: &str) -> (b: bool)
        requires
            self.wf(),
        ensures
            b == self.view().contains_key(run_id@),
    {
        self.machines.contains(run_id)
    }

    /// Caches the machine that `create` makes for `run_id`, unless one is
    /// cached already, in which case nothing changes and `create` is not
    /// called. Returns whether a machine was created.
    pub fn get_or_create<F: FnOnce() -> M>(&mut self, run_id: &str, create: F) -> (created: bool)
        requires
            old(self).wf(),
            !old(self).view().contains_key(run_id@) ==> create.requires(()),
        ensures
            final(self).wf(),
            created == !old(self).view().contains_key(run_id@),
            !created ==> final(self).view() == old(self).view(),
            created ==> exists|m: M| create.ensures((), m) && final(self).view() == old(self).view().insert(run_id@, m),
    {
        if self.machines.contains(run_id) {
            false
        } else {
            let m = create();
            self.machines.insert(String::from_str(run_id), m);
            true
        }
    }

    /// Takes the machine of `run_id` out of the cache, to be processed and
    /// put back.
    pub fn take(&mut self, run_id: &str) -> (m: Option<M>)
        requires
            old(self).wf(),
        ensures
            final(self).wf(),
            final(self).view() == old(self).view().remove(run_id@),
            m is Some <==> old(self).view().contains_key(run_id@),
            m matches Some(x) ==> x == old(self).view()[run_id@],
    {
        self.machines.remove(run_id)
    }

    /// Caches `machine` for `run_id`, replacing a machine cached there.
    pub fn put(&mut self, run_id: &str, machine: M)
        requires
            old(self).wf(),
        ensures
            final(self).wf(),
            final(self).view() == old(self).view().insert(run_id@, machine),
    {
        self.machines.insert(String::from_str(run_id), machine);
    }

    /// Remove a workflow from the cache.
    pub fn remove(&mut self, run_id: &str)
        requires
            old(self).wf(),
        ensures
            final(self).wf(),
            final(self).view() == old(self).view().remove(run_id@),
    {
        let _ = self.machines.remove(run_id);
    }
}

/// Registering two handlers under one name keeps the later one; the other
/// names keep their handlers.
pub proof fn lemma_later_registration_wins<H>(m: Map<Seq<char>, H>, name: Seq<char>, first: H, second: H, other: Seq<char>)
    requires
        other != name,
    ensures
        m.insert(name, first).insert(name, second)[name] == second,
        m.insert(name, first).insert(name, second).contains_key(other) == m.contains_key(other),
        m.contains_key(other) ==> m.insert(name, first).insert(name, second)[other] == m[other],
{
}

/// A machine created for a run is found again by that run: a second
/// `get_or_create` for it creates nothing, until the run is removed.
pub proof fn lemma_cache_creates_once<M>(cache: Map<Seq<char>, M>, run_id: Seq<char>, m: M)
    ensures
        cache.insert(run_id, m).contains_key(run_id),
        cache.insert(run_id, m)[run_id] == m,
        !cache.insert(run_id, m).remove(run_id).contains_key(run_id),
        !cache.remove(run_id).contains_key(run_id),
{
}

} // verus!
