//! The life of the background runtime.
//!
//! There is one runtime per process: a worker thread that runs every
//! submitted task. It starts with the first task and it is shut down once,
//! when the last owner context goes or the host finalizes; after that
//! nothing can be submitted.

use vstd::prelude::*;

verus! {

/// How long the shutdown waits after the worker has said that it stopped,
/// so that the worker's stack is gone, in milliseconds.
pub const SETTLE_MILLIS: u64 = 200;

/// Where the runtime stands.
#[derive(Clone, Copy, Debug, PartialEq, Eq, Structural)]
pub enum RuntimeState {
    /// No task was submitted yet: there is no worker.
    Idle,
    /// The worker runs and takes tasks.
    Running,
    /// The runtime was shut down.
    Stopped,
}

/// What the submitter does with its task.
#[derive(Clone, Copy, Debug, PartialEq, Eq, Structural)]
pub enum SubmitAction {
    /// Start the worker, then queue the task.
    Start,
    /// Queue the task.
    Enqueue,
}

/// What a shutdown does.
#[derive(Clone, Copy, Debug, PartialEq, Eq, Structural)]
pub enum ShutdownAction {
    /// Nothing: there is no worker.
    Nothing,
    /// Close the queue, then look whether the worker thread still exists.
    Close,
}

/// The runtime of the process.
pub struct Runtime {
    state: RuntimeState,
}

impl Runtime {
    /// Where the runtime stands.
    pub closed spec fn spec_state(&self) -> RuntimeState {
        self.state
    }

    /// A runtime that has not started.
    pub fn new() -> (r: Self)
        ensures
            r.state() == RuntimeState::Idle,
    {
        Runtime { state: RuntimeState::Idle }
    }

    /// Where the runtime stands.
    #[verifier::when_used_as_spec(spec_state)]
    pub fn state(&self) -> (r: RuntimeState)
        ensures
            r == self.spec_state(),
    {
        self.state
    }
}

/// Submits a task: the first one starts the worker. A runtime that was shut
/// down takes no task.
pub fn spawn(runtime: &mut Runtime) -> (action: SubmitAction)
    requires
        old(runtime).state() != RuntimeState::Stopped,
    ensures
        final(runtime).state() == RuntimeState::Running,
        action == if old(runtime).state() == RuntimeState::Idle {
            SubmitAction::Start
        } else {
            SubmitAction::Enqueue
        },
{
    let action = match runtime.state {
        RuntimeState::Idle => SubmitAction::Start,
        _ => SubmitAction::Enqueue,
    };
    runtime.state = RuntimeState::Running;
    action
}

/// Shuts the runtime down, for good.
pub fn shutdown(runtime: &mut Runtime) -> (action: ShutdownAction)
    ensures
        final(runtime).state() == RuntimeState::Stopped,
        action == if old(runtime).state() == RuntimeState::Running {
            ShutdownAction::Close
        } else {
            ShutdownAction::Nothing
        },
{
    let action = match runtime.state {
        RuntimeState::Running => ShutdownAction::Close,
        _ => ShutdownAction::Nothing,
    };
    runtime.state = RuntimeState::Stopped;
    action
}

/// Whether the shutdown waits for the worker's own word that it stopped.
/// It never waits on the thread itself, which may be held back by the
/// teardown that the caller is part of; and a worker thread that does not
/// exist any more will not speak.
pub fn awaits_stop(worker_exists: bool) -> (r: bool)
    ensures
        r == worker_exists,
{
    worker_exists
}

/// What the worker does.
#[derive(Clone, Copy, Debug, PartialEq, Eq, Structural)]
pub enum WorkerPhase {
    /// Takes tasks from the queue and runs them side by side.
    Receiving,
    /// The queue is closed; the tasks that run are brought to their end.
    Draining,
    /// It has said that it stopped.
    Stopped,
}

/// What the worker sees.
#[derive(Clone, Copy, Debug, PartialEq, Eq, Structural)]
pub enum WorkerEvent {
    /// A task came out of the queue.
    Task,
    /// The queue is closed and empty.
    QueueClosed,
    /// No task runs any more.
    Drained,
}

/// What the worker does next.
#[derive(Clone, Copy, Debug, PartialEq, Eq, Structural)]
pub enum WorkerAction {
    /// Run the task beside the others.
    Run,
    /// Bring the running tasks to their end.
    Drain,
    /// Let go of what else the executor holds and say that the worker
    /// stopped.
    SignalStopped,
    /// Nothing.
    Rest,
}

/// The worker's phase after `event`, and what it does.
pub open spec fn worker_next(phase: WorkerPhase, event: WorkerEvent) -> (WorkerPhase, WorkerAction) {
    match (phase, event) {
        (WorkerPhase::Receiving, WorkerEvent::Task) => (WorkerPhase::Receiving, WorkerAction::Run),
        (WorkerPhase::Receiving, WorkerEvent::QueueClosed) => (
            WorkerPhase::Draining,
            WorkerAction::Drain,
        ),
        (WorkerPhase::Draining, WorkerEvent::Drained) => (
            WorkerPhase::Stopped,
            WorkerAction::SignalStopped,
        ),
        _ => (phase, WorkerAction::Rest),
    }
}

/// Moves the worker on by one event.
pub fn worker_step(phase: WorkerPhase, event: WorkerEvent) -> (r: (WorkerPhase, WorkerAction))
    ensures
        r == worker_next(phase, event),
{
    match phase {
        WorkerPhase::Receiving => match event {
            WorkerEvent::Task => (WorkerPhase::Receiving, WorkerAction::Run),
            WorkerEvent::QueueClosed => (WorkerPhase::Draining, WorkerAction::Drain),
            WorkerEvent::Drained => (phase, WorkerAction::Rest),
        },
        WorkerPhase::Draining => match event {
            WorkerEvent::Drained => (WorkerPhase::Stopped, WorkerAction::SignalStopped),
            _ => (phase, WorkerAction::Rest),
        },
        WorkerPhase::Stopped => (phase, WorkerAction::Rest),
    }
}

/// The worker's phase after `tasks` tasks have come out of the queue.
pub open spec fn worker_after(phase: WorkerPhase, tasks: nat) -> WorkerPhase
    decreases tasks,
{
    if tasks == 0 {
        phase
    } else {
        worker_next(worker_after(phase, (tasks - 1) as nat), WorkerEvent::Task).0
    }
}

/// However many tasks the worker has run, and however they ended, it
/// still takes the next one: only the closing of the queue ends it.
pub proof fn lemma_worker_keeps_receiving(tasks: nat)
    ensures
        worker_after(WorkerPhase::Receiving, tasks) == WorkerPhase::Receiving,
        worker_next(worker_after(WorkerPhase::Receiving, tasks), WorkerEvent::Task) == (
            WorkerPhase::Receiving,
            WorkerAction::Run,
        ),
    decreases tasks,
{
    if tasks > 0 {
        lemma_worker_keeps_receiving((tasks - 1) as nat);
    }
}

} // verus!
