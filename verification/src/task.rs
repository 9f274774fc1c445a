//! The course of one background task, and what is said of its end.
//!
//! A task is submitted, runs, and ends in one of three ways: its completion
//! runs on the owner thread, it is cancelled, or it panics. While its
//! future runs a cancel signal ends it at once. Once the future has
//! returned, the task's slot in the registry alone decides between
//! completion and cancellation.

use crate::signal;
use tokio::sync::oneshot::Receiver;
use vstd::prelude::*;
use vstd::string::StringExecFns;

verus! {

/// Where a background task stands.
#[derive(Clone, Copy, Debug, PartialEq, Eq, Structural)]
pub enum TaskState {
    /// Submitted, not polled yet.
    Pending,
    /// Its future runs.
    Running,
    /// Its future has returned and the result is on its way to the owner
    /// thread, where the slot decides whether the completion runs.
    Delivering,
    /// The completion has run on the owner thread.
    Completed,
    /// Abandoned: the completion does not run.
    Cancelled,
    /// The future panicked; the panic was reported.
    Panicked,
}

/// What happens to a background task.
#[derive(Clone, Copy, Debug, PartialEq, Eq, Structural)]
pub enum TaskEvent {
    /// The executor polls the task for the first time.
    Started,
    /// The cancel signal arrives while the future runs.
    CancelSignalled,
    /// The future returns. `cancelled` says whether a cancel signal had
    /// been sent by the time the task stopped listening.
    Resolved { cancelled: bool },
    /// The future panics.
    Panicked,
    /// The result has arrived on the owner thread, which has looked for the
    /// slot: `removed` says whether it was still there.
    Arrived { removed: bool },
    /// The result could not be handed to the owner object, which is gone.
    TargetLost,
}

/// What the task's wrapper does next.
#[derive(Clone, Copy, Debug, PartialEq, Eq, Structural)]
pub enum TaskAction {
    /// Nothing new.
    Continue,
    /// Hand the result to the owner thread.
    Deliver,
    /// Run the completion with the result.
    RunCompletion,
    /// Report the panic to the owner thread.
    ReportPanic,
    /// Drop the future or the result; the completion does not run.
    Abandon,
}

impl TaskState {
    /// Whether nothing can happen to the task any more.
    pub open spec fn is_final(self) -> bool {
        self is Completed || self is Cancelled || self is Panicked
    }
}

/// The task's state after `event`, and what its wrapper does.
pub open spec fn task_next(state: TaskState, event: TaskEvent) -> (TaskState, TaskAction) {
    match (state, event) {
        (TaskState::Pending, TaskEvent::Started) => (TaskState::Running, TaskAction::Continue),
        (TaskState::Pending, TaskEvent::CancelSignalled) => (
            TaskState::Cancelled,
            TaskAction::Abandon,
        ),
        (TaskState::Running, TaskEvent::CancelSignalled) => (
            TaskState::Cancelled,
            TaskAction::Abandon,
        ),
        (TaskState::Running, TaskEvent::Resolved { cancelled }) => if cancelled {
            (TaskState::Cancelled, TaskAction::Abandon)
        } else {
            (TaskState::Delivering, TaskAction::Deliver)
        },
        (TaskState::Running, TaskEvent::Panicked) => (
            TaskState::Panicked,
            TaskAction::ReportPanic,
        ),
        (TaskState::Delivering, TaskEvent::Arrived { removed }) => if removed {
            (TaskState::Completed, TaskAction::RunCompletion)
        } else {
            (TaskState::Cancelled, TaskAction::Abandon)
        },
        (TaskState::Delivering, TaskEvent::TargetLost) => (
            TaskState::Cancelled,
            TaskAction::Abandon,
        ),
        _ => (state, TaskAction::Continue),
    }
}

/// A task ends once: what has ended stays as it is, the completion runs
/// exactly when the task becomes completed, a panic is reported exactly
/// when the task becomes panicked, and a cancel signal ends a task only
/// while its future has not returned.
pub proof fn lemma_task_ends_once(state: TaskState, event: TaskEvent)
    ensures
        state.is_final() ==> task_next(state, event) == (state, TaskAction::Continue),
        task_next(state, event).1 is RunCompletion <==> !state.is_final() && task_next(
            state,
            event,
        ).0 is Completed,
        task_next(state, event).1 is ReportPanic <==> !state.is_final() && task_next(
            state,
            event,
        ).0 is Panicked,
        task_next(state, event).1 is Abandon <==> !state.is_final() && task_next(
            state,
            event,
        ).0 is Cancelled,
        event is CancelSignalled && task_next(state, event).0 is Cancelled ==> state is Pending
            || state is Running || state is Cancelled,
{
}

/// Moves a task on by one event. An event that cannot happen in `state`
/// changes nothing.
pub fn task_step(state: TaskState, event: TaskEvent) -> (r: (TaskState, TaskAction))
    ensures
        r == task_next(state, event),
{
    match state {
        TaskState::Pending => match event {
            TaskEvent::Started => (TaskState::Running, TaskAction::Continue),
            TaskEvent::CancelSignalled => (TaskState::Cancelled, TaskAction::Abandon),
            _ => (state, TaskAction::Continue),
        },
        TaskState::Running => match event {
            TaskEvent::CancelSignalled => (TaskState::Cancelled, TaskAction::Abandon),
            TaskEvent::Resolved { cancelled } => if cancelled {
                (TaskState::Cancelled, TaskAction::Abandon)
            } else {
                (TaskState::Delivering, TaskAction::Deliver)
            },
            TaskEvent::Panicked => (TaskState::Panicked, TaskAction::ReportPanic),
            _ => (state, TaskAction::Continue),
        },
        TaskState::Delivering => match event {
            TaskEvent::Arrived { removed } => if removed {
                (TaskState::Completed, TaskAction::RunCompletion)
            } else {
                (TaskState::Cancelled, TaskAction::Abandon)
            },
            TaskEvent::TargetLost => (TaskState::Cancelled, TaskAction::Abandon),
            _ => (state, TaskAction::Continue),
        },
        _ => (state, TaskAction::Continue),
    }
}

/// What has happened to a task whose future has ended: a future that
/// returned is `Resolved`, cancelled where a signal had been sent; a future
/// that panicked is `Panicked` whatever was signalled.
pub open spec fn ending(panicked: bool, cancelled: bool) -> TaskEvent {
    if panicked {
        TaskEvent::Panicked
    } else {
        TaskEvent::Resolved { cancelled }
    }
}

/// What has happened to a task whose future has ended.
#[verifier::when_used_as_spec(ending)]
pub fn ended(panicked: bool, cancelled: bool) -> (event: TaskEvent)
    ensures
        event == ending(panicked, cancelled),
{
    if panicked {
        TaskEvent::Panicked
    } else {
        TaskEvent::Resolved { cancelled }
    }
}

/// Called when the task's future has ended: stops listening for the cancel
/// signal and says what has happened to the task. Where the future has
/// returned, a signal that was sent before the listening stopped is taken
/// and counts as a cancellation.
pub fn settle(rx: &mut Receiver<()>, panicked: bool) -> (event: TaskEvent)
    ensures
        exists|cancelled: bool| event == ending(panicked, cancelled),
        panicked ==> event == TaskEvent::Panicked,
{
    signal::close(rx);
    let cancelled = if panicked {
        false
    } else {
        signal::try_recv(rx).is_some()
    };
    let event = ended(panicked, cancelled);
    assert(event == ending(panicked, cancelled));
    event
}

/// The message of a panic: the payload where it is a `String`, else the
/// payload where it is a string slice, else `"unknown"`.
pub fn panic_info<'a>(as_string: Option<&'a String>, as_str: Option<&'a str>) -> (r: &'a str)
    ensures
        r@ == match as_string {
            Some(s) => s@,
            None => match as_str {
                Some(s) => s@,
                None => "unknown"@,
            },
        },
{
    match as_string {
        Some(s) => s.as_str(),
        None => match as_str {
            Some(s) => s,
            None => "unknown",
        },
    }
}

/// `backtrace::Backtrace::new`, printed with `Debug`: the stack of the
/// calling thread. It differs from call to call, so nothing is claimed of it.
#[verifier::external_body]
fn capture_backtrace() -> (r: String) {
    format!("{:?}", backtrace::Backtrace::new())
}

/// The diagnostic that is reported for a panic: the message, a line that
/// says `backtrace:`, and the stack.
pub fn panic_report(info: &str, trace: &str) -> (r: String)
    ensures
        r@ == info@ + "\r\nbacktrace:\r\n"@ + trace@,
{
    let head = info.to_owned();
    let head = head.concat("\r\nbacktrace:\r\n");
    head.concat(trace)
}

/// The diagnostic for a panic that was caught just now, with the stack of
/// the thread that caught it.
pub fn panic_diagnostic(info: &str) -> (r: String)
    ensures
        exists|trace: Seq<char>| r@ == info@ + "\r\nbacktrace:\r\n"@ + trace,
{
    let trace = capture_backtrace();
    panic_report(info, trace.as_str())
}

} // verus!
