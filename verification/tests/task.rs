use pfwx::handler::{answer, blocking_result, invoke_dispatched, invoke_reply, HandlerInvoker, HandlerState, InvokeError, SpawnBlockingError};
use pfwx::task::{ended, panic_diagnostic, panic_info, panic_report, settle, task_step, TaskAction, TaskEvent, TaskState};
use pfwx::context::{Dispatcher, SyncContext};
use pfwx::mem::UnsafePointer;
use pfwx::transit::{Received, Transit};
use tokio::sync::oneshot;

#[test]
fn task_runs_to_completion() {
    let (s, a) = task_step(TaskState::Pending, TaskEvent::Started);
    assert_eq!((s, a), (TaskState::Running, TaskAction::Continue));
    let (s, a) = task_step(s, TaskEvent::Resolved { cancelled: false });
    assert_eq!((s, a), (TaskState::Delivering, TaskAction::Deliver));
    let (s, a) = task_step(s, TaskEvent::Arrived { removed: true });
    assert_eq!((s, a), (TaskState::Completed, TaskAction::RunCompletion));
    let (s, a) = task_step(s, TaskEvent::CancelSignalled);
    assert_eq!((s, a), (TaskState::Completed, TaskAction::Continue));
}

#[test]
fn task_is_cancelled_before_it_resolves() {
    assert_eq!(
        task_step(TaskState::Pending, TaskEvent::CancelSignalled),
        (TaskState::Cancelled, TaskAction::Abandon)
    );
    assert_eq!(
        task_step(TaskState::Running, TaskEvent::CancelSignalled),
        (TaskState::Cancelled, TaskAction::Abandon)
    );
    assert_eq!(
        task_step(TaskState::Running, TaskEvent::Resolved { cancelled: true }),
        (TaskState::Cancelled, TaskAction::Abandon)
    );
}

#[test]
fn resolved_task_is_cancelled_only_by_its_slot() {
    assert_eq!(
        task_step(TaskState::Delivering, TaskEvent::CancelSignalled),
        (TaskState::Delivering, TaskAction::Continue)
    );
    assert_eq!(
        task_step(TaskState::Delivering, TaskEvent::Arrived { removed: false }),
        (TaskState::Cancelled, TaskAction::Abandon)
    );
    assert_eq!(
        task_step(TaskState::Delivering, TaskEvent::TargetLost),
        (TaskState::Cancelled, TaskAction::Abandon)
    );
}

#[test]
fn panicking_task_reports_and_ends() {
    assert_eq!(
        task_step(TaskState::Running, TaskEvent::Panicked),
        (TaskState::Panicked, TaskAction::ReportPanic)
    );
    assert_eq!(
        task_step(TaskState::Panicked, TaskEvent::Arrived { removed: true }),
        (TaskState::Panicked, TaskAction::Continue)
    );
    assert_eq!(
        task_step(TaskState::Cancelled, TaskEvent::Resolved { cancelled: false }),
        (TaskState::Cancelled, TaskAction::Continue)
    );
}

#[test]
fn settle_sees_a_signal_sent_before() {
    let (tx, mut rx) = oneshot::channel::<()>();
    assert!(tx.send(()).is_ok());
    assert_eq!(settle(&mut rx, false), TaskEvent::Resolved { cancelled: true });
}

#[test]
fn settle_without_signal_delivers_and_closes() {
    let (tx, mut rx) = oneshot::channel::<()>();
    assert_eq!(settle(&mut rx, false), TaskEvent::Resolved { cancelled: false });
    assert!(tx.is_closed());
    assert!(tx.send(()).is_err());
}

#[test]
fn settle_reports_a_panic_whatever_was_signalled() {
    let (tx, mut rx) = oneshot::channel::<()>();
    assert!(tx.send(()).is_ok());
    assert_eq!(settle(&mut rx, true), TaskEvent::Panicked);
    let (tx, mut rx) = oneshot::channel::<()>();
    assert_eq!(settle(&mut rx, true), TaskEvent::Panicked);
    assert!(tx.is_closed());
}

#[test]
fn panic_info_prefers_the_string() {
    let owned = "owned".to_string();
    assert_eq!(panic_info(Some(&owned), Some("slice")), "owned");
    assert_eq!(panic_info(None, Some("slice")), "slice");
    assert_eq!(panic_info(None, None), "unknown");
}

#[test]
fn panic_report_has_message_and_trace() {
    assert_eq!(panic_report("boom", "frame 0"), "boom\r\nbacktrace:\r\nframe 0");
    assert_eq!(panic_report("", ""), "\r\nbacktrace:\r\n");
}

#[test]
fn panic_diagnostic_begins_with_the_message() {
    let text = panic_diagnostic("boom");
    assert!(text.starts_with("boom\r\nbacktrace:\r\n"));
}

#[test]
fn errors_in_words() {
    assert_eq!(InvokeError::TargetIsDead.describe(), "target is dead");
    assert_eq!(InvokeError::Panic.describe(), "panic");
    assert_eq!(SpawnBlockingError::Panic("oops".to_string()).describe(), "panic: oops");
    match SpawnBlockingError::from_panic(None, Some("late")) {
        SpawnBlockingError::Panic(info) => assert_eq!(info, "late"),
    }
    match SpawnBlockingError::from_panic(None, None) {
        SpawnBlockingError::Panic(info) => assert_eq!(info, "unknown"),
    }
}

#[test]
fn blocking_result_keeps_value_or_message() {
    assert!(matches!(blocking_result::<u8>(Ok(7)), Ok(7)));
    match blocking_result::<u8>(Err("oops".to_string())) {
        Err(SpawnBlockingError::Panic(info)) => assert_eq!(info, "oops"),
        Ok(_) => panic!("a panic is no value"),
    }
}

#[test]
fn invoke_on_dead_target_parks_nothing() {
    let invoker: HandlerInvoker<String> = HandlerInvoker::bind(UnsafePointer::from_raw(64), Dispatcher::new(9), 1);
    let mut transit: Transit<u32, fn(u32, bool), ()> = Transit::new();
    let r = invoker.invoke(2, true, &mut transit, 5, drop_param, ());
    assert!(matches!(r, Err(InvokeError::TargetIsDead)));
    assert_eq!((transit.pending(), transit.parked()), (0, 0));
}

fn drop_param(_param: u32, _invoke: bool) {}

#[test]
fn invoke_parks_parameter_and_message() {
    let invoker: HandlerInvoker<String> = HandlerInvoker::bind(UnsafePointer::from_raw(64), Dispatcher::new(9), 1);
    assert_eq!(invoker.thread_id(), 1);
    assert_eq!(invoker.this().as_raw(), 64);
    assert_eq!(invoker.dispatcher().sink(), 9);
    let copy = invoker.clone();
    assert_eq!(copy.this().as_raw(), 64);
    let mut transit: Transit<u32, fn(u32, bool), ()> = Transit::new();
    let (delivery, _ack) = match invoker.invoke(2, false, &mut transit, 5, drop_param, ()) {
        Ok(started) => started,
        Err(_) => panic!("the target is alive"),
    };
    assert_eq!(delivery.raw(), 0);
    assert!(transit.contains(0));
    assert_eq!((transit.pending(), transit.parked()), (1, 1));
    assert!(!transit.is_exhausted());
    match transit.open(0) {
        Received::Invoke { param, .. } => assert_eq!(param, 5),
        _ => panic!("a call was parked"),
    }
    assert_eq!((transit.pending(), transit.parked()), (0, 0));
}

#[test]
fn answer_calls_only_when_allowed() {
    assert_eq!(answer(Some(20), true, |p: u32| p + 1), Some(21));
    assert_eq!(answer(Some(20), false, |p: u32| p + 1), None);
    assert_eq!(answer(None, true, |p: u32| p + 1), None);
}

#[test]
fn invoke_outcomes() {
    assert_eq!(invoke_dispatched(true), Ok(()));
    assert_eq!(invoke_dispatched(false), Err(InvokeError::TargetIsDead));
    assert_eq!(invoke_reply(Ok(Some(3))), Ok(3));
    assert_eq!(invoke_reply::<u8>(Ok(None)), Err(InvokeError::TargetIsDead));
    let (tx, rx) = oneshot::channel::<Option<u8>>();
    drop(tx);
    assert_eq!(invoke_reply(rx.blocking_recv()), Err(InvokeError::Panic));
}

#[test]
fn completion_runs_only_if_the_slot_is_there() {
    let mut state = HandlerState::new();
    let (token, mut rx) = state.new_cancel_handle();
    let mut task = task_step(TaskState::Pending, TaskEvent::Started).0;
    task = task_step(task, settle(&mut rx, false)).0;
    assert_eq!(task, TaskState::Delivering);
    let removed = state.remove_cancel_id(token.id());
    assert_eq!(task_step(task, TaskEvent::Arrived { removed }), (TaskState::Completed, TaskAction::RunCompletion));
    assert!(!token.cancel(&mut state));
}

#[test]
fn panic_goes_to_the_owner_with_its_trace() {
    let invoker: HandlerInvoker<()> = HandlerInvoker::bind(UnsafePointer::from_raw(1), Dispatcher::new(5), 1);
    let mut transit: Transit<u32, fn(u32, bool), ()> = Transit::new();
    let (delivery, _ack) = invoker.panic(&mut transit, "boom");
    match SyncContext::new(5).process_message(&mut transit, delivery.raw()) {
        Received::Throw { info } => assert!(info.starts_with("boom\r\nbacktrace:\r\n")),
        _ => panic!("a diagnostic was posted"),
    }
}

#[test]
fn ended_future_is_resolved_or_panicked() {
    assert_eq!(ended(false, false), TaskEvent::Resolved { cancelled: false });
    assert_eq!(ended(false, true), TaskEvent::Resolved { cancelled: true });
    assert_eq!(ended(true, false), TaskEvent::Panicked);
    assert_eq!(ended(true, true), TaskEvent::Panicked);
}

#[test]
fn settle_after_panic_leaves_the_signal_alone() {
    let (tx, mut rx) = oneshot::channel::<()>();
    assert!(tx.send(()).is_ok());
    assert_eq!(settle(&mut rx, true), TaskEvent::Panicked);
    assert!(rx.try_recv().is_ok());
}
