use pfwx::event::{PollPlan, Release, Waiting, Win32Event, INFINITE, WAIT_OBJECT_0, WAIT_TIMEOUT};
use pfwx::futures::{cancel_by_event, Raced};
use pfwx::mem::BoxHeap;
use pfwx::runtime::{
    awaits_stop, shutdown, spawn, worker_step, Runtime, RuntimeState, ShutdownAction, SubmitAction, WorkerAction, WorkerEvent, WorkerPhase, SETTLE_MILLIS
};
use tokio::sync::oneshot::Sender;

#[test]
fn first_task_starts_the_worker() {
    let mut runtime = Runtime::new();
    assert_eq!(runtime.state(), RuntimeState::Idle);
    assert_eq!(spawn(&mut runtime), SubmitAction::Start);
    assert_eq!(runtime.state(), RuntimeState::Running);
    assert_eq!(spawn(&mut runtime), SubmitAction::Enqueue);
    assert_eq!(spawn(&mut runtime), SubmitAction::Enqueue);
}

#[test]
fn shutdown_closes_a_running_worker_once() {
    let mut runtime = Runtime::new();
    spawn(&mut runtime);
    assert_eq!(shutdown(&mut runtime), ShutdownAction::Close);
    assert_eq!(runtime.state(), RuntimeState::Stopped);
    assert_eq!(shutdown(&mut runtime), ShutdownAction::Nothing);
    assert_eq!(runtime.state(), RuntimeState::Stopped);
}

#[test]
fn shutdown_of_an_idle_runtime_does_nothing() {
    let mut runtime = Runtime::new();
    assert_eq!(shutdown(&mut runtime), ShutdownAction::Nothing);
    assert_eq!(runtime.state(), RuntimeState::Stopped);
}

#[test]
fn shutdown_waits_only_for_a_worker_that_exists() {
    assert!(awaits_stop(true));
    assert!(!awaits_stop(false));
    assert_eq!(SETTLE_MILLIS, 200);
}

#[test]
fn worker_receives_drains_and_stops() {
    assert_eq!(worker_step(WorkerPhase::Receiving, WorkerEvent::Task), (WorkerPhase::Receiving, WorkerAction::Run));
    assert_eq!(
        worker_step(WorkerPhase::Receiving, WorkerEvent::QueueClosed),
        (WorkerPhase::Draining, WorkerAction::Drain)
    );
    assert_eq!(
        worker_step(WorkerPhase::Draining, WorkerEvent::Drained),
        (WorkerPhase::Stopped, WorkerAction::SignalStopped)
    );
    assert_eq!(worker_step(WorkerPhase::Draining, WorkerEvent::Task), (WorkerPhase::Draining, WorkerAction::Rest));
    assert_eq!(worker_step(WorkerPhase::Stopped, WorkerEvent::Task), (WorkerPhase::Stopped, WorkerAction::Rest));
    assert_eq!(
        worker_step(WorkerPhase::Receiving, WorkerEvent::Drained),
        (WorkerPhase::Receiving, WorkerAction::Rest)
    );
}

#[test]
fn race_gives_the_value_or_nothing() {
    assert_eq!(cancel_by_event(Raced::Finished(5)), Some(5));
    assert_eq!(cancel_by_event::<u8>(Raced::Signalled), None);
}

#[test]
fn wait_codes() {
    assert_eq!((WAIT_OBJECT_0, WAIT_TIMEOUT, INFINITE), (0, 258, 4294967295));
    assert_eq!(Win32Event::wait_result(0), Ok(true));
    assert_eq!(Win32Event::wait_result(258), Ok(false));
    assert_eq!(Win32Event::wait_result(0xFFFF_FFFF), Err(0xFFFF_FFFF));
    assert_eq!(Win32Event::wait_result(128), Err(128));
}

#[test]
fn timeout_keeps_the_low_bits() {
    assert_eq!(Win32Event::timeout_millis(0), 0);
    assert_eq!(Win32Event::timeout_millis(1500), 1500);
    assert_eq!(Win32Event::timeout_millis(0xFFFF_FFFF), INFINITE);
    assert_eq!(Win32Event::timeout_millis(0x1_0000_0000), 0);
    assert_eq!(Win32Event::timeout_millis(0x1_0000_0005), 5);
}

#[test]
fn borrowed_handle_is_not_closed() {
    let mut event = Win32Event::from_raw(300);
    assert_eq!(event.as_raw(), 300);
    assert!(!event.is_owned());
    assert_eq!(event.release(), Release { unregister: None, close: None });
}

#[test]
fn owned_handle_is_closed_once() {
    let mut event = Win32Event::take_raw(300);
    assert!(event.is_owned());
    assert_eq!(event.release(), Release { unregister: None, close: Some(300) });
    assert_eq!(event.release(), Release { unregister: None, close: None });
    assert_eq!(Win32Event::take_raw(301).into_raw(), (301, None));
}

#[test]
fn wait_is_registered_once() {
    let mut heap: BoxHeap<Sender<()>> = BoxHeap::new();
    let mut event = Win32Event::from_raw(300);
    assert_eq!(event.poll_plan(), PollPlan::Register);
    let (tx, mut rx) = event.prepare_wait(&mut heap);
    assert!(heap.contains(tx));
    assert!(event.registered(&mut heap, tx, Some(900)));
    assert_eq!(event.poll_plan(), PollPlan::Listen);
    assert_eq!(event.waiting(), Some(Waiting { wait_object: 900, tx }));
    assert!(rx.try_recv().is_err());
    assert!(Waiting::callback(&mut heap, tx));
    assert!(rx.try_recv().is_ok());
    assert!(!Waiting::callback(&mut heap, tx));
    let release = event.release();
    assert_eq!(release.unregister, Some(Waiting { wait_object: 900, tx }));
    assert!(!release.unregister.unwrap().discard(&mut heap));
    assert_eq!(event.poll_plan(), PollPlan::Register);
    assert_eq!(heap.len(), 0);
}

#[test]
fn refused_wait_parks_nothing() {
    let mut heap: BoxHeap<Sender<()>> = BoxHeap::new();
    let mut event = Win32Event::take_raw(300);
    let (tx, _rx) = event.prepare_wait(&mut heap);
    assert!(!event.registered(&mut heap, tx, None));
    assert_eq!(event.waiting(), None);
    assert_eq!(heap.len(), 0);
    assert_eq!(event.poll_plan(), PollPlan::Register);
}

#[test]
fn wait_that_never_fired_is_discarded() {
    let mut heap: BoxHeap<Sender<()>> = BoxHeap::new();
    let mut event = Win32Event::from_raw(300);
    let (tx, mut rx) = event.prepare_wait(&mut heap);
    event.registered(&mut heap, tx, Some(901));
    let waiting = event.release().unregister.unwrap();
    assert!(waiting.discard(&mut heap));
    assert_eq!(heap.len(), 0);
    assert!(!Waiting::callback(&mut heap, tx));
    assert!(rx.try_recv().is_err());
}
