use pfwx::context::{
    is_lost, may_invoke, post_outcome, unwind_report, ContextTable, Delivery, DeliveryAction, DeliveryEvent, DeliveryState, Dispatcher, PostOutcome, SyncContext, Teardown, BACKOFF_MILLIS, POLL_MILLIS
};
use pfwx::transit::{Received, Transit};
use std::cell::Cell;
use std::rc::Rc;

type Handler = Box<dyn FnOnce(u64, bool)>;
type Heap = Transit<u64, Handler, u8>;

fn counting_handler(calls: &Rc<Cell<u32>>, invoked: &Rc<Cell<u32>>) -> Handler {
    let calls = calls.clone();
    let invoked = invoked.clone();
    Box::new(move |param: u64, invoke: bool| {
        assert_eq!(param, 77);
        calls.set(calls.get() + 1);
        if invoke {
            invoked.set(invoked.get() + 1);
        }
    })
}

fn start(heap: &mut Heap, calls: &Rc<Cell<u32>>, invoked: &Rc<Cell<u32>>) -> (Delivery, tokio::sync::oneshot::Receiver<()>) {
    Dispatcher::new(1).dispatch_invoke(heap, 77, counting_handler(calls, invoked), 0u8)
}

#[test]
fn intervals_are_a_tenth_of_a_second() {
    assert_eq!(POLL_MILLIS, 100);
    assert_eq!(BACKOFF_MILLIS, 100);
}

#[test]
fn post_outcome_from_the_system_error() {
    assert_eq!(post_outcome(None), PostOutcome::Posted);
    assert_eq!(post_outcome(Some(1816)), PostOutcome::QueueFull);
    assert_eq!(post_outcome(Some(1400)), PostOutcome::Rejected);
    assert_eq!(post_outcome(Some(0)), PostOutcome::Rejected);
}

#[test]
fn full_queue_is_tried_again() {
    let mut heap = Heap::new();
    let calls = Rc::new(Cell::new(0));
    let invoked = Rc::new(Cell::new(0));
    let (mut delivery, _ack) = start(&mut heap, &calls, &invoked);
    assert_eq!(delivery.state(), DeliveryState::Posting);
    assert_eq!(delivery.raw(), 0);
    assert_eq!(delivery.step(DeliveryEvent::Post(PostOutcome::QueueFull)), DeliveryAction::Backoff);
    assert_eq!(delivery.state(), DeliveryState::Posting);
    assert_eq!(delivery.step(DeliveryEvent::Post(PostOutcome::QueueFull)), DeliveryAction::Backoff);
    assert_eq!(delivery.step(DeliveryEvent::Post(PostOutcome::Posted)), DeliveryAction::AwaitAck);
    assert_eq!(delivery.state(), DeliveryState::Waiting);
    assert_eq!(calls.get(), 0);
    assert!(heap.contains(0));
    assert_eq!(heap.parked(), 1);
}

#[test]
fn rejected_post_is_taken_back_by_the_sender() {
    let mut heap = Heap::new();
    let calls = Rc::new(Cell::new(0));
    let invoked = Rc::new(Cell::new(0));
    let (mut delivery, _ack) = start(&mut heap, &calls, &invoked);
    assert_eq!(delivery.step(DeliveryEvent::Post(PostOutcome::Rejected)), DeliveryAction::Reclaim);
    assert_eq!(delivery.state(), DeliveryState::Failed);
    assert!(delivery.reclaim(&mut heap));
    assert_eq!(calls.get(), 1);
    assert_eq!(invoked.get(), 0);
    assert_eq!((heap.pending(), heap.parked()), (0, 0));
}

#[test]
fn taken_message_is_acknowledged() {
    let mut heap = Heap::new();
    let calls = Rc::new(Cell::new(0));
    let invoked = Rc::new(Cell::new(0));
    let (mut delivery, mut ack) = start(&mut heap, &calls, &invoked);
    delivery.step(DeliveryEvent::Post(PostOutcome::Posted));
    let context = SyncContext::new(1);
    match context.process_message(&mut heap, delivery.raw()) {
        Received::Invoke { param, handler, alive, acked } => {
            assert!(acked);
            assert_eq!(alive, 0);
            handler(param, may_invoke(true, acked));
        },
        _ => panic!("a call was posted"),
    }
    assert_eq!((calls.get(), invoked.get()), (1, 1));
    assert!(ack.try_recv().is_ok());
    assert_eq!(delivery.step(DeliveryEvent::Acked), DeliveryAction::Succeed);
    assert_eq!(delivery.state(), DeliveryState::Delivered);
    assert_eq!(delivery.step(DeliveryEvent::Acked), DeliveryAction::Rest);
    assert_eq!((heap.pending(), heap.parked()), (0, 0));
    assert!(matches!(context.process_message(&mut heap, delivery.raw()), Received::Stale));
}

#[test]
fn sender_that_left_is_not_answered() {
    let mut heap = Heap::new();
    let calls = Rc::new(Cell::new(0));
    let invoked = Rc::new(Cell::new(0));
    let (mut delivery, ack) = start(&mut heap, &calls, &invoked);
    delivery.step(DeliveryEvent::Post(PostOutcome::Posted));
    drop(ack);
    match SyncContext::new(1).process_message(&mut heap, delivery.raw()) {
        Received::Invoke { param, handler, acked, .. } => {
            assert!(!acked);
            handler(param, may_invoke(true, acked));
        },
        _ => panic!("a call was posted"),
    }
    assert_eq!((calls.get(), invoked.get()), (1, 0));
}

#[test]
fn tick_keeps_waiting_while_the_target_is_there() {
    let mut heap = Heap::new();
    let calls = Rc::new(Cell::new(0));
    let invoked = Rc::new(Cell::new(0));
    let (mut delivery, mut ack) = start(&mut heap, &calls, &invoked);
    delivery.step(DeliveryEvent::Post(PostOutcome::Posted));
    assert_eq!(delivery.on_tick(Some(false), false, &mut ack), DeliveryAction::AwaitAck);
    assert_eq!(delivery.state(), DeliveryState::Waiting);
    assert_eq!(delivery.on_tick(None, false, &mut ack), DeliveryAction::AwaitAck);
}

#[test]
fn tick_with_dead_target_takes_the_message_back() {
    let mut heap = Heap::new();
    let calls = Rc::new(Cell::new(0));
    let invoked = Rc::new(Cell::new(0));
    let (mut delivery, mut ack) = start(&mut heap, &calls, &invoked);
    delivery.step(DeliveryEvent::Post(PostOutcome::Posted));
    assert_eq!(delivery.on_tick(Some(true), false, &mut ack), DeliveryAction::Reclaim);
    assert_eq!(delivery.state(), DeliveryState::Failed);
    let raw = delivery.raw();
    assert!(delivery.reclaim(&mut heap));
    assert_eq!((calls.get(), invoked.get()), (1, 0));
    assert!(matches!(SyncContext::new(1).process_message(&mut heap, raw), Received::Stale));
    assert_eq!(calls.get(), 1);
}

#[test]
fn tick_with_late_acknowledgement_succeeds() {
    let mut heap = Heap::new();
    let calls = Rc::new(Cell::new(0));
    let invoked = Rc::new(Cell::new(0));
    let (mut delivery, mut ack) = start(&mut heap, &calls, &invoked);
    delivery.step(DeliveryEvent::Post(PostOutcome::Posted));
    match SyncContext::new(1).process_message(&mut heap, delivery.raw()) {
        Received::Invoke { param, handler, acked, .. } => handler(param, may_invoke(false, acked)),
        _ => panic!("a call was posted"),
    }
    assert_eq!(delivery.on_tick(Some(true), true, &mut ack), DeliveryAction::Succeed);
    assert_eq!(delivery.state(), DeliveryState::Delivered);
    assert_eq!((calls.get(), invoked.get()), (1, 0));
}

#[test]
fn reclaim_after_the_owner_took_it_finds_nothing() {
    let mut heap = Heap::new();
    let calls = Rc::new(Cell::new(0));
    let invoked = Rc::new(Cell::new(0));
    let (mut delivery, _ack) = start(&mut heap, &calls, &invoked);
    delivery.step(DeliveryEvent::Post(PostOutcome::Posted));
    delivery.step(DeliveryEvent::Tick { gone: true, acked: false });
    assert_eq!(delivery.state(), DeliveryState::Failed);
    match SyncContext::new(1).process_message(&mut heap, delivery.raw()) {
        Received::Invoke { param, handler, acked, .. } => handler(param, may_invoke(true, acked)),
        _ => panic!("a call was posted"),
    }
    assert!(!delivery.reclaim(&mut heap));
    assert_eq!(calls.get(), 1);
}

#[test]
fn diagnostic_is_handed_to_the_owner() {
    let mut heap = Heap::new();
    let (mut delivery, mut ack) = Dispatcher::new(1).dispatch_panic(&mut heap, "boom".to_string());
    delivery.step(DeliveryEvent::Post(PostOutcome::Posted));
    assert_eq!(delivery.on_tick(None, false, &mut ack), DeliveryAction::AwaitAck);
    match SyncContext::new(1).process_message(&mut heap, delivery.raw()) {
        Received::Throw { info } => assert_eq!(info, "boom"),
        _ => panic!("a diagnostic was posted"),
    }
    assert!(ack.try_recv().is_ok());
}

#[test]
fn diagnostic_for_a_lost_queue_is_dropped() {
    let mut heap = Heap::new();
    let (mut delivery, mut ack) = Dispatcher::new(1).dispatch_panic(&mut heap, "boom".to_string());
    delivery.step(DeliveryEvent::Post(PostOutcome::Posted));
    assert_eq!(delivery.on_tick(None, true, &mut ack), DeliveryAction::Reclaim);
    assert!(delivery.reclaim(&mut heap));
    assert_eq!((heap.pending(), heap.parked()), (0, 0));
}

#[test]
fn lost_means_dead_object_or_no_queue() {
    assert!(!is_lost(None, false));
    assert!(!is_lost(Some(false), false));
    assert!(is_lost(Some(true), false));
    assert!(is_lost(Some(false), true));
    assert!(is_lost(None, true));
}

#[test]
fn call_needs_living_object_and_waiting_sender() {
    assert!(may_invoke(true, true));
    assert!(!may_invoke(false, true));
    assert!(!may_invoke(true, false));
    assert!(!may_invoke(false, false));
}

#[test]
fn unwind_is_reported_unless_an_error_is_pending() {
    assert_eq!(unwind_report("boom", true), None);
    let text = unwind_report("boom", false).unwrap();
    assert!(text.starts_with("boom\r\nbacktrace:\r\n"));
}

#[test]
fn context_and_dispatcher_share_the_queue() {
    let context = SyncContext::new(77);
    assert_eq!(context.sink(), 77);
    assert_eq!(context.dispatcher().sink(), 77);
}

#[test]
fn last_context_takes_class_and_runtime_with_it() {
    let mut table = ContextTable::new();
    assert_eq!((table.count(), table.class_atom()), (0, 0));
    table.class_registered(49);
    table.context_created();
    table.context_created();
    assert_eq!((table.count(), table.class_atom()), (2, 49));
    assert_eq!(table.context_destroyed(), Teardown { unregister_class: None, shutdown_runtime: false });
    assert_eq!((table.count(), table.class_atom()), (1, 49));
    assert_eq!(table.context_destroyed(), Teardown { unregister_class: Some(49), shutdown_runtime: true });
    assert_eq!((table.count(), table.class_atom()), (0, 0));
}
