use pfwx::handler::HandlerState;
use pfwx::slots::first_closed_slot;
use tokio::sync::oneshot;

#[test]
fn identifiers_rise_from_zero() {
    let mut state = HandlerState::new();
    let (a, _rx_a) = state.new_cancel_handle();
    let (b, _rx_b) = state.new_cancel_handle();
    let (c, _rx_c) = state.new_cancel_handle();
    assert_eq!((a.id(), b.id(), c.id()), (0, 1, 2));
    assert_eq!(state.pending_len(), 3);
    assert!(state.is_pending(0) && state.is_pending(1) && state.is_pending(2));
    assert!(!state.is_pending(3));
    assert!(!state.is_exhausted());
}

#[test]
fn cancel_fires_the_signal_once() {
    let mut state = HandlerState::new();
    let (token, mut rx) = state.new_cancel_handle();
    assert!(token.cancel(&mut state));
    assert!(rx.try_recv().is_ok());
    assert!(!state.is_pending(token.id()));
    assert_eq!(state.pending_len(), 0);
    assert!(!token.cancel(&mut state));
    assert!(!state.cancel(token.id()));
    assert!(rx.try_recv().is_err());
}

#[test]
fn cancel_after_completion_finds_nothing() {
    let mut state = HandlerState::new();
    let (token, mut rx) = state.new_cancel_handle();
    assert!(state.remove_cancel_id(token.id()));
    assert!(!token.cancel(&mut state));
    assert!(!state.remove_cancel_id(token.id()));
    assert!(rx.try_recv().is_err());
}

#[test]
fn completion_after_cancel_finds_nothing() {
    let mut state = HandlerState::new();
    let (token, _rx) = state.new_cancel_handle();
    let (other, _rx_other) = state.new_cancel_handle();
    assert!(token.cancel(&mut state));
    assert!(!state.remove_cancel_id(token.id()));
    assert!(state.is_pending(other.id()));
    assert!(state.remove_cancel_id(other.id()));
}

#[test]
fn abandoned_slot_is_taken_over() {
    let mut state = HandlerState::new();
    let (a, rx_a) = state.new_cancel_handle();
    let (b, _rx_b) = state.new_cancel_handle();
    drop(rx_a);
    let (c, _rx_c) = state.new_cancel_handle();
    assert_eq!(c.id(), 2);
    assert_eq!(state.pending_len(), 2);
    assert!(!state.is_pending(a.id()));
    assert!(state.is_pending(b.id()));
    assert!(state.is_pending(c.id()));
    assert!(!a.cancel(&mut state));
}

#[test]
fn first_abandoned_slot_is_the_one_taken_over() {
    let mut state = HandlerState::new();
    let (_a, _rx_a) = state.new_cancel_handle();
    let (b, rx_b) = state.new_cancel_handle();
    let (c, rx_c) = state.new_cancel_handle();
    drop(rx_b);
    drop(rx_c);
    let (d, _rx_d) = state.new_cancel_handle();
    assert_eq!(d.id(), 3);
    assert_eq!(state.pending_len(), 3);
    assert!(!state.is_pending(b.id()));
    assert!(state.is_pending(c.id()));
}

#[test]
fn register_places_where_it_is_told() {
    let mut state = HandlerState::new();
    let (tx0, _rx0) = oneshot::channel::<()>();
    let (tx1, _rx1) = oneshot::channel::<()>();
    let (tx2, mut rx2) = oneshot::channel::<()>();
    assert_eq!(state.register(tx0, None), 0);
    assert_eq!(state.register(tx1, None), 1);
    assert_eq!(state.register(tx2, Some(0)), 2);
    assert_eq!(state.pending_len(), 2);
    assert!(!state.is_pending(0));
    assert!(state.is_pending(1));
    assert!(state.cancel(2));
    assert!(rx2.try_recv().is_ok());
}

#[test]
fn cancel_all_signals_every_pending_task() {
    let mut state = HandlerState::new();
    let (a, mut rx_a) = state.new_cancel_handle();
    let (b, mut rx_b) = state.new_cancel_handle();
    let (c, mut rx_c) = state.new_cancel_handle();
    assert!(b.cancel(&mut state));
    state.cancel_all();
    assert_eq!(state.pending_len(), 0);
    assert!(rx_a.try_recv().is_ok());
    assert!(rx_b.try_recv().is_ok());
    assert!(rx_c.try_recv().is_ok());
    assert!(!a.cancel(&mut state));
    assert!(!c.cancel(&mut state));
    let (d, _rx_d) = state.new_cancel_handle();
    assert_eq!(d.id(), 3);
}

#[test]
fn first_closed_slot_is_the_first_true() {
    assert_eq!(first_closed_slot(&vec![]), None);
    assert_eq!(first_closed_slot(&vec![false, false]), None);
    assert_eq!(first_closed_slot(&vec![false, true, true]), Some(1));
    assert_eq!(first_closed_slot(&vec![true]), Some(0));
}
