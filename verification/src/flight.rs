//! One task from its submission to its end, as both threads see it.
//!
//! The functions of this crate each decide one step on one thread. This
//! module puts the steps side by side: it follows a single task, its slot,
//! its parked result and its message through whatever the owner thread,
//! the worker and the queue do, in any order, and states what holds at
//! every point of every such course.
//!
//! The flight is told in the words of those functions. The task moves by
//! [`task_next`] and the delivery by [`delivery_next`]; the slot is there
//! as long as the task's identifier is among the registry's, and leaves as
//! `cancel`, `remove_cancel_id` and `cancel_all` say; result and message
//! are parked and taken out together, as the transit does it; and a call
//! is carried out where [`invoke_allowed`] says so.

use crate::context::{delivery_next, invoke_allowed, lost, DeliveryEvent, DeliveryState, PostOutcome};
use crate::task::{task_next, TaskEvent, TaskState};
use vstd::prelude::*;

verus! {

/// Where everything that belongs to one task stands.
pub struct Flight {
    /// The object that submitted the task exists.
    pub owner_alive: bool,
    /// The task's slot is in its object's registry.
    pub slot: bool,
    /// The task's cancel signal was fired.
    pub signalled: bool,
    /// Where the task stands.
    pub task: TaskState,
    /// The task's result is parked for the owner thread.
    pub param_parked: bool,
    /// The message with the result is parked.
    pub pack_parked: bool,
    /// The message's number sits in the owner thread's queue.
    pub queued: bool,
    /// Where the delivery of the message stands, once it has begun.
    pub delivery: Option<DeliveryState>,
    /// The sender has taken the message back, or tried to.
    pub reclaimed: bool,
    /// The owner thread has told the sender that it took the message.
    pub acked: bool,
    /// How often the result was parked.
    pub boxed: nat,
    /// How often the result was taken out of its heap.
    pub unboxed: nat,
    /// How often the completion ran.
    pub completions: nat,
    /// How often a call of `cancel` returned `true`.
    pub cancels: nat,
    /// How often a panic was reported.
    pub reports: nat,
}

/// What can happen to a task and to what belongs to it.
pub enum FlightEvent {
    /// The owner thread calls `cancel` on the task's token.
    Cancel,
    /// The object that submitted the task is destroyed, and with it its
    /// registry, which cancels what is pending.
    OwnerDestroyed,
    /// Another task of the same object takes the slot over. This can only
    /// happen once the task does not listen for its cancel signal any more.
    SlotReused,
    /// The worker polls the task for the first time.
    Started,
    /// The task sees its cancel signal.
    CancelSeen,
    /// The task's future returns.
    Resolved,
    /// The task's future panics.
    Panicked,
    /// The task begins the call that carries its result to the owner.
    Invoked,
    /// An attempt to post the message ends.
    Post(PostOutcome),
    /// The sender sees the owner thread's signal.
    AckSeen,
    /// The sender's poll interval passes; `sink_gone` says whether the
    /// queue has disappeared.
    Tick { sink_gone: bool },
    /// The sender takes the message back.
    Reclaim,
    /// The owner thread's loop hands the message's number over. `listens`
    /// says whether the sender still waits for the signal.
    Pump { listens: bool },
}

/// A task that was just submitted by a living object.
pub open spec fn flight_start() -> Flight {
    Flight {
        owner_alive: true,
        slot: true,
        signalled: false,
        task: TaskState::Pending,
        param_parked: false,
        pack_parked: false,
        queued: false,
        delivery: None,
        reclaimed: false,
        acked: false,
        boxed: 0,
        unboxed: 0,
        completions: 0,
        cancels: 0,
        reports: 0,
    }
}

/// Whether the task listens for its cancel signal.
pub open spec fn listening(w: Flight) -> bool {
    w.task is Pending || w.task is Running
}

/// The flight with its parameter taken out of the heap, if it was parked.
pub open spec fn param_taken(w: Flight) -> Flight {
    if w.param_parked {
        Flight { param_parked: false, unboxed: w.unboxed + 1, ..w }
    } else {
        w
    }
}

/// What the owner thread does with the message that it has opened: the
/// parameter leaves the heap in any case; where the object is alive and the
/// sender listens, the slot decides whether the completion runs.
pub open spec fn opened(w: Flight, listens: bool) -> Flight {
    let w = param_taken(Flight { pack_parked: false, acked: w.acked || listens, ..w });
    if invoke_allowed(w.owner_alive, listens) {
        let removed = w.slot;
        Flight {
            slot: false,
            task: task_next(w.task, TaskEvent::Arrived { removed }).0,
            completions: if removed && w.task is Delivering {
                w.completions + 1
            } else {
                w.completions
            },
            ..w
        }
    } else {
        Flight { task: task_next(w.task, TaskEvent::TargetLost).0, ..w }
    }
}

/// The flight after `e`. What cannot happen where the flight stands changes
/// nothing.
pub open spec fn flight_next(w: Flight, e: FlightEvent) -> Flight {
    match e {
        FlightEvent::Cancel => if w.owner_alive && w.slot {
            Flight { slot: false, signalled: true, cancels: w.cancels + 1, ..w }
        } else {
            w
        },
        FlightEvent::OwnerDestroyed => if w.owner_alive {
            Flight { owner_alive: false, slot: false, signalled: w.signalled || w.slot, ..w }
        } else {
            w
        },
        FlightEvent::SlotReused => if w.owner_alive && w.slot && !listening(w) {
            Flight { slot: false, ..w }
        } else {
            w
        },
        FlightEvent::Started => Flight { task: task_next(w.task, TaskEvent::Started).0, ..w },
        FlightEvent::CancelSeen => if w.signalled && listening(w) {
            Flight { task: task_next(w.task, TaskEvent::CancelSignalled).0, ..w }
        } else {
            w
        },
        FlightEvent::Resolved => Flight {
            task: task_next(w.task, TaskEvent::Resolved { cancelled: w.signalled }).0,
            ..w
        },
        FlightEvent::Panicked => if w.task is Running {
            Flight {
                task: task_next(w.task, TaskEvent::Panicked).0,
                reports: w.reports + 1,
                ..w
            }
        } else {
            w
        },
        FlightEvent::Invoked => if w.task is Delivering && w.delivery is None {
            if w.owner_alive {
                Flight {
                    param_parked: true,
                    pack_parked: true,
                    boxed: w.boxed + 1,
                    delivery: Some(DeliveryState::Posting),
                    ..w
                }
            } else {
                Flight { task: task_next(w.task, TaskEvent::TargetLost).0, ..w }
            }
        } else {
            w
        },
        FlightEvent::Post(outcome) => if w.delivery == Some(DeliveryState::Posting) {
            Flight {
                delivery: Some(delivery_next(DeliveryState::Posting, DeliveryEvent::Post(outcome)).0),
                queued: outcome is Posted,
                ..w
            }
        } else {
            w
        },
        FlightEvent::AckSeen => if w.delivery == Some(DeliveryState::Waiting) && w.acked {
            Flight {
                delivery: Some(delivery_next(DeliveryState::Waiting, DeliveryEvent::Acked).0),
                ..w
            }
        } else {
            w
        },
        FlightEvent::Tick { sink_gone } => if w.delivery == Some(DeliveryState::Waiting) {
            Flight {
                delivery: Some(
                    delivery_next(
                        DeliveryState::Waiting,
                        DeliveryEvent::Tick {
                            gone: lost(Some(!w.owner_alive), sink_gone),
                            acked: w.acked,
                        },
                    ).0,
                ),
                ..w
            }
        } else {
            w
        },
        FlightEvent::Reclaim => if w.delivery == Some(DeliveryState::Failed) && !w.reclaimed {
            let w = Flight { reclaimed: true, ..w };
            if w.pack_parked {
                let w = param_taken(Flight { pack_parked: false, ..w });
                Flight { task: task_next(w.task, TaskEvent::TargetLost).0, ..w }
            } else {
                w
            }
        } else {
            w
        },
        FlightEvent::Pump { listens } => if w.queued {
            let w = Flight { queued: false, ..w };
            if w.pack_parked {
                opened(w, listens)
            } else {
                w
            }
        } else {
            w
        },
    }
}

/// The flight after all of `events`, first to last.
pub open spec fn flight_run(w: Flight, events: Seq<FlightEvent>) -> Flight
    decreases events.len(),
{
    if events.len() == 0 {
        w
    } else {
        flight_next(flight_run(w, events.drop_last()), events.last())
    }
}

/// Whether nothing is left to happen: the task has ended, and a message
/// that was sent has been taken by the owner thread or taken back.
pub open spec fn flight_over(w: Flight) -> bool {
    &&& w.task.is_final()
    &&& match w.delivery {
        None => true,
        Some(d) => d is Delivered || (d is Failed && w.reclaimed),
    }
}

/// What holds of a flight wherever it stands.
pub open spec fn flight_inv(w: Flight) -> bool {
    &&& w.boxed <= 1
    &&& w.boxed == w.unboxed + if w.param_parked {
        1nat
    } else {
        0nat
    }
    &&& w.param_parked == w.pack_parked
    &&& w.completions + w.cancels <= 1
    &&& (w.completions + w.cancels == 1 ==> !w.slot)
    &&& (w.task is Completed <==> w.completions == 1)
    &&& (!w.owner_alive ==> !w.slot)
    &&& w.reports <= 1
    &&& (w.task is Panicked <==> w.reports == 1)
    &&& (w.reports == 1 ==> w.completions == 0 && w.boxed == 0)
    &&& (w.cancels == 1 ==> w.signalled)
    &&& (w.signalled ==> !w.slot)
    &&& (w.delivery is None <==> w.boxed == 0)
    &&& (w.boxed == 1 ==> !listening(w) && !(w.task is Panicked))
    &&& (w.delivery == Some(DeliveryState::Delivered) ==> w.acked)
    &&& (w.acked ==> !w.pack_parked && w.delivery is Some)
    &&& (w.reclaimed ==> w.delivery == Some(DeliveryState::Failed) && !w.pack_parked)
    &&& (w.queued ==> w.delivery is Some && !(w.delivery == Some(DeliveryState::Posting)))
    &&& (w.pack_parked ==> w.task is Delivering)
    &&& (w.delivery == Some(DeliveryState::Posting) ==> w.pack_parked)
}

/// No step breaks what holds of a flight.
pub proof fn lemma_flight_step(w: Flight, e: FlightEvent)
    requires
        flight_inv(w),
    ensures
        flight_inv(flight_next(w, e)),
{
}

/// Whatever happens to a task, in whatever order, leaves the flight sound.
pub proof fn lemma_flight_run(events: Seq<FlightEvent>)
    ensures
        flight_inv(flight_run(flight_start(), events)),
    decreases events.len(),
{
    if events.len() > 0 {
        lemma_flight_run(events.drop_last());
        lemma_flight_step(flight_run(flight_start(), events.drop_last()), events.last());
    }
}

/// A parked result leaves its heap exactly once. At any point of any
/// course it was parked at most once and taken out at most as often; while
/// it waits it was not taken out yet; and once nothing is left to happen it
/// was taken out as often as it was parked, so that nothing waits for ever.
pub proof fn lemma_unboxed_exactly_once(events: Seq<FlightEvent>)
    ensures
        ({
            let w = flight_run(flight_start(), events);
            &&& w.unboxed <= w.boxed <= 1
            &&& (w.param_parked ==> w.unboxed == 0)
            &&& (flight_over(w) ==> !w.param_parked && !w.pack_parked && w.unboxed == w.boxed)
        }),
{
    lemma_flight_run(events);
}

/// A task is either cancelled or completed, never both: of all calls of
/// `cancel` and all runs of the completion at most one succeeds, and after
/// it the slot is gone, so that every later `cancel` finds nothing and
/// says so.
pub proof fn lemma_cancel_excludes_completion(events: Seq<FlightEvent>, e: FlightEvent)
    ensures
        ({
            let w = flight_run(flight_start(), events);
            let after = flight_next(w, e);
            &&& w.completions + w.cancels <= 1
            &&& (w.cancels == 1 ==> after.completions == 0)
            &&& (w.completions == 1 ==> after.cancels == 0)
            &&& (w.completions + w.cancels == 1 ==> !w.slot)
        }),
{
    lemma_flight_run(events);
    lemma_flight_step(flight_run(flight_start(), events), e);
}

/// Once the object is destroyed its completion does not run any more,
/// whatever arrives afterwards; the result that arrives is released all the
/// same.
pub proof fn lemma_dead_owner_runs_nothing(events: Seq<FlightEvent>, e: FlightEvent)
    requires
        !flight_run(flight_start(), events).owner_alive,
    ensures
        ({
            let w = flight_run(flight_start(), events);
            let after = flight_next(w, e);
            &&& after.completions == w.completions
            &&& !after.owner_alive
            &&& (e is Pump && w.queued && w.pack_parked ==> !after.param_parked && after.unboxed
                == 1)
        }),
{
    lemma_flight_run(events);
}

/// A task whose future panics reports the panic once and is over: its
/// completion does not run and nothing of it was ever parked.
pub proof fn lemma_panic_is_reported(events: Seq<FlightEvent>)
    requires
        flight_run(flight_start(), events).task is Panicked,
    ensures
        ({
            let w = flight_run(flight_start(), events);
            &&& w.reports == 1
            &&& w.completions == 0
            &&& w.boxed == 0
            &&& flight_over(w)
        }),
{
    lemma_flight_run(events);
}

/// To cancel twice is to cancel once: the second call finds no slot, so it
/// changes nothing, fires no signal and counts as no cancellation. The same
/// holds of a call that comes after the completion has run.
pub proof fn lemma_second_cancel_changes_nothing(events: Seq<FlightEvent>)
    ensures
        ({
            let w = flight_run(flight_start(), events);
            let once = flight_next(w, FlightEvent::Cancel);
            &&& flight_next(once, FlightEvent::Cancel) == once
            &&& once.cancels <= 1
            &&& (w.completions == 1 ==> once == w)
        }),
{
    lemma_flight_run(events);
    lemma_flight_step(flight_run(flight_start(), events), FlightEvent::Cancel);
}

} // verus!
