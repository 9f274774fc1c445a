//! Carrying a message to the owner thread.
//!
//! A message is parked and its number is posted to the owner thread's own
//! event loop. The sender then waits until the loop has taken the message,
//! or until it sees that nobody is left to take it; in that case it takes
//! the message back itself. A parked message is given out once, so of the
//! two sides only one ever holds it.

use crate::signal;
use crate::task::panic_diagnostic;
use crate::transit::{carried, MessagePayload, PayloadPanic, Received, Transit};
use tokio::sync::oneshot::Receiver;
use vstd::prelude::*;

verus! {

/// How long the sender waits before it looks again whether the target is
/// still there, in milliseconds.
pub const POLL_MILLIS: u64 = 100;

/// How long the sender waits before it posts again to a full queue, in
/// milliseconds.
pub const BACKOFF_MILLIS: u64 = 100;

/// How an attempt to post ended.
#[derive(Clone, Copy, Debug, PartialEq, Eq, Structural)]
pub enum PostOutcome {
    /// The queue has the message.
    Posted,
    /// The queue is full for now.
    QueueFull,
    /// There is no queue any more.
    Rejected,
}

/// The system's error for a queue that has reached its quota.
pub const ERROR_NOT_ENOUGH_QUOTA: u32 = 1816;

/// How an attempt to post ended, from the system's error for it: none
/// means posted, the quota error means a full queue, and any other error
/// means that the queue is gone.
pub fn post_outcome(error: Option<u32>) -> (r: PostOutcome)
    ensures
        r == match error {
            None => PostOutcome::Posted,
            Some(code) => if code == ERROR_NOT_ENOUGH_QUOTA {
                PostOutcome::QueueFull
            } else {
                PostOutcome::Rejected
            },
        },
{
    match error {
        None => PostOutcome::Posted,
        Some(code) => if code == ERROR_NOT_ENOUGH_QUOTA {
            PostOutcome::QueueFull
        } else {
            PostOutcome::Rejected
        },
    }
}

/// Where a delivery stands, as its sender sees it.
#[derive(Clone, Copy, Debug, PartialEq, Eq, Structural)]
pub enum DeliveryState {
    /// The message is parked and not in the queue yet.
    Posting,
    /// The message is in the queue.
    Waiting,
    /// The owner thread has taken the message.
    Delivered,
    /// Nobody is left to take the message; the sender takes it back.
    Failed,
}

/// What the sender of a message learns.
#[derive(Clone, Copy, Debug, PartialEq, Eq, Structural)]
pub enum DeliveryEvent {
    /// An attempt to post has ended.
    Post(PostOutcome),
    /// The owner thread has signalled that it took the message.
    Acked,
    /// The poll interval has passed. `gone` says whether the target object
    /// or the queue has disappeared, `acked` whether the owner thread's
    /// signal has come in nevertheless.
    Tick { gone: bool, acked: bool },
}

/// What the sender does next.
#[derive(Clone, Copy, Debug, PartialEq, Eq, Structural)]
pub enum DeliveryAction {
    /// Wait for [`BACKOFF_MILLIS`], then post again.
    Backoff,
    /// Wait for the owner thread's signal, for [`POLL_MILLIS`] at most.
    AwaitAck,
    /// Report success.
    Succeed,
    /// Take the message back, then report failure.
    Reclaim,
    /// Nothing: the delivery is over.
    Rest,
}

impl DeliveryState {
    /// Whether the delivery is over.
    pub open spec fn is_final(self) -> bool {
        self is Delivered || self is Failed
    }
}

/// The delivery's state after `event`, and what its sender does.
pub open spec fn delivery_next(state: DeliveryState, event: DeliveryEvent) -> (
    DeliveryState,
    DeliveryAction,
) {
    match (state, event) {
        (DeliveryState::Posting, DeliveryEvent::Post(PostOutcome::Posted)) => (
            DeliveryState::Waiting,
            DeliveryAction::AwaitAck,
        ),
        (DeliveryState::Posting, DeliveryEvent::Post(PostOutcome::QueueFull)) => (
            DeliveryState::Posting,
            DeliveryAction::Backoff,
        ),
        (DeliveryState::Posting, DeliveryEvent::Post(PostOutcome::Rejected)) => (
            DeliveryState::Failed,
            DeliveryAction::Reclaim,
        ),
        (DeliveryState::Waiting, DeliveryEvent::Acked) => (
            DeliveryState::Delivered,
            DeliveryAction::Succeed,
        ),
        (DeliveryState::Waiting, DeliveryEvent::Tick { gone, acked }) => if !gone {
            (DeliveryState::Waiting, DeliveryAction::AwaitAck)
        } else if acked {
            (DeliveryState::Delivered, DeliveryAction::Succeed)
        } else {
            (DeliveryState::Failed, DeliveryAction::Reclaim)
        },
        (DeliveryState::Posting, _) => (state, DeliveryAction::Backoff),
        (DeliveryState::Waiting, _) => (state, DeliveryAction::AwaitAck),
        _ => (state, DeliveryAction::Rest),
    }
}

/// A delivery ends once: what is over stays as it is, the message is taken
/// back exactly when the delivery fails, and success is reported exactly
/// when the owner thread has taken the message.
pub proof fn lemma_delivery_ends_once(state: DeliveryState, event: DeliveryEvent)
    ensures
        state.is_final() ==> delivery_next(state, event) == (state, DeliveryAction::Rest),
        delivery_next(state, event).1 is Reclaim <==> !state.is_final() && delivery_next(
            state,
            event,
        ).0 is Failed,
        delivery_next(state, event).1 is Succeed <==> !state.is_final() && delivery_next(
            state,
            event,
        ).0 is Delivered,
        event is Post && event->Post_0 is QueueFull && state is Posting ==> delivery_next(
            state,
            event,
        ) == (DeliveryState::Posting, DeliveryAction::Backoff),
{
}

/// One message on its way, as its sender holds it.
pub struct Delivery {
    raw: usize,
    state: DeliveryState,
}

impl Delivery {
    /// The number under which the message is parked: what is posted.
    pub closed spec fn spec_raw(&self) -> usize {
        self.raw
    }

    /// Where the delivery stands.
    pub closed spec fn spec_state(&self) -> DeliveryState {
        self.state
    }

    /// The number under which the message is parked: what is posted.
    #[verifier::when_used_as_spec(spec_raw)]
    pub fn raw(&self) -> (r: usize)
        ensures
            r == self.spec_raw(),
    {
        self.raw
    }

    /// Where the delivery stands.
    #[verifier::when_used_as_spec(spec_state)]
    pub fn state(&self) -> (r: DeliveryState)
        ensures
            r == self.spec_state(),
    {
        self.state
    }

    /// Moves the delivery on by one event. An event that cannot happen in
    /// its state changes nothing.
    pub fn step(&mut self, event: DeliveryEvent) -> (action: DeliveryAction)
        ensures
            final(self).raw() == old(self).raw(),
            (final(self).state(), action) == delivery_next(old(self).state(), event),
    {
        let next = match self.state {
            DeliveryState::Posting => match event {
                DeliveryEvent::Post(PostOutcome::Posted) => (
                    DeliveryState::Waiting,
                    DeliveryAction::AwaitAck,
                ),
                DeliveryEvent::Post(PostOutcome::QueueFull) => (
                    DeliveryState::Posting,
                    DeliveryAction::Backoff,
                ),
                DeliveryEvent::Post(PostOutcome::Rejected) => (
                    DeliveryState::Failed,
                    DeliveryAction::Reclaim,
                ),
                _ => (DeliveryState::Posting, DeliveryAction::Backoff),
            },
            DeliveryState::Waiting => match event {
                DeliveryEvent::Acked => (DeliveryState::Delivered, DeliveryAction::Succeed),
                DeliveryEvent::Tick { gone, acked } => if !gone {
                    (DeliveryState::Waiting, DeliveryAction::AwaitAck)
                } else if acked {
                    (DeliveryState::Delivered, DeliveryAction::Succeed)
                } else {
                    (DeliveryState::Failed, DeliveryAction::Reclaim)
                },
                _ => (DeliveryState::Waiting, DeliveryAction::AwaitAck),
            },
            DeliveryState::Delivered => (DeliveryState::Delivered, DeliveryAction::Rest),
            DeliveryState::Failed => (DeliveryState::Failed, DeliveryAction::Rest),
        };
        self.state = next.0;
        next.1
    }

    /// The poll interval has passed without the owner thread's signal.
    /// `target_dead` is what the watch on the target object says now (a
    /// diagnostic has no target: `None`), `sink_gone` whether the queue has
    /// disappeared. Where either has happened the signal is looked for one
    /// last time, so that a message taken just before is not taken back.
    pub fn on_tick(
        &mut self,
        target_dead: Option<bool>,
        sink_gone: bool,
        ack: &mut Receiver<()>,
    ) -> (action: DeliveryAction)
        ensures
            final(self).raw() == old(self).raw(),
            exists|acked: bool|
                (final(self).state(), action) == delivery_next(
                    old(self).state(),
                    DeliveryEvent::Tick { gone: lost(target_dead, sink_gone), acked },
                ),
            !lost(target_dead, sink_gone) ==> (final(self).state(), action) == delivery_next(
                old(self).state(),
                DeliveryEvent::Tick { gone: false, acked: false },
            ),
    {
        let gone = is_lost(target_dead, sink_gone);
        let acked = if gone {
            signal::try_recv(ack).is_some()
        } else {
            false
        };
        let action = self.step(DeliveryEvent::Tick { gone, acked });
        proof {
            let event = DeliveryEvent::Tick { gone: lost(target_dead, sink_gone), acked };
            assert((self.state(), action) == delivery_next(old(self).state(), event));
        }
        action
    }

    /// Takes the message back after the delivery has failed, so that what
    /// it holds is released: the parameter of a call leaves with it and is
    /// given to the call's handler with `false`. Where the owner thread has
    /// opened the message after all, nothing is left to do. `true` says
    /// that the message was still parked.
    pub fn reclaim<P, H, W>(self, transit: &mut Transit<P, H, W>) -> (r: bool) where
        H: FnOnce(P, bool),

        requires
            old(transit).wf(),
            self.state() == DeliveryState::Failed,
            old(transit).packs().contains_key(self.raw()) ==> (old(transit).packs()[self.raw()].payload matches MessagePayload::Invoke(
                call,
            ) ==> call_requires(
                call.handler,
                (old(transit).params()[call.param.addr()], false),
            )),
        ensures
            final(transit).wf(),
            r == old(transit).packs().contains_key(self.raw()),
            final(transit).packs() == old(transit).packs().remove(self.raw()),
            final(transit).next_pack() == old(transit).next_pack(),
            final(transit).boxed() == old(transit).boxed(),
            match (if r {
                carried(old(transit).packs()[self.raw()])
            } else {
                None
            }) {
                Some(k) => {
                    &&& old(transit).params().contains_key(k)
                    &&& final(transit).params() == old(transit).params().remove(k)
                    &&& final(transit).unboxed() == old(transit).unboxed() + 1
                    &&& old(transit).packs()[self.raw()].payload matches MessagePayload::Invoke(
                        call,
                    ) && call_ensures(call.handler, (old(transit).params()[k], false), ())
                },
                None => {
                    &&& final(transit).params() == old(transit).params()
                    &&& final(transit).unboxed() == old(transit).unboxed()
                },
            },
    {
        transit.take_back(self.raw)
    }
}

/// Whether the target of a delivery has disappeared: the object that a call
/// is for is dead, or the queue is gone.
pub open spec fn lost(target_dead: Option<bool>, sink_gone: bool) -> bool {
    sink_gone || target_dead == Some(true)
}

/// Whether the target of a delivery has disappeared.
#[verifier::when_used_as_spec(lost)]
pub fn is_lost(target_dead: Option<bool>, sink_gone: bool) -> (r: bool)
    ensures
        r == lost(target_dead, sink_gone),
{
    match target_dead {
        Some(dead) => dead || sink_gone,
        None => sink_gone,
    }
}

/// The sending side of one owner thread's queue.
#[derive(Clone, Copy, Debug)]
pub struct Dispatcher {
    sink: usize,
}

impl Dispatcher {
    /// The queue that the messages go to.
    pub closed spec fn spec_sink(&self) -> usize {
        self.sink
    }

    /// A dispatcher for the queue `sink`.
    pub fn new(sink: usize) -> (r: Self)
        ensures
            r.sink() == sink,
    {
        Dispatcher { sink }
    }

    /// The queue that the messages go to.
    #[verifier::when_used_as_spec(spec_sink)]
    pub fn sink(&self) -> (r: usize)
        ensures
            r == self.spec_sink(),
    {
        self.sink
    }

    /// Parks a call for the owner thread, parameter and message, and
    /// starts its delivery. Returns the delivery and the half on which the
    /// owner thread's signal comes.
    pub fn dispatch_invoke<P, H, W>(
        &self,
        transit: &mut Transit<P, H, W>,
        param: P,
        handler: H,
        alive: W,
    ) -> (r: (Delivery, Receiver<()>))
        requires
            old(transit).wf(),
            old(transit).next_pack() < usize::MAX,
            old(transit).boxed() < usize::MAX,
        ensures
            final(transit).wf(),
            r.0.state() == DeliveryState::Posting,
            r.0.raw() == old(transit).next_pack(),
            !old(transit).packs().contains_key(r.0.raw()),
            final(transit).packs().dom() == old(transit).packs().dom().insert(r.0.raw()),
            forall|k: usize|
                old(transit).packs().contains_key(k) ==> final(transit).packs()[k] == old(
                    transit,
                ).packs()[k],
            final(transit).packs()[r.0.raw()].payload matches MessagePayload::Invoke(call)
                && call.handler == handler && call.alive == alive && call.param.addr() == old(
                transit,
            ).boxed(),
            final(transit).params() == old(transit).params().insert(
                old(transit).boxed() as usize,
                param,
            ),
            final(transit).next_pack() == old(transit).next_pack() + 1,
            final(transit).boxed() == old(transit).boxed() + 1,
            final(transit).unboxed() == old(transit).unboxed(),
    {
        let posted = transit.post_invoke(param, handler, alive);
        (Delivery { raw: posted.0, state: DeliveryState::Posting }, posted.1)
    }

    /// Parks a diagnostic for the owner thread and starts its delivery.
    pub fn dispatch_panic<P, H, W>(&self, transit: &mut Transit<P, H, W>, info: String) -> (r: (
        Delivery,
        Receiver<()>,
    ))
        requires
            old(transit).wf(),
            old(transit).next_pack() < usize::MAX,
        ensures
            final(transit).wf(),
            r.0.state() == DeliveryState::Posting,
            r.0.raw() == old(transit).next_pack(),
            !old(transit).packs().contains_key(r.0.raw()),
            final(transit).packs().dom() == old(transit).packs().dom().insert(r.0.raw()),
            forall|k: usize|
                old(transit).packs().contains_key(k) ==> final(transit).packs()[k] == old(
                    transit,
                ).packs()[k],
            final(transit).packs()[r.0.raw()].payload == MessagePayload::<H, W>::Panic(
                PayloadPanic { info },
            ),
            final(transit).params() == old(transit).params(),
            final(transit).next_pack() == old(transit).next_pack() + 1,
            final(transit).boxed() == old(transit).boxed(),
            final(transit).unboxed() == old(transit).unboxed(),
    {
        let posted = transit.post_panic(info);
        (Delivery { raw: posted.0, state: DeliveryState::Posting }, posted.1)
    }
}

/// The owner thread's side of the queue.
#[derive(Clone, Copy, Debug)]
pub struct SyncContext {
    sink: usize,
}

impl SyncContext {
    /// The queue that this context reads.
    pub closed spec fn spec_sink(&self) -> usize {
        self.sink
    }

    /// The context that reads the queue `sink`.
    pub fn new(sink: usize) -> (r: Self)
        ensures
            r.sink() == sink,
    {
        SyncContext { sink }
    }

    /// The queue that this context reads.
    #[verifier::when_used_as_spec(spec_sink)]
    pub fn sink(&self) -> (r: usize)
        ensures
            r == self.spec_sink(),
    {
        self.sink
    }

    /// A dispatcher that posts to this context's queue.
    pub fn dispatcher(&self) -> (r: Dispatcher)
        ensures
            r.sink() == self.sink(),
    {
        Dispatcher { sink: self.sink }
    }

    /// Opens the message whose number the loop has handed over: the
    /// message leaves, the parameter of a call leaves with it, and the
    /// sender is told.
    pub fn process_message<P, H, W>(&self, transit: &mut Transit<P, H, W>, raw: usize) -> (r:
        Received<P, H, W>)
        requires
            old(transit).wf(),
        ensures
            final(transit).wf(),
            final(transit).packs() == old(transit).packs().remove(raw),
            final(transit).next_pack() == old(transit).next_pack(),
            final(transit).boxed() == old(transit).boxed(),
            match r {
                Received::Stale => {
                    &&& !old(transit).packs().contains_key(raw)
                    &&& final(transit).params() == old(transit).params()
                    &&& final(transit).unboxed() == old(transit).unboxed()
                },
                Received::Invoke { param, handler, alive, acked } => {
                    &&& old(transit).packs().contains_key(raw)
                    &&& old(transit).packs()[raw].payload matches MessagePayload::Invoke(call)
                    &&& call.handler == handler
                    &&& call.alive == alive
                    &&& old(transit).params().contains_key(call.param.addr())
                    &&& param == old(transit).params()[call.param.addr()]
                    &&& final(transit).params() == old(transit).params().remove(
                        call.param.addr(),
                    )
                    &&& final(transit).unboxed() == old(transit).unboxed() + 1
                },
                Received::Throw { info } => {
                    &&& old(transit).packs().contains_key(raw)
                    &&& old(transit).packs()[raw].payload == MessagePayload::<H, W>::Panic(
                        PayloadPanic { info },
                    )
                    &&& final(transit).params() == old(transit).params()
                    &&& final(transit).unboxed() == old(transit).unboxed()
                },
            },
    {
        transit.open(raw)
    }
}

/// Whether a call that has arrived on the owner thread is carried out:
/// only where its object is alive now and its sender still waits for it.
pub open spec fn invoke_allowed(alive: bool, acked: bool) -> bool {
    alive && acked
}

/// Whether a call that has arrived on the owner thread is carried out.
/// `alive` is what the watch on the object says at this moment.
#[verifier::when_used_as_spec(invoke_allowed)]
pub fn may_invoke(alive: bool, acked: bool) -> (r: bool)
    ensures
        r == invoke_allowed(alive, acked),
{
    alive && acked
}

/// What the owner thread reports after a handler has panicked: the
/// diagnostic for the panic, unless an error is already being reported.
pub fn unwind_report(info: &str, has_exception: bool) -> (r: Option<String>)
    ensures
        has_exception <==> r is None,
        r matches Some(text) ==> exists|trace: Seq<char>|
            text@ == info@ + "\r\nbacktrace:\r\n"@ + trace,
{
    if has_exception {
        None
    } else {
        Some(panic_diagnostic(info))
    }
}

/// The owner contexts of the process and what they share: the class under
/// which their queues are registered, and the background runtime, which
/// goes when the last context goes.
pub struct ContextTable {
    count: usize,
    class_atom: u16,
}

/// What is torn down with a context.
#[derive(Clone, Copy, Debug, PartialEq, Eq, Structural)]
pub struct Teardown {
    /// The class to unregister, where this was the last context.
    pub unregister_class: Option<u16>,
    /// Whether the background runtime is shut down.
    pub shutdown_runtime: bool,
}

impl ContextTable {
    /// How many contexts exist.
    pub closed spec fn spec_count(&self) -> usize {
        self.count
    }

    /// The registered class, or 0 where none is registered.
    pub closed spec fn spec_class_atom(&self) -> u16 {
        self.class_atom
    }

    /// No context, no class.
    pub fn new() -> (r: Self)
        ensures
            r.count() == 0,
            r.class_atom() == 0,
    {
        ContextTable { count: 0, class_atom: 0 }
    }

    /// How many contexts exist.
    #[verifier::when_used_as_spec(spec_count)]
    pub fn count(&self) -> (r: usize)
        ensures
            r == self.spec_count(),
    {
        self.count
    }

    /// The registered class, or 0 where none is registered.
    #[verifier::when_used_as_spec(spec_class_atom)]
    pub fn class_atom(&self) -> (r: u16)
        ensures
            r == self.spec_class_atom(),
    {
        self.class_atom
    }

    /// Records the class that was registered because there was none.
    pub fn class_registered(&mut self, atom: u16)
        requires
            old(self).class_atom() == 0,
            atom != 0,
        ensures
            final(self).class_atom() == atom,
            final(self).count() == old(self).count(),
    {
        self.class_atom = atom;
    }

    /// Counts a new context.
    pub fn context_created(&mut self)
        requires
            old(self).class_atom() != 0,
            old(self).count() < usize::MAX,
        ensures
            final(self).count() == old(self).count() + 1,
            final(self).class_atom() == old(self).class_atom(),
    {
        self.count = self.count + 1;
    }

    /// Counts a context out. With the last one go the class and the
    /// background runtime.
    pub fn context_destroyed(&mut self) -> (r: Teardown)
        requires
            old(self).count() > 0,
        ensures
            final(self).count() == old(self).count() - 1,
            r.shutdown_runtime == (old(self).count() == 1),
            r.unregister_class == if old(self).count() == 1 && old(self).class_atom() != 0 {
                Some(old(self).class_atom())
            } else {
                None
            },
            final(self).class_atom() == if old(self).count() == 1 {
                0
            } else {
                old(self).class_atom()
            },
    {
        let last = self.count == 1;
        self.count = self.count - 1;
        if last {
            let atom = self.class_atom;
            self.class_atom = 0;
            Teardown {
                unregister_class: if atom != 0 {
                    Some(atom)
                } else {
                    None
                },
                shutdown_runtime: true,
            }
        } else {
            Teardown { unregister_class: None, shutdown_runtime: false }
        }
    }
}

} // verus!
