//! What an owner-thread object keeps for its background tasks: the
//! cancellation slots, and the way back into the object.
//!
//! Every background task that an object starts gets a slot: an identifier
//! and the sending half of a one-shot signal. To cancel the task is to take
//! the slot out and fire the signal; to complete it is to take the slot out
//! and run the completion. Whoever finds the slot wins, and the other finds
//! nothing.

use crate::context::{Delivery, DeliveryState, Dispatcher};
use crate::mem::UnsafePointer;
use crate::transit::{MessagePayload, Transit};
use crate::signal;
use crate::slots::{first_closed, first_closed_slot, placed, removed, slots_wf};
use crate::task::{panic_diagnostic, panic_info};
use tokio::sync::oneshot::error::RecvError;
use tokio::sync::oneshot::{Receiver, Sender};
use vstd::prelude::*;
use vstd::string::StringExecFns;

verus! {

/// The token of one background task: what `cancel` needs to find its slot.
#[derive(Clone, Copy, Debug)]
pub struct CancelHandle {
    id: u64,
}

impl CancelHandle {
    /// The identifier of the task's slot.
    pub closed spec fn spec_id(&self) -> u64 {
        self.id
    }

    /// The identifier of the task's slot.
    #[verifier::when_used_as_spec(spec_id)]
    pub fn id(&self) -> (r: u64)
        ensures
            r == self.spec_id(),
    {
        self.id
    }

    /// Cancels the task: takes its slot out of `state` and fires the signal.
    /// `false` means that the task is not pending there any more (it was
    /// cancelled before, it has completed, or the slot was given away), and
    /// then nothing is changed and nothing is signalled.
    pub fn cancel(self, state: &mut HandlerState) -> (r: bool)
        requires
            old(state).wf(),
        ensures
            final(state).wf(),
            r == old(state).ids().contains(self.id()),
            final(state).ids() == removed(old(state).ids(), self.id()),
            !final(state).ids().contains(self.id()),
            final(state).next() == old(state).next(),
            final(state).signalled() == if r {
                old(state).signalled().insert(self.id())
            } else {
                old(state).signalled()
            },
    {
        state.cancel(self.id)
    }
}

/// The cancellation slots of one object.
pub struct HandlerState {
    next_id: u64,
    pending: Vec<(u64, Sender<()>)>,
    fired: Ghost<Set<u64>>,
}

impl HandlerState {
    /// The identifiers of the pending tasks, slot by slot.
    pub closed spec fn ids(&self) -> Seq<u64> {
        self.pending@.map_values(|p: (u64, Sender<()>)| p.0)
    }

    /// The identifier that the next task gets.
    pub closed spec fn next(&self) -> u64 {
        self.next_id
    }

    /// The identifiers whose signal this registry has fired.
    pub closed spec fn signalled(&self) -> Set<u64> {
        self.fired@
    }

    /// No identifier has two slots, every identifier in use was issued, and
    /// no task whose signal was fired is pending.
    pub closed spec fn wf(&self) -> bool {
        &&& self.ids().no_duplicates()
        &&& forall|i: int| 0 <= i < self.ids().len() ==> self.ids()[i] < self.next_id
        &&& forall|id: u64| self.fired@.contains(id) ==> id < self.next_id && !self.ids().contains(id)
    }

    /// A registry without slots, whose first identifier is 0.
    pub fn new() -> (r: Self)
        ensures
            r.wf(),
            r.ids() == Seq::<u64>::empty(),
            r.next() == 0,
            r.signalled() == Set::<u64>::empty(),
    {
        let r = HandlerState { next_id: 0, pending: Vec::new(), fired: Ghost(Set::empty()) };
        assert(r.ids() =~= Seq::<u64>::empty());
        r
    }

    /// How many tasks are pending.
    pub fn pending_len(&self) -> (r: usize)
        ensures
            r == self.ids().len(),
    {
        self.pending.len()
    }

    /// Whether the task `id` is pending.
    pub fn is_pending(&self, id: u64) -> (r: bool)
        ensures
            r == self.ids().contains(id),
    {
        self.position(id).is_some()
    }

    /// Whether the identifiers are used up.
    pub fn is_exhausted(&self) -> (r: bool)
        ensures
            r == (self.next() == u64::MAX),
    {
        self.next_id == u64::MAX
    }

    /// What a sound registry holds as a sequence of identifiers: no
    /// identifier has two slots, and every identifier in use was issued.
    pub proof fn lemma_slots(&self)
        requires
            self.wf(),
        ensures
            slots_wf(self.ids(), self.next()),
    {
    }

    /// No identifier is given out twice and no signal is fired twice: a
    /// pending task has an identifier that was issued, its signal was not
    /// fired, and it has one slot.
    pub proof fn lemma_pending_is_fresh(&self, id: u64)
        requires
            self.wf(),
            self.ids().contains(id),
        ensures
            id < self.next(),
            !self.signalled().contains(id),
            self.ids().no_duplicates(),
    {
        let i = choose|i: int| 0 <= i < self.ids().len() && self.ids()[i] == id;
        assert(self.ids()[i] < self.next_id);
    }

    fn position(&self, id: u64) -> (r: Option<usize>)
        ensures
            match r {
                Some(at) => at < self.ids().len() && self.ids()[at as int] == id,
                None => !self.ids().contains(id),
            },
    {
        let mut i: usize = 0;
        while i < self.pending.len()
            invariant
                i <= self.pending@.len(),
                self.ids().len() == self.pending@.len(),
                forall|j: int| 0 <= j < i ==> self.ids()[j] != id,
            decreases self.pending@.len() - i,
        {
            if self.pending[i].0 == id {
                assert(self.ids()[i as int] == self.pending@[i as int].0);
                return Some(i);
            }
            assert(self.ids()[i as int] == self.pending@[i as int].0);
            i += 1;
        }
        None
    }

    /// Asks every slot whether anybody still listens for its signal.
    fn probe(&self) -> (r: Vec<bool>)
        ensures
            r@.len() == self.ids().len(),
    {
        let mut closed: Vec<bool> = Vec::new();
        let mut i: usize = 0;
        while i < self.pending.len()
            invariant
                i <= self.pending@.len(),
                closed@.len() == i,
            decreases self.pending@.len() - i,
        {
            closed.push(signal::is_closed(&self.pending[i].1));
            i += 1;
        }
        closed
    }

    /// Gives the next identifier to a task whose signal is sent through
    /// `tx`. The task gets the slot `slot` and whoever held that slot is
    /// forgotten, or it gets a new last slot.
    pub fn register(&mut self, tx: Sender<()>, slot: Option<usize>) -> (id: u64)
        requires
            old(self).wf(),
            old(self).next() < u64::MAX,
            slot matches Some(at) ==> at < old(self).ids().len(),
        ensures
            final(self).wf(),
            id == old(self).next(),
            final(self).next() == old(self).next() + 1,
            final(self).ids() == placed(
                old(self).ids(),
                id,
                match slot {
                    Some(at) => Some(at as int),
                    None => None,
                },
            ),
            final(self).signalled() == old(self).signalled(),
    {
        let id = self.next_id;
        self.next_id = id + 1;
        match slot {
            Some(at) => {
                self.pending.set(at, (id, tx));
                assert(self.ids() =~= old(self).ids().update(at as int, id));
            },
            None => {
                self.pending.push((id, tx));
                assert(self.ids() =~= old(self).ids().push(id));
            },
        }
        proof {
            let before = old(self).ids();
            let after = self.ids();
            assert forall|i: int, j: int| 0 <= i < after.len() && 0 <= j < after.len() && i != j implies after[i] != after[j] by {
                if after[i] == id && i < before.len() && (slot is None || slot->0 != i) {
                    assert(before[i] < id);
                }
                if after[j] == id && j < before.len() && (slot is None || slot->0 != j) {
                    assert(before[j] < id);
                }
            }
            assert forall|x: u64| self.fired@.contains(x) implies !after.contains(x) by {
                if after.contains(x) {
                    let i = choose|i: int| 0 <= i < after.len() && after[i] == x;
                    if x != id {
                        assert(before[i] == x);
                        assert(before.contains(x));
                    }
                }
            }
        }
        id
    }

    /// Opens a slot for a new task and returns its token, together with the
    /// receiving half of its signal, which goes to the task. A slot whose
    /// signal nobody listens for any more is taken over, the first such
    /// slot; where there is none the registry grows by one slot.
    pub fn new_cancel_handle(&mut self) -> (r: (CancelHandle, Receiver<()>))
        requires
            old(self).wf(),
            old(self).next() < u64::MAX,
        ensures
            final(self).wf(),
            r.0.id() == old(self).next(),
            final(self).next() == old(self).next() + 1,
            final(self).signalled() == old(self).signalled(),
            final(self).ids().contains(r.0.id()),
            exists|closed: Seq<bool>|
                closed.len() == old(self).ids().len() && final(self).ids() == placed(
                    old(self).ids(),
                    r.0.id(),
                    first_closed(closed),
                ),
    {
        let pair = signal::channel::<()>();
        let closed = self.probe();
        let slot = first_closed_slot(&closed);
        let id = self.register(pair.0, slot);
        proof {
            let at = match slot {
                Some(at) => Some(at as int),
                None => None,
            };
            assert(at == first_closed(closed@));
            assert(self.ids() == placed(old(self).ids(), id, first_closed(closed@)));
            match slot {
                Some(k) => {
                    assert(self.ids()[k as int] == id);
                },
                None => {
                    assert(self.ids()[old(self).ids().len() as int] == id);
                },
            }
        }
        (CancelHandle { id }, pair.1)
    }

    /// Takes the slot of `id` out without firing its signal: what a
    /// completion does before it runs. `true` means that the task was
    /// pending, so the completion may run; `false` means that a
    /// cancellation came first.
    pub fn remove_cancel_id(&mut self, id: u64) -> (r: bool)
        requires
            old(self).wf(),
        ensures
            final(self).wf(),
            r == old(self).ids().contains(id),
            final(self).ids() == removed(old(self).ids(), id),
            !final(self).ids().contains(id),
            final(self).next() == old(self).next(),
            final(self).signalled() == old(self).signalled(),
    {
        match self.take_slot(id) {
            Some(_tx) => true,
            None => false,
        }
    }

    /// Takes the slot of `id` out and fires its signal. `true` means that
    /// the task was pending.
    pub fn cancel(&mut self, id: u64) -> (r: bool)
        requires
            old(self).wf(),
        ensures
            final(self).wf(),
            r == old(self).ids().contains(id),
            final(self).ids() == removed(old(self).ids(), id),
            !final(self).ids().contains(id),
            final(self).next() == old(self).next(),
            final(self).signalled() == if r {
                old(self).signalled().insert(id)
            } else {
                old(self).signalled()
            },
    {
        match self.take_slot(id) {
            Some(tx) => {
                let _ = signal::send(tx, ());
                self.fired = Ghost(self.fired@.insert(id));
                true
            },
            None => false,
        }
    }

    /// Cancels every pending task, last slot first: what happens when the
    /// object goes away.
    pub fn cancel_all(&mut self)
        requires
            old(self).wf(),
        ensures
            final(self).wf(),
            final(self).ids() == Seq::<u64>::empty(),
            final(self).next() == old(self).next(),
            final(self).signalled() == old(self).signalled().union(old(self).ids().to_set()),
    {
        while self.pending.len() > 0
            invariant
                self.wf(),
                self.next() == old(self).next(),
                self.ids().len() == self.pending@.len(),
                self.signalled().union(self.ids().to_set()) == old(self).signalled().union(
                    old(self).ids().to_set(),
                ),
            decreases self.pending@.len(),
        {
            let ghost before = *self;
            let entry = self.pending.pop().unwrap();
            let _ = signal::send(entry.1, ());
            self.fired = Ghost(self.fired@.insert(entry.0));
            proof {
                let n = self.ids().len() as int;
                assert(self.ids() =~= before.ids().take(n));
                assert(before.ids()[n] == entry.0);
                assert forall|x: u64| self.fired@.contains(x) implies !self.ids().contains(x) by {
                    if self.ids().contains(x) {
                        let i = choose|i: int| 0 <= i < self.ids().len() && self.ids()[i] == x;
                        assert(before.ids()[i] == x);
                        assert(before.ids().contains(x));
                    }
                }
                assert(self.signalled().union(self.ids().to_set()) =~= before.signalled().union(
                    before.ids().to_set(),
                )) by {
                    assert forall|x: u64|
                        self.signalled().union(self.ids().to_set()).contains(x)
                            <==> before.signalled().union(before.ids().to_set()).contains(x) by {
                        if self.ids().contains(x) {
                            let i = choose|i: int| 0 <= i < self.ids().len() && self.ids()[i] == x;
                            assert(before.ids()[i] == x);
                        }
                        if before.ids().contains(x) && x != entry.0 {
                            let i = choose|i: int|
                                0 <= i < before.ids().len() && before.ids()[i] == x;
                            assert(self.ids()[i] == x);
                        }
                    }
                }
            }
        }
        assert(self.ids() =~= Seq::<u64>::empty());
        assert(self.ids().to_set() =~= Set::<u64>::empty());
        assert(self.signalled().union(self.ids().to_set()) =~= self.signalled());
    }

    fn take_slot(&mut self, id: u64) -> (r: Option<Sender<()>>)
        requires
            old(self).wf(),
        ensures
            r is Some == old(self).ids().contains(id),
            final(self).ids() == removed(old(self).ids(), id),
            final(self).next() == old(self).next(),
            final(self).signalled() == old(self).signalled(),
            !final(self).ids().contains(id),
            final(self).ids().no_duplicates(),
            forall|x: u64| final(self).ids().contains(x) ==> old(self).ids().contains(x),
            r is None ==> final(self).wf(),
            r is Some ==> (forall|i: int|
                0 <= i < final(self).ids().len() ==> final(self).ids()[i] < final(self).next()),
            r is Some ==> id < final(self).next(),
    {
        match self.position(id) {
            None => None,
            Some(at) => {
                let entry = self.pending.remove(at);
                proof {
                    let before = old(self).ids();
                    let a = at as int;
                    assert(before.contains(id));
                    assert(before.index_of(id) == a) by {
                        let k = before.index_of(id);
                        assert(before[k] == id);
                    }
                    assert(self.ids() =~= before.remove(a));
                    assert forall|x: u64| self.ids().contains(x) implies before.contains(x) && x != id by {
                        let i = choose|i: int| 0 <= i < self.ids().len() && self.ids()[i] == x;
                        if i < a {
                            assert(before[i] == x);
                        } else {
                            assert(before[i + 1] == x);
                        }
                    }
                    assert forall|i: int, j: int| 0 <= i < self.ids().len() && 0 <= j < self.ids().len() && i != j implies self.ids()[i] != self.ids()[j] by {
                        let i2 = if i < a { i } else { i + 1 };
                        let j2 = if j < a { j } else { j + 1 };
                        assert(before[i2] == self.ids()[i]);
                        assert(before[j2] == self.ids()[j]);
                    }
                    assert forall|i: int| 0 <= i < self.ids().len() implies self.ids()[i] < self.next_id by {
                        let i2 = if i < a { i } else { i + 1 };
                        assert(before[i2] == self.ids()[i]);
                    }
                }
                Some(entry.1)
            },
        }
    }
}

/// Why a call for the owner thread did not produce a value.
#[derive(Clone, Copy, Debug, PartialEq, Eq, Structural)]
pub enum InvokeError {
    /// The object that the call was for was destroyed before the call was
    /// carried out.
    TargetIsDead,
    /// The call panicked on the owner thread.
    Panic,
}

impl InvokeError {
    /// The error in words.
    pub fn describe(&self) -> (r: String)
        ensures
            r@ == match self {
                InvokeError::TargetIsDead => "target is dead"@,
                InvokeError::Panic => "panic"@,
            },
    {
        match self {
            InvokeError::TargetIsDead => "target is dead".to_owned(),
            InvokeError::Panic => "panic".to_owned(),
        }
    }
}

/// Why a task that the owner thread waited for did not produce a value.
#[derive(Debug)]
pub enum SpawnBlockingError {
    /// The task panicked, with this message.
    Panic(String),
}

impl SpawnBlockingError {
    /// The error of a task that panicked with the given payload.
    pub fn from_panic(as_string: Option<&String>, as_str: Option<&str>) -> (r: Self)
        ensures
            r matches SpawnBlockingError::Panic(info) && info@ == match as_string {
                Some(s) => s@,
                None => match as_str {
                    Some(s) => s@,
                    None => "unknown"@,
                },
            },
    {
        SpawnBlockingError::Panic(panic_info(as_string, as_str).to_owned())
    }

    /// The error in words.
    pub fn describe(&self) -> (r: String)
        ensures
            self matches SpawnBlockingError::Panic(info) && r@ == "panic: "@ + info@,
    {
        match self {
            SpawnBlockingError::Panic(info) => "panic: ".to_owned().concat(info.as_str()),
        }
    }
}

/// What a task that the owner thread waits for hands back: its value, or
/// the message of its panic.
pub fn blocking_result<R>(outcome: Result<R, String>) -> (r: Result<R, SpawnBlockingError>)
    ensures
        match outcome {
            Ok(value) => r == Ok::<R, SpawnBlockingError>(value),
            Err(info) => r == Err::<R, SpawnBlockingError>(SpawnBlockingError::Panic(info)),
        },
{
    match outcome {
        Ok(value) => Ok(value),
        Err(info) => Err(SpawnBlockingError::Panic(info)),
    }
}

/// The way back into one object on the owner thread, for background tasks
/// that have something to tell it.
pub struct HandlerInvoker<T> {
    this: UnsafePointer<T>,
    dsp: Dispatcher,
    thread_id: u64,
}

impl<T> HandlerInvoker<T> {
    /// The object that is called.
    pub closed spec fn target(&self) -> usize {
        self.this.addr()
    }

    /// The owner thread.
    pub closed spec fn owner_thread(&self) -> u64 {
        self.thread_id
    }

    /// The queue that the calls go through.
    pub closed spec fn sink(&self) -> usize {
        self.dsp.sink()
    }

    /// Binds an invoker to the object `this`, which lives on the thread
    /// `thread_id` and is reached through `dsp`.
    pub fn bind(this: UnsafePointer<T>, dsp: Dispatcher, thread_id: u64) -> (r: Self)
        ensures
            r.target() == this.addr(),
            r.owner_thread() == thread_id,
            r.sink() == dsp.sink(),
    {
        HandlerInvoker { this, dsp, thread_id }
    }

    /// A handle to the object that is called.
    pub fn this(&self) -> (r: UnsafePointer<T>)
        ensures
            r.addr() == self.target(),
    {
        self.this.clone()
    }

    /// The dispatcher that the calls go through.
    pub fn dispatcher(&self) -> (r: Dispatcher)
        ensures
            r.sink() == self.sink(),
    {
        self.dsp
    }

    /// The owner thread.
    pub fn thread_id(&self) -> (r: u64)
        ensures
            r == self.owner_thread(),
    {
        self.thread_id
    }

    /// Begins a call from the thread `caller_thread`, which is not the
    /// owner thread. Where the object is already dead the call ends here
    /// and nothing is parked. Else the call is parked, parameter and
    /// message, and its delivery starts.
    pub fn invoke<P, H, W>(
        &self,
        caller_thread: u64,
        target_dead: bool,
        transit: &mut Transit<P, H, W>,
        param: P,
        handler: H,
        alive: W,
    ) -> (r: Result<(Delivery, Receiver<()>), InvokeError>)
        requires
            caller_thread != self.owner_thread(),
            old(transit).wf(),
            old(transit).next_pack() < usize::MAX,
            old(transit).boxed() < usize::MAX,
        ensures
            final(transit).wf(),
            final(transit).unboxed() == old(transit).unboxed(),
            match r {
                Ok((delivery, ack)) => {
                    &&& !target_dead
                    &&& delivery.state() == DeliveryState::Posting
                    &&& delivery.raw() == old(transit).next_pack()
                    &&& final(transit).packs().dom() == old(transit).packs().dom().insert(
                        delivery.raw(),
                    )
                    &&& forall|k: usize|
                        old(transit).packs().contains_key(k) ==> final(transit).packs()[k] == old(
                            transit,
                        ).packs()[k]
                    &&& final(transit).packs()[delivery.raw()].payload matches MessagePayload::Invoke(
                        call,
                    ) && call.handler == handler && call.alive == alive && call.param.addr()
                        == old(transit).boxed()
                    &&& final(transit).params() == old(transit).params().insert(
                        old(transit).boxed() as usize,
                        param,
                    )
                    &&& final(transit).boxed() == old(transit).boxed() + 1
                },
                Err(e) => {
                    &&& target_dead
                    &&& e == InvokeError::TargetIsDead
                    &&& final(transit).packs() == old(transit).packs()
                    &&& final(transit).params() == old(transit).params()
                    &&& final(transit).boxed() == old(transit).boxed()
                },
            },
    {
        if target_dead {
            return Err(InvokeError::TargetIsDead);
        }
        Ok(self.dsp.dispatch_invoke(transit, param, handler, alive))
    }
}

impl<T> HandlerInvoker<T> {
    /// Sends the diagnostic of a panic with the message `info` to the owner
    /// thread: the message and the stack of the thread that caught it.
    pub fn panic<P, H, W>(&self, transit: &mut Transit<P, H, W>, info: &str) -> (r: (
        Delivery,
        Receiver<()>,
    ))
        requires
            old(transit).wf(),
            old(transit).next_pack() < usize::MAX,
        ensures
            final(transit).wf(),
            r.0.state() == DeliveryState::Posting,
            r.0.raw() == old(transit).next_pack(),
            final(transit).packs().dom() == old(transit).packs().dom().insert(r.0.raw()),
            forall|k: usize|
                old(transit).packs().contains_key(k) ==> final(transit).packs()[k] == old(
                    transit,
                ).packs()[k],
            final(transit).params() == old(transit).params(),
            final(transit).boxed() == old(transit).boxed(),
            final(transit).unboxed() == old(transit).unboxed(),
            final(transit).packs()[r.0.raw()].payload matches MessagePayload::Panic(report)
                && exists|trace: Seq<char>|
                report.info@ == info@ + "\r\nbacktrace:\r\n"@ + trace,
    {
        let report = panic_diagnostic(info);
        self.dsp.dispatch_panic(transit, report)
    }
}

impl<T> Clone for HandlerInvoker<T> {
    /// A second invoker for the same object.
    fn clone(&self) -> (r: Self)
        ensures
            r.target() == self.target(),
            r.owner_thread() == self.owner_thread(),
            r.sink() == self.sink(),
    {
        HandlerInvoker { this: self.this.clone(), dsp: self.dsp, thread_id: self.thread_id }
    }
}

/// What a call's message does once it is opened: where the call is to be
/// carried out and its parameter was still parked, `handler` gets the
/// parameter and its value is the answer. Else nothing is called; the
/// parameter, if there is one, is let go.
pub fn answer<P, R, F>(param: Option<P>, invoke: bool, handler: F) -> (r: Option<R>) where
    F: FnOnce(P) -> R,

    requires
        forall|p: P| call_requires(handler, (p,)),
    ensures
        match param {
            Some(p) => if invoke {
                r matches Some(value) && call_ensures(handler, (p,), value)
            } else {
                r is None
            },
            None => r is None,
        },
{
    match param {
        Some(p) => if invoke {
            Some(handler(p))
        } else {
            None
        },
        None => None,
    }
}

/// What the caller learns from the dispatcher: a message that could not be
/// delivered means that the target is dead.
pub fn invoke_dispatched(delivered: bool) -> (r: Result<(), InvokeError>)
    ensures
        r == if delivered {
            Ok::<(), InvokeError>(())
        } else {
            Err::<(), InvokeError>(InvokeError::TargetIsDead)
        },
{
    if delivered {
        Ok(())
    } else {
        Err(InvokeError::TargetIsDead)
    }
}

/// What the caller learns from the answer: the value; no value, because the
/// object was dead when the message was opened; or no answer at all,
/// because the call panicked and took the answering half with it.
pub fn invoke_reply<R>(reply: Result<Option<R>, RecvError>) -> (r: Result<R, InvokeError>)
    ensures
        match reply {
            Ok(Some(value)) => r == Ok::<R, InvokeError>(value),
            Ok(None) => r == Err::<R, InvokeError>(InvokeError::TargetIsDead),
            Err(_) => r == Err::<R, InvokeError>(InvokeError::Panic),
        },
{
    match reply {
        Ok(Some(value)) => Ok(value),
        Ok(None) => Err(InvokeError::TargetIsDead),
        Err(_) => Err(InvokeError::Panic),
    }
}

} // verus!
