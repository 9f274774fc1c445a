//! A waitable event of the operating system, as something to await.
//!
//! To await the event is to register a one-shot wait with the system. The
//! system then calls back with a number, under which the sending half of a
//! signal is parked; whoever comes first, the callback or the end of the
//! wait, takes it out.

use crate::mem::{BoxHeap, UnsafeBox};
use crate::signal;
use tokio::sync::oneshot::{Receiver, Sender};
use vstd::prelude::*;

verus! {

/// The wait ended because the event was signalled.
pub const WAIT_OBJECT_0: u32 = 0;

/// The wait ended because the time was up.
pub const WAIT_TIMEOUT: u32 = 258;

/// The time-out that never ends.
pub const INFINITE: u32 = 0xFFFF_FFFF;

/// A wait that is registered with the system.
#[derive(Clone, Copy, Debug, PartialEq, Eq, Structural)]
pub struct Waiting {
    /// The system's handle of the wait.
    pub wait_object: usize,
    /// The number under which the signal's sending half is parked.
    pub tx: usize,
}

/// An event handle, owned or borrowed.
pub struct Win32Event {
    handle: usize,
    owned: bool,
    waiting: Option<Waiting>,
}

/// What is to be released with an event.
#[derive(Clone, Copy, Debug, PartialEq, Eq, Structural)]
pub struct Release {
    /// The wait to take back from the system, where one is registered.
    pub unregister: Option<Waiting>,
    /// The handle to close, where the event owns it.
    pub close: Option<usize>,
}

/// What a poll of the event does first.
#[derive(Clone, Copy, Debug, PartialEq, Eq, Structural)]
pub enum PollPlan {
    /// No wait is registered: register one.
    Register,
    /// A wait is registered: listen for its signal.
    Listen,
}

impl Win32Event {
    /// The system's handle.
    pub closed spec fn spec_raw(&self) -> usize {
        self.handle
    }

    /// Whether the handle is closed with the event.
    pub closed spec fn spec_owned(&self) -> bool {
        self.owned
    }

    /// The wait that is registered, if one is.
    pub closed spec fn spec_waiting(&self) -> Option<Waiting> {
        self.waiting
    }

    /// An event for a handle that somebody else closes.
    pub fn from_raw(handle: usize) -> (r: Self)
        ensures
            r.as_raw() == handle,
            !r.is_owned(),
            r.waiting() is None,
    {
        Win32Event { handle, owned: false, waiting: None }
    }

    /// An event for a handle that is closed with it.
    pub fn take_raw(handle: usize) -> (r: Self)
        ensures
            r.as_raw() == handle,
            r.is_owned(),
            r.waiting() is None,
    {
        Win32Event { handle, owned: true, waiting: None }
    }

    /// Gives the handle up without closing it. A wait that is registered
    /// is still to be taken back.
    pub fn into_raw(self) -> (r: (usize, Option<Waiting>))
        ensures
            r.0 == self.as_raw(),
            r.1 == self.waiting(),
    {
        (self.handle, self.waiting)
    }

    /// The system's handle.
    #[verifier::when_used_as_spec(spec_raw)]
    pub fn as_raw(&self) -> (r: usize)
        ensures
            r == self.spec_raw(),
    {
        self.handle
    }

    /// Whether the handle is closed with the event.
    #[verifier::when_used_as_spec(spec_owned)]
    pub fn is_owned(&self) -> (r: bool)
        ensures
            r == self.spec_owned(),
    {
        self.owned
    }

    /// The wait that is registered, if one is.
    #[verifier::when_used_as_spec(spec_waiting)]
    pub fn waiting(&self) -> (r: Option<Waiting>)
        ensures
            r == self.spec_waiting(),
    {
        self.waiting
    }

    /// What a poll does first: a wait is registered only where none is.
    pub fn poll_plan(&self) -> (r: PollPlan)
        ensures
            r == if self.waiting() is None {
                PollPlan::Register
            } else {
                PollPlan::Listen
            },
    {
        match self.waiting {
            None => PollPlan::Register,
            Some(_) => PollPlan::Listen,
        }
    }

    /// Prepares a wait: parks the sending half of a fresh signal, whose
    /// number goes to the system with the registration, and returns it
    /// with the half to listen on.
    pub fn prepare_wait(&self, heap: &mut BoxHeap<Sender<()>>) -> (r: (usize, Receiver<()>))
        requires
            self.waiting() is None,
            old(heap).wf(),
            old(heap).issued() < usize::MAX,
        ensures
            final(heap).wf(),
            r.0 == old(heap).issued(),
            !old(heap)@.contains_key(r.0),
            final(heap)@.dom() == old(heap)@.dom().insert(r.0),
            forall|k: usize| old(heap)@.contains_key(k) ==> final(heap)@[k] == old(heap)@[k],
            final(heap).issued() == old(heap).issued() + 1,
            final(heap).released() == old(heap).released(),
    {
        let pair = signal::channel::<()>();
        let handle = UnsafeBox::pack(heap, pair.0);
        let raw = handle.into_raw();
        assert(heap@.dom() =~= old(heap)@.dom().insert(raw));
        (raw, pair.1)
    }

    /// Records how the registration ended. Where the system took the wait,
    /// with the handle `wait_object`, the event is waiting from now on.
    /// Where it refused, the parked half is taken out again and the poll
    /// ends with the system's error: `false` is returned.
    pub fn registered(
        &mut self,
        heap: &mut BoxHeap<Sender<()>>,
        tx: usize,
        wait_object: Option<usize>,
    ) -> (r: bool)
        requires
            old(self).waiting() is None,
            old(heap).wf(),
        ensures
            final(heap).wf(),
            final(self).as_raw() == old(self).as_raw(),
            final(self).is_owned() == old(self).is_owned(),
            r == wait_object is Some,
            final(heap).issued() == old(heap).issued(),
            match wait_object {
                Some(object) => {
                    &&& final(self).waiting() == Some(Waiting { wait_object: object, tx })
                    &&& final(heap)@ == old(heap)@
                    &&& final(heap).released() == old(heap).released()
                },
                None => {
                    &&& final(self).waiting() is None
                    &&& final(heap)@ == old(heap)@.remove(tx)
                },
            },
    {
        match wait_object {
            Some(object) => {
                self.waiting = Some(Waiting { wait_object: object, tx });
                true
            },
            None => {
                let handle: UnsafeBox<Sender<()>> = UnsafeBox::from_raw(tx);
                let dropped = handle.take(heap);
                assert(heap@ =~= old(heap)@.remove(tx));
                false
            },
        }
    }

    /// What is to be released when the event goes: the wait, where one is
    /// registered, and the handle, where the event owns it. Afterwards the
    /// event holds neither, so that nothing is released twice.
    pub fn release(&mut self) -> (r: Release)
        ensures
            r.unregister == old(self).waiting(),
            r.close == if old(self).is_owned() {
                Some(old(self).as_raw())
            } else {
                None
            },
            final(self).waiting() is None,
            !final(self).is_owned(),
            final(self).as_raw() == old(self).as_raw(),
    {
        let unregister = self.waiting;
        let close = if self.owned {
            Some(self.handle)
        } else {
            None
        };
        self.waiting = None;
        self.owned = false;
        Release { unregister, close }
    }

    /// What a wait on the event has come to: `Ok(true)` where the event was
    /// signalled, `Ok(false)` where the time was up, and the system's code
    /// as the error for anything else.
    pub fn wait_result(code: u32) -> (r: Result<bool, u32>)
        ensures
            r == if code == WAIT_OBJECT_0 {
                Ok::<bool, u32>(true)
            } else if code == WAIT_TIMEOUT {
                Ok::<bool, u32>(false)
            } else {
                Err::<bool, u32>(code)
            },
    {
        if code == WAIT_OBJECT_0 {
            Ok(true)
        } else if code == WAIT_TIMEOUT {
            Ok(false)
        } else {
            Err(code)
        }
    }

    /// The time-out that the system is given for a wait of `millis`
    /// milliseconds: the low 32 bits.
    pub fn timeout_millis(millis: u128) -> (r: u32)
        ensures
            r == millis % 0x1_0000_0000,
    {
        (millis % 0x1_0000_0000) as u32
    }
}

impl Waiting {
    /// The system calls back: the event was signalled. The parked half is
    /// taken out and the signal is sent. `false` says that the half was
    /// gone already, and then nothing is sent.
    pub fn callback(heap: &mut BoxHeap<Sender<()>>, tx: usize) -> (r: bool)
        requires
            old(heap).wf(),
        ensures
            final(heap).wf(),
            r == old(heap)@.contains_key(tx),
            final(heap)@ == old(heap)@.remove(tx),
            final(heap).issued() == old(heap).issued(),
            final(heap).released() == old(heap).released() + if r {
                1nat
            } else {
                0nat
            },
    {
        let handle: UnsafeBox<Sender<()>> = UnsafeBox::from_raw(tx);
        match handle.take(heap) {
            Some(sender) => {
                let _ = signal::send(sender, ());
                true
            },
            None => {
                assert(heap@ =~= old(heap)@.remove(tx));
                false
            },
        }
    }

    /// Ends the wait after the system has let go of it: the parked half,
    /// where the callback has not taken it, is taken out and let go.
    /// `true` says that it was still parked, so the event never fired.
    pub fn discard(self, heap: &mut BoxHeap<Sender<()>>) -> (r: bool)
        requires
            old(heap).wf(),
        ensures
            final(heap).wf(),
            r == old(heap)@.contains_key(self.tx),
            final(heap)@ == old(heap)@.remove(self.tx),
            final(heap).issued() == old(heap).issued(),
            final(heap).released() == old(heap).released() + if r {
                1nat
            } else {
                0nat
            },
    {
        let handle: UnsafeBox<Sender<()>> = UnsafeBox::from_raw(self.tx);
        match handle.take(heap) {
            Some(_sender) => true,
            None => {
                assert(heap@ =~= old(heap)@.remove(self.tx));
                false
            },
        }
    }
}

} // verus!
