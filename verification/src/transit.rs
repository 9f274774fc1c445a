//! What is under way between the threads: the parked messages and the
//! parked parameters of the calls among them.
//!
//! A call is parked in two parts, its parameter and the message that
//! carries the parameter's number. The two are parked together and leave
//! together: whoever takes the message out, the owner thread that opens it
//! or the sender that takes it back, takes the parameter out with it. So
//! there is no parameter without its message, and a parameter leaves
//! exactly once.

use crate::mem::{BoxHeap, UnsafeBox};
use crate::signal;
use tokio::sync::oneshot::{Receiver, Sender};
use vstd::prelude::*;

verus! {

/// A call for the owner thread: the handle of the parked parameter, what to
/// do with the parameter, and the watch on the object that the call is for.
pub struct PayloadInvoke<H, W> {
    pub param: UnsafeBox<()>,
    pub handler: H,
    pub alive: W,
}

/// A diagnostic for the owner thread to report.
pub struct PayloadPanic {
    pub info: String,
}

/// What a message carries.
pub enum MessagePayload<H, W> {
    Invoke(PayloadInvoke<H, W>),
    Panic(PayloadPanic),
}

/// The unit that crosses the thread boundary: what it carries, and the
/// signal by which the owner thread says that it has taken it.
pub struct MessagePack<H, W> {
    pub payload: MessagePayload<H, W>,
    pub tx: Sender<()>,
}

/// What the owner thread finds when its loop hands it a message number.
pub enum Received<P, H, W> {
    /// Nothing is parked under the number: the sender has taken the message
    /// back.
    Stale,
    /// A call, with its parameter. `acked` says whether the sender still
    /// listened when it was told that the message was taken.
    Invoke { param: P, handler: H, alive: W, acked: bool },
    /// A diagnostic to report.
    Throw { info: String },
}

/// A message that was taken out, with what left with it.
enum Taken<P, H, W> {
    Call { param: P, handler: H, alive: W, tx: Sender<()> },
    Report { info: String, tx: Sender<()> },
}

/// The number of the parameter that `pack` carries, if it is a call.
pub open spec fn carried<H, W>(pack: MessagePack<H, W>) -> Option<usize> {
    match pack.payload {
        MessagePayload::Invoke(call) => Some(call.param.addr()),
        MessagePayload::Panic(_) => None,
    }
}

/// The messages and parameters that are under way.
pub struct Transit<P, H, W> {
    packs: BoxHeap<MessagePack<H, W>>,
    params: BoxHeap<P>,
    owner: Ghost<Map<usize, usize>>,
}

impl<P, H, W> Transit<P, H, W> {
    /// The parked messages by number.
    pub closed spec fn packs(&self) -> Map<usize, MessagePack<H, W>> {
        self.packs@
    }

    /// The parked parameters by number.
    pub closed spec fn params(&self) -> Map<usize, P> {
        self.params@
    }

    /// The number that the next message gets.
    pub closed spec fn next_pack(&self) -> nat {
        self.packs.issued()
    }

    /// How many parameters were parked so far; also the next one's number.
    pub closed spec fn boxed(&self) -> nat {
        self.params.issued()
    }

    /// How many parameters were taken out so far.
    pub closed spec fn unboxed(&self) -> nat {
        self.params.released()
    }

    /// Every parked parameter is carried by one parked message, and every
    /// parked call carries a parked parameter of its own.
    pub closed spec fn wf(&self) -> bool {
        &&& self.packs.wf()
        &&& self.params.wf()
        &&& forall|k: usize| #[trigger] self.params@.contains_key(k) ==> self.owner@.contains_key(k)
        &&& forall|k: usize|
            #[trigger] self.owner@.contains_key(k) ==> {
                &&& self.params@.contains_key(k)
                &&& self.packs@.contains_key(self.owner@[k])
                &&& carried(self.packs@[self.owner@[k]]) == Some(k)
            }
        &&& forall|raw: usize|
            #[trigger] self.packs@.contains_key(raw) ==> (carried(self.packs@[raw]) matches Some(k)
                ==> self.owner@.contains_key(k) && self.owner@[k] == raw)
    }

    /// Nothing under way.
    pub fn new() -> (r: Self)
        ensures
            r.wf(),
            r.packs() == Map::<usize, MessagePack<H, W>>::empty(),
            r.params() == Map::<usize, P>::empty(),
            r.next_pack() == 0,
            r.boxed() == 0,
            r.unboxed() == 0,
    {
        Transit { packs: BoxHeap::new(), params: BoxHeap::new(), owner: Ghost(Map::empty()) }
    }

    /// Whether the numbers are used up, so that nothing more can be parked.
    pub fn is_exhausted(&self) -> (r: bool)
        ensures
            r == (self.next_pack() == usize::MAX || self.boxed() == usize::MAX),
    {
        self.packs.is_exhausted() || self.params.is_exhausted()
    }

    /// How many messages are parked.
    pub fn pending(&self) -> (r: usize)
        requires
            self.wf(),
        ensures
            r == self.packs().len(),
            self.packs().dom().finite(),
    {
        self.packs.len()
    }

    /// How many parameters are parked.
    pub fn parked(&self) -> (r: usize)
        requires
            self.wf(),
        ensures
            r == self.params().len(),
            r == self.boxed() - self.unboxed(),
            self.params().dom().finite(),
    {
        self.params.len()
    }

    /// Whether a message is parked under `raw`.
    pub fn contains(&self, raw: usize) -> (r: bool)
        requires
            self.wf(),
        ensures
            r == self.packs().contains_key(raw),
    {
        self.packs.contains(raw)
    }

    /// No parameter waits without a message that will bring it out: every
    /// parked parameter has its message, no two messages carry the same
    /// parameter, and what was parked is either still parked or was taken
    /// out once.
    pub proof fn lemma_parameters_follow_messages(&self)
        requires
            self.wf(),
        ensures
            forall|k: usize| #[trigger]
                self.params().contains_key(k) ==> exists|raw: usize|
                    self.packs().contains_key(raw) && carried(self.packs()[raw]) == Some(k),
            forall|raw: usize| #[trigger]
                self.packs().contains_key(raw) ==> (carried(self.packs()[raw]) matches Some(k)
                    ==> self.params().contains_key(k)),
            forall|a: usize, b: usize|
                self.packs().contains_key(a) && self.packs().contains_key(b) && carried(
                    self.packs()[a],
                ) is Some && carried(self.packs()[a]) == carried(self.packs()[b]) ==> a == b,
            self.packs() == Map::<usize, MessagePack<H, W>>::empty() ==> self.params() == Map::<
                usize,
                P,
            >::empty(),
            self.params().dom().finite(),
            self.unboxed() + self.params().len() == self.boxed(),
    {
        self.params.lemma_conservation();
        assert forall|k: usize| #[trigger] self.params().contains_key(k) implies exists|raw: usize|
            self.packs().contains_key(raw) && carried(self.packs()[raw]) == Some(k) by {
            assert(self.owner@.contains_key(k));
            let raw = self.owner@[k];
            assert(self.packs().contains_key(raw) && carried(self.packs()[raw]) == Some(k));
        }
        if self.packs() == Map::<usize, MessagePack<H, W>>::empty() {
            assert forall|k: usize| !self.params().contains_key(k) by {
                if self.params().contains_key(k) {
                    assert(self.owner@.contains_key(k));
                    assert(self.packs().contains_key(self.owner@[k]));
                }
            }
            assert(self.params() =~= Map::<usize, P>::empty());
        }
    }

    /// Parks a call: the parameter, and the message that carries it.
    /// Returns the message's number and the half on which the owner
    /// thread's signal comes.
    pub fn post_invoke(&mut self, param: P, handler: H, alive: W) -> (r: (usize, Receiver<()>))
        requires
            old(self).wf(),
            old(self).next_pack() < usize::MAX,
            old(self).boxed() < usize::MAX,
        ensures
            final(self).wf(),
            r.0 == old(self).next_pack(),
            !old(self).packs().contains_key(r.0),
            !old(self).params().contains_key(old(self).boxed() as usize),
            final(self).packs().dom() == old(self).packs().dom().insert(r.0),
            forall|k: usize| old(self).packs().contains_key(k) ==> final(self).packs()[k] == old(
                self,
            ).packs()[k],
            final(self).packs()[r.0].payload matches MessagePayload::Invoke(call) && call.handler
                == handler && call.alive == alive && call.param.addr() == old(self).boxed(),
            final(self).params() == old(self).params().insert(old(self).boxed() as usize, param),
            final(self).next_pack() == old(self).next_pack() + 1,
            final(self).boxed() == old(self).boxed() + 1,
            final(self).unboxed() == old(self).unboxed(),
    {
        let pair = signal::channel::<()>();
        let parked = UnsafeBox::pack(&mut self.params, param);
        let ghost k = parked.addr();
        let call = PayloadInvoke { param: parked.cast::<()>(), handler, alive };
        let pack = UnsafeBox::pack(
            &mut self.packs,
            MessagePack { payload: MessagePayload::Invoke(call), tx: pair.0 },
        );
        let raw = pack.into_raw();
        proof {
            self.owner@ = self.owner@.insert(k, raw);
            assert(self.packs@.dom() =~= old(self).packs@.dom().insert(raw));
            assert forall|x: usize| #[trigger] self.owner@.contains_key(x) implies {
                &&& self.params@.contains_key(x)
                &&& self.packs@.contains_key(self.owner@[x])
                &&& carried(self.packs@[self.owner@[x]]) == Some(x)
            } by {
                if x != k {
                    assert(old(self).owner@.contains_key(x));
                    assert(old(self).packs@.contains_key(old(self).owner@[x]));
                }
            }
            assert forall|y: usize| #[trigger] self.packs@.contains_key(y) implies (carried(
                self.packs@[y],
            ) matches Some(x) ==> self.owner@.contains_key(x) && self.owner@[x] == y) by {
                if y != raw {
                    assert(old(self).packs@.contains_key(y));
                    if let Some(x) = carried(old(self).packs@[y]) {
                        assert(old(self).owner@.contains_key(x));
                        assert(old(self).params@.contains_key(x));
                    }
                }
            }
        }
        (raw, pair.1)
    }

    /// Parks a diagnostic. Returns the message's number and the half on
    /// which the owner thread's signal comes.
    pub fn post_panic(&mut self, info: String) -> (r: (usize, Receiver<()>))
        requires
            old(self).wf(),
            old(self).next_pack() < usize::MAX,
        ensures
            final(self).wf(),
            r.0 == old(self).next_pack(),
            !old(self).packs().contains_key(r.0),
            final(self).packs().dom() == old(self).packs().dom().insert(r.0),
            forall|k: usize| old(self).packs().contains_key(k) ==> final(self).packs()[k] == old(
                self,
            ).packs()[k],
            final(self).packs()[r.0].payload == MessagePayload::<H, W>::Panic(PayloadPanic { info }),
            final(self).params() == old(self).params(),
            final(self).next_pack() == old(self).next_pack() + 1,
            final(self).boxed() == old(self).boxed(),
            final(self).unboxed() == old(self).unboxed(),
    {
        let pair = signal::channel::<()>();
        let pack = UnsafeBox::pack(
            &mut self.packs,
            MessagePack { payload: MessagePayload::Panic(PayloadPanic { info }), tx: pair.0 },
        );
        let raw = pack.into_raw();
        proof {
            assert(self.packs@.dom() =~= old(self).packs@.dom().insert(raw));
            assert forall|x: usize| #[trigger] self.owner@.contains_key(x) implies {
                &&& self.params@.contains_key(x)
                &&& self.packs@.contains_key(self.owner@[x])
                &&& carried(self.packs@[self.owner@[x]]) == Some(x)
            } by {
                assert(old(self).owner@.contains_key(x));
                assert(old(self).packs@.contains_key(old(self).owner@[x]));
            }
            assert forall|y: usize| #[trigger] self.packs@.contains_key(y) implies (carried(
                self.packs@[y],
            ) matches Some(x) ==> self.owner@.contains_key(x) && self.owner@[x] == y) by {
                if y != raw {
                    assert(old(self).packs@.contains_key(y));
                }
            }
        }
        (raw, pair.1)
    }

    /// Takes the message out, and with it the parameter that it carries.
    fn take(&mut self, raw: usize) -> (r: Option<Taken<P, H, W>>)
        requires
            old(self).wf(),
        ensures
            final(self).wf(),
            final(self).packs() == old(self).packs().remove(raw),
            final(self).next_pack() == old(self).next_pack(),
            final(self).boxed() == old(self).boxed(),
            match r {
                None => {
                    &&& !old(self).packs().contains_key(raw)
                    &&& final(self).params() == old(self).params()
                    &&& final(self).unboxed() == old(self).unboxed()
                },
                Some(Taken::Call { param, handler, alive, tx }) => {
                    &&& old(self).packs().contains_key(raw)
                    &&& old(self).packs()[raw].payload matches MessagePayload::Invoke(call)
                    &&& call.handler == handler
                    &&& call.alive == alive
                    &&& old(self).params().contains_key(call.param.addr())
                    &&& param == old(self).params()[call.param.addr()]
                    &&& final(self).params() == old(self).params().remove(call.param.addr())
                    &&& final(self).unboxed() == old(self).unboxed() + 1
                },
                Some(Taken::Report { info, tx }) => {
                    &&& old(self).packs().contains_key(raw)
                    &&& old(self).packs()[raw].payload == MessagePayload::<H, W>::Panic(
                        PayloadPanic { info },
                    )
                    &&& final(self).params() == old(self).params()
                    &&& final(self).unboxed() == old(self).unboxed()
                },
            },
    {
        let handle: UnsafeBox<MessagePack<H, W>> = UnsafeBox::from_raw(raw);
        match handle.take(&mut self.packs) {
            None => {
                assert(self.packs@ =~= old(self).packs@.remove(raw));
                None
            },
            Some(pack) => {
                assert(old(self).packs@.contains_key(raw));
                match pack.payload {
                    MessagePayload::Invoke(call) => {
                        let ghost k = call.param.addr();
                        assert(carried(old(self).packs@[raw]) == Some(k));
                        assert(old(self).owner@.contains_key(k));
                        let param = call.param.cast::<P>().unpack(&mut self.params);
                        proof {
                            self.owner@ = self.owner@.remove(k);
                            assert forall|y: usize| #[trigger]
                                self.packs@.contains_key(y) implies (carried(
                                self.packs@[y],
                            ) matches Some(x) ==> self.owner@.contains_key(x) && self.owner@[x]
                                == y) by {
                                assert(old(self).packs@.contains_key(y));
                            }
                        }
                        Some(Taken::Call { param, handler: call.handler, alive: call.alive, tx: pack.tx })
                    },
                    MessagePayload::Panic(report) => {
                        assert(carried(old(self).packs@[raw]) is None);
                        Some(Taken::Report { info: report.info, tx: pack.tx })
                    },
                }
            },
        }
    }

    /// The owner thread opens the message with the number `raw`: the
    /// message leaves, the parameter of a call leaves with it, and the
    /// sender is told.
    pub fn open(&mut self, raw: usize) -> (r: Received<P, H, W>)
        requires
            old(self).wf(),
        ensures
            final(self).wf(),
            final(self).packs() == old(self).packs().remove(raw),
            final(self).next_pack() == old(self).next_pack(),
            final(self).boxed() == old(self).boxed(),
            match r {
                Received::Stale => {
                    &&& !old(self).packs().contains_key(raw)
                    &&& final(self).params() == old(self).params()
                    &&& final(self).unboxed() == old(self).unboxed()
                },
                Received::Invoke { param, handler, alive, acked } => {
                    &&& old(self).packs().contains_key(raw)
                    &&& old(self).packs()[raw].payload matches MessagePayload::Invoke(call)
                    &&& call.handler == handler
                    &&& call.alive == alive
                    &&& old(self).params().contains_key(call.param.addr())
                    &&& param == old(self).params()[call.param.addr()]
                    &&& final(self).params() == old(self).params().remove(call.param.addr())
                    &&& final(self).unboxed() == old(self).unboxed() + 1
                },
                Received::Throw { info } => {
                    &&& old(self).packs().contains_key(raw)
                    &&& old(self).packs()[raw].payload == MessagePayload::<H, W>::Panic(
                        PayloadPanic { info },
                    )
                    &&& final(self).params() == old(self).params()
                    &&& final(self).unboxed() == old(self).unboxed()
                },
            },
    {
        match self.take(raw) {
            None => Received::Stale,
            Some(Taken::Call { param, handler, alive, tx }) => {
                let acked = signal::send(tx, ());
                Received::Invoke { param, handler, alive, acked }
            },
            Some(Taken::Report { info, tx }) => {
                let _ = signal::send(tx, ());
                Received::Throw { info }
            },
        }
    }

    /// The sender takes the message with the number `raw` back, so that
    /// what it holds is released: the parameter of a call leaves with it
    /// and is given to the call's handler with `false`, which lets the
    /// handler clean up without calling anything. Where the owner thread
    /// has opened the message after all, nothing is left to do. `true` says
    /// that the message was still parked.
    pub fn take_back(&mut self, raw: usize) -> (r: bool) where H: FnOnce(P, bool)
        requires
            old(self).wf(),
            old(self).packs().contains_key(raw) ==> (old(self).packs()[raw].payload matches MessagePayload::Invoke(
                call,
            ) ==> call_requires(call.handler, (old(self).params()[call.param.addr()], false))),
        ensures
            final(self).wf(),
            r == old(self).packs().contains_key(raw),
            final(self).packs() == old(self).packs().remove(raw),
            final(self).next_pack() == old(self).next_pack(),
            final(self).boxed() == old(self).boxed(),
            match (if r {
                carried(old(self).packs()[raw])
            } else {
                None
            }) {
                Some(k) => {
                    &&& old(self).params().contains_key(k)
                    &&& final(self).params() == old(self).params().remove(k)
                    &&& final(self).unboxed() == old(self).unboxed() + 1
                    &&& old(self).packs()[raw].payload matches MessagePayload::Invoke(call)
                        && call_ensures(call.handler, (old(self).params()[k], false), ())
                },
                None => {
                    &&& final(self).params() == old(self).params()
                    &&& final(self).unboxed() == old(self).unboxed()
                },
            },
    {
        match self.take(raw) {
            None => false,
            Some(Taken::Call { param, handler, alive, tx }) => {
                handler(param, false);
                true
            },
            Some(Taken::Report { info, tx }) => true,
        }
    }
}

} // verus!
