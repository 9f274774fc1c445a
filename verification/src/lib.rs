//! Cross-thread asynchronous invocation reactor.
//!
//! Background work runs on one worker thread; its results are carried back
//! to the owner thread, which hosts objects that may disappear at any time.
//! This crate holds the rules of that exchange: who may release a parked
//! value, who wins when a cancellation and a completion race, what a sender
//! does when its target is gone. The threads, the event loop and the timers
//! belong to the program around it.

pub mod context;
pub mod event;
pub mod flight;
pub mod futures;
pub mod handler;
pub mod http;
pub mod mem;
pub mod mqtt;
pub mod retcode;
pub mod runtime;
pub mod signal;
pub mod slots;
pub mod task;
pub mod transit;

pub use handler::{CancelHandle, HandlerInvoker, HandlerState, InvokeError, SpawnBlockingError};
pub use mem::{BoxHeap, UnsafeBox, UnsafePointer};
