//! The decision core of a small actor runtime.
//!
//! Actors are isolated state machines that talk by messages. This crate holds
//! the rules of the runtime as verified functions: how an actor's event loop
//! moves from one phase to the next, what a timer does on a tick, who is
//! notified when an actor terminates, what a sender is told when a mailbox is
//! full or closed, how remote envelopes are written to bytes, framed on a
//! stream and routed by their type tag. The task scheduler, the timers and
//! the sockets are driven by the host program.

pub mod actor;
pub mod address;
pub mod error;
pub mod event_loop;
pub mod message;
pub mod remote;
pub mod supervisor;
pub mod timer;
pub mod watcher;

pub use actor::{ActorId, IdSource};
pub use address::{is_alive, try_send, ChildHandle, DEFAULT_MAILBOX_CAPACITY};
pub use error::MailboxError;
pub use message::{Message, Terminated};
pub use supervisor::SupervisorStrategy;
pub use watcher::Watcher;
