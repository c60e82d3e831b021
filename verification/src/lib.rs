//! A small actor concurrency primitive.
//!
//! An actor is a privately owned piece of state that can be reached only
//! through messages. Each actor is served by a [`mailbox::Mailbox`], which
//! queues incoming calls and dispatches them under a readers/writer
//! discipline: exclusive (mutating) calls are serialized against everything
//! else, while shared (read-only) calls may run concurrently with each other.
//!
//! The crate also contains the length-prefixed frame decoder used to split a
//! raw byte stream from a collaborating process into discrete frames.

pub mod actor;
pub mod counter;
pub mod frame;
pub mod mailbox;
pub mod stream;
