//! Userspace control plane for a kernel-resident packet filter.
//!
//! The kernel-side program emits fixed-layout verdict records on named event
//! channels; this crate decodes those records, renders them for an operator,
//! and decides the startup, event-loop and shutdown steps of the process.
//! Loading and attaching the packet-filtering program, and the asynchronous
//! plumbing around the event stream, are left to the thin binary built on top
//! of this crate.

pub mod codec;
pub mod control;
pub mod present;
