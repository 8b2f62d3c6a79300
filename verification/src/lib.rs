//! Concurrency substrate of a freestanding kernel: protocol decoders for the
//! PS/2 keyboard and mouse byte streams, a bounded lock-free event queue with
//! a single-slot waker bridge, a tick-based timer stream, a cooperative task
//! scheduler, a bump-pointer heap allocator, and the command sequences for a
//! chained pair of programmable interrupt controllers.
//!
//! Everything that decides or computes lives here, verified; the surrounding
//! binary performs the port reads and writes and drives the async run loop.

pub mod allocator;
pub mod executor;
pub mod harness;
pub mod interrupts;
pub mod keyboard;
pub mod mouse;
pub mod queue;
pub mod timer;
pub mod waker;
