//! Protocol-level core of a compositor that exposes one synthetic output
//! (a virtual headset display) to its clients.
//!
//! The library owns the bookkeeping that protocol callbacks mutate: per-surface
//! commit sequencing, capability negotiation and hand-off of imported pixel
//! buffers, the fixed-mode virtual output, and the per-client seat and session
//! records.  Socket handling, GPU queries and the protocol wire itself are the
//! embedding process's business; it hands this library plain values and acts
//! on what the library decides.

pub mod commit;
pub mod dmabuf;
pub mod output;
pub mod seat;
pub mod session;
pub mod state;
pub mod task;
