//! A relay between an interactive shell and a terminal or network peer.
//!
//! The library holds the logic of the relay: the line-ending policies, the
//! per-direction byte queues, and the scheduling decisions of the event loops.
//! The caller performs the actual reads, writes, readiness waits and signals,
//! and feeds their outcomes back as events.
pub mod buffer;
pub mod client;
pub mod relay;
pub mod shutdown;
pub mod stream;
pub mod translate;
