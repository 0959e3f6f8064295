//! Client-side session manager for a shared-memory, single-producer message
//! channel streaming video frame and cursor updates from a host to a guest.
//!
//! This crate holds the session, timeout-avoidance and handle-lifecycle
//! logic: connection bootstrap with a protocol-compatibility check, the
//! per-channel heartbeat state, the fast-forward heuristic that keeps the
//! client from being timed out by the host, and validated zero-copy views
//! over popped messages. The queue primitive itself and the shared-memory
//! region provider are external collaborators: a surrounding driver performs
//! their calls and hands their outcomes to this crate as plain events.

pub mod error;
pub mod kvmfr;
pub mod lgmp_comm;
