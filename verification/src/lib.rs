//! Server-side websocket session management: a per-connection state machine
//! that dispatches incoming frames, a heartbeat monitor that evicts silent
//! peers, and a process-wide registry counting the live sessions.

pub mod registry;
pub mod heartbeat;
pub mod session;
pub mod status;
