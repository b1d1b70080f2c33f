//! Startup and shutdown supervision for a local backend process.
//!
//! The library holds the decision logic of the supervisor: choosing an
//! endpoint, classifying health-probe responses, the bounded readiness poll,
//! the drain protocol for the child's output stream, take-and-clear ownership
//! of the child handle, and the helpers behind the file dialogs. The
//! surrounding process — sockets, HTTP, spawning, sleeping — lives outside
//! and feeds these functions plain values.

pub mod dialog;
pub mod digits;
pub mod health;
pub mod naming;
pub mod lifecycle;
pub mod readiness;
pub mod supervisor;
