//! Launch logic for the `rdbg` debug adapter: which port to offer it, how to
//! start it, when it counts as ready, and what to send it first.
//!
//! Nothing here touches a process, a socket or a clock. The caller performs
//! that work and reports what happened; every decision is taken here.

pub mod decimal;
pub mod handshake;
pub mod json;
pub mod port;
pub mod readiness;
pub mod search;
pub mod session;
pub mod supervisor;
pub mod timeline;
