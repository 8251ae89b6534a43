//! A verified resource-management core for a WebGL2-style GPU context.
//!
//! GPU objects are host-allocated handles: the host (a browser's WebGL2
//! context) creates them, and the library tracks them, enforces the
//! compile/link protocol, derives packed vertex layouts, decodes polled
//! error codes, and guarantees that every handle is released exactly once.
//!
//! The host itself is outside the library: every operation takes the host's
//! responses (created handles, status flags, info logs, polled error codes)
//! as plain arguments, records the calls it stands for in an append-only
//! call log, and returns what the caller must report. A thin unverified
//! driver performs the actual host calls and hands the responses back; a
//! test can play the host instead and audit the log.

pub mod buffer;
pub mod context;
pub mod error;
pub mod host;
pub mod shader;
pub mod vao;
