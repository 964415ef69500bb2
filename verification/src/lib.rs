//! Verified core of a pseudo-terminal session manager.
//!
//! The manager tracks many concurrent terminal sessions, each identified by a
//! caller-supplied string key. A session is spawned with an initial geometry,
//! receives input bytes, can be resized, and is torn down either by an
//! explicit kill request or by the child process exiting on its own. The
//! session table here is the model of that lifecycle: every operation states
//! exactly how it changes the table, and the lifecycle laws (idempotent kill,
//! single-point removal, ordered writes, fresh reuse of an id) are proved
//! once and for all over that model. The blocking I/O around it — the
//! operating-system PTY calls, the reader and waiter threads, the event
//! delivery — lives outside the library and drives it with plain values.

pub mod command;
pub mod laws;
pub mod relay;
pub mod shell;
pub mod table;

pub use table::PtyInstance;
pub use table::PtyResize;
pub use table::PtyState;
