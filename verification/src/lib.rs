//! The verified core of a minimal webview application shell.
//!
//! A native window hosts a single webview, which shows either a bundled
//! page (the markup file with its script spliced in at a placeholder) or a
//! live development-server URL. The modules here hold everything the shell
//! decides or computes: byte-level splicing, content-path derivation, the
//! mode decisions, and the event-loop state machine. Window construction,
//! file reading and process spawning live outside, and hand these functions
//! plain values.

pub mod events;
pub mod launch;
pub mod page;
pub mod paths;
pub mod splice;
