//! Runs embedded code blocks as child processes and lets callers observe the
//! output incrementally.
//!
//! The verified core decides whether a code block may be executed, plans the
//! interpreter invocation, and maintains the execution state record (captured
//! output lines plus a lifecycle status) that a background worker fills in and
//! observers snapshot. Process spawning, temporary files and threads live
//! outside this crate, driven by the contracts stated here.

pub mod code;
pub mod execute;
pub mod highlighting;
