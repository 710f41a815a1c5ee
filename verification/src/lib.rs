//! Core state layer of a minimal single-page task list.
//!
//! The library owns the logic only: an immutable-snapshot keyed store of task
//! records backed by `im::HashMap`, a monotonic identifier generator, and the
//! input-buffer/submit protocol of the composer. Rendering is left to the
//! embedding host, which drives this state through plain values.

pub mod laws;
pub mod state;
pub mod store;
