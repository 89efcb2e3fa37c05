//! Typed, hot-reloadable configuration values.
//!
//! A configuration payload is decoded from a structured text file, exposed as
//! an always-present value, and republished whenever the backing file changes
//! on disk. The crate verifies the load/reload lifecycle: the store that
//! tracks in-flight loads, the controller state machine that publishes decoded
//! values and emits one notification per publish, and the decoding front-end.

pub mod controller;
pub mod decode;
pub mod docs;
pub mod error;
pub mod handle;
pub mod registry;
pub mod store;
pub mod vehicle;
