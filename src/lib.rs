//! Session control for a Zhuyin input method: cursor transcoding, candidate
//! pagination and the state machine between the composition engine and the host.

pub mod engine;
pub mod paginator;
pub mod selection_field;
pub mod session;
pub mod transcode;
