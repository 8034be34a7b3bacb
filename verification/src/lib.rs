//! A verified core for an HTTP/2-style multiplexing transport protocol:
//! frame codec, stream-id and window arithmetic, per-stream state machine,
//! flow-control accounting, stream store and the connection multiplexer.
//!
//! The engine is pure: it turns bytes into typed frames and frames into
//! state transitions, events and actions.  Reading and writing the actual
//! byte transport is the caller's job.

pub mod conn;
pub mod error;
pub mod flow;
pub mod frame;
pub mod head;
pub mod octets;
pub mod preface;
pub mod state;
pub mod store;
pub mod stream_id;
pub mod window_update;
