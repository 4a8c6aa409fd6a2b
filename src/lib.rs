//! Control core of a streaming audio player: the playback engine's state machine, the
//! choice of files and their layout, the dynamic limiter's envelope, and the decisions of
//! the JSON-RPC control server. The engine hands out effects for its caller to perform and
//! takes back what decoders, loaders and the sink report.

pub mod engine;
pub mod engine_laws;
pub mod event;
pub mod format;
pub mod limiter;
pub mod loader;
pub mod normalisation;
pub mod rpc;
pub mod subfile;
pub mod subscribers;
