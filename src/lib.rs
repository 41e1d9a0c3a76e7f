//! An HTTP gateway's function-dispatch engine: request envelopes and their
//! encodings, the framing of the socket transport, the per-function instance
//! cache with single-flight cold start, and the WebAssembly memory exchange.
pub mod cache;
pub mod codec;
pub mod config;
pub mod document;
pub mod encoding;
pub mod envelope;
pub mod gateway;
pub mod transport;
pub mod wasm;
