//! An embedded-interpreter bridge for a sandboxed request handler.
//!
//! The crate models the host side of a guest-language runtime: a one-time
//! lifecycle that resolves the guest's request handler, the per-request
//! marshalling between wire-level requests and guest-native values, and the
//! capability bindings (outbound HTTP, key-value storage, relational
//! queries, pub/sub commands, model inference, scoped configuration) that
//! guest code reaches through a uniform error-translation layer.
//!
//! Everything that decides or converts is verified here; the host calls
//! themselves (interpreter, transport, storage) are performed by the
//! surrounding runtime, which feeds their outcomes back into the verified
//! interpretation functions.

pub mod config;
pub mod error;
pub mod http_out;
pub mod kv;
pub mod lifecycle;
pub mod llm;
pub mod marshal;
pub mod redis;
pub mod sqlite;
pub mod text;
pub mod value;
pub mod wire;
