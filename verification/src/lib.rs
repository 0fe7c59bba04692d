//! Decision core of a per-workload sidecar network proxy.
//!
//! The library models the parts of the proxy that decide and compose:
//! protocol classification, endpoint-versus-logical routing, connection
//! loop prevention and timeout classification, graceful-shutdown (drain)
//! coordination, protocol-downgrade request rewriting, and the translation
//! of internal failures into terminal HTTP responses. All I/O stays with
//! the caller; every function here works on plain values and is verified.

pub mod addr;
pub mod bytes;
pub mod connect;
pub mod detect;
pub mod discovery;
pub mod drain;
pub mod errors;
pub mod http;
pub mod orig_proto;
pub mod server;
pub mod stack;
pub mod switch;
