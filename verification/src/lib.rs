//! Data plane of a TLS-terminating TCP tunnel: a header-injecting relay
//! session driver and a dual-stack IP packet view/builder.
//!
//! The relay side is a pair of state machines — one for the session setup
//! (header completion, outbound connect, initial flush), one per
//! unidirectional pump — whose transition functions are verified; an outer
//! I/O loop performs the actions they return. The packet side is a verified
//! view and builder over raw network-layer buffers.

pub mod bytes;
pub mod http;
pub mod ip;
pub mod relay;
