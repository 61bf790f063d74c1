//! Admission control for calls into a protected program: per-caller token
//! buckets, forwarding under a derived signing identity, and introspection of
//! the operations that precede the current one in a transaction.

pub mod key;
pub mod state;
pub mod engine;
pub mod lifecycle;
pub mod forward;
pub mod introspect;
