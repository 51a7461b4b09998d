//! Support libraries for the TinyWindow trading platform: a metric registry
//! with a text exposition snapshot, the narrow emission surface over it, a
//! mock execution adapter with a monotone order-id allocator, and a
//! deterministic keyed signer.

pub mod exec_adapter;
pub mod expose;
pub mod signer;
pub mod telemetry;
pub mod text;
