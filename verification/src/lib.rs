//! A verified model of a zero-copy GPU memory subsystem for a multi-stage
//! media pipeline.
//!
//! The library models GPU-backed memory objects with synchronous map/unmap
//! semantics over an asynchronous device mapping protocol, an allocator that
//! produces such objects under negotiated capability masks, the capability
//! negotiation carried out between neighbouring pipeline stages, and the
//! device-context lifecycle those objects depend on.  Every decision the
//! subsystem makes — which capability bits admit which operation, when a
//! stage may pass buffers through untouched, how many compute work-groups a
//! dispatch needs — is stated in contracts and proved.
//!
//! The actual device driver and the host pipeline framework sit outside this
//! crate: callers perform device requests and completion polling and feed the
//! outcomes in as plain values.

pub mod buffer_memory;
pub mod caps;
pub mod compute;
pub mod context;
pub mod errors;
pub mod laws;
pub mod negotiate;
pub mod stages;
pub mod texture_memory;
pub mod usages;
