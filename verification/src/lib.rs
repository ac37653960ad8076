//! Control plane for media workflows.
//!
//! A workflow is a linear media pipeline with a name. The reactor in
//! [`reactors`] turns requests for a stream name into managed workflow
//! lifecycles: it asks an executor for the workflow definition of the stream,
//! caches it per stream with a count of the keep-alive channels that still
//! want it, and mirrors the cache into the workflow manager with upsert and
//! stop requests.
//!
//! Every function in this crate is verified against its contract. The
//! contracts are stated over the views of the types, and the laws that relate
//! several handlers are proved in [`reactors::laws`].

pub mod channels;
pub mod encoders;
pub mod event_hub;
pub mod reactors;
pub mod workflows;
