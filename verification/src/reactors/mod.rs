//! Reactors: actors that bring up a workflow for a stream name on request
//! and keep it running for as long as somebody holds a keep-alive channel.

pub mod active_requests;
pub mod cache;
pub mod laws;
pub mod manager_adapter;
pub mod model;
pub mod reactor;
pub mod request_ids;
