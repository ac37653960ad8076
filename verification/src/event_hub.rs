//! The event hub: the broker through which a reactor learns that a workflow
//! manager has registered.

use vstd::prelude::*;
use crate::workflows::manager::WorkflowManagerRequest;

verus! {

/// What the event hub tells about workflow managers.
#[derive(Debug)]
pub enum WorkflowManagerEvent {
    /// A workflow manager has registered. Requests for it go over `channel`.
    WorkflowManagerRegistered {
        channel: tokio::sync::mpsc::UnboundedSender<WorkflowManagerRequest>,
    },
}

/// A request to the event hub for a kind of event.
#[derive(Debug)]
pub enum SubscriptionRequest {
    /// Deliver workflow manager events over `channel`.
    WorkflowManagerEvents { channel: tokio::sync::mpsc::UnboundedSender<WorkflowManagerEvent> },
}

} // verus!
