//! Requests to the workflow manager, the service that runs workflows.

use vstd::prelude::*;
use crate::workflows::definitions::{WorkflowDefinition, WorkflowDefinitionView};

verus! {

/// What the workflow manager is asked to do.
#[derive(Debug, PartialEq, Eq)]
pub enum WorkflowManagerRequestOperation {
    /// Start the workflow, or bring a running one in line with the definition.
    UpsertWorkflow { definition: WorkflowDefinition },
    /// Stop the workflow of this name.
    StopWorkflow { name: String },
}

/// A request to the workflow manager. The request id tells a reader of the
/// manager's logs where the request came from.
#[derive(Debug, PartialEq, Eq)]
pub struct WorkflowManagerRequest {
    pub request_id: String,
    pub operation: WorkflowManagerRequestOperation,
}

/// What a [`WorkflowManagerRequestOperation`] holds.
#[verifier::ext_equal]
pub enum WorkflowManagerRequestOperationView {
    UpsertWorkflow { definition: WorkflowDefinitionView },
    StopWorkflow { name: Seq<char> },
}

/// What a [`WorkflowManagerRequest`] holds.
#[verifier::ext_equal]
pub struct WorkflowManagerRequestView {
    pub request_id: Seq<char>,
    pub operation: WorkflowManagerRequestOperationView,
}

/// The request to upsert `definition` under the id `request_id`.
pub open spec fn upsert_request(
    request_id: Seq<char>,
    definition: WorkflowDefinitionView,
) -> WorkflowManagerRequestView {
    WorkflowManagerRequestView {
        request_id,
        operation: WorkflowManagerRequestOperationView::UpsertWorkflow { definition },
    }
}

/// The request to stop the workflow `name` under the id `request_id`.
pub open spec fn stop_request(request_id: Seq<char>, name: Seq<char>) -> WorkflowManagerRequestView {
    WorkflowManagerRequestView {
        request_id,
        operation: WorkflowManagerRequestOperationView::StopWorkflow { name },
    }
}

/// A sequence of requests, each by what it holds.
pub open spec fn request_views(requests: Seq<WorkflowManagerRequest>) -> Seq<
    WorkflowManagerRequestView,
> {
    Seq::new(requests.len(), |i: int| requests[i]@)
}

/// An optional request by what it holds.
pub open spec fn optional_request_view(request: Option<WorkflowManagerRequest>) -> Option<
    WorkflowManagerRequestView,
> {
    match request {
        Some(request) => Some(request@),
        None => None,
    }
}

impl View for WorkflowManagerRequestOperation {
    type V = WorkflowManagerRequestOperationView;

    open spec fn view(&self) -> WorkflowManagerRequestOperationView {
        match *self {
            WorkflowManagerRequestOperation::UpsertWorkflow { definition } => {
                WorkflowManagerRequestOperationView::UpsertWorkflow { definition: definition@ }
            },
            WorkflowManagerRequestOperation::StopWorkflow { name } => {
                WorkflowManagerRequestOperationView::StopWorkflow { name: name@ }
            },
        }
    }
}

impl View for WorkflowManagerRequest {
    type V = WorkflowManagerRequestView;

    open spec fn view(&self) -> WorkflowManagerRequestView {
        WorkflowManagerRequestView { request_id: self.request_id@, operation: self.operation@ }
    }
}

impl Clone for WorkflowManagerRequestOperation {
    fn clone(&self) -> (copy: Self)
        ensures
            copy@ == self@,
    {
        match self {
            WorkflowManagerRequestOperation::UpsertWorkflow { definition } => {
                WorkflowManagerRequestOperation::UpsertWorkflow { definition: definition.clone() }
            },
            WorkflowManagerRequestOperation::StopWorkflow { name } => {
                WorkflowManagerRequestOperation::StopWorkflow { name: name.clone() }
            },
        }
    }
}

impl Clone for WorkflowManagerRequest {
    fn clone(&self) -> (copy: Self)
        ensures
            copy@ == self@,
    {
        WorkflowManagerRequest {
            request_id: self.request_id.clone(),
            operation: self.operation.clone(),
        }
    }
}

impl WorkflowManagerRequest {
    /// The request to upsert `definition`.
    pub fn upsert(request_id: String, definition: WorkflowDefinition) -> (request: Self)
        ensures
            request@ == upsert_request(request_id@, definition@),
    {
        WorkflowManagerRequest {
            request_id,
            operation: WorkflowManagerRequestOperation::UpsertWorkflow { definition },
        }
    }

    /// The request to stop the workflow `name`.
    pub fn stop(request_id: String, name: String) -> (request: Self)
        ensures
            request@ == stop_request(request_id@, name@),
    {
        WorkflowManagerRequest {
            request_id,
            operation: WorkflowManagerRequestOperation::StopWorkflow { name },
        }
    }
}

} // verus!
