//! The reactor's side of the workflow manager: the handle of the manager that
//! is registered, if one is, and the two requests that go over it.
//!
//! Sends are best effort. While no manager is registered nothing is sent, and
//! a manager that has closed its queue loses what is sent to it; nobody is
//! told. What each operation reports is the request that it has handed to the
//! queue.

use vstd::prelude::*;
use crate::channels::send_unbounded;
use crate::workflows::definitions::WorkflowDefinition;
use crate::workflows::manager::{
    optional_request_view,
    stop_request,
    upsert_request,
    WorkflowManagerRequest,
};

verus! {

/// The handle of the workflow manager that is registered, if one is.
#[derive(Debug)]
pub struct WorkflowManagerAdapter {
    handle: Option<tokio::sync::mpsc::UnboundedSender<WorkflowManagerRequest>>,
}

impl View for WorkflowManagerAdapter {
    type V = Option<tokio::sync::mpsc::UnboundedSender<WorkflowManagerRequest>>;

    closed spec fn view(&self) -> Option<tokio::sync::mpsc::UnboundedSender<WorkflowManagerRequest>> {
        self.handle
    }
}

impl WorkflowManagerAdapter {
    /// An adapter without a workflow manager.
    pub fn new() -> (adapter: Self)
        ensures
            adapter@.is_none(),
    {
        WorkflowManagerAdapter { handle: None }
    }

    /// Puts the handle of a workflow manager on record, in place of the one
    /// that was on record.
    pub fn register(
        &mut self,
        handle: tokio::sync::mpsc::UnboundedSender<WorkflowManagerRequest>,
    )
        ensures
            final(self)@ == Some(handle),
    {
        self.handle = Some(handle);
    }

    /// Forgets the workflow manager.
    pub fn forget(&mut self)
        ensures
            final(self)@.is_none(),
    {
        self.handle = None;
    }

    /// The handle on record.
    pub fn handle(&self) -> (handle: Option<
        &tokio::sync::mpsc::UnboundedSender<WorkflowManagerRequest>,
    >)
        ensures
            handle.is_some() == self@.is_some(),
            handle matches Some(manager) ==> *manager == self@.unwrap(),
    {
        self.handle.as_ref()
    }

    /// Hands the request to the queue of the workflow manager, if one is
    /// registered, and reports it.
    fn send(&self, request: WorkflowManagerRequest) -> (sent: Option<WorkflowManagerRequest>)
        ensures
            optional_request_view(sent) == if self@.is_some() {
                Some(request@)
            } else {
                None
            },
    {
        match &self.handle {
            Some(manager) => {
                let sent = request.clone();
                let _ = send_unbounded(manager, request);
                Some(sent)
            },
            None => None,
        }
    }

    /// Asks the workflow manager to upsert the workflow of `definition`, and
    /// gives the request that was sent: none while no manager is registered.
    pub fn upsert(&self, definition: WorkflowDefinition, request_id: String) -> (sent: Option<
        WorkflowManagerRequest,
    >)
        ensures
            optional_request_view(sent) == if self@.is_some() {
                Some(upsert_request(request_id@, definition@))
            } else {
                None
            },
    {
        self.send(WorkflowManagerRequest::upsert(request_id, definition))
    }

    /// Asks the workflow manager to stop the workflow `workflow_name`, and
    /// gives the request that was sent: none while no manager is registered.
    pub fn stop(&self, workflow_name: String, request_id: String) -> (sent: Option<
        WorkflowManagerRequest,
    >)
        ensures
            optional_request_view(sent) == if self@.is_some() {
                Some(stop_request(request_id@, workflow_name@))
            } else {
                None
            },
    {
        self.send(WorkflowManagerRequest::stop(request_id, workflow_name))
    }
}

} // verus!
