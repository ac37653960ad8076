use mmids_core::reactors::manager_adapter::WorkflowManagerAdapter;
use mmids_core::workflows::definitions::WorkflowDefinition;
use mmids_core::workflows::manager::{WorkflowManagerRequest, WorkflowManagerRequestOperation};
use tokio::sync::mpsc::unbounded_channel;

fn definition(name: &str) -> WorkflowDefinition {
    WorkflowDefinition { name: name.to_string(), routed_by_reactor: false, steps: vec![] }
}

#[test]
fn adapter_without_manager_sends_nothing() {
    let adapter = WorkflowManagerAdapter::new();
    assert!(adapter.handle().is_none());
    assert_eq!(adapter.upsert(definition("wfA"), "id".to_string()), None);
    assert_eq!(adapter.stop("wfA".to_string(), "id".to_string()), None);
}

#[test]
fn adapter_sends_upserts_and_stops_to_the_registered_manager() {
    let mut adapter = WorkflowManagerAdapter::new();
    let (handle, mut requests) = unbounded_channel();
    adapter.register(handle.clone());
    assert!(adapter.handle().expect("a handle").same_channel(&handle));

    let upsert = WorkflowManagerRequest {
        request_id: "one".to_string(),
        operation: WorkflowManagerRequestOperation::UpsertWorkflow { definition: definition("wfA") },
    };
    assert_eq!(adapter.upsert(definition("wfA"), "one".to_string()), Some(upsert.clone()));
    assert_eq!(requests.try_recv(), Ok(upsert));

    let stop = WorkflowManagerRequest {
        request_id: "two".to_string(),
        operation: WorkflowManagerRequestOperation::StopWorkflow { name: "wfA".to_string() },
    };
    assert_eq!(adapter.stop("wfA".to_string(), "two".to_string()), Some(stop.clone()));
    assert_eq!(requests.try_recv(), Ok(stop));
    assert!(requests.try_recv().is_err());
}

#[test]
fn adapter_sends_to_the_manager_that_registered_last() {
    let mut adapter = WorkflowManagerAdapter::new();
    let (first, mut first_requests) = unbounded_channel();
    let (second, mut second_requests) = unbounded_channel();
    adapter.register(first);
    adapter.register(second);
    adapter.stop("wfA".to_string(), "id".to_string());
    assert!(first_requests.try_recv().is_err());
    assert!(second_requests.try_recv().is_ok());
}

#[test]
fn adapter_forgets_the_manager() {
    let mut adapter = WorkflowManagerAdapter::new();
    let (handle, mut requests) = unbounded_channel();
    adapter.register(handle);
    adapter.forget();
    assert!(adapter.handle().is_none());
    assert_eq!(adapter.stop("wfA".to_string(), "id".to_string()), None);
    assert!(requests.try_recv().is_err());
}

#[test]
fn adapter_swallows_what_a_closed_manager_refuses() {
    let mut adapter = WorkflowManagerAdapter::new();
    let (handle, requests) = unbounded_channel();
    adapter.register(handle);
    drop(requests);
    let sent = adapter.upsert(definition("wfA"), "id".to_string());
    assert_eq!(sent.expect("the request that was handed over").request_id, "id");
}
