use mmids_core::event_hub::{SubscriptionRequest, WorkflowManagerEvent};
use mmids_core::reactors::reactor::{Handled, Reactor, ReactorEvent, ReactorRequest};
use mmids_core::workflows::definitions::{StepParameter, WorkflowDefinition, WorkflowStepDefinition};
use mmids_core::workflows::manager::{WorkflowManagerRequest, WorkflowManagerRequestOperation};
use tokio::sync::mpsc::error::TryRecvError;
use tokio::sync::mpsc::{unbounded_channel, UnboundedReceiver, UnboundedSender};
use tokio::sync::oneshot;

fn definition(name: &str) -> WorkflowDefinition {
    WorkflowDefinition {
        name: name.to_string(),
        routed_by_reactor: true,
        steps: vec![WorkflowStepDefinition {
            step_type: "rtmp_receive".to_string(),
            parameters: vec![
                StepParameter { name: "listen".to_string(), value: Some("1935".to_string()) },
                StepParameter { name: "tls".to_string(), value: None },
            ],
        }],
    }
}

fn upsert(request_id: &str, definition: WorkflowDefinition) -> WorkflowManagerRequest {
    WorkflowManagerRequest {
        request_id: request_id.to_string(),
        operation: WorkflowManagerRequestOperation::UpsertWorkflow { definition },
    }
}

fn stop(request_id: &str, name: &str) -> WorkflowManagerRequest {
    WorkflowManagerRequest {
        request_id: request_id.to_string(),
        operation: WorkflowManagerRequestOperation::StopWorkflow { name: name.to_string() },
    }
}

fn start(name: &str) -> Reactor {
    let (hub, _subscriptions) = unbounded_channel();
    let (reactor, _events) = Reactor::new(name.to_string(), hub);
    reactor
}

fn manager() -> (UnboundedSender<WorkflowManagerRequest>, UnboundedReceiver<WorkflowManagerRequest>) {
    unbounded_channel()
}

fn register(reactor: &mut Reactor, handle: &UnboundedSender<WorkflowManagerRequest>) -> Vec<WorkflowManagerRequest> {
    reactor.handle_workflow_manager_event(WorkflowManagerEvent::WorkflowManagerRegistered {
        channel: handle.clone(),
    })
}

/// Requests a workflow for the stream and lets the executor answer. Gives the
/// reply channel's receiver, the keep-alive sender and what the response did.
fn resolve(
    reactor: &mut Reactor,
    stream_name: &str,
    workflow: Option<WorkflowDefinition>,
) -> (
    oneshot::Receiver<Option<String>>,
    oneshot::Sender<()>,
    mmids_core::reactors::reactor::ExecutorResponseOutcome,
) {
    let (reply_sender, reply_receiver) = oneshot::channel();
    let (keep_alive_sender, keep_alive_receiver) = oneshot::channel();
    let call = reactor.handle_request(ReactorRequest::CreateWorkflowNameForStream {
        stream_name: stream_name.to_string(),
        response_channel: reply_sender,
        keep_alive_channel: keep_alive_receiver,
    });
    assert_eq!(call.stream_name, stream_name);
    let outcome = reactor.handle_executor_response(call.stream_name, workflow, call.keep_alive_channel);
    (reply_receiver, keep_alive_sender, outcome)
}

fn drain(receiver: &mut UnboundedReceiver<WorkflowManagerRequest>) -> Vec<WorkflowManagerRequest> {
    let mut received = Vec::new();
    while let Ok(request) = receiver.try_recv() {
        received.push(request);
    }
    received
}

#[test]
fn starting_subscribes_once_to_workflow_manager_events() {
    let (hub, mut subscriptions) = unbounded_channel();
    let (reactor, mut events) = Reactor::new("r1".to_string(), hub);
    assert_eq!(reactor.name(), "r1");
    assert!(reactor.workflow_manager().is_none());
    assert_eq!(reactor.cached_workflow_count(), 0);

    let subscription = subscriptions.try_recv().expect("a subscription request");
    assert!(matches!(subscriptions.try_recv(), Err(TryRecvError::Disconnected)));

    // What the event hub sends over the subscription arrives at the queue
    // that came with the reactor.
    let SubscriptionRequest::WorkflowManagerEvents { channel } = subscription;
    let (handle, _requests) = manager();
    channel
        .send(WorkflowManagerEvent::WorkflowManagerRegistered { channel: handle })
        .expect("the reactor's queue is open");
    assert!(matches!(
        events.try_recv(),
        Ok(WorkflowManagerEvent::WorkflowManagerRegistered { .. })
    ));
    assert!(matches!(events.try_recv(), Err(TryRecvError::Empty)));
}

#[test]
fn starting_without_an_event_hub_still_gives_a_reactor() {
    let (hub, subscriptions) = unbounded_channel();
    drop(subscriptions);
    let (reactor, mut events) = Reactor::new("r1".to_string(), hub);
    assert_eq!(reactor.cached_workflow_count(), 0);
    // The subscription request was refused and dropped, and the queue's only
    // sender with it.
    assert!(matches!(events.try_recv(), Err(TryRecvError::Disconnected)));
}

#[test]
fn basic_happy_path() {
    let mut reactor = start("r1");
    let (handle, mut requests) = manager();

    let (mut reply, _keep_alive, outcome) = resolve(&mut reactor, "camA", Some(definition("wfA")));
    assert_eq!(reply.try_recv(), Ok(Some("wfA".to_string())));
    assert_eq!(outcome.reply, Some(Some("wfA".to_string())));
    let watch = outcome.keep_alive.expect("the keep-alive channel is to be watched");
    assert_eq!(watch.stream_name, "camA");

    let catch_up = register(&mut reactor, &handle);
    assert_eq!(catch_up, vec![upsert("reactor_r1_cache_catchup", definition("wfA"))]);
    assert_eq!(drain(&mut requests), vec![upsert("reactor_r1_cache_catchup", definition("wfA"))]);

    assert_eq!(reactor.cached_workflow_count(), 1);
    assert_eq!(reactor.keep_alive_count(&"camA".to_string()), 1);
    assert_eq!(reactor.cached_definition(&"camA".to_string()), Some(&definition("wfA")));
}

#[test]
fn basic_happy_path_with_manager_registered_first() {
    let mut reactor = start("r1");
    let (handle, mut requests) = manager();
    assert_eq!(register(&mut reactor, &handle), vec![]);

    let (mut reply, _keep_alive, outcome) = resolve(&mut reactor, "camA", Some(definition("wfA")));
    assert_eq!(reply.try_recv(), Ok(Some("wfA".to_string())));
    assert_eq!(outcome.upsert, Some(upsert("reactor_r1_stream_camA", definition("wfA"))));
    assert_eq!(drain(&mut requests), vec![upsert("reactor_r1_stream_camA", definition("wfA"))]);

    assert_eq!(
        register(&mut reactor, &handle),
        vec![upsert("reactor_r1_cache_catchup", definition("wfA"))]
    );
    assert_eq!(drain(&mut requests), vec![upsert("reactor_r1_cache_catchup", definition("wfA"))]);
    assert_eq!(reactor.cached_workflow_count(), 1);
    assert_eq!(reactor.keep_alive_count(&"camA".to_string()), 1);
}

#[test]
fn refcounted_release() {
    let mut reactor = start("r1");
    let (handle, mut requests) = manager();
    let (_reply1, _keep_alive1, _) = resolve(&mut reactor, "camA", Some(definition("wfA")));
    register(&mut reactor, &handle);
    drain(&mut requests);

    let (mut reply2, _keep_alive2, outcome) = resolve(&mut reactor, "camA", Some(definition("wfA")));
    assert_eq!(reply2.try_recv(), Ok(Some("wfA".to_string())));
    assert_eq!(outcome.upsert, Some(upsert("reactor_r1_stream_camA", definition("wfA"))));
    assert_eq!(drain(&mut requests), vec![upsert("reactor_r1_stream_camA", definition("wfA"))]);
    assert_eq!(reactor.cached_workflow_count(), 1);
    assert_eq!(reactor.keep_alive_count(&"camA".to_string()), 2);
    assert_eq!(reactor.cached_definition(&"camA".to_string()), Some(&definition("wfA")));

    // The first keep-alive channel closes.
    let closed = reactor.handle_keep_alive_closed("camA".to_string());
    assert!(!closed.release.removed);
    assert_eq!(closed.release.last_name, None);
    assert_eq!(closed.stop, None);
    assert_eq!(closed.remaining, 1);
    assert_eq!(drain(&mut requests), vec![]);
    assert_eq!(reactor.cached_workflow_count(), 1);
    assert_eq!(reactor.keep_alive_count(&"camA".to_string()), 1);

    // The second one closes.
    let closed = reactor.handle_keep_alive_closed("camA".to_string());
    assert!(closed.release.removed);
    assert_eq!(closed.release.last_name, Some("wfA".to_string()));
    assert_eq!(closed.stop, Some(stop("from_reactor", "wfA")));
    assert_eq!(closed.remaining, 0);
    assert_eq!(drain(&mut requests), vec![stop("from_reactor", "wfA")]);
    assert_eq!(reactor.cached_workflow_count(), 0);
    assert_eq!(reactor.cached_definition(&"camA".to_string()), None);
    assert_eq!(reactor.keep_alive_count(&"camA".to_string()), 0);
}

#[test]
fn manager_disappears_and_returns() {
    let mut reactor = start("r1");
    let (mut reply, _keep_alive, outcome) = resolve(&mut reactor, "camA", Some(definition("wfA")));
    assert_eq!(reply.try_recv(), Ok(Some("wfA".to_string())));
    assert_eq!(outcome.upsert, None);
    assert_eq!(reactor.cached_workflow_count(), 1);
    assert_eq!(reactor.keep_alive_count(&"camA".to_string()), 1);

    let (first, mut first_requests) = manager();
    register(&mut reactor, &first);
    assert_eq!(
        drain(&mut first_requests),
        vec![upsert("reactor_r1_cache_catchup", definition("wfA"))]
    );

    reactor.handle_workflow_manager_gone();
    assert!(reactor.workflow_manager().is_none());
    assert_eq!(reactor.cached_workflow_count(), 1);

    let (second, mut second_requests) = manager();
    register(&mut reactor, &second);
    assert_eq!(
        drain(&mut second_requests),
        vec![upsert("reactor_r1_cache_catchup", definition("wfA"))]
    );
    assert_eq!(drain(&mut first_requests), vec![]);
    assert!(reactor.workflow_manager().expect("a manager").same_channel(&second));
}

#[test]
fn executor_returns_none() {
    let mut reactor = start("r1");
    let (handle, mut requests) = manager();
    register(&mut reactor, &handle);

    let (mut reply, keep_alive, outcome) = resolve(&mut reactor, "camB", None);
    assert_eq!(reply.try_recv(), Ok(None));
    assert_eq!(outcome.reply, Some(None));
    assert_eq!(outcome.upsert, None);
    assert!(outcome.keep_alive.is_none());
    assert_eq!(reactor.cached_workflow_count(), 0);
    assert!(!reactor.is_active(&"camB".to_string()));
    assert_eq!(drain(&mut requests), vec![]);

    // The keep-alive channel was dropped, not watched: closing it is nobody's
    // business.
    assert!(keep_alive.is_closed());
    drop(keep_alive);
    assert_eq!(reactor.cached_workflow_count(), 0);
    assert_eq!(drain(&mut requests), vec![]);
}

#[test]
fn orphan_response() {
    let mut reactor = start("r1");
    let (handle, mut requests) = manager();
    register(&mut reactor, &handle);
    let (_reply, _keep_alive, _) = resolve(&mut reactor, "camA", Some(definition("wfA")));
    drain(&mut requests);

    let (_keep_alive_sender, keep_alive_receiver) = oneshot::channel();
    let outcome =
        reactor.handle_executor_response("camZ".to_string(), Some(definition("wfZ")), keep_alive_receiver);
    assert_eq!(outcome.reply, None);
    assert_eq!(outcome.upsert, None);
    assert!(outcome.keep_alive.is_none());
    assert_eq!(reactor.cached_workflow_count(), 1);
    assert_eq!(reactor.keep_alive_count(&"camZ".to_string()), 0);
    assert_eq!(reactor.keep_alive_count(&"camA".to_string()), 1);
    assert_eq!(drain(&mut requests), vec![]);
}

#[test]
fn shutdown() {
    let mut reactor = start("r1");
    let (handle, mut requests) = manager();
    register(&mut reactor, &handle);
    let (reply_sender, mut reply_receiver) = oneshot::channel();
    let (_keep_alive_sender, keep_alive_receiver) = oneshot::channel();
    let call = reactor.handle_request(ReactorRequest::CreateWorkflowNameForStream {
        stream_name: "camA".to_string(),
        response_channel: reply_sender,
        keep_alive_channel: keep_alive_receiver,
    });

    assert!(matches!(reactor.handle_event(ReactorEvent::AllRequestConsumersGone), Handled::Stopped));
    assert_eq!(drain(&mut requests), vec![]);
    assert!(reactor.is_active(&"camA".to_string()));

    // Whoever drives the reactor lets go of it and of the call that was due.
    drop(call);
    drop(reactor);
    drop(handle);
    assert!(reply_receiver.try_recv().is_err());
    assert!(matches!(requests.try_recv(), Err(TryRecvError::Disconnected)));
}

#[test]
fn event_hub_gone_stops_the_reactor() {
    let mut reactor = start("r1");
    assert!(matches!(reactor.handle_event(ReactorEvent::EventHubGone), Handled::Stopped));
}

#[test]
fn workflow_manager_gone_does_not_stop_the_reactor() {
    let mut reactor = start("r1");
    let (handle, mut requests) = manager();
    register(&mut reactor, &handle);
    let (_reply, _keep_alive, _) = resolve(&mut reactor, "camA", Some(definition("wfA")));
    drain(&mut requests);

    assert!(matches!(reactor.handle_event(ReactorEvent::WorkflowManagerGone), Handled::ManagerGone));
    assert!(reactor.workflow_manager().is_none());
    assert_eq!(reactor.keep_alive_count(&"camA".to_string()), 1);

    // Stops between two managers are lost.
    let closed = reactor.handle_keep_alive_closed("camA".to_string());
    assert!(closed.release.removed);
    assert_eq!(closed.stop, None);
    assert_eq!(drain(&mut requests), vec![]);
}

#[test]
fn events_are_dispatched_to_their_handlers() {
    let mut reactor = start("r1");
    let (handle, mut requests) = manager();
    let registered = reactor.handle_event(ReactorEvent::WorkflowManagerEventReceived(
        WorkflowManagerEvent::WorkflowManagerRegistered { channel: handle.clone() },
    ));
    assert!(matches!(registered, Handled::ManagerRegistered(ref catch_up) if catch_up.is_empty()));

    let (reply_sender, mut reply_receiver) = oneshot::channel();
    let (_keep_alive_sender, keep_alive_receiver) = oneshot::channel();
    let call = match reactor.handle_event(ReactorEvent::RequestReceived(
        ReactorRequest::CreateWorkflowNameForStream {
            stream_name: "camA".to_string(),
            response_channel: reply_sender,
            keep_alive_channel: keep_alive_receiver,
        },
    )) {
        Handled::RequestRecorded(call) => call,
        other => panic!("unexpected {:?}", other),
    };
    assert_eq!(call.stream_name, "camA");
    assert!(reactor.is_active(&"camA".to_string()));

    let outcome = match reactor.handle_event(ReactorEvent::ExecutorResponseReceived {
        stream_name: call.stream_name,
        workflow: Some(definition("wfA")),
        keep_alive_channel: call.keep_alive_channel,
    }) {
        Handled::ExecutorResponded(outcome) => outcome,
        other => panic!("unexpected {:?}", other),
    };
    assert_eq!(outcome.reply, Some(Some("wfA".to_string())));
    assert_eq!(reply_receiver.try_recv(), Ok(Some("wfA".to_string())));
    assert_eq!(drain(&mut requests), vec![upsert("reactor_r1_stream_camA", definition("wfA"))]);

    let closed = match reactor
        .handle_event(ReactorEvent::KeepAliveChannelClosed { stream_name: "camA".to_string() })
    {
        Handled::KeepAliveClosed(outcome) => outcome,
        other => panic!("unexpected {:?}", other),
    };
    assert_eq!(closed.stop, Some(stop("from_reactor", "wfA")));
    assert_eq!(drain(&mut requests), vec![stop("from_reactor", "wfA")]);
}

#[test]
fn second_request_for_a_stream_replaces_the_reply_channel() {
    let mut reactor = start("r1");
    let (first_sender, mut first_receiver) = oneshot::channel();
    let (_first_keep_alive, first_keep_alive_receiver) = oneshot::channel();
    let first = reactor.handle_request(ReactorRequest::CreateWorkflowNameForStream {
        stream_name: "camA".to_string(),
        response_channel: first_sender,
        keep_alive_channel: first_keep_alive_receiver,
    });
    let (second_sender, mut second_receiver) = oneshot::channel();
    let (_second_keep_alive, second_keep_alive_receiver) = oneshot::channel();
    let second = reactor.handle_request(ReactorRequest::CreateWorkflowNameForStream {
        stream_name: "camA".to_string(),
        response_channel: second_sender,
        keep_alive_channel: second_keep_alive_receiver,
    });

    // The first requester's channel is gone without a reply.
    assert!(first_receiver.try_recv().is_err());

    let outcome =
        reactor.handle_executor_response(first.stream_name, Some(definition("wfA")), first.keep_alive_channel);
    assert_eq!(outcome.reply, Some(Some("wfA".to_string())));
    assert_eq!(second_receiver.try_recv(), Ok(Some("wfA".to_string())));
    assert_eq!(reactor.keep_alive_count(&"camA".to_string()), 1);

    // The answer to the second call finds no request on record.
    let outcome =
        reactor.handle_executor_response(second.stream_name, Some(definition("wfA")), second.keep_alive_channel);
    assert_eq!(outcome.reply, None);
    assert!(outcome.keep_alive.is_none());
    assert_eq!(reactor.keep_alive_count(&"camA".to_string()), 1);
}

#[test]
fn reply_to_a_requester_that_is_gone_still_caches_the_workflow() {
    let mut reactor = start("r1");
    let (reply_sender, reply_receiver) = oneshot::channel();
    let (_keep_alive_sender, keep_alive_receiver) = oneshot::channel();
    let call = reactor.handle_request(ReactorRequest::CreateWorkflowNameForStream {
        stream_name: "camA".to_string(),
        response_channel: reply_sender,
        keep_alive_channel: keep_alive_receiver,
    });
    drop(reply_receiver);
    let outcome =
        reactor.handle_executor_response(call.stream_name, Some(definition("wfA")), call.keep_alive_channel);
    assert_eq!(outcome.reply, Some(Some("wfA".to_string())));
    assert!(outcome.keep_alive.is_some());
    assert_eq!(reactor.keep_alive_count(&"camA".to_string()), 1);
}

#[test]
fn upsert_to_a_manager_that_is_gone_is_swallowed() {
    let mut reactor = start("r1");
    let (handle, requests) = manager();
    register(&mut reactor, &handle);
    drop(requests);
    let (mut reply, _keep_alive, outcome) = resolve(&mut reactor, "camA", Some(definition("wfA")));
    assert_eq!(reply.try_recv(), Ok(Some("wfA".to_string())));
    assert_eq!(outcome.upsert, Some(upsert("reactor_r1_stream_camA", definition("wfA"))));
    assert_eq!(reactor.keep_alive_count(&"camA".to_string()), 1);
}

#[test]
fn same_definition_again_upserts_again_and_counts_once_more() {
    let mut reactor = start("r7");
    let (handle, mut requests) = manager();
    register(&mut reactor, &handle);
    for expected in 1..=3usize {
        let (_reply, _keep_alive, outcome) = resolve(&mut reactor, "camA", Some(definition("wfA")));
        assert_eq!(outcome.upsert, Some(upsert("reactor_r7_stream_camA", definition("wfA"))));
        assert_eq!(reactor.keep_alive_count(&"camA".to_string()), expected);
        assert_eq!(reactor.cached_workflow_count(), 1);
    }
    assert_eq!(drain(&mut requests).len(), 3);
}

#[test]
fn new_definition_for_a_stream_replaces_the_cached_one() {
    let mut reactor = start("r1");
    let (_reply1, _keep_alive1, _) = resolve(&mut reactor, "camA", Some(definition("wfA")));
    let (_reply2, _keep_alive2, _) = resolve(&mut reactor, "camA", Some(definition("wfB")));
    assert_eq!(reactor.keep_alive_count(&"camA".to_string()), 2);
    assert_eq!(reactor.cached_definition(&"camA".to_string()), Some(&definition("wfB")));

    let (handle, mut requests) = manager();
    assert_eq!(
        register(&mut reactor, &handle),
        vec![upsert("reactor_r1_cache_catchup", definition("wfB"))]
    );
    drain(&mut requests);

    reactor.handle_keep_alive_closed("camA".to_string());
    let closed = reactor.handle_keep_alive_closed("camA".to_string());
    assert_eq!(closed.stop, Some(stop("from_reactor", "wfB")));
    assert_eq!(drain(&mut requests), vec![stop("from_reactor", "wfB")]);
}

#[test]
fn registering_the_same_manager_twice_replays_twice() {
    let mut reactor = start("r1");
    let (_reply_a, _keep_alive_a, _) = resolve(&mut reactor, "camA", Some(definition("wfA")));
    let (_reply_b, _keep_alive_b, _) = resolve(&mut reactor, "camB", Some(definition("wfB")));
    let (handle, mut requests) = manager();
    let expected = vec![
        upsert("reactor_r1_cache_catchup", definition("wfA")),
        upsert("reactor_r1_cache_catchup", definition("wfB")),
    ];
    assert_eq!(register(&mut reactor, &handle), expected);
    assert_eq!(drain(&mut requests), expected);
    assert_eq!(register(&mut reactor, &handle), expected);
    assert_eq!(drain(&mut requests), expected);
    assert_eq!(reactor.cached_workflow_count(), 2);
}

#[test]
fn empty_cache_replay_emits_zero_upserts() {
    let mut reactor = start("r1");
    let (handle, mut requests) = manager();
    assert_eq!(register(&mut reactor, &handle), vec![]);
    assert_eq!(drain(&mut requests), vec![]);
    assert!(reactor.workflow_manager().expect("a manager").same_channel(&handle));
}

#[test]
fn keep_alive_closure_for_unknown_stream_is_a_no_op() {
    let mut reactor = start("r1");
    let (handle, mut requests) = manager();
    register(&mut reactor, &handle);
    let (_reply, _keep_alive, _) = resolve(&mut reactor, "camA", Some(definition("wfA")));
    drain(&mut requests);

    let closed = reactor.handle_keep_alive_closed("camQ".to_string());
    assert!(!closed.release.removed);
    assert_eq!(closed.release.last_name, None);
    assert_eq!(closed.stop, None);
    assert_eq!(closed.remaining, 0);
    assert_eq!(drain(&mut requests), vec![]);
    assert_eq!(reactor.cached_workflow_count(), 1);
    assert_eq!(reactor.keep_alive_count(&"camA".to_string()), 1);
}

#[test]
fn keep_alive_count_equals_channels_under_watch() {
    let mut reactor = start("r1");
    let mut watched: Vec<String> = Vec::new();
    let answers = [
        ("camA", Some("wfA")),
        ("camB", Some("wfB")),
        ("camA", Some("wfA")),
        ("camC", None),
        ("camB", Some("wfB2")),
        ("camA", Some("wfA")),
    ];
    for (stream_name, workflow) in answers {
        let (_reply, _keep_alive, outcome) = resolve(&mut reactor, stream_name, workflow.map(definition));
        if let Some(watch) = outcome.keep_alive {
            watched.push(watch.stream_name);
        }
        for name in ["camA", "camB", "camC"] {
            let under_watch = watched.iter().filter(|watched| watched.as_str() == name).count();
            assert_eq!(reactor.keep_alive_count(&name.to_string()), under_watch);
        }
    }
    while let Some(stream_name) = watched.pop() {
        reactor.handle_keep_alive_closed(stream_name);
        for name in ["camA", "camB", "camC"] {
            let under_watch = watched.iter().filter(|watched| watched.as_str() == name).count();
            assert_eq!(reactor.keep_alive_count(&name.to_string()), under_watch);
        }
    }
    assert_eq!(reactor.cached_workflow_count(), 0);
}

#[test]
fn events_within_the_limits_can_be_handled() {
    let mut reactor = start("r1");
    assert!(reactor.can_handle(&ReactorEvent::AllRequestConsumersGone));
    assert!(reactor.can_handle(&ReactorEvent::KeepAliveChannelClosed {
        stream_name: "camA".to_string()
    }));
    let (_reply, _keep_alive, _) = resolve(&mut reactor, "camA", Some(definition("wfA")));
    let (_sender, keep_alive_channel) = oneshot::channel();
    assert!(reactor.can_handle(&ReactorEvent::ExecutorResponseReceived {
        stream_name: "camA".to_string(),
        workflow: Some(definition("wfA")),
        keep_alive_channel,
    }));
}
