//! The reactor: a single-writer actor that turns requests for stream names
//! into managed workflow lifecycles.
//!
//! A [`Reactor`] holds the state and handles one event at a time. It never
//! waits: whoever drives it waits for the next event, hands it to
//! [`Reactor::handle_event`], and then does what the answer asks for (call
//! the executor, watch a keep-alive channel, stop). What a handler sends over
//! a channel it also reports in its result, and the contracts speak of that
//! report.

use vstd::prelude::*;
use crate::channels::{send_oneshot, send_unbounded, unbounded_channel};
use crate::event_hub::{SubscriptionRequest, WorkflowManagerEvent};
use crate::reactors::active_requests::ActiveRequests;
use crate::reactors::cache::{
    cached_definition,
    definition_views,
    definitions,
    keep_alive_count,
    Release,
    WorkflowCache,
};
use crate::reactors::manager_adapter::WorkflowManagerAdapter;
use crate::reactors::model::{
    after_executor_response,
    after_keep_alive_closed,
    after_manager_gone,
    after_manager_registered,
    after_request,
    catch_up_requests,
    executor_response_effects,
    initial_state,
    keep_alive_closed_effects,
    state_well_formed,
    ExecutorResponseEffects,
    KeepAliveClosedEffects,
    ReactorState,
};
use crate::reactors::request_ids::{
    catch_up_request_id,
    make_catch_up_request_id,
    make_release_request_id,
    make_stream_request_id,
};
use crate::workflows::definitions::{optional_text, WorkflowDefinition, WorkflowDefinitionView};
use crate::workflows::manager::{optional_request_view, request_views, WorkflowManagerRequest};

verus! {

/// Requests that can be made to a reactor.
#[derive(Debug)]
pub enum ReactorRequest {
    /// Requests that the reactor creates and manages a workflow for the
    /// specified stream name.
    CreateWorkflowNameForStream {
        /// Name of the stream to get a workflow for.
        stream_name: String,
        /// The channel to send a response for. It will either send the name
        /// of the workflow associated with the stream name, or `None`,
        /// representing that no workflow is associated with the stream.
        response_channel: tokio::sync::oneshot::Sender<Option<String>>,
        /// Channel that will be used to keep the created workflow alive. When
        /// the sender end of the channel is closed, that will be a signal to
        /// the reactor to remove the created workflow.
        keep_alive_channel: tokio::sync::oneshot::Receiver<()>,
    },
}

/// What can happen to a reactor.
#[derive(Debug)]
pub enum ReactorEvent {
    /// Every sender of requests is gone.
    AllRequestConsumersGone,
    /// The event hub has closed the subscription.
    EventHubGone,
    /// The workflow manager has closed its queue.
    WorkflowManagerGone,
    /// A request has arrived.
    RequestReceived(ReactorRequest),
    /// The executor has answered for a stream name.
    ExecutorResponseReceived {
        stream_name: String,
        workflow: Option<WorkflowDefinition>,
        keep_alive_channel: tokio::sync::oneshot::Receiver<()>,
    },
    /// The event hub has delivered an event.
    WorkflowManagerEventReceived(WorkflowManagerEvent),
    /// A keep-alive channel that was watched has closed.
    KeepAliveChannelClosed { stream_name: String },
}

/// A call of the executor that is due: ask it for the workflow of
/// `stream_name`, and hand its answer back together with the keep-alive
/// channel.
#[derive(Debug)]
pub struct ExecutorCall {
    pub stream_name: String,
    pub keep_alive_channel: tokio::sync::oneshot::Receiver<()>,
}

/// A keep-alive channel that is to be watched: when it closes, the reactor
/// is to be told so for `stream_name`.
#[derive(Debug)]
pub struct KeepAliveWatch {
    pub stream_name: String,
    pub keep_alive_channel: tokio::sync::oneshot::Receiver<()>,
}

/// What handling an executor response did.
#[derive(Debug)]
pub struct ExecutorResponseOutcome {
    /// The answer that was sent to the requester. `None` on the outside: no
    /// request was on record for the stream name, and nothing was sent.
    pub reply: Option<Option<String>>,
    /// The upsert that was sent to the workflow manager.
    pub upsert: Option<WorkflowManagerRequest>,
    /// The keep-alive channel to watch from now on.
    pub keep_alive: Option<KeepAliveWatch>,
}

/// What handling the closing of a keep-alive channel did.
#[derive(Debug)]
pub struct KeepAliveOutcome {
    /// What became of the cache entry.
    pub release: Release,
    /// The stop that was sent to the workflow manager.
    pub stop: Option<WorkflowManagerRequest>,
    /// The number of keep-alive channels that the stream name has left.
    pub remaining: usize,
}

/// What handling an event did, and what is due next.
#[derive(Debug)]
pub enum Handled {
    /// The reactor has come to its end: no event is to follow.
    Stopped,
    /// A request went on record. The executor is to be called.
    RequestRecorded(ExecutorCall),
    /// An executor response was dealt with.
    ExecutorResponded(ExecutorResponseOutcome),
    /// A workflow manager was registered and sent these upserts, one for each
    /// cache entry. Its handle is to be watched for closing.
    ManagerRegistered(Vec<WorkflowManagerRequest>),
    /// The workflow manager was forgotten.
    ManagerGone,
    /// The closing of a keep-alive channel was dealt with.
    KeepAliveClosed(KeepAliveOutcome),
}

impl View for ExecutorResponseOutcome {
    type V = ExecutorResponseEffects;

    open spec fn view(&self) -> ExecutorResponseEffects {
        ExecutorResponseEffects {
            reply: match self.reply {
                Some(answer) => Some(optional_text(answer)),
                None => None,
            },
            upsert: optional_request_view(self.upsert),
            watches_keep_alive: self.keep_alive.is_some(),
        }
    }
}

impl View for KeepAliveOutcome {
    type V = KeepAliveClosedEffects;

    open spec fn view(&self) -> KeepAliveClosedEffects {
        KeepAliveClosedEffects {
            release: self.release@,
            stop: optional_request_view(self.stop),
            remaining: self.remaining as nat,
        }
    }
}

/// The workflow that an executor response carries, by what it holds.
pub open spec fn optional_definition_view(workflow: Option<WorkflowDefinition>) -> Option<
    WorkflowDefinitionView,
> {
    match workflow {
        Some(definition) => Some(definition@),
        None => None,
    }
}

/// Whether `call` is the executor call that `request` asks for.
pub open spec fn calls_executor_for(request: ReactorRequest, call: ExecutorCall) -> bool {
    &&& call.stream_name@ == request->stream_name@
    &&& call.keep_alive_channel == request->keep_alive_channel
}

/// Whether `outcome` is what handling the executor response in `state` gives.
pub open spec fn answers_executor_response(
    state: ReactorState,
    stream_name: String,
    workflow: Option<WorkflowDefinition>,
    keep_alive_channel: tokio::sync::oneshot::Receiver<()>,
    outcome: ExecutorResponseOutcome,
) -> bool {
    &&& outcome@ == executor_response_effects(
        state,
        stream_name@,
        optional_definition_view(workflow),
    )
    &&& outcome.keep_alive matches Some(watch) ==> {
        &&& watch.stream_name@ == stream_name@
        &&& watch.keep_alive_channel == keep_alive_channel
    }
}

/// Whether the event ends the reactor.
pub open spec fn stops(event: ReactorEvent) -> bool {
    event is AllRequestConsumersGone || event is EventHubGone
}

/// The state after the event.
pub open spec fn after_event(state: ReactorState, event: ReactorEvent) -> ReactorState {
    match event {
        ReactorEvent::AllRequestConsumersGone => state,
        ReactorEvent::EventHubGone => state,
        ReactorEvent::WorkflowManagerGone => after_manager_gone(state),
        ReactorEvent::RequestReceived(request) => after_request(
            state,
            request->stream_name@,
            request->response_channel,
        ),
        ReactorEvent::ExecutorResponseReceived { stream_name, workflow, .. } => {
            after_executor_response(state, stream_name@, optional_definition_view(workflow))
        },
        ReactorEvent::WorkflowManagerEventReceived(event) => after_manager_registered(
            state,
            event->channel,
        ),
        ReactorEvent::KeepAliveChannelClosed { stream_name } => after_keep_alive_closed(
            state,
            stream_name@,
        ),
    }
}

/// Whether `handled` is what handling the event in `state` gives.
pub open spec fn handles(state: ReactorState, event: ReactorEvent, handled: Handled) -> bool {
    match event {
        ReactorEvent::AllRequestConsumersGone => handled is Stopped,
        ReactorEvent::EventHubGone => handled is Stopped,
        ReactorEvent::WorkflowManagerGone => handled is ManagerGone,
        ReactorEvent::RequestReceived(request) => {
            &&& handled matches Handled::RequestRecorded(call)
            &&& calls_executor_for(request, call)
        },
        ReactorEvent::ExecutorResponseReceived { stream_name, workflow, keep_alive_channel } => {
            &&& handled matches Handled::ExecutorResponded(outcome)
            &&& answers_executor_response(state, stream_name, workflow, keep_alive_channel, outcome)
        },
        ReactorEvent::WorkflowManagerEventReceived(_) => {
            &&& handled matches Handled::ManagerRegistered(catch_up)
            &&& request_views(catch_up@) == catch_up_requests(state)
        },
        ReactorEvent::KeepAliveChannelClosed { stream_name } => {
            &&& handled matches Handled::KeepAliveClosed(outcome)
            &&& outcome@ == keep_alive_closed_effects(state, stream_name@)
        },
    }
}

/// Whether the executor response can be handled in `state` within the limits
/// of the machine: where it counts a workflow once more, the count can still
/// grow.
pub open spec fn response_within_limits(
    state: ReactorState,
    stream_name: String,
    workflow: Option<WorkflowDefinition>,
) -> bool {
    workflow.is_some() && state.active_requests.contains_key(stream_name@) ==> keep_alive_count(
        state.cached_workflows,
        stream_name@,
    ) < usize::MAX
}

/// Whether the event can be handled in `state` within the limits of the
/// machine.
pub open spec fn within_limits(state: ReactorState, event: ReactorEvent) -> bool {
    event matches ReactorEvent::ExecutorResponseReceived { stream_name, workflow, .. }
        ==> response_within_limits(state, stream_name, workflow)
}

/// A reactor.
#[derive(Debug)]
pub struct Reactor {
    name: String,
    active_requests: ActiveRequests,
    workflow_manager: WorkflowManagerAdapter,
    cached_workflows: WorkflowCache,
}

impl View for Reactor {
    type V = ReactorState;

    closed spec fn view(&self) -> ReactorState {
        ReactorState {
            name: self.name@,
            active_requests: self.active_requests@,
            workflow_manager: self.workflow_manager@,
            cached_workflows: self.cached_workflows@,
        }
    }
}

impl Reactor {
    /// Whether the record of waiting requests is in order.
    pub closed spec fn requests_in_order(&self) -> bool {
        self.active_requests.well_formed()
    }

    /// The invariant of a reactor. [`Reactor::new`] establishes it and every
    /// handler keeps it.
    pub open spec fn well_formed(&self) -> bool {
        self.requests_in_order() && state_well_formed(self@)
    }

    /// Starts a reactor named `name`: subscribes to the workflow manager
    /// events of the event hub, once, and gives the reactor together with the
    /// queue over which the event hub delivers.
    pub fn new(
        name: String,
        event_hub_subscriber: tokio::sync::mpsc::UnboundedSender<SubscriptionRequest>,
    ) -> (started: (Self, tokio::sync::mpsc::UnboundedReceiver<WorkflowManagerEvent>))
        ensures
            started.0@ == initial_state(name@),
            started.0.well_formed(),
    {
        let (manager_sender, manager_receiver) = unbounded_channel::<WorkflowManagerEvent>();
        let _ = send_unbounded(
            &event_hub_subscriber,
            SubscriptionRequest::WorkflowManagerEvents { channel: manager_sender },
        );
        let reactor = Reactor {
            name,
            active_requests: ActiveRequests::new(),
            workflow_manager: WorkflowManagerAdapter::new(),
            cached_workflows: WorkflowCache::new(),
        };
        (reactor, manager_receiver)
    }

    /// The name of the reactor.
    pub fn name(&self) -> (name: &String)
        ensures
            name@ == self@.name,
    {
        &self.name
    }

    /// The handle of the workflow manager, while one is registered.
    pub fn workflow_manager(&self) -> (handle: Option<
        &tokio::sync::mpsc::UnboundedSender<WorkflowManagerRequest>,
    >)
        ensures
            handle.is_some() == self@.workflow_manager.is_some(),
            handle matches Some(manager) ==> *manager == self@.workflow_manager.unwrap(),
    {
        self.workflow_manager.handle()
    }

    /// Whether a request for the stream name waits for the executor.
    pub fn is_active(&self, stream_name: &String) -> (active: bool)
        requires
            self.well_formed(),
        ensures
            active == self@.active_requests.contains_key(stream_name@),
    {
        self.active_requests.contains(stream_name)
    }

    /// The number of stream names in the cache.
    pub fn cached_workflow_count(&self) -> (count: usize)
        ensures
            count == self@.cached_workflows.len(),
    {
        self.cached_workflows.len()
    }

    /// The number of keep-alive channels on record for the stream name: zero
    /// if no workflow is cached for it.
    pub fn keep_alive_count(&self, stream_name: &String) -> (count: usize)
        requires
            self.well_formed(),
        ensures
            count == keep_alive_count(self@.cached_workflows, stream_name@),
    {
        self.cached_workflows.keep_alive_count(stream_name)
    }

    /// The definition that is cached for the stream name.
    pub fn cached_definition(&self, stream_name: &String) -> (definition: Option<
        &WorkflowDefinition,
    >)
        requires
            self.well_formed(),
        ensures
            cached_definition(self@.cached_workflows, stream_name@) == match definition {
                Some(found) => Some(found@),
                None => None,
            },
    {
        self.cached_workflows.definition(stream_name)
    }

    /// Whether the event can be handled within the limits of the machine:
    /// see [`within_limits`].
    pub fn can_handle(&self, event: &ReactorEvent) -> (possible: bool)
        requires
            self.well_formed(),
        ensures
            possible == within_limits(self@, *event),
    {
        match event {
            ReactorEvent::ExecutorResponseReceived { stream_name, workflow, .. } => {
                workflow.is_none() || !self.active_requests.contains(stream_name)
                    || self.cached_workflows.keep_alive_count(stream_name) < usize::MAX
            },
            _ => true,
        }
    }

    /// Handles a request: puts its reply channel on record for the stream
    /// name, in place of one that was on record for it, and asks for a call of
    /// the executor.
    pub fn handle_request(&mut self, request: ReactorRequest) -> (call: ExecutorCall)
        requires
            old(self).well_formed(),
        ensures
            final(self)@ == after_request(
                old(self)@,
                request->stream_name@,
                request->response_channel,
            ),
            calls_executor_for(request, call),
            final(self).well_formed(),
    {
        match request {
            ReactorRequest::CreateWorkflowNameForStream {
                stream_name,
                response_channel,
                keep_alive_channel,
            } => {
                let _ = self.active_requests.insert(stream_name.clone(), response_channel);
                ExecutorCall { stream_name, keep_alive_channel }
            },
        }
    }

    /// Handles the executor's answer for a stream name.
    ///
    /// An answer that no request waits for changes nothing and sends nothing.
    /// Otherwise the request leaves the record and gets its one reply. A
    /// workflow is bumped in the cache, upserted at the workflow manager if
    /// one is registered, and its keep-alive channel is handed back to be
    /// watched; without a workflow the keep-alive channel is dropped.
    pub fn handle_executor_response(
        &mut self,
        stream_name: String,
        workflow: Option<WorkflowDefinition>,
        keep_alive_channel: tokio::sync::oneshot::Receiver<()>,
    ) -> (outcome: ExecutorResponseOutcome)
        requires
            old(self).well_formed(),
            response_within_limits(old(self)@, stream_name, workflow),
        ensures
            final(self)@ == after_executor_response(
                old(self)@,
                stream_name@,
                optional_definition_view(workflow),
            ),
            answers_executor_response(
                old(self)@,
                stream_name,
                workflow,
                keep_alive_channel,
                outcome,
            ),
            final(self).well_formed(),
    {
        let channel = match self.active_requests.remove(&stream_name) {
            Some(channel) => channel,
            None => {
                assert(self@ =~= old(self)@);
                return ExecutorResponseOutcome { reply: None, upsert: None, keep_alive: None };
            },
        };
        match workflow {
            Some(definition) => {
                let workflow_name = definition.name.clone();
                self.cached_workflows.bump(stream_name.clone(), definition.clone());
                let upsert = self.workflow_manager.upsert(
                    definition,
                    make_stream_request_id(&self.name, &stream_name),
                );
                let reply = Some(workflow_name);
                let _ = send_oneshot(channel, reply.clone());
                ExecutorResponseOutcome {
                    reply: Some(reply),
                    upsert,
                    keep_alive: Some(KeepAliveWatch { stream_name, keep_alive_channel }),
                }
            },
            None => {
                let _ = send_oneshot(channel, None);
                ExecutorResponseOutcome { reply: Some(None), upsert: None, keep_alive: None }
            },
        }
    }

    /// Handles an event of the event hub: the workflow manager that has
    /// registered is sent one upsert for each cache entry, and its handle
    /// takes the place of the one that was known. Gives the upserts that were
    /// sent.
    pub fn handle_workflow_manager_event(&mut self, event: WorkflowManagerEvent) -> (catch_up: Vec<
        WorkflowManagerRequest,
    >)
        requires
            old(self).well_formed(),
        ensures
            final(self)@ == after_manager_registered(old(self)@, event->channel),
            request_views(catch_up@) == catch_up_requests(old(self)@),
            final(self).well_formed(),
    {
        match event {
            WorkflowManagerEvent::WorkflowManagerRegistered { channel } => {
                self.workflow_manager.register(channel);
                let request_id = make_catch_up_request_id(&self.name);
                let snapshot = self.cached_workflows.snapshot();
                let mut catch_up: Vec<WorkflowManagerRequest> = Vec::new();
                let mut i: usize = 0;
                assert(snapshot@.len() == self@.cached_workflows.len()) by {
                    assert(definition_views(snapshot@).len() == definitions(
                        self@.cached_workflows,
                    ).len());
                }
                assert forall|k: int| 0 <= k < snapshot@.len() implies (#[trigger] snapshot@[k])@
                    == self@.cached_workflows[k].definition by {
                    assert(definition_views(snapshot@)[k] == definitions(
                        self@.cached_workflows,
                    )[k]);
                }
                while i < snapshot.len()
                    invariant
                        i <= snapshot@.len(),
                        snapshot@.len() == self@.cached_workflows.len(),
                        self@.workflow_manager.is_some(),
                        request_id@ == catch_up_request_id(self@.name),
                        forall|k: int|
                            0 <= k < snapshot@.len() ==> (#[trigger] snapshot@[k])@
                                == self@.cached_workflows[k].definition,
                        catch_up@.len() == i,
                        forall|k: int|
                            0 <= k < i ==> (#[trigger] catch_up@[k])@ == catch_up_requests(
                                self@,
                            )[k],
                    decreases snapshot@.len() - i,
                {
                    match self.workflow_manager.upsert(snapshot[i].clone(), request_id.clone()) {
                        Some(sent) => catch_up.push(sent),
                        None => {},
                    }
                    i += 1;
                }
                assert(request_views(catch_up@) =~= catch_up_requests(old(self)@));
                catch_up
            },
        }
    }

    /// Handles the closing of the workflow manager's queue: the handle is
    /// forgotten and the cache stays, so that the next workflow manager that
    /// registers is brought up to date.
    pub fn handle_workflow_manager_gone(&mut self)
        requires
            old(self).well_formed(),
        ensures
            final(self)@ == after_manager_gone(old(self)@),
            final(self).well_formed(),
    {
        self.workflow_manager.forget();
    }

    /// Handles the closing of a keep-alive channel of the stream name: the
    /// cache entry counts one less. When it was the last one the entry leaves
    /// the cache and its workflow is stopped at the workflow manager, if one
    /// is registered. A stream name without a cache entry changes nothing.
    pub fn handle_keep_alive_closed(&mut self, stream_name: String) -> (outcome: KeepAliveOutcome)
        requires
            old(self).well_formed(),
        ensures
            final(self)@ == after_keep_alive_closed(old(self)@, stream_name@),
            outcome@ == keep_alive_closed_effects(old(self)@, stream_name@),
            final(self).well_formed(),
    {
        let release = self.cached_workflows.release(&stream_name);
        let remaining = self.cached_workflows.keep_alive_count(&stream_name);
        let stop = match &release.last_name {
            Some(workflow_name) => self.workflow_manager.stop(
                workflow_name.clone(),
                make_release_request_id(),
            ),
            None => None,
        };
        KeepAliveOutcome { release, stop, remaining }
    }

    /// Handles one event, whatever it is, and says what is due next.
    ///
    /// The end of the requests and the end of the event hub's subscription
    /// end the reactor. The end of the workflow manager does not.
    pub fn handle_event(&mut self, event: ReactorEvent) -> (handled: Handled)
        requires
            old(self).well_formed(),
            within_limits(old(self)@, event),
        ensures
            final(self)@ == after_event(old(self)@, event),
            handles(old(self)@, event, handled),
            handled is Stopped == stops(event),
            final(self).well_formed(),
    {
        match event {
            ReactorEvent::AllRequestConsumersGone => Handled::Stopped,
            ReactorEvent::EventHubGone => Handled::Stopped,
            ReactorEvent::WorkflowManagerGone => {
                self.handle_workflow_manager_gone();
                Handled::ManagerGone
            },
            ReactorEvent::RequestReceived(request) => Handled::RequestRecorded(
                self.handle_request(request),
            ),
            ReactorEvent::ExecutorResponseReceived { stream_name, workflow, keep_alive_channel } => {
                Handled::ExecutorResponded(
                    self.handle_executor_response(stream_name, workflow, keep_alive_channel),
                )
            },
            ReactorEvent::WorkflowManagerEventReceived(event) => Handled::ManagerRegistered(
                self.handle_workflow_manager_event(event),
            ),
            ReactorEvent::KeepAliveChannelClosed { stream_name } => Handled::KeepAliveClosed(
                self.handle_keep_alive_closed(stream_name),
            ),
        }
    }
}

} // verus!
