//! Laws of the reactor: what holds of its handlers taken together, for every
//! state and every event. Each law is proved of the state machine in
//! [`crate::reactors::model`], which is what the handlers of
//! [`crate::reactors::reactor::Reactor`] are verified against.

use vstd::prelude::*;
use vstd::multiset::Multiset;
use crate::reactors::cache::{
    cached_definition,
    caches,
    keep_alive_count,
    lemma_bumped_entry,
    lemma_bumped_is_well_formed,
    lemma_released_entry,
    lemma_released_is_well_formed,
    position,
    ReleaseView,
};
use crate::reactors::model::{
    after_executor_response,
    after_keep_alive_closed,
    after_manager_registered,
    catch_up_requests,
    executor_response_effects,
    initial_state,
    keep_alive_closed_effects,
    state_well_formed,
    ExecutorResponseEffects,
    KeepAliveClosedEffects,
    ReactorState,
};
use crate::reactors::reactor::{after_event, optional_definition_view, ReactorEvent};
use crate::reactors::request_ids::{catch_up_request_id, release_request_id, stream_request_id};
use crate::workflows::definitions::WorkflowDefinitionView;
use crate::workflows::manager::{stop_request, upsert_request, WorkflowManagerRequest};

verus! {

/// The keep-alive channels under watch after an event, counted by stream
/// name: a workflow that an executor response brings puts its keep-alive
/// channel under watch, and a channel that has closed is watched no longer.
pub open spec fn watched_after(
    state: ReactorState,
    watched: Multiset<Seq<char>>,
    event: ReactorEvent,
) -> Multiset<Seq<char>> {
    match event {
        ReactorEvent::ExecutorResponseReceived { stream_name, workflow, .. } => {
            if executor_response_effects(
                state,
                stream_name@,
                optional_definition_view(workflow),
            ).watches_keep_alive {
                watched.insert(stream_name@)
            } else {
                watched
            }
        },
        ReactorEvent::KeepAliveChannelClosed { stream_name } => watched.remove(stream_name@),
        _ => watched,
    }
}

/// Whether the event can come while these keep-alive channels are under
/// watch: only a channel under watch is reported as closed.
pub open spec fn can_happen(watched: Multiset<Seq<char>>, event: ReactorEvent) -> bool {
    event matches ReactorEvent::KeepAliveChannelClosed { stream_name } ==> watched.count(
        stream_name@,
    ) > 0
}

/// Whether the cache counts for every stream name as many keep-alive
/// channels as are under watch for it.
pub open spec fn counts_match_watched(state: ReactorState, watched: Multiset<Seq<char>>) -> bool {
    forall|stream_name: Seq<char>|
        keep_alive_count(state.cached_workflows, stream_name) == #[trigger] watched.count(
            stream_name,
        )
}

/// A reactor starts well formed, with nothing counted and nothing watched.
pub proof fn lemma_initial_state_is_in_order(name: Seq<char>)
    ensures
        state_well_formed(initial_state(name)),
        counts_match_watched(initial_state(name), Multiset::empty()),
{
    assert forall|stream_name: Seq<char>|
        keep_alive_count(initial_state(name).cached_workflows, stream_name)
            == #[trigger] Multiset::<Seq<char>>::empty().count(stream_name) by {
        assert(!caches(initial_state(name).cached_workflows, stream_name));
    }
}

/// Every event leaves the state well formed: no stream name is cached twice,
/// and a stream name is cached only while somebody keeps it alive.
pub proof fn lemma_events_keep_state_well_formed(state: ReactorState, event: ReactorEvent)
    requires
        state_well_formed(state),
    ensures
        state_well_formed(after_event(state, event)),
{
    match event {
        ReactorEvent::ExecutorResponseReceived { stream_name, workflow, .. } => {
            if let Some(definition) = workflow {
                lemma_bumped_is_well_formed(state.cached_workflows, stream_name@, definition@);
            }
        },
        ReactorEvent::KeepAliveChannelClosed { stream_name } => {
            lemma_released_is_well_formed(state.cached_workflows, stream_name@);
        },
        _ => {},
    }
}

/// The count of a cached stream name is the number of its keep-alive
/// channels under watch: where that holds before an event, it holds after it.
pub proof fn lemma_counts_follow_watched(
    state: ReactorState,
    watched: Multiset<Seq<char>>,
    event: ReactorEvent,
)
    requires
        state_well_formed(state),
        counts_match_watched(state, watched),
        can_happen(watched, event),
    ensures
        counts_match_watched(after_event(state, event), watched_after(state, watched, event)),
{
    let next = after_event(state, event);
    let next_watched = watched_after(state, watched, event);
    assert forall|other: Seq<char>|
        keep_alive_count(next.cached_workflows, other) == #[trigger] next_watched.count(
            other,
        ) by {
        assert(keep_alive_count(state.cached_workflows, other) == watched.count(other));
        match event {
            ReactorEvent::ExecutorResponseReceived { stream_name, workflow, .. } => {
                if let Some(definition) = workflow {
                    lemma_bumped_entry(state.cached_workflows, stream_name@, definition@, other);
                }
            },
            ReactorEvent::KeepAliveChannelClosed { stream_name } => {
                assert(keep_alive_count(state.cached_workflows, stream_name@) == watched.count(
                    stream_name@,
                ));
                lemma_released_entry(state.cached_workflows, stream_name@, other);
            },
            _ => {},
        }
    }
}

/// The state of a reactor named `name` after it has handled `events`, one
/// after the other.
pub open spec fn state_after(name: Seq<char>, events: Seq<ReactorEvent>) -> ReactorState
    decreases events.len(),
{
    if events.len() == 0 {
        initial_state(name)
    } else {
        after_event(state_after(name, events.drop_last()), events.last())
    }
}

/// The keep-alive channels under watch after a reactor named `name` has
/// handled `events`.
pub open spec fn watched_after_all(name: Seq<char>, events: Seq<ReactorEvent>) -> Multiset<
    Seq<char>,
>
    decreases events.len(),
{
    if events.len() == 0 {
        Multiset::empty()
    } else {
        watched_after(
            state_after(name, events.drop_last()),
            watched_after_all(name, events.drop_last()),
            events.last(),
        )
    }
}

/// Whether `events` can come in this order to a reactor named `name`: each
/// keep-alive channel that is reported as closed was under watch then.
pub open spec fn can_happen_in_order(name: Seq<char>, events: Seq<ReactorEvent>) -> bool
    decreases events.len(),
{
    events.len() > 0 ==> {
        &&& can_happen_in_order(name, events.drop_last())
        &&& can_happen(watched_after_all(name, events.drop_last()), events.last())
    }
}

/// Whatever a reactor has handled, its state is well formed and the count of
/// every cached stream name is the number of its keep-alive channels under
/// watch; a stream name without such a channel is not cached.
pub proof fn lemma_every_reachable_state_is_in_order(name: Seq<char>, events: Seq<ReactorEvent>)
    requires
        can_happen_in_order(name, events),
    ensures
        state_well_formed(state_after(name, events)),
        counts_match_watched(state_after(name, events), watched_after_all(name, events)),
        forall|stream_name: Seq<char>|
            caches(state_after(name, events).cached_workflows, stream_name) <==> #[trigger] watched_after_all(
                name,
                events,
            ).count(stream_name) > 0,
    decreases events.len(),
{
    let state = state_after(name, events);
    let watched = watched_after_all(name, events);
    if events.len() == 0 {
        lemma_initial_state_is_in_order(name);
    } else {
        lemma_every_reachable_state_is_in_order(name, events.drop_last());
        lemma_events_keep_state_well_formed(
            state_after(name, events.drop_last()),
            events.last(),
        );
        lemma_counts_follow_watched(
            state_after(name, events.drop_last()),
            watched_after_all(name, events.drop_last()),
            events.last(),
        );
    }
    assert forall|stream_name: Seq<char>|
        caches(state.cached_workflows, stream_name) <==> #[trigger] watched.count(stream_name)
            > 0 by {
        assert(keep_alive_count(state.cached_workflows, stream_name) == watched.count(
            stream_name,
        ));
        if caches(state.cached_workflows, stream_name) {
            let p = position(state.cached_workflows, stream_name);
            assert(state.cached_workflows[p].keep_alive_count >= 1);
        }
    }
}

/// Every event touches only its own part of the state. The name never
/// changes. Only an executor response and the closing of a keep-alive channel
/// change the cache. Only a request and an executor response change the
/// record of waiting requests, and they leave every other stream name as it
/// was. Only the registration and the end of a workflow manager change the
/// handle: after a registration the new handle is on record, after the end
/// none is.
pub proof fn lemma_events_touch_their_own_part(
    state: ReactorState,
    event: ReactorEvent,
    other: Seq<char>,
)
    ensures
        after_event(state, event).name == state.name,
        !(event is ExecutorResponseReceived) && !(event is KeepAliveChannelClosed) ==> after_event(
            state,
            event,
        ).cached_workflows == state.cached_workflows,
        !(event is RequestReceived) && !(event is ExecutorResponseReceived) ==> after_event(
            state,
            event,
        ).active_requests == state.active_requests,
        event matches ReactorEvent::RequestReceived(request) ==> {
            &&& after_event(state, event).active_requests.contains_key(request->stream_name@)
            &&& after_event(state, event).active_requests[request->stream_name@]
                == request->response_channel
            &&& other != request->stream_name@ ==> {
                &&& after_event(state, event).active_requests.contains_key(other)
                    == state.active_requests.contains_key(other)
                &&& state.active_requests.contains_key(other) ==> after_event(
                    state,
                    event,
                ).active_requests[other] == state.active_requests[other]
            }
        },
        event matches ReactorEvent::ExecutorResponseReceived { stream_name, .. } ==> {
            &&& !after_event(state, event).active_requests.contains_key(stream_name@)
            &&& other != stream_name@ ==> {
                &&& after_event(state, event).active_requests.contains_key(other)
                    == state.active_requests.contains_key(other)
                &&& state.active_requests.contains_key(other) ==> after_event(
                    state,
                    event,
                ).active_requests[other] == state.active_requests[other]
            }
        },
        !(event is WorkflowManagerEventReceived) && !(event is WorkflowManagerGone) ==> after_event(
            state,
            event,
        ).workflow_manager == state.workflow_manager,
        event matches ReactorEvent::WorkflowManagerEventReceived(registered) ==> after_event(
            state,
            event,
        ).workflow_manager == Some(registered->channel),
        event is WorkflowManagerGone ==> after_event(state, event).workflow_manager.is_none(),
{
}

/// An upsert follows every bump: a workflow that the executor gives for a
/// waiting request goes into the cache, and exactly one upsert with that
/// definition goes to the workflow manager while one is registered. While
/// none is registered no upsert goes out, and the entry is cached all the
/// same.
pub proof fn lemma_upsert_follows_bump(
    state: ReactorState,
    stream_name: Seq<char>,
    definition: WorkflowDefinitionView,
)
    requires
        state_well_formed(state),
        state.active_requests.contains_key(stream_name),
    ensures
        state.workflow_manager.is_some() ==> executor_response_effects(
            state,
            stream_name,
            Some(definition),
        ).upsert == Some(upsert_request(stream_request_id(state.name, stream_name), definition)),
        state.workflow_manager.is_none() ==> executor_response_effects(
            state,
            stream_name,
            Some(definition),
        ).upsert.is_none(),
        cached_definition(
            after_executor_response(state, stream_name, Some(definition)).cached_workflows,
            stream_name,
        ) == Some(definition),
        keep_alive_count(
            after_executor_response(state, stream_name, Some(definition)).cached_workflows,
            stream_name,
        ) == keep_alive_count(state.cached_workflows, stream_name) + 1,
{
    lemma_bumped_entry(state.cached_workflows, stream_name, definition, stream_name);
}

/// A stop follows the last release: when the last keep-alive channel of a
/// stream name closes, the entry leaves the cache and exactly one stop with
/// the name of its workflow goes to the workflow manager, if one is
/// registered. The closing of any other keep-alive channel stops nothing.
pub proof fn lemma_stop_follows_last_release(state: ReactorState, stream_name: Seq<char>)
    requires
        state_well_formed(state),
    ensures
        keep_alive_count(state.cached_workflows, stream_name) == 1 ==> {
            &&& !caches(after_keep_alive_closed(state, stream_name).cached_workflows, stream_name)
            &&& state.workflow_manager.is_some() ==> keep_alive_closed_effects(
                state,
                stream_name,
            ).stop == Some(
                stop_request(
                    release_request_id(),
                    cached_definition(state.cached_workflows, stream_name).unwrap().name,
                ),
            )
            &&& state.workflow_manager.is_none() ==> keep_alive_closed_effects(
                state,
                stream_name,
            ).stop.is_none()
        },
        keep_alive_count(state.cached_workflows, stream_name) != 1 ==> keep_alive_closed_effects(
            state,
            stream_name,
        ).stop.is_none(),
{
    lemma_released_entry(state.cached_workflows, stream_name, stream_name);
    if caches(state.cached_workflows, stream_name) {
        let p = position(state.cached_workflows, stream_name);
        assert(state.cached_workflows[p].keep_alive_count >= 1);
    }
}

/// The replay is complete: a workflow manager that registers is sent exactly
/// one upsert for each cache entry, under the catch-up id of the reactor and
/// with the definition that is cached; the cache itself stays as it is, and
/// the new handle is the one on record.
pub proof fn lemma_catch_up_covers_cache(
    state: ReactorState,
    channel: tokio::sync::mpsc::UnboundedSender<WorkflowManagerRequest>,
)
    requires
        state_well_formed(state),
    ensures
        catch_up_requests(state).len() == state.cached_workflows.len(),
        forall|i: int|
            0 <= i < state.cached_workflows.len() ==> #[trigger] catch_up_requests(state)[i]
                == upsert_request(
                catch_up_request_id(state.name),
                state.cached_workflows[i].definition,
            ),
        forall|stream_name: Seq<char>| #[trigger]
            caches(state.cached_workflows, stream_name) ==> catch_up_requests(state)[position(
                state.cached_workflows,
                stream_name,
            )] == upsert_request(
                catch_up_request_id(state.name),
                cached_definition(state.cached_workflows, stream_name).unwrap(),
            ),
        after_manager_registered(state, channel).cached_workflows == state.cached_workflows,
        after_manager_registered(state, channel).workflow_manager == Some(channel),
{
}

/// One reply for each response: the executor's answer for a waiting request
/// is passed on to the requester, the name of the workflow or `None`, and
/// takes the request off the record, so that another answer for the same
/// stream name finds nobody to reply to.
pub proof fn lemma_one_reply_per_response(
    state: ReactorState,
    stream_name: Seq<char>,
    workflow: Option<WorkflowDefinitionView>,
    again: Option<WorkflowDefinitionView>,
)
    requires
        state.active_requests.contains_key(stream_name),
    ensures
        executor_response_effects(state, stream_name, workflow).reply == Some(
            match workflow {
                Some(definition) => Some(definition.name),
                None => None,
            },
        ),
        !after_executor_response(state, stream_name, workflow).active_requests.contains_key(
            stream_name,
        ),
        executor_response_effects(
            after_executor_response(state, stream_name, workflow),
            stream_name,
            again,
        ).reply.is_none(),
{
}

/// No reply without a request: an answer of the executor for a stream name
/// that no request waits for changes nothing and sends nothing.
pub proof fn lemma_unasked_response_does_nothing(
    state: ReactorState,
    stream_name: Seq<char>,
    workflow: Option<WorkflowDefinitionView>,
)
    requires
        !state.active_requests.contains_key(stream_name),
    ensures
        after_executor_response(state, stream_name, workflow) == state,
        executor_response_effects(state, stream_name, workflow) == (ExecutorResponseEffects {
            reply: None,
            upsert: None,
            watches_keep_alive: false,
        }),
{
}

/// The same answer again: when the executor gives the definition that is
/// already cached for a stream name, the upsert that goes out is the one that
/// a first answer with this definition gives, the definition stays, and the
/// count grows by one.
pub proof fn lemma_same_answer_counts_once_more(
    state: ReactorState,
    stream_name: Seq<char>,
    definition: WorkflowDefinitionView,
)
    requires
        state_well_formed(state),
        state.active_requests.contains_key(stream_name),
        cached_definition(state.cached_workflows, stream_name) == Some(definition),
    ensures
        executor_response_effects(state, stream_name, Some(definition)).upsert == if state.workflow_manager.is_some() {
            Some(upsert_request(stream_request_id(state.name, stream_name), definition))
        } else {
            None
        },
        cached_definition(
            after_executor_response(state, stream_name, Some(definition)).cached_workflows,
            stream_name,
        ) == cached_definition(state.cached_workflows, stream_name),
        keep_alive_count(
            after_executor_response(state, stream_name, Some(definition)).cached_workflows,
            stream_name,
        ) == keep_alive_count(state.cached_workflows, stream_name) + 1,
        after_executor_response(state, stream_name, Some(definition)).cached_workflows.len()
            == state.cached_workflows.len(),
{
    lemma_bumped_entry(state.cached_workflows, stream_name, definition, stream_name);
}

/// Registering again replays again: a workflow manager that registers right
/// after another, or after itself, is sent the same upserts, and when the
/// same handle registers twice the state after the second time is the state
/// after the first.
pub proof fn lemma_registering_again_replays(
    state: ReactorState,
    first: tokio::sync::mpsc::UnboundedSender<WorkflowManagerRequest>,
    second: tokio::sync::mpsc::UnboundedSender<WorkflowManagerRequest>,
)
    ensures
        catch_up_requests(after_manager_registered(state, first)) == catch_up_requests(state),
        after_manager_registered(after_manager_registered(state, first), second)
            == after_manager_registered(state, second),
        after_manager_registered(after_manager_registered(state, first), first)
            == after_manager_registered(state, first),
{
    assert(catch_up_requests(after_manager_registered(state, first)) =~= catch_up_requests(state));
}

/// Replaying an empty cache sends nothing.
pub proof fn lemma_empty_cache_replays_nothing(state: ReactorState)
    requires
        state.cached_workflows.len() == 0,
    ensures
        catch_up_requests(state) == Seq::<crate::workflows::manager::WorkflowManagerRequestView>::empty(),
{
    assert(catch_up_requests(state) =~= Seq::<
        crate::workflows::manager::WorkflowManagerRequestView,
    >::empty());
}

/// The closing of a keep-alive channel for a stream name that is not cached
/// changes nothing and sends nothing.
pub proof fn lemma_unknown_keep_alive_does_nothing(state: ReactorState, stream_name: Seq<char>)
    requires
        !caches(state.cached_workflows, stream_name),
    ensures
        after_keep_alive_closed(state, stream_name) == state,
        keep_alive_closed_effects(state, stream_name) == (KeepAliveClosedEffects {
            release: ReleaseView { removed: false, last_name: None },
            stop: None,
            remaining: 0,
        }),
{
}

} // verus!
