//! The reactor as a state machine: its state, and for each event the state
//! that follows and what goes out.
//!
//! The handlers of [`crate::reactors::reactor::Reactor`] are verified against
//! the functions of this module, and the laws in [`crate::reactors::laws`]
//! are proved of them.

use vstd::prelude::*;
use crate::reactors::cache::{
    bumped,
    cache_well_formed,
    keep_alive_count,
    release_result,
    released,
    CachedWorkflowView,
    ReleaseView,
};
use crate::reactors::request_ids::{catch_up_request_id, release_request_id, stream_request_id};
use crate::workflows::definitions::WorkflowDefinitionView;
use crate::workflows::manager::{
    stop_request,
    upsert_request,
    WorkflowManagerRequest,
    WorkflowManagerRequestView,
};

verus! {

/// The state of a reactor.
///
/// The channels in it are opaque tokens: the model says which channel is on
/// record, not what has passed through it.
#[verifier::ext_equal]
pub struct ReactorState {
    /// The name of the reactor, as it stands in its request ids.
    pub name: Seq<char>,
    /// For each stream name that waits for the executor, where the reply goes.
    pub active_requests: Map<Seq<char>, tokio::sync::oneshot::Sender<Option<String>>>,
    /// The handle of the workflow manager, while one is registered.
    pub workflow_manager: Option<tokio::sync::mpsc::UnboundedSender<WorkflowManagerRequest>>,
    /// The workflows that are kept alive, by stream name.
    pub cached_workflows: Seq<CachedWorkflowView>,
}

/// What went out while an executor response was handled.
#[verifier::ext_equal]
pub struct ExecutorResponseEffects {
    /// The answer that was sent to the requester: the name of the workflow,
    /// or `None` where the executor knows none. `None` on the outside means
    /// that nothing was sent.
    pub reply: Option<Option<Seq<char>>>,
    /// The upsert that was sent to the workflow manager.
    pub upsert: Option<WorkflowManagerRequestView>,
    /// Whether the keep-alive channel that came with the response is to be
    /// watched from now on.
    pub watches_keep_alive: bool,
}

/// What went out while the closing of a keep-alive channel was handled.
#[verifier::ext_equal]
pub struct KeepAliveClosedEffects {
    /// What became of the cache entry.
    pub release: ReleaseView,
    /// The stop that was sent to the workflow manager.
    pub stop: Option<WorkflowManagerRequestView>,
    /// The number of keep-alive channels that the stream name has left.
    pub remaining: nat,
}

/// The state in which a reactor starts: nothing waits, nothing is cached, and
/// no workflow manager is known.
pub open spec fn initial_state(name: Seq<char>) -> ReactorState {
    ReactorState {
        name,
        active_requests: Map::empty(),
        workflow_manager: None,
        cached_workflows: Seq::empty(),
    }
}

/// The invariant of the state: the cache is well formed.
pub open spec fn state_well_formed(state: ReactorState) -> bool {
    cache_well_formed(state.cached_workflows)
}

/// The state after a request for `stream_name`: the reply channel goes on
/// record, in place of one that was on record for the same stream name.
pub open spec fn after_request(
    state: ReactorState,
    stream_name: Seq<char>,
    response_channel: tokio::sync::oneshot::Sender<Option<String>>,
) -> ReactorState {
    ReactorState {
        active_requests: state.active_requests.insert(stream_name, response_channel),
        ..state
    }
}

/// The state after the executor has answered for `stream_name`. An answer for
/// a stream name that nobody waits for changes nothing. Otherwise the request
/// leaves the record, and a workflow is bumped in the cache.
pub open spec fn after_executor_response(
    state: ReactorState,
    stream_name: Seq<char>,
    workflow: Option<WorkflowDefinitionView>,
) -> ReactorState {
    if !state.active_requests.contains_key(stream_name) {
        state
    } else {
        match workflow {
            Some(definition) => ReactorState {
                active_requests: state.active_requests.remove(stream_name),
                cached_workflows: bumped(state.cached_workflows, stream_name, definition),
                ..state
            },
            None => ReactorState {
                active_requests: state.active_requests.remove(stream_name),
                ..state
            },
        }
    }
}

/// What goes out when the executor has answered for `stream_name`. An answer
/// that nobody waits for sends nothing. Otherwise the requester gets exactly
/// one reply; a workflow is also upserted at the workflow manager, if one is
/// registered, and its keep-alive channel is watched.
pub open spec fn executor_response_effects(
    state: ReactorState,
    stream_name: Seq<char>,
    workflow: Option<WorkflowDefinitionView>,
) -> ExecutorResponseEffects {
    if !state.active_requests.contains_key(stream_name) {
        ExecutorResponseEffects { reply: None, upsert: None, watches_keep_alive: false }
    } else {
        match workflow {
            Some(definition) => ExecutorResponseEffects {
                reply: Some(Some(definition.name)),
                upsert: if state.workflow_manager.is_some() {
                    Some(upsert_request(stream_request_id(state.name, stream_name), definition))
                } else {
                    None
                },
                watches_keep_alive: true,
            },
            None => ExecutorResponseEffects {
                reply: Some(None),
                upsert: None,
                watches_keep_alive: false,
            },
        }
    }
}

/// The state after a workflow manager has registered with `channel`.
pub open spec fn after_manager_registered(
    state: ReactorState,
    channel: tokio::sync::mpsc::UnboundedSender<WorkflowManagerRequest>,
) -> ReactorState {
    ReactorState { workflow_manager: Some(channel), ..state }
}

/// The upserts that bring a newly registered workflow manager up to date: one
/// for each cache entry, with the cached definition.
pub open spec fn catch_up_requests(state: ReactorState) -> Seq<WorkflowManagerRequestView> {
    Seq::new(
        state.cached_workflows.len(),
        |i: int|
            upsert_request(catch_up_request_id(state.name), state.cached_workflows[i].definition),
    )
}

/// The state after the workflow manager has gone: the handle is forgotten and
/// the cache stays.
pub open spec fn after_manager_gone(state: ReactorState) -> ReactorState {
    ReactorState { workflow_manager: None, ..state }
}

/// The state after a keep-alive channel of `stream_name` has closed.
pub open spec fn after_keep_alive_closed(state: ReactorState, stream_name: Seq<char>) -> ReactorState {
    ReactorState { cached_workflows: released(state.cached_workflows, stream_name), ..state }
}

/// What goes out when a keep-alive channel of `stream_name` has closed: a
/// stop for the workflow whose last keep-alive channel it was, if a workflow
/// manager is registered.
pub open spec fn keep_alive_closed_effects(
    state: ReactorState,
    stream_name: Seq<char>,
) -> KeepAliveClosedEffects {
    let release = release_result(state.cached_workflows, stream_name);
    KeepAliveClosedEffects {
        release,
        stop: if release.removed && state.workflow_manager.is_some() {
            Some(stop_request(release_request_id(), release.last_name.unwrap()))
        } else {
            None
        },
        remaining: keep_alive_count(released(state.cached_workflows, stream_name), stream_name),
    }
}

} // verus!
