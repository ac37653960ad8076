//! What a workflow step's tasks send back to the workflow runner, how it is
//! sent, and how a task that relays messages for a step decides what to do
//! next.
//!
//! A relay task waits for several things at once: a message from the source
//! it relays, the end of that source, a cancellation, and the end of the
//! channel to the workflow runner. Whoever runs the task does the waiting and
//! the sending; [`relay_step`] says for each thing seen what is to be sent
//! and whether the task goes on.

use vstd::prelude::*;
use crate::channels::send_unbounded;
use crate::workflows::definitions::WorkflowStepId;
use crate::workflows::steps::StepFutureResult;

verus! {

/// The type of information that's returned to the workflow runner upon a
/// future's completion.
pub struct StepFutureResultChannel {
    pub step_id: WorkflowStepId,
    pub result: Box<dyn StepFutureResult>,
}

impl StepFutureResultChannel {
    /// The result of step `step_id`, ready for the workflow runner.
    pub fn new(step_id: WorkflowStepId, result: Box<dyn StepFutureResult>) -> (message: Self)
        ensures
            message == (StepFutureResultChannel { step_id, result }),
    {
        StepFutureResultChannel { step_id, result }
    }
}

/// Sends the result of step `step_id` to the workflow runner. The send fails
/// when the workflow runner has closed its queue; what comes back then is
/// the message that was made of `step_id` and `result`, as it was handed to
/// the queue. Whether the queue takes the message is for the workflow runner
/// to decide.
pub fn send_step_future_result(
    sender: &tokio::sync::mpsc::UnboundedSender<StepFutureResultChannel>,
    step_id: WorkflowStepId,
    result: Box<dyn StepFutureResult>,
) -> (outcome: Result<(), StepFutureResultChannel>)
    ensures
        outcome matches Err(refused) ==> refused == (StepFutureResultChannel { step_id, result }),
{
    send_unbounded(sender, StepFutureResultChannel { step_id, result })
}

/// What a relay task has seen while it waited.
#[derive(Clone, Copy, Debug, PartialEq, Eq, Structural)]
pub enum RelayEvent {
    /// The source has given a message, or the value it watches has changed.
    Received,
    /// The source has ended.
    SourceClosed,
    /// The task was cancelled.
    Cancelled,
    /// The channel to the workflow runner has closed.
    ChannelClosed,
}

/// What a relay task sends to the workflow runner.
#[derive(Clone, Copy, Debug, PartialEq, Eq, Structural)]
pub enum RelayMessage {
    /// What the step makes of the message that was received.
    OnReceived,
    /// What the step makes of the end of the source.
    OnClosed,
    /// What the step makes of the cancellation.
    OnCancelled,
}

/// The next step of a relay task.
#[derive(Clone, Copy, Debug, PartialEq, Eq, Structural)]
pub struct RelayStep {
    /// What is to be sent to the workflow runner, if anything.
    pub send: Option<RelayMessage>,
    /// Whether the task ends here.
    pub done: bool,
}

/// What a relay task does about what it has seen. It passes every message
/// on and goes on; it reports the end of its source, or its cancellation, and
/// ends; and once the workflow runner is gone it ends without a word.
pub open spec fn relay(event: RelayEvent) -> RelayStep {
    match event {
        RelayEvent::Received => RelayStep { send: Some(RelayMessage::OnReceived), done: false },
        RelayEvent::SourceClosed => RelayStep { send: Some(RelayMessage::OnClosed), done: true },
        RelayEvent::Cancelled => RelayStep { send: Some(RelayMessage::OnCancelled), done: true },
        RelayEvent::ChannelClosed => RelayStep { send: None, done: true },
    }
}

/// Decides the next step of a relay task.
pub fn relay_step(event: RelayEvent) -> (step: RelayStep)
    ensures
        step == relay(event),
{
    match event {
        RelayEvent::Received => RelayStep { send: Some(RelayMessage::OnReceived), done: false },
        RelayEvent::SourceClosed => RelayStep { send: Some(RelayMessage::OnClosed), done: true },
        RelayEvent::Cancelled => RelayStep { send: Some(RelayMessage::OnCancelled), done: true },
        RelayEvent::ChannelClosed => RelayStep { send: None, done: true },
    }
}

/// A relay task goes on after a message and after nothing else, and it sends
/// something unless the workflow runner is gone.
pub proof fn lemma_relay_ends(event: RelayEvent)
    ensures
        relay(event).done == !(event is Received),
        relay(event).send.is_none() == (event is ChannelClosed),
{
}

} // verus!
