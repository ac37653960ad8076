use mmids_core::workflows::definitions::WorkflowStepId;
use mmids_core::workflows::steps::futures_channel::{
    relay_step, send_step_future_result, RelayEvent, RelayMessage, RelayStep,
    StepFutureResultChannel,
};
use tokio::sync::mpsc::unbounded_channel;
use mmids_core::workflows::steps::StepFutureResult;

struct Finished {
    code: u32,
}

impl StepFutureResult for Finished {}

#[test]
fn step_future_result_carries_the_step_id() {
    let message = StepFutureResultChannel::new(WorkflowStepId(17), Box::new(Finished { code: 3 }));
    assert_eq!(message.step_id, WorkflowStepId(17));
    assert_eq!(message.step_id.0, 17);
    let _result: Box<dyn StepFutureResult> = message.result;
    assert_eq!(Finished { code: 3 }.code, 3);
}

#[test]
fn relay_passes_messages_on_and_goes_on() {
    assert_eq!(
        relay_step(RelayEvent::Received),
        RelayStep { send: Some(RelayMessage::OnReceived), done: false }
    );
}

#[test]
fn relay_reports_the_end_of_its_source_and_ends() {
    assert_eq!(
        relay_step(RelayEvent::SourceClosed),
        RelayStep { send: Some(RelayMessage::OnClosed), done: true }
    );
}

#[test]
fn relay_reports_its_cancellation_and_ends() {
    assert_eq!(
        relay_step(RelayEvent::Cancelled),
        RelayStep { send: Some(RelayMessage::OnCancelled), done: true }
    );
}

#[test]
fn relay_ends_silently_when_the_channel_is_closed() {
    assert_eq!(relay_step(RelayEvent::ChannelClosed), RelayStep { send: None, done: true });
}

#[test]
fn step_future_result_arrives_at_the_workflow_runner() {
    let (sender, mut receiver) = unbounded_channel();
    let outcome = send_step_future_result(&sender, WorkflowStepId(4), Box::new(Finished { code: 1 }));
    assert!(outcome.is_ok());
    let message = receiver.try_recv().expect("the message that was sent");
    assert_eq!(message.step_id, WorkflowStepId(4));
    assert!(receiver.try_recv().is_err());
}

#[test]
fn step_future_result_comes_back_when_the_workflow_runner_is_gone() {
    let (sender, receiver) = unbounded_channel();
    drop(receiver);
    let outcome = send_step_future_result(&sender, WorkflowStepId(9), Box::new(Finished { code: 2 }));
    let refused = outcome.err().expect("the message that was refused");
    assert_eq!(refused.step_id, WorkflowStepId(9));
}
