//! Workflow steps, and how the work that a step has handed to the runtime
//! reports back.

pub mod futures_channel;

use vstd::prelude::*;

verus! {

/// The result of work that a workflow step has handed to the runtime. Each
/// kind of step has result types of its own.
pub trait StepFutureResult: Send {

}

} // verus!
