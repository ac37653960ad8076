//! Workflow definitions: what an executor hands to a reactor, and what a
//! reactor hands on to the workflow manager.

use vstd::prelude::*;

verus! {

/// Identifies a step of a running workflow.
#[derive(Clone, Copy, Debug, PartialEq, Eq, Hash, Structural)]
pub struct WorkflowStepId(pub u64);

/// One setting of a workflow step. A key may stand without a value.
#[derive(Debug, PartialEq, Eq)]
pub struct StepParameter {
    pub name: String,
    pub value: Option<String>,
}

/// One step of a workflow: the kind of step, and its settings in the order
/// in which they were written.
#[derive(Debug, PartialEq, Eq)]
pub struct WorkflowStepDefinition {
    pub step_type: String,
    pub parameters: Vec<StepParameter>,
}

/// The definition of a workflow. A workflow is identified by its name.
#[derive(Debug, PartialEq, Eq)]
pub struct WorkflowDefinition {
    pub name: String,
    pub routed_by_reactor: bool,
    pub steps: Vec<WorkflowStepDefinition>,
}

/// What a [`StepParameter`] holds.
#[verifier::ext_equal]
pub struct StepParameterView {
    pub name: Seq<char>,
    pub value: Option<Seq<char>>,
}

/// What a [`WorkflowStepDefinition`] holds.
#[verifier::ext_equal]
pub struct WorkflowStepDefinitionView {
    pub step_type: Seq<char>,
    pub parameters: Seq<StepParameterView>,
}

/// What a [`WorkflowDefinition`] holds.
#[verifier::ext_equal]
pub struct WorkflowDefinitionView {
    pub name: Seq<char>,
    pub routed_by_reactor: bool,
    pub steps: Seq<WorkflowStepDefinitionView>,
}

/// The text of an optional string.
pub open spec fn optional_text(value: Option<String>) -> Option<Seq<char>> {
    match value {
        Some(text) => Some(text@),
        None => None,
    }
}

/// The settings of a step, each by what it holds.
pub open spec fn parameter_views(parameters: Seq<StepParameter>) -> Seq<StepParameterView> {
    Seq::new(parameters.len(), |i: int| parameters[i]@)
}

/// The steps of a workflow, each by what it holds.
pub open spec fn step_views(steps: Seq<WorkflowStepDefinition>) -> Seq<WorkflowStepDefinitionView> {
    Seq::new(steps.len(), |i: int| steps[i]@)
}

impl View for StepParameter {
    type V = StepParameterView;

    open spec fn view(&self) -> StepParameterView {
        StepParameterView { name: self.name@, value: optional_text(self.value) }
    }
}

impl View for WorkflowStepDefinition {
    type V = WorkflowStepDefinitionView;

    open spec fn view(&self) -> WorkflowStepDefinitionView {
        WorkflowStepDefinitionView {
            step_type: self.step_type@,
            parameters: parameter_views(self.parameters@),
        }
    }
}

impl View for WorkflowDefinition {
    type V = WorkflowDefinitionView;

    open spec fn view(&self) -> WorkflowDefinitionView {
        WorkflowDefinitionView {
            name: self.name@,
            routed_by_reactor: self.routed_by_reactor,
            steps: step_views(self.steps@),
        }
    }
}

/// A copy of an optional string.
pub fn clone_optional_text(value: &Option<String>) -> (copy: Option<String>)
    ensures
        optional_text(copy) == optional_text(*value),
{
    match value {
        Some(text) => Some(text.clone()),
        None => None,
    }
}

impl Clone for StepParameter {
    fn clone(&self) -> (copy: Self)
        ensures
            copy@ == self@,
    {
        StepParameter { name: self.name.clone(), value: clone_optional_text(&self.value) }
    }
}

impl Clone for WorkflowStepDefinition {
    fn clone(&self) -> (copy: Self)
        ensures
            copy@ == self@,
    {
        let mut parameters: Vec<StepParameter> = Vec::new();
        let mut i: usize = 0;
        while i < self.parameters.len()
            invariant
                i <= self.parameters@.len(),
                parameters@.len() == i,
                forall|k: int| 0 <= k < i ==> parameters@[k]@ == self.parameters@[k]@,
            decreases self.parameters@.len() - i,
        {
            parameters.push(self.parameters[i].clone());
            i += 1;
        }
        assert(parameter_views(parameters@) =~= parameter_views(self.parameters@));
        WorkflowStepDefinition { step_type: self.step_type.clone(), parameters }
    }
}

impl Clone for WorkflowDefinition {
    fn clone(&self) -> (copy: Self)
        ensures
            copy@ == self@,
    {
        let mut steps: Vec<WorkflowStepDefinition> = Vec::new();
        let mut i: usize = 0;
        while i < self.steps.len()
            invariant
                i <= self.steps@.len(),
                steps@.len() == i,
                forall|k: int| 0 <= k < i ==> steps@[k]@ == self.steps@[k]@,
            decreases self.steps@.len() - i,
        {
            steps.push(self.steps[i].clone());
            i += 1;
        }
        assert(step_views(steps@) =~= step_views(self.steps@));
        WorkflowDefinition {
            name: self.name.clone(),
            routed_by_reactor: self.routed_by_reactor,
            steps,
        }
    }
}

} // verus!
