//! The primary instance's setup, as a plan.
//!
//! Setup is a short ordered list of one-shot steps. The caller carries each
//! step out in turn and asks [`on_failure`] what a failed step means: only a
//! failure to install the logger ends setup; the window icon and the deep-link
//! event are conveniences, and setup goes on without them.

use crate::event::{deep_link_event, emission_for, Emission, EmissionView};
use vstd::prelude::*;

verus! {

/// One step of setup.
#[derive(Debug, PartialEq, Eq)]
pub enum SetupStep {
    /// Install the logging plugin at informational verbosity.
    InstallLogger,
    /// Give the main window the bundled icon.
    SetWindowIcon,
    /// Publish the deep link that the process was launched with.
    EmitDeepLink(Emission),
}

/// The mathematical content of a [`SetupStep`].
pub enum SetupStepView {
    InstallLogger,
    SetWindowIcon,
    EmitDeepLink(EmissionView),
}

impl View for SetupStep {
    type V = SetupStepView;

    open spec fn view(&self) -> SetupStepView {
        match self {
            SetupStep::InstallLogger => SetupStepView::InstallLogger,
            SetupStep::SetWindowIcon => SetupStepView::SetWindowIcon,
            SetupStep::EmitDeepLink(emission) => SetupStepView::EmitDeepLink(emission@),
        }
    }
}

/// What setup does when a step has failed.
#[derive(Debug, Clone, Copy, PartialEq, Eq, Structural)]
pub enum FailurePolicy {
    /// Setup ends with the step's error.
    Abort,
    /// The error is dropped and setup goes on with the next step.
    Ignore,
}

/// The steps of setup, in order: the logger in a debug build only, then the
/// window icon, then the deep-link event if the launch carries a deep link.
pub open spec fn setup_plan(debug_build: bool, args: Seq<Seq<char>>) -> Seq<SetupStepView> {
    let logger = if debug_build {
        seq![SetupStepView::InstallLogger]
    } else {
        Seq::empty()
    };
    let emit = match emission_for(args) {
        Some(emission) => seq![SetupStepView::EmitDeepLink(emission)],
        None => Seq::empty(),
    };
    logger + seq![SetupStepView::SetWindowIcon] + emit
}

/// The views of a list of steps, position by position.
pub open spec fn step_views(steps: Seq<SetupStep>) -> Seq<SetupStepView> {
    steps.map_values(|step: SetupStep| step@)
}

/// The policy for a failure of `step`.
pub open spec fn failure_policy(step: SetupStepView) -> FailurePolicy {
    match step {
        SetupStepView::InstallLogger => FailurePolicy::Abort,
        SetupStepView::SetWindowIcon => FailurePolicy::Ignore,
        SetupStepView::EmitDeepLink(_) => FailurePolicy::Ignore,
    }
}

/// The steps that setup takes for a process launched with arguments `args`.
pub fn setup_steps(debug_build: bool, args: &Vec<String>) -> (steps: Vec<SetupStep>)
    ensures
        step_views(steps@) == setup_plan(debug_build, args.deep_view()),
{
    let mut steps: Vec<SetupStep> = Vec::new();
    if debug_build {
        steps.push(SetupStep::InstallLogger);
    }
    steps.push(SetupStep::SetWindowIcon);
    match deep_link_event(args) {
        Some(emission) => {
            steps.push(SetupStep::EmitDeepLink(emission));
        },
        None => {},
    }
    assert(step_views(steps@) =~= setup_plan(debug_build, args.deep_view()));
    steps
}

/// What setup does when `step` has failed.
pub fn on_failure(step: &SetupStep) -> (policy: FailurePolicy)
    ensures
        policy == failure_policy(step@),
{
    match step {
        SetupStep::InstallLogger => FailurePolicy::Abort,
        SetupStep::SetWindowIcon => FailurePolicy::Ignore,
        SetupStep::EmitDeepLink(_) => FailurePolicy::Ignore,
    }
}

} // verus!
