//! Performing a plan: the actions are performed one at a time, in order, and
//! the first failure ends the command. There is no retry.

use vstd::prelude::*;
use crate::action::InputAction;
use crate::error::{CommandError, ErrorModel};

verus! {

/// What is to be done next while a plan is performed.
#[derive(Clone, Debug, PartialEq, Eq)]
pub enum Step {
    /// Perform the action at `index` of the plan.
    Perform { index: usize },
    /// Every action was performed: the command has succeeded.
    Succeed,
    /// An action failed: the command fails with `error`, and no later action
    /// is performed.
    Fail { error: CommandError },
}

/// Decides the next step of a plan of which the first `performed` actions
/// have succeeded. `failure` is what the provider said if the action after
/// those was tried and failed, and `None` otherwise. A failure ends the
/// command with the error of the action that failed; without one the next
/// action is performed, or the command succeeds when none is left.
pub fn next_step(plan: &Vec<InputAction>, performed: usize, failure: Option<&str>) -> (step: Step)
    requires
        performed <= plan@.len(),
        failure is Some ==> performed < plan@.len(),
    ensures
        match failure {
            Some(detail) => step is Fail && step->Fail_error@ == (ErrorModel::ProviderOperation {
                action: InputAction::label_model(plan@[performed as int]@),
                detail: detail@,
            }),
            None => step == (if performed < plan@.len() {
                Step::Perform { index: performed }
            } else {
                Step::Succeed
            }),
        },
{
    match failure {
        Some(detail) => Step::Fail { error: plan[performed].failure(detail) },
        None => if performed < plan.len() {
            Step::Perform { index: performed }
        } else {
            Step::Succeed
        },
    }
}

} // verus!
