//! The vocabulary of native input operations that a command asks the input
//! simulator to perform, and the mathematical model of a planned sequence.

use vstd::prelude::*;
use crate::error::{CommandError, ErrorModel};

verus! {

/// A mouse button.
#[derive(Clone, Copy, Debug, PartialEq, Eq, Structural)]
pub enum ButtonKind {
    Left,
    Right,
    Middle,
}

/// What is done to a button or a key. `Click` is a press followed at once by
/// a release of the same button or key.
#[derive(Clone, Copy, Debug, PartialEq, Eq, Structural)]
pub enum Direction {
    Press,
    Release,
    Click,
}

/// The axis of a scroll operation.
#[derive(Clone, Copy, Debug, PartialEq, Eq, Structural)]
pub enum Axis {
    Vertical,
    Horizontal,
}

/// A key of the keyboard: a modifier, a named key, or a literal character.
#[derive(Clone, Copy, Debug, PartialEq, Eq, Structural)]
pub enum KeyCode {
    Control,
    Shift,
    Alt,
    Meta,
    Return,
    Backspace,
    Tab,
    Space,
    Escape,
    LeftArrow,
    RightArrow,
    UpArrow,
    DownArrow,
    Unicode(char),
}

/// One native operation of the input simulator.
#[derive(Clone, Debug, PartialEq, Eq)]
pub enum InputAction {
    /// Move the pointer to absolute device-pixel coordinates.
    MoveMouse { x: i32, y: i32 },
    /// Act on a mouse button.
    Button { button: ButtonKind, direction: Direction },
    /// Scroll by `amount` units along `axis`.
    Scroll { amount: i32, axis: Axis },
    /// Enter literal text.
    Text { text: String },
    /// Act on a key.
    Key { key: KeyCode, direction: Direction },
}

/// The mathematical value of an [`InputAction`].
pub ghost enum ActionModel {
    MoveMouse { x: i32, y: i32 },
    Button { button: ButtonKind, direction: Direction },
    Scroll { amount: i32, axis: Axis },
    Text { text: Seq<char> },
    Key { key: KeyCode, direction: Direction },
}

impl View for InputAction {
    type V = ActionModel;

    open spec fn view(&self) -> ActionModel {
        match *self {
            InputAction::MoveMouse { x, y } => ActionModel::MoveMouse { x, y },
            InputAction::Button { button, direction } => ActionModel::Button { button, direction },
            InputAction::Scroll { amount, axis } => ActionModel::Scroll { amount, axis },
            InputAction::Text { text } => ActionModel::Text { text: text@ },
            InputAction::Key { key, direction } => ActionModel::Key { key, direction },
        }
    }
}

/// The model of a plan: the model of each of its actions, in order.
pub open spec fn steps(plan: Seq<InputAction>) -> Seq<ActionModel> {
    plan.map_values(|a: InputAction| a@)
}

/// The elementary strokes that a direction stands for.
pub open spec fn strokes(direction: Direction) -> Seq<Direction> {
    match direction {
        Direction::Press => seq![Direction::Press],
        Direction::Release => seq![Direction::Release],
        Direction::Click => seq![Direction::Press, Direction::Release],
    }
}

/// One action, with every click written out as a press and a release.
pub open spec fn unfold_action(action: ActionModel) -> Seq<ActionModel> {
    match action {
        ActionModel::Button { button, direction } => strokes(direction).map_values(
            |d: Direction| ActionModel::Button { button, direction: d },
        ),
        ActionModel::Key { key, direction } => strokes(direction).map_values(
            |d: Direction| ActionModel::Key { key, direction: d },
        ),
        _ => seq![action],
    }
}

/// The elementary events of a plan: its actions in order, every click
/// written out as a press and a release.
pub open spec fn events(plan: Seq<ActionModel>) -> Seq<ActionModel>
    decreases plan.len(),
{
    if plan.len() == 0 {
        Seq::empty()
    } else {
        events(plan.drop_last()) + unfold_action(plan.last())
    }
}

/// The events of a plan of one action are that action's own.
pub proof fn lemma_events_single(action: ActionModel)
    ensures
        events(seq![action]) == unfold_action(action),
{
    let plan = seq![action];
    assert(plan.drop_last() =~= Seq::<ActionModel>::empty());
    assert(events(plan.drop_last()) =~= Seq::<ActionModel>::empty());
    assert(events(plan) =~= unfold_action(action));
}

impl InputAction {
    /// The words that name this operation in a failure message.
    pub open spec fn label_model(action: ActionModel) -> Seq<char> {
        match action {
            ActionModel::MoveMouse { .. } => "move mouse"@,
            ActionModel::Button { direction: Direction::Click, .. } => "click"@,
            ActionModel::Button { direction: Direction::Press, .. } => "press mouse"@,
            ActionModel::Button { direction: Direction::Release, .. } => "release mouse"@,
            ActionModel::Scroll { axis: Axis::Vertical, .. } => "scroll vertical"@,
            ActionModel::Scroll { axis: Axis::Horizontal, .. } => "scroll horizontal"@,
            ActionModel::Text { .. } => "type"@,
            ActionModel::Key { direction: Direction::Press, .. } => "press modifier"@,
            ActionModel::Key { direction: Direction::Release, .. } => "release modifier"@,
            ActionModel::Key { key: KeyCode::Unicode(_), direction: Direction::Click } => "click key"@,
            ActionModel::Key { direction: Direction::Click, .. } => "click special key"@,
        }
    }

    /// The words that name this operation in a failure message.
    pub fn label(&self) -> (words: &'static str)
        ensures
            words@ == Self::label_model(self@),
    {
        match self {
            InputAction::MoveMouse { .. } => "move mouse",
            InputAction::Button { direction: Direction::Click, .. } => "click",
            InputAction::Button { direction: Direction::Press, .. } => "press mouse",
            InputAction::Button { direction: Direction::Release, .. } => "release mouse",
            InputAction::Scroll { axis: Axis::Vertical, .. } => "scroll vertical",
            InputAction::Scroll { axis: Axis::Horizontal, .. } => "scroll horizontal",
            InputAction::Text { .. } => "type",
            InputAction::Key { direction: Direction::Press, .. } => "press modifier",
            InputAction::Key { direction: Direction::Release, .. } => "release modifier",
            InputAction::Key { key: KeyCode::Unicode(_), direction: Direction::Click } => "click key",
            InputAction::Key { direction: Direction::Click, .. } => "click special key",
        }
    }

    /// The failure of this operation, with what the provider said of it.
    pub fn failure(&self, detail: &str) -> (error: CommandError)
        ensures
            error@ == (ErrorModel::ProviderOperation {
                action: Self::label_model(self@),
                detail: detail@,
            }),
    {
        CommandError::operation(self.label(), detail)
    }
}

} // verus!
