//! Pointer commands: motion, buttons and the scroll wheel.

use vstd::prelude::*;
use crate::action::{events, lemma_events_single, steps, ActionModel, Axis, ButtonKind, Direction, InputAction};
use crate::error::CommandError;
use crate::text::same_text;

verus! {

/// The button that a name stands for: `left`, `right` or `middle`, and no
/// other.
pub open spec fn button_named(name: Seq<char>) -> Option<ButtonKind> {
    if name == "left"@ {
        Some(ButtonKind::Left)
    } else if name == "right"@ {
        Some(ButtonKind::Right)
    } else if name == "middle"@ {
        Some(ButtonKind::Middle)
    } else {
        None
    }
}

/// Reads a button's name.
pub fn parse_button(name: &str) -> (button: Option<ButtonKind>)
    ensures
        button == button_named(name@),
{
    if same_text(name, "left") {
        Some(ButtonKind::Left)
    } else if same_text(name, "right") {
        Some(ButtonKind::Right)
    } else if same_text(name, "middle") {
        Some(ButtonKind::Middle)
    } else {
        None
    }
}

/// The plan of a command on one button: the one action on it, or a refusal
/// of the name.
pub open spec fn button_plan(name: Seq<char>, direction: Direction) -> Result<
    Seq<ActionModel>,
    CommandError,
> {
    match button_named(name) {
        Some(button) => Ok(seq![ActionModel::Button { button, direction }]),
        None => Err(CommandError::InvalidArgument),
    }
}

/// Whether `plan` is what `expected` says: the same actions, or the same
/// refusal.
pub open spec fn plan_is(
    plan: Result<Vec<InputAction>, CommandError>,
    expected: Result<Seq<ActionModel>, CommandError>,
) -> bool {
    match (plan, expected) {
        (Ok(actions), Ok(models)) => steps(actions@) == models,
        (Err(error), Err(refusal)) => error == refusal,
        _ => false,
    }
}

fn button_command(name: &str, direction: Direction) -> (plan: Result<Vec<InputAction>, CommandError>)
    ensures
        plan_is(plan, button_plan(name@, direction)),
{
    match parse_button(name) {
        Some(button) => {
            let mut actions: Vec<InputAction> = Vec::new();
            actions.push(InputAction::Button { button, direction });
            proof {
                assert(steps(actions@) =~= seq![ActionModel::Button { button, direction }]);
            }
            Ok(actions)
        },
        None => Err(CommandError::InvalidArgument),
    }
}

/// Moves the pointer to the absolute position `(x, y)`. No coordinate is
/// refused.
pub fn move_mouse(x: i32, y: i32) -> (plan: Vec<InputAction>)
    ensures
        steps(plan@) == seq![ActionModel::MoveMouse { x, y }],
{
    let mut plan: Vec<InputAction> = Vec::new();
    plan.push(InputAction::MoveMouse { x, y });
    proof {
        assert(steps(plan@) =~= seq![ActionModel::MoveMouse { x, y }]);
    }
    plan
}

/// A full click of the named button: one action, which stands for one press
/// followed by one release of that button. Any other name is refused and
/// nothing is planned.
pub fn click_mouse(button: &str) -> (plan: Result<Vec<InputAction>, CommandError>)
    ensures
        plan_is(plan, button_plan(button@, Direction::Click)),
        plan is Ok <==> button_named(button@) is Some,
        plan is Err ==> plan == Err::<Vec<InputAction>, CommandError>(CommandError::InvalidArgument),
        plan is Ok ==> events(steps(plan->Ok_0@)) == seq![
            ActionModel::Button { button: button_named(button@)->Some_0, direction: Direction::Press },
            ActionModel::Button {
                button: button_named(button@)->Some_0,
                direction: Direction::Release,
            },
        ],
{
    let plan = button_command(button, Direction::Click);
    proof {
        if plan is Ok {
            let b = button_named(button@)->Some_0;
            let click = ActionModel::Button { button: b, direction: Direction::Click };
            lemma_events_single(click);
            assert(events(seq![click]) =~= seq![
                ActionModel::Button { button: b, direction: Direction::Press },
                ActionModel::Button { button: b, direction: Direction::Release },
            ]);
        }
    }
    plan
}

/// A press of the named button, without a release. Any other name is refused
/// and nothing is planned.
pub fn mouse_down(button: &str) -> (plan: Result<Vec<InputAction>, CommandError>)
    ensures
        plan_is(plan, button_plan(button@, Direction::Press)),
        plan is Ok <==> button_named(button@) is Some,
        plan is Err ==> plan == Err::<Vec<InputAction>, CommandError>(CommandError::InvalidArgument),
        plan is Ok ==> events(steps(plan->Ok_0@)) == seq![
            ActionModel::Button { button: button_named(button@)->Some_0, direction: Direction::Press },
        ],
{
    let plan = button_command(button, Direction::Press);
    proof {
        if plan is Ok {
            let b = button_named(button@)->Some_0;
            let press = ActionModel::Button { button: b, direction: Direction::Press };
            lemma_events_single(press);
            assert(events(seq![press]) =~= seq![press]);
        }
    }
    plan
}

/// A release of the named button, without a press. Any other name is refused
/// and nothing is planned.
pub fn mouse_up(button: &str) -> (plan: Result<Vec<InputAction>, CommandError>)
    ensures
        plan_is(plan, button_plan(button@, Direction::Release)),
        plan is Ok <==> button_named(button@) is Some,
        plan is Err ==> plan == Err::<Vec<InputAction>, CommandError>(CommandError::InvalidArgument),
        plan is Ok ==> events(steps(plan->Ok_0@)) == seq![
            ActionModel::Button {
                button: button_named(button@)->Some_0,
                direction: Direction::Release,
            },
        ],
{
    let plan = button_command(button, Direction::Release);
    proof {
        if plan is Ok {
            let b = button_named(button@)->Some_0;
            let release = ActionModel::Button { button: b, direction: Direction::Release };
            lemma_events_single(release);
            assert(events(seq![release]) =~= seq![release]);
        }
    }
    plan
}

/// The scroll actions for a pair of deltas: the vertical one first, then the
/// horizontal one, an axis whose delta is zero left out.
pub open spec fn scroll_plan(delta_x: i32, delta_y: i32) -> Seq<ActionModel> {
    let vertical = if delta_y != 0 {
        seq![ActionModel::Scroll { amount: delta_y, axis: Axis::Vertical }]
    } else {
        Seq::empty()
    };
    let horizontal = if delta_x != 0 {
        seq![ActionModel::Scroll { amount: delta_x, axis: Axis::Horizontal }]
    } else {
        Seq::empty()
    };
    vertical + horizontal
}

/// Scrolls by `delta_y` units vertically, then by `delta_x` units
/// horizontally; an axis whose delta is zero gets no action.
pub fn scroll_wheel(delta_x: i32, delta_y: i32) -> (plan: Vec<InputAction>)
    ensures
        steps(plan@) == scroll_plan(delta_x, delta_y),
        delta_x == 0 && delta_y == 0 ==> plan@.len() == 0,
        delta_x != 0 && delta_y == 0 ==> steps(plan@) == seq![
            ActionModel::Scroll { amount: delta_x, axis: Axis::Horizontal },
        ],
        delta_x == 0 && delta_y != 0 ==> steps(plan@) == seq![
            ActionModel::Scroll { amount: delta_y, axis: Axis::Vertical },
        ],
        delta_x != 0 && delta_y != 0 ==> steps(plan@) == seq![
            ActionModel::Scroll { amount: delta_y, axis: Axis::Vertical },
            ActionModel::Scroll { amount: delta_x, axis: Axis::Horizontal },
        ],
{
    let mut plan: Vec<InputAction> = Vec::new();
    if delta_y != 0 {
        plan.push(InputAction::Scroll { amount: delta_y, axis: Axis::Vertical });
    }
    if delta_x != 0 {
        plan.push(InputAction::Scroll { amount: delta_x, axis: Axis::Horizontal });
    }
    proof {
        assert(steps(plan@) =~= scroll_plan(delta_x, delta_y));
        if delta_x != 0 && delta_y == 0 {
            assert(steps(plan@) =~= seq![
                ActionModel::Scroll { amount: delta_x, axis: Axis::Horizontal },
            ]);
        }
        if delta_x == 0 && delta_y != 0 {
            assert(steps(plan@) =~= seq![
                ActionModel::Scroll { amount: delta_y, axis: Axis::Vertical },
            ]);
        }
        if delta_x != 0 && delta_y != 0 {
            assert(steps(plan@) =~= seq![
                ActionModel::Scroll { amount: delta_y, axis: Axis::Vertical },
                ActionModel::Scroll { amount: delta_x, axis: Axis::Horizontal },
            ]);
        }
    }
    plan
}

} // verus!
