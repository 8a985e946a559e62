use desktop_control::action::{Direction, InputAction, KeyCode};
use desktop_control::error::CommandError;
use desktop_control::keyboard::press_key;
use desktop_control::perform::{next_step, Step};

fn chord() -> Vec<InputAction> {
    press_key("c", &vec!["Control".to_string()])
}

#[test]
fn steps_walk_the_plan_in_order() {
    let plan = chord();
    assert_eq!(plan.len(), 3);
    assert_eq!(next_step(&plan, 0, None), Step::Perform { index: 0 });
    assert_eq!(next_step(&plan, 1, None), Step::Perform { index: 1 });
    assert_eq!(next_step(&plan, 2, None), Step::Perform { index: 2 });
    assert_eq!(next_step(&plan, 3, None), Step::Succeed);
}

#[test]
fn empty_plan_succeeds_at_once() {
    assert_eq!(next_step(&Vec::new(), 0, None), Step::Succeed);
}

#[test]
fn first_failure_ends_the_command() {
    let plan = chord();
    assert_eq!(
        next_step(&plan, 0, Some("denied")),
        Step::Fail { error: CommandError::operation("press modifier", "denied") }
    );
    assert_eq!(
        next_step(&plan, 1, Some("denied")),
        Step::Fail { error: CommandError::operation("click key", "denied") }
    );
    assert_eq!(
        next_step(&plan, 2, Some("denied")),
        Step::Fail { error: CommandError::operation("release modifier", "denied") }
    );
}

#[test]
fn a_whole_run_performs_every_action_once() {
    let plan = chord();
    let mut performed = 0;
    let mut seen: Vec<InputAction> = Vec::new();
    loop {
        match next_step(&plan, performed, None) {
            Step::Perform { index } => {
                seen.push(plan[index].clone());
                performed = index + 1;
            }
            Step::Succeed => break,
            Step::Fail { error } => panic!("{}", error.message()),
        }
    }
    assert_eq!(
        seen,
        vec![
            InputAction::Key { key: KeyCode::Control, direction: Direction::Press },
            InputAction::Key { key: KeyCode::Unicode('c'), direction: Direction::Click },
            InputAction::Key { key: KeyCode::Control, direction: Direction::Release },
        ]
    );
}
