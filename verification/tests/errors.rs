use desktop_control::action::{Axis, ButtonKind, Direction, InputAction, KeyCode};
use desktop_control::error::CommandError;
use desktop_control::text::same_text;

#[test]
fn messages_of_each_error() {
    assert_eq!(CommandError::InvalidArgument.message(), "Invalid button");
    assert_eq!(CommandError::NoDisplay.message(), "No screen found");
    assert_eq!(
        CommandError::operation("move mouse", "NoPermission").message(),
        "move mouse failed: NoPermission"
    );
    assert_eq!(
        CommandError::init("init input simulator", "no session").message(),
        "init input simulator failed: no session"
    );
}

#[test]
fn constructors_fill_their_variant() {
    assert_eq!(
        CommandError::operation("type", "x"),
        CommandError::ProviderOperation { action: "type".to_string(), detail: "x".to_string() }
    );
    assert_eq!(
        CommandError::init("get screens", "y"),
        CommandError::ProviderInit { action: "get screens".to_string(), detail: "y".to_string() }
    );
}

#[test]
fn labels_of_each_action() {
    let cases = [
        (InputAction::MoveMouse { x: 0, y: 0 }, "move mouse"),
        (InputAction::Button { button: ButtonKind::Left, direction: Direction::Click }, "click"),
        (InputAction::Button { button: ButtonKind::Right, direction: Direction::Press }, "press mouse"),
        (
            InputAction::Button { button: ButtonKind::Middle, direction: Direction::Release },
            "release mouse",
        ),
        (InputAction::Scroll { amount: 1, axis: Axis::Vertical }, "scroll vertical"),
        (InputAction::Scroll { amount: 1, axis: Axis::Horizontal }, "scroll horizontal"),
        (InputAction::Text { text: "t".to_string() }, "type"),
        (InputAction::Key { key: KeyCode::Shift, direction: Direction::Press }, "press modifier"),
        (InputAction::Key { key: KeyCode::Shift, direction: Direction::Release }, "release modifier"),
        (InputAction::Key { key: KeyCode::Unicode('q'), direction: Direction::Click }, "click key"),
        (InputAction::Key { key: KeyCode::Tab, direction: Direction::Click }, "click special key"),
    ];
    for (action, label) in cases {
        assert_eq!(action.label(), label);
    }
}

#[test]
fn same_text_compares_characters() {
    assert!(same_text("", ""));
    assert!(same_text("left", "left"));
    assert!(!same_text("left", "lefT"));
    assert!(!same_text("left", "lef"));
    assert!(!same_text("é", "e"));
    assert!(same_text("héllo", "héllo"));
}

#[test]
fn failure_of_an_action_names_it() {
    let action = InputAction::Scroll { amount: 4, axis: Axis::Vertical };
    let error = action.failure("Simulate(\"x\")");
    assert_eq!(
        error,
        CommandError::ProviderOperation {
            action: "scroll vertical".to_string(),
            detail: "Simulate(\"x\")".to_string(),
        }
    );
    assert_eq!(error.message(), "scroll vertical failed: Simulate(\"x\")");
}
