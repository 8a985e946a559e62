use desktop_control::action::{Axis, ButtonKind, Direction, InputAction};
use desktop_control::error::CommandError;
use desktop_control::pointer::{click_mouse, mouse_down, mouse_up, move_mouse, parse_button, scroll_wheel};

#[test]
fn move_mouse_plans_one_absolute_move() {
    assert_eq!(move_mouse(10, 20), vec![InputAction::MoveMouse { x: 10, y: 20 }]);
}

#[test]
fn move_mouse_accepts_any_coordinates() {
    assert_eq!(
        move_mouse(i32::MIN, i32::MAX),
        vec![InputAction::MoveMouse { x: i32::MIN, y: i32::MAX }]
    );
    assert_eq!(move_mouse(-1, -1), vec![InputAction::MoveMouse { x: -1, y: -1 }]);
}

#[test]
fn parse_button_knows_three_names() {
    assert_eq!(parse_button("left"), Some(ButtonKind::Left));
    assert_eq!(parse_button("right"), Some(ButtonKind::Right));
    assert_eq!(parse_button("middle"), Some(ButtonKind::Middle));
    assert_eq!(parse_button("Left"), None);
    assert_eq!(parse_button(""), None);
    assert_eq!(parse_button("lefts"), None);
    assert_eq!(parse_button("lef"), None);
}

#[test]
fn click_mouse_is_one_click_of_the_button() {
    let cases = [
        ("left", ButtonKind::Left),
        ("right", ButtonKind::Right),
        ("middle", ButtonKind::Middle),
    ];
    for (name, button) in cases {
        assert_eq!(
            click_mouse(name),
            Ok(vec![InputAction::Button { button, direction: Direction::Click }])
        );
    }
}

#[test]
fn mouse_down_and_up_are_one_action_each() {
    let cases = [
        ("left", ButtonKind::Left),
        ("right", ButtonKind::Right),
        ("middle", ButtonKind::Middle),
    ];
    for (name, button) in cases {
        assert_eq!(
            mouse_down(name),
            Ok(vec![InputAction::Button { button, direction: Direction::Press }])
        );
        assert_eq!(
            mouse_up(name),
            Ok(vec![InputAction::Button { button, direction: Direction::Release }])
        );
    }
}

#[test]
fn unknown_button_is_refused_with_nothing_planned() {
    for name in ["", "LEFT", "primary", "left ", "middleish", "4"] {
        assert_eq!(click_mouse(name), Err(CommandError::InvalidArgument));
        assert_eq!(mouse_down(name), Err(CommandError::InvalidArgument));
        assert_eq!(mouse_up(name), Err(CommandError::InvalidArgument));
    }
}

#[test]
fn scroll_of_nothing_plans_nothing() {
    assert_eq!(scroll_wheel(0, 0), Vec::<InputAction>::new());
}

#[test]
fn scroll_horizontal_only() {
    assert_eq!(
        scroll_wheel(3, 0),
        vec![InputAction::Scroll { amount: 3, axis: Axis::Horizontal }]
    );
}

#[test]
fn scroll_vertical_only() {
    assert_eq!(
        scroll_wheel(0, -5),
        vec![InputAction::Scroll { amount: -5, axis: Axis::Vertical }]
    );
}

#[test]
fn scroll_both_is_vertical_then_horizontal() {
    assert_eq!(
        scroll_wheel(7, 2),
        vec![
            InputAction::Scroll { amount: 2, axis: Axis::Vertical },
            InputAction::Scroll { amount: 7, axis: Axis::Horizontal },
        ]
    );
}
