use enkel::input::input_system::{
    AxisBinding, AxisBindingDefinition, AxisDefinition, InputError, InputSystem,
};
use enkel::input::keyboard::{KeyCode, KEY_ESCAPE};

fn key(code: u32) -> KeyCode {
    KeyCode::new(code)
}

fn bind(code: u32, scale: i64) -> AxisBindingDefinition {
    AxisBindingDefinition { binding: AxisBinding::Keyboard(key(code)), scale }
}

#[test]
fn new_system_has_no_axis() {
    let input = InputSystem::new();
    assert_eq!(input.query_axis("move"), Err(InputError::AxisDoesNotExist));
    assert_eq!(input.query_axis(""), Err(InputError::AxisDoesNotExist));
}

#[test]
fn fresh_axis_is_zero() {
    let mut input = InputSystem::new();
    input.create_axis(AxisDefinition { name: "move", bindings: vec![bind(1, 5), bind(2, -3)] });
    assert_eq!(input.query_axis("move"), Ok(0));
}

#[test]
fn axis_without_bindings_is_zero() {
    let mut input = InputSystem::new();
    input.create_axis(AxisDefinition { name: "idle", bindings: vec![] });
    input.on_key_down(key(1));
    assert_eq!(input.query_axis("idle"), Ok(0));
}

#[test]
fn value_is_sum_of_active_scales() {
    let mut input = InputSystem::new();
    input.create_axis(AxisDefinition {
        name: "thrust",
        bindings: vec![bind(1, 10), bind(2, 200), bind(3, -3000), bind(1, 40000)],
    });
    input.on_key_down(key(1));
    assert_eq!(input.query_axis("thrust"), Ok(40010));
    input.on_key_down(key(3));
    assert_eq!(input.query_axis("thrust"), Ok(37010));
    input.on_key_down(key(2));
    assert_eq!(input.query_axis("thrust"), Ok(37210));
    input.on_key_up(key(1));
    assert_eq!(input.query_axis("thrust"), Ok(-2800));
}

#[test]
fn only_the_final_held_keys_matter() {
    let definition = || AxisDefinition {
        name: "turn",
        bindings: vec![bind(10, 7), bind(11, -2), bind(12, 100)],
    };
    let mut first = InputSystem::new();
    first.create_axis(definition());
    first.on_key_down(key(10));
    first.on_key_down(key(11));
    first.on_key_up(key(10));
    first.on_key_down(key(12));

    let mut second = InputSystem::new();
    second.create_axis(definition());
    second.on_key_down(key(12));
    second.on_key_up(key(11));
    second.on_key_down(key(11));
    second.on_key_down(key(10));
    second.on_key_up(key(10));
    second.on_key_up(key(99));

    assert_eq!(first.query_axis("turn"), Ok(98));
    assert_eq!(second.query_axis("turn"), Ok(98));
}

#[test]
fn repeated_key_down_counts_once() {
    let mut input = InputSystem::new();
    input.create_axis(AxisDefinition { name: "move", bindings: vec![bind(1, 3)] });
    input.on_key_down(key(1));
    input.on_key_down(key(1));
    input.on_key_down(key(1));
    assert_eq!(input.query_axis("move"), Ok(3));
    input.on_key_up(key(1));
    assert_eq!(input.query_axis("move"), Ok(0));
}

#[test]
fn key_up_without_key_down_changes_nothing() {
    let mut input = InputSystem::new();
    input.create_axis(AxisDefinition { name: "move", bindings: vec![bind(1, 3)] });
    input.on_key_up(key(1));
    assert_eq!(input.query_axis("move"), Ok(0));
}

#[test]
fn a_key_drives_every_axis_bound_to_it() {
    let mut input = InputSystem::new();
    input.create_axis(AxisDefinition { name: "a", bindings: vec![bind(1, 1)] });
    input.create_axis(AxisDefinition { name: "b", bindings: vec![bind(1, 20), bind(2, 300)] });
    input.on_key_down(key(1));
    assert_eq!(input.query_axis("a"), Ok(1));
    assert_eq!(input.query_axis("b"), Ok(20));
}

#[test]
fn unregistered_name_is_not_found_whatever_came_before() {
    let mut input = InputSystem::new();
    input.create_axis(AxisDefinition { name: "move", bindings: vec![bind(1, 1)] });
    input.create_axis(AxisDefinition { name: "turn", bindings: vec![bind(2, 1)] });
    input.on_key_down(key(1));
    input.on_key_down(key(2));
    assert_eq!(input.query_axis("mov"), Err(InputError::AxisDoesNotExist));
    assert_eq!(input.query_axis("move "), Err(InputError::AxisDoesNotExist));
    assert_eq!(input.query_axis("Turn"), Err(InputError::AxisDoesNotExist));
}

#[test]
fn registering_again_replaces_the_bindings() {
    let mut input = InputSystem::new();
    input.create_axis(AxisDefinition { name: "move", bindings: vec![bind(1, 5), bind(2, 7)] });
    input.on_key_down(key(1));
    input.on_key_down(key(2));
    assert_eq!(input.query_axis("move"), Ok(12));
    input.create_axis(AxisDefinition { name: "move", bindings: vec![bind(3, 100)] });
    assert_eq!(input.query_axis("move"), Ok(0));
    input.on_key_down(key(1));
    input.on_key_up(key(2));
    assert_eq!(input.query_axis("move"), Ok(0));
    input.on_key_down(key(3));
    assert_eq!(input.query_axis("move"), Ok(100));
}

#[test]
fn registering_again_leaves_other_axes_alone() {
    let mut input = InputSystem::new();
    input.create_axis(AxisDefinition { name: "move", bindings: vec![bind(1, 5)] });
    input.create_axis(AxisDefinition { name: "turn", bindings: vec![bind(1, 9)] });
    input.on_key_down(key(1));
    input.create_axis(AxisDefinition { name: "move", bindings: vec![bind(1, 6)] });
    assert_eq!(input.query_axis("turn"), Ok(9));
    assert_eq!(input.query_axis("move"), Ok(0));
}

#[test]
fn scales_are_not_clamped() {
    let mut input = InputSystem::new();
    input.create_axis(AxisDefinition {
        name: "big",
        bindings: vec![bind(1, i64::MAX), bind(2, i64::MAX), bind(3, i64::MIN)],
    });
    input.on_key_down(key(1));
    input.on_key_down(key(2));
    assert_eq!(input.query_axis("big"), Ok(2 * (i64::MAX as i128)));
    input.on_key_up(key(1));
    input.on_key_up(key(2));
    input.on_key_down(key(3));
    assert_eq!(input.query_axis("big"), Ok(i64::MIN as i128));
}

#[test]
fn escape_key_is_recognised() {
    assert!(KeyCode::escape().is_escape());
    assert_eq!(KeyCode::escape().code, KEY_ESCAPE);
    assert!(!KeyCode::new(30).is_escape());
    assert_eq!(KeyCode::new(30), key(30));
}
