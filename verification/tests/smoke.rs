use enkel::input::input_system::{
    AxisBinding, AxisBindingDefinition, AxisDefinition, InputError, InputSystem,
};
use enkel::input::keyboard::KeyCode;

#[test]
fn it_works() {
    assert_eq!(2 + 2, 4);
}

#[test]
fn move_axis_follows_held_keys() {
    let key_w = KeyCode::new(32);
    let key_s = KeyCode::new(28);
    let mut input = InputSystem::new();
    input.create_axis(AxisDefinition {
        name: "move",
        bindings: vec![
            AxisBindingDefinition { binding: AxisBinding::Keyboard(key_w), scale: 1 },
            AxisBindingDefinition { binding: AxisBinding::Keyboard(key_s), scale: -1 },
        ],
    });
    input.on_key_down(key_w);
    assert_eq!(input.query_axis("move"), Ok(1));
    input.on_key_down(key_s);
    assert_eq!(input.query_axis("move"), Ok(0));
    input.on_key_up(key_w);
    assert_eq!(input.query_axis("move"), Ok(-1));
    input.on_key_up(key_s);
    assert_eq!(input.query_axis("move"), Ok(0));
    assert_eq!(input.query_axis("jump"), Err(InputError::AxisDoesNotExist));
}
