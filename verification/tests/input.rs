use engine::camera::camera::MovementDirection;
use engine::input::{InputEvent, KeyboardInput, MouseInput, Scancode};

fn down(k: Scancode) -> InputEvent {
    InputEvent::KeyDown { scancode: Some(k) }
}
fn up(k: Scancode) -> InputEvent {
    InputEvent::KeyUp { scancode: Some(k) }
}

#[test]
fn no_key_held_at_first() {
    let k = KeyboardInput::new();
    assert!(k.movement_directions().is_empty());
}

#[test]
fn held_keys_move_in_fixed_order() {
    let mut k = KeyboardInput::new();
    let mut menu = false;
    k.handle_input(&down(Scancode::D), &mut menu);
    k.handle_input(&down(Scancode::W), &mut menu);
    k.handle_input(&down(Scancode::A), &mut menu);
    assert_eq!(
        k.movement_directions(),
        vec![MovementDirection::FORWARD, MovementDirection::LEFT, MovementDirection::RIGHT]
    );
    k.handle_input(&down(Scancode::S), &mut menu);
    assert_eq!(k.movement_directions().len(), 4);
    assert!(!menu);
}

#[test]
fn releasing_a_key_stops_its_movement() {
    let mut k = KeyboardInput::new();
    let mut menu = false;
    k.handle_input(&down(Scancode::W), &mut menu);
    k.handle_input(&down(Scancode::S), &mut menu);
    k.handle_input(&up(Scancode::W), &mut menu);
    assert_eq!(k.movement_directions(), vec![MovementDirection::BACKWARD]);
}

#[test]
fn releasing_escape_toggles_the_menu() {
    let mut k = KeyboardInput::new();
    let mut menu = false;
    k.handle_input(&down(Scancode::Escape), &mut menu);
    assert!(!menu);
    k.handle_input(&up(Scancode::Escape), &mut menu);
    assert!(menu);
    k.handle_input(&up(Scancode::Escape), &mut menu);
    assert!(!menu);
}

#[test]
fn other_events_change_nothing() {
    let mut k = KeyboardInput::new();
    let mut menu = true;
    k.handle_input(&down(Scancode::W), &mut menu);
    k.handle_input(&down(Scancode::Other), &mut menu);
    k.handle_input(&InputEvent::KeyDown { scancode: None }, &mut menu);
    k.handle_input(&InputEvent::KeyUp { scancode: None }, &mut menu);
    k.handle_input(&InputEvent::MouseMotion { xrel: 3, yrel: 4 }, &mut menu);
    k.handle_input(&InputEvent::Other, &mut menu);
    assert!(menu);
    assert_eq!(k.movement_directions(), vec![MovementDirection::FORWARD]);
}

#[test]
fn mouse_motion_is_handed_on() {
    let mut m = MouseInput::new();
    assert_eq!(m.handle_input(&InputEvent::MouseMotion { xrel: -5, yrel: 12 }), Some((-5, 12)));
    assert_eq!(m.handle_input(&down(Scancode::W)), None);
}
