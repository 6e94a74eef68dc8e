use vkrender::input::{
    drags_camera, focus_changed, key_pressed, key_released, mouse_button_index, mouse_pressed,
    mouse_released, move_intent, Bindings, CursorAction, KeyAction, KeyboardBinding, MouseBinding,
    MouseButton, KEY_A, KEY_CONTROL_LEFT, KEY_D, KEY_ESCAPE, KEY_F11, KEY_S, KEY_SHIFT_LEFT,
    KEY_SPACE, KEY_W,
};
use winit::keyboard::KeyCode;

#[test]
fn new_binding_has_no_key_down() {
    let b: Bindings<3> = Bindings::new();
    assert_eq!(b.buttons, [0, 0, 0]);
    for k in 0..24 {
        assert!(!b.down(k));
    }
}

#[test]
fn set_marks_only_that_key() {
    let mut b: Bindings<2> = Bindings::new();
    b.set(3);
    assert_eq!(b.buttons, [0b0000_1000, 0]);
    b.set(9);
    assert_eq!(b.buttons, [0b0000_1000, 0b0000_0010]);
    for k in 0..16 {
        assert_eq!(b.down(k), k == 3 || k == 9);
    }
}

#[test]
fn set_twice_is_set_once() {
    let mut b: Bindings<1> = Bindings::new();
    b.set(5);
    b.set(5);
    assert_eq!(b.buttons, [0b0010_0000]);
}

#[test]
fn unset_releases_only_that_key() {
    let mut b: Bindings<2> = Bindings::new();
    b.set(0);
    b.set(7);
    b.set(15);
    b.unset(7);
    assert_eq!(b.buttons, [0b0000_0001, 0b1000_0000]);
    assert!(b.down(0));
    assert!(!b.down(7));
    assert!(b.down(15));
    b.unset(1);
    assert_eq!(b.buttons, [0b0000_0001, 0b1000_0000]);
}

#[test]
fn unset_undoes_set() {
    let mut b: Bindings<4> = Bindings::new();
    b.set(12);
    let before = b.buttons;
    b.set(30);
    b.unset(30);
    assert_eq!(b.buttons, before);
}

#[test]
fn reset_releases_everything() {
    let mut b: Bindings<2> = Bindings::new();
    b.set(1);
    b.set(14);
    b.reset();
    assert_eq!(b.buttons, [0, 0]);
}

#[test]
fn keyboard_binding_holds_every_key_code() {
    let mut k = KeyboardBinding::new();
    k.set(199);
    assert!(k.down(199));
    assert_eq!(k.buttons[24], 0b1000_0000);
}

#[test]
fn text_lists_bits_least_significant_first() {
    let mut b: Bindings<2> = Bindings::new();
    b.set(0);
    b.set(9);
    assert_eq!(b.to_string(), "|10000000|01000000|");
}

#[test]
fn text_of_empty_binding() {
    let b: Bindings<0> = Bindings::new();
    assert_eq!(b.to_string(), "|");
    let m = MouseBinding::new();
    assert_eq!(m.to_string(), "|00000000|");
}

#[test]
fn key_constants_match_winit_key_codes() {
    assert_eq!(KeyCode::KeyA as usize, KEY_A);
    assert_eq!(KeyCode::KeyD as usize, KEY_D);
    assert_eq!(KeyCode::KeyS as usize, KEY_S);
    assert_eq!(KeyCode::KeyW as usize, KEY_W);
    assert_eq!(KeyCode::ControlLeft as usize, KEY_CONTROL_LEFT);
    assert_eq!(KeyCode::ShiftLeft as usize, KEY_SHIFT_LEFT);
    assert_eq!(KeyCode::Space as usize, KEY_SPACE);
    assert_eq!(KeyCode::Escape as usize, KEY_ESCAPE);
    assert_eq!(KeyCode::F11 as usize, KEY_F11);
}

#[test]
fn escape_exits_and_f11_toggles_fullscreen() {
    let mut k = KeyboardBinding::new();
    assert_eq!(key_pressed(&mut k, KEY_ESCAPE), KeyAction::Exit);
    assert_eq!(key_pressed(&mut k, KEY_F11), KeyAction::ToggleFullscreen);
    assert_eq!(key_pressed(&mut k, KEY_W), KeyAction::Nothing);
    assert!(k.down(KEY_ESCAPE) && k.down(KEY_F11) && k.down(KEY_W));
    key_released(&mut k, KEY_F11);
    assert!(!k.down(KEY_F11));
    assert!(k.down(KEY_ESCAPE));
}

#[test]
fn losing_focus_releases_all_buttons() {
    let mut k = KeyboardBinding::new();
    let mut m = MouseBinding::new();
    k.set(KEY_W);
    m.set(0);
    focus_changed(true, &mut k, &mut m);
    assert!(k.down(KEY_W) && m.down(0));
    focus_changed(false, &mut k, &mut m);
    assert_eq!(k.buttons, [0; 25]);
    assert_eq!(m.buttons, [0]);
}

#[test]
fn mouse_buttons_take_indices_in_order() {
    assert_eq!(mouse_button_index(MouseButton::Left), 0);
    assert_eq!(mouse_button_index(MouseButton::Right), 1);
    assert_eq!(mouse_button_index(MouseButton::Middle), 2);
    assert_eq!(mouse_button_index(MouseButton::Back), 3);
    assert_eq!(mouse_button_index(MouseButton::Forward), 4);
    assert_eq!(mouse_button_index(MouseButton::Other(2)), 7);
    assert_eq!(mouse_button_index(MouseButton::Other(1000)), 1005);
}

#[test]
fn left_button_grabs_and_releases_cursor() {
    let mut m = MouseBinding::new();
    assert_eq!(mouse_pressed(&mut m, MouseButton::Left), CursorAction::Grab);
    assert!(drags_camera(&m));
    assert_eq!(mouse_pressed(&mut m, MouseButton::Right), CursorAction::Keep);
    assert_eq!(m.buttons, [0b0000_0011]);
    assert_eq!(mouse_released(&mut m, MouseButton::Left), CursorAction::Release);
    assert!(!drags_camera(&m));
    assert_eq!(mouse_released(&mut m, MouseButton::Right), CursorAction::Keep);
    assert_eq!(m.buttons, [0]);
}

#[test]
fn movement_keys_give_axes() {
    let mut k = KeyboardBinding::new();
    let i = move_intent(&k);
    assert_eq!((i.forward, i.right, i.up, i.boost), (0, 0, 0, false));
    k.set(KEY_W);
    k.set(KEY_D);
    k.set(KEY_SPACE);
    k.set(KEY_SHIFT_LEFT);
    let i = move_intent(&k);
    assert_eq!((i.forward, i.right, i.up, i.boost), (-1, 1, 1, true));
    k.set(KEY_S);
    k.set(KEY_A);
    k.set(KEY_CONTROL_LEFT);
    k.unset(KEY_SHIFT_LEFT);
    let i = move_intent(&k);
    assert_eq!((i.forward, i.right, i.up, i.boost), (0, 0, 0, false));
    k.unset(KEY_W);
    k.unset(KEY_D);
    k.unset(KEY_SPACE);
    let i = move_intent(&k);
    assert_eq!((i.forward, i.right, i.up), (1, -1, -1));
}
