use quantum_loops::events::Event;
use quantum_loops::events::MouseButton;
use quantum_loops::events::normalize_mouse_down;
use quantum_loops::events::normalize_mouse_move;
use quantum_loops::events::normalize_mouse_up;
use quantum_loops::events::normalize_mouse_wheel;

#[test]
fn from_code_decodes_the_fixed_table() {
    assert_eq!(MouseButton::from_code(0), Some(MouseButton::Left));
    assert_eq!(MouseButton::from_code(1), Some(MouseButton::Middle));
    assert_eq!(MouseButton::from_code(2), Some(MouseButton::Right));
    assert_eq!(MouseButton::from_code(3), Some(MouseButton::Back));
    assert_eq!(MouseButton::from_code(4), Some(MouseButton::Forward));
}

#[test]
fn from_code_rejects_unknown_codes() {
    assert_eq!(MouseButton::from_code(5), None);
    assert_eq!(MouseButton::from_code(-1), None);
    assert_eq!(MouseButton::from_code(i16::MAX), None);
}

#[test]
fn from_bitmap_bits_zero_and_one_give_left_then_right() {
    assert_eq!(
        MouseButton::from_bitmap(0b00011),
        vec![MouseButton::Left, MouseButton::Right]
    );
}

#[test]
fn from_bitmap_empty_mask_gives_no_buttons() {
    assert_eq!(MouseButton::from_bitmap(0), Vec::<MouseButton>::new());
}

#[test]
fn from_bitmap_full_mask_gives_all_buttons_in_scan_order() {
    assert_eq!(
        MouseButton::from_bitmap(0b11111),
        vec![
            MouseButton::Left,
            MouseButton::Right,
            MouseButton::Middle,
            MouseButton::Back,
            MouseButton::Forward,
        ]
    );
}

#[test]
fn from_bitmap_scattered_mask_keeps_scan_order() {
    assert_eq!(
        MouseButton::from_bitmap(0b10100),
        vec![MouseButton::Middle, MouseButton::Forward]
    );
    assert_eq!(
        MouseButton::from_bitmap(0b01010),
        vec![MouseButton::Right, MouseButton::Back]
    );
}

#[test]
fn normalize_mouse_down_emits_for_known_codes_only() {
    match normalize_mouse_down((3i64, 4i64), 0) {
        Some(Event::MouseDown { pos, button }) => {
            assert_eq!(pos, (3, 4));
            assert_eq!(button, MouseButton::Left);
        }
        _ => panic!("a known code must produce a press event"),
    }
    assert!(normalize_mouse_down((3i64, 4i64), 5).is_none());
    assert!(normalize_mouse_down((3i64, 4i64), -2).is_none());
}

#[test]
fn normalize_mouse_up_emits_for_known_codes_only() {
    match normalize_mouse_up((9i64, 1i64), 4) {
        Some(Event::MouseUp { pos, button }) => {
            assert_eq!(pos, (9, 1));
            assert_eq!(button, MouseButton::Forward);
        }
        _ => panic!("a known code must produce a release event"),
    }
    assert!(normalize_mouse_up((9i64, 1i64), 7).is_none());
}

#[test]
fn normalize_mouse_move_decodes_held_buttons() {
    match normalize_mouse_move((5i64, 6i64), 0b00011) {
        Event::MouseMove { pos, buttons } => {
            assert_eq!(pos, (5, 6));
            assert_eq!(buttons, vec![MouseButton::Left, MouseButton::Right]);
        }
        _ => panic!("a move input must produce a move event"),
    }
}

#[test]
fn normalize_mouse_wheel_keeps_delta_and_decodes_buttons() {
    match normalize_mouse_wheel((5i64, 6i64), (0i64, -3i64), 0b00100) {
        Event::MouseWheel { pos, buttons, delta } => {
            assert_eq!(pos, (5, 6));
            assert_eq!(delta, (0, -3));
            assert_eq!(buttons, vec![MouseButton::Middle]);
        }
        _ => panic!("a wheel input must produce a wheel event"),
    }
}
