use streamer_core::input::{
    key_code_of, logical_char_of, ps_to_mouse_button, ps_to_pointer_button, scale_to_extent,
    translate_message, InputEvent, KeyId, MouseButtonKind, PointerButtonKind,
};
use streamer_core::message::{KeyDown, KeyUp, MouseDown, MouseMove, MouseUp, MouseWheel, UeMessage};

#[test]
fn button_bytes_map_to_mouse_buttons() {
    assert_eq!(ps_to_mouse_button(0), MouseButtonKind::Left);
    assert_eq!(ps_to_mouse_button(1), MouseButtonKind::Middle);
    assert_eq!(ps_to_mouse_button(2), MouseButtonKind::Right);
    assert_eq!(ps_to_mouse_button(9), MouseButtonKind::Left);
}

#[test]
fn button_bytes_map_to_pointer_buttons() {
    assert_eq!(ps_to_pointer_button(0), PointerButtonKind::Primary);
    assert_eq!(ps_to_pointer_button(1), PointerButtonKind::Middle);
    assert_eq!(ps_to_pointer_button(2), PointerButtonKind::Secondary);
    assert_eq!(ps_to_pointer_button(255), PointerButtonKind::Primary);
}

#[test]
fn key_codes_map_to_key_identities() {
    assert_eq!(key_code_of(8), KeyId::Backspace);
    assert_eq!(key_code_of(13), KeyId::Enter);
    assert_eq!(key_code_of(32), KeyId::Space);
    assert_eq!(key_code_of(37), KeyId::ArrowLeft);
    assert_eq!(key_code_of(65), KeyId::KeyA);
    assert_eq!(key_code_of(90), KeyId::KeyZ);
    assert_eq!(key_code_of(112), KeyId::F1);
    assert_eq!(key_code_of(123), KeyId::F12);
    assert_eq!(key_code_of(254), KeyId::ControlRight);
    assert_eq!(key_code_of(200), KeyId::Unidentified);
}

#[test]
fn character_keys_produce_their_characters() {
    assert_eq!(logical_char_of(65), Some('a'));
    assert_eq!(logical_char_of(90), Some('z'));
    assert_eq!(logical_char_of(54), Some('-'));
    assert_eq!(logical_char_of(106), Some('*'));
    assert_eq!(logical_char_of(107), Some('+'));
    assert_eq!(logical_char_of(110), Some('.'));
    assert_eq!(logical_char_of(111), Some('/'));
    assert_eq!(logical_char_of(188), Some(','));
    assert_eq!(logical_char_of(190), Some(';'));
    assert_eq!(logical_char_of(13), None);
    assert_eq!(logical_char_of(37), None);
}

#[test]
fn normalized_coordinates_rescale_to_the_surface() {
    assert_eq!(scale_to_extent(32768, 1920), 960);
    assert_eq!(scale_to_extent(0, 1920), 0);
    assert_eq!(scale_to_extent(65535, 65536), 65535);
    assert_eq!(scale_to_extent(16384, 1080), 270);
}

#[test]
fn mouse_move_raises_motion_and_cursor_events() {
    let events = translate_message(&UeMessage::MouseMove(MouseMove {
        x: 100,
        y: 200,
        delta_x: -5,
        delta_y: 3,
    }));
    assert_eq!(
        events,
        vec![
            InputEvent::MouseMotion { delta_x: -5, delta_y: 3 },
            InputEvent::CursorMoved { x: 100, y: 200, delta_x: -5, delta_y: 3 },
        ]
    );
}

#[test]
fn buttons_and_keys_translate() {
    assert_eq!(
        translate_message(&UeMessage::MouseDown(MouseDown { button: 2, x: 0, y: 0 })),
        vec![InputEvent::Button { button: MouseButtonKind::Right, pressed: true }]
    );
    assert_eq!(
        translate_message(&UeMessage::MouseUp(MouseUp { button: 0, x: 0, y: 0 })),
        vec![InputEvent::Button { button: MouseButtonKind::Left, pressed: false }]
    );
    assert_eq!(
        translate_message(&UeMessage::KeyDown(KeyDown { key_code: 65, is_repeat: 1 })),
        vec![InputEvent::Key { key: KeyId::KeyA, pressed: true, repeat: true }]
    );
    assert_eq!(
        translate_message(&UeMessage::KeyUp(KeyUp { key_code: 65 })),
        vec![InputEvent::Key { key: KeyId::KeyA, pressed: false, repeat: false }]
    );
    assert_eq!(
        translate_message(&UeMessage::MouseWheel(MouseWheel { delta: -10, x: 50, y: 60 })),
        vec![InputEvent::Wheel { delta: -10 }]
    );
}

#[test]
fn enter_and_leave_translate_to_nothing() {
    assert!(translate_message(&UeMessage::MouseEnter).is_empty());
    assert!(translate_message(&UeMessage::MouseLeave).is_empty());
}
