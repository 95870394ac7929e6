use streamer_core::message::{
    decode, encode, Command, DecodeError, KeyDown, KeyPress, KeyUp, MouseDouble, MouseDown,
    MouseMove, MouseUp, MouseWheel, UeMessage, UiInteraction,
};

#[test]
fn mouse_move_round_trip() {
    let original = UeMessage::MouseMove(MouseMove { x: 100, y: 200, delta_x: -5, delta_y: 3 });
    let wire = encode(&original);
    let decoded = decode(wire.as_slice()).expect("wire form must decode");
    assert_eq!(decoded, original);
}

#[test]
fn mouse_move_wire_bytes() {
    let wire = encode(&UeMessage::MouseMove(MouseMove { x: 100, y: 200, delta_x: -5, delta_y: 3 }));
    assert_eq!(wire, vec![74, 100, 0, 200, 0, 0xFB, 0xFF, 3, 0]);
}

#[test]
fn key_down_decodes_from_tag_60() {
    let decoded = decode(&[60, 65, 0]).expect("key down must decode");
    assert_eq!(decoded, UeMessage::KeyDown(KeyDown { key_code: 65, is_repeat: 0 }));
}

#[test]
fn mouse_wheel_decodes_little_endian() {
    let decoded = decode(&[75, 0xF6, 0xFF, 50, 0, 60, 0]).expect("mouse wheel must decode");
    assert_eq!(decoded, UeMessage::MouseWheel(MouseWheel { delta: -10, x: 50, y: 60 }));
}

#[test]
fn empty_buffer_is_a_decode_error() {
    assert_eq!(decode(&[]), Err(DecodeError::Empty));
}

#[test]
fn unknown_tag_is_a_decode_error() {
    assert_eq!(decode(&[99]), Err(DecodeError::UnknownTag { tag: 99 }));
    assert_eq!(decode(&[0, 1, 2]), Err(DecodeError::UnknownTag { tag: 0 }));
}

#[test]
fn truncated_payload_is_a_decode_error() {
    assert_eq!(decode(&[60]), Err(DecodeError::Truncated));
    assert_eq!(decode(&[60, 65]), Err(DecodeError::Truncated));
    assert_eq!(decode(&[74, 1, 2, 3]), Err(DecodeError::Truncated));
    assert_eq!(decode(&[75, 0xF6, 0xFF, 50, 0, 60]), Err(DecodeError::Truncated));
    assert_eq!(decode(&[72, 0, 1, 2, 3]), Err(DecodeError::Truncated));
}

#[test]
fn invalid_utf8_text_is_a_decode_error() {
    assert_eq!(decode(&[50, 0xFF, 0xFE]), Err(DecodeError::InvalidText));
    assert_eq!(decode(&[51, 0xC0]), Err(DecodeError::InvalidText));
}

#[test]
fn trailing_bytes_after_fixed_payload_are_ignored() {
    let decoded = decode(&[60, 65, 1, 9, 9]).expect("key down with trailing bytes must decode");
    assert_eq!(decoded, UeMessage::KeyDown(KeyDown { key_code: 65, is_repeat: 1 }));
}

#[test]
fn zero_payload_messages_decode() {
    assert_eq!(decode(&[70]), Ok(UeMessage::MouseEnter));
    assert_eq!(decode(&[71]), Ok(UeMessage::MouseLeave));
}

#[test]
fn text_messages_round_trip() {
    let ui = UeMessage::UiInteraction(UiInteraction { message: String::from("menu: open — héllo") });
    let decoded = decode(encode(&ui).as_slice()).expect("text must decode");
    assert_eq!(decoded, ui);

    let cmd = UeMessage::Command(Command { command: String::from("stat fps") });
    let decoded = decode(encode(&cmd).as_slice()).expect("command must decode");
    assert_eq!(decoded, cmd);
}

#[test]
fn command_decodes_utf8_payload() {
    let wire = [51, b's', b't', b'a', b't'];
    let decoded = decode(&wire).expect("command must decode");
    assert_eq!(decoded, UeMessage::Command(Command { command: String::from("stat") }));
}

#[test]
fn every_fixed_variant_round_trips() {
    let messages = vec![
        UeMessage::KeyDown(KeyDown { key_code: 13, is_repeat: 1 }),
        UeMessage::KeyUp(KeyUp { key_code: 90 }),
        UeMessage::KeyPress(KeyPress { char_code: 0xABCD }),
        UeMessage::MouseEnter,
        UeMessage::MouseLeave,
        UeMessage::MouseDown(MouseDown { button: 2, x: 1, y: 65535 }),
        UeMessage::MouseUp(MouseUp { button: 0, x: 12345, y: 54321 }),
        UeMessage::MouseMove(MouseMove { x: 0, y: 0, delta_x: -32768, delta_y: 32767 }),
        UeMessage::MouseWheel(MouseWheel { delta: -1, x: 0, y: 0 }),
        UeMessage::MouseDouble(MouseDouble { button: 1, x: 7, y: 8 }),
    ];
    for m in messages {
        let decoded = decode(encode(&m).as_slice()).expect("wire form must decode");
        assert_eq!(decoded, m);
    }
}

#[test]
fn key_down_wire_bytes() {
    assert_eq!(encode(&UeMessage::KeyDown(KeyDown { key_code: 65, is_repeat: 0 })), vec![60, 65, 0]);
}

#[test]
fn mouse_wheel_wire_bytes() {
    assert_eq!(
        encode(&UeMessage::MouseWheel(MouseWheel { delta: -10, x: 50, y: 60 })),
        vec![75, 0xF6, 0xFF, 50, 0, 60, 0]
    );
}
