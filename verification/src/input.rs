//! Translation of decoded control-channel messages into host input events.
//!
//! Remote mouse coordinates arrive in a normalized integer space `0..65536`
//! and are rescaled to the actual target surface's pixel extent by the
//! receiver; key and button codes arrive as protocol bytes and are mapped to
//! named identities. The host application turns the resulting events into
//! its own input types.

use vstd::prelude::*;

use crate::message::UeMessage;

verus! {

/// The normalized coordinate space: positions and deltas are transmitted as
/// a fraction of this scale.
pub const NORMALIZED_SCALE: u32 = 65536;

/// Mouse button identity carried by the protocol's button byte.
#[derive(Clone, Copy, Debug, PartialEq, Eq, Structural)]
pub enum MouseButtonKind {
    Left,
    Middle,
    Right,
}

/// Pointer button identity, for hosts that separate pointer from mouse
/// input.
#[derive(Clone, Copy, Debug, PartialEq, Eq, Structural)]
pub enum PointerButtonKind {
    Primary,
    Middle,
    Secondary,
}

/// The mouse button a protocol button byte names; unknown bytes fall back to
/// the left button (reported by the caller).
pub open spec fn spec_mouse_button(button: u8) -> MouseButtonKind {
    if button == 0 {
        MouseButtonKind::Left
    } else if button == 1 {
        MouseButtonKind::Middle
    } else if button == 2 {
        MouseButtonKind::Right
    } else {
        MouseButtonKind::Left
    }
}

/// The pointer button a protocol button byte names; unknown bytes fall back
/// to the primary button (reported by the caller).
pub open spec fn spec_pointer_button(button: u8) -> PointerButtonKind {
    if button == 0 {
        PointerButtonKind::Primary
    } else if button == 1 {
        PointerButtonKind::Middle
    } else if button == 2 {
        PointerButtonKind::Secondary
    } else {
        PointerButtonKind::Primary
    }
}

/// Maps the protocol's button byte to a mouse button.
pub fn ps_to_mouse_button(button: u8) -> (r: MouseButtonKind)
    ensures
        r == spec_mouse_button(button),
{
    match button {
        0 => MouseButtonKind::Left,
        1 => MouseButtonKind::Middle,
        2 => MouseButtonKind::Right,
        _ => MouseButtonKind::Left,
    }
}

/// Maps the protocol's button byte to a pointer button.
pub fn ps_to_pointer_button(button: u8) -> (r: PointerButtonKind)
    ensures
        r == spec_pointer_button(button),
{
    match button {
        0 => PointerButtonKind::Primary,
        1 => PointerButtonKind::Middle,
        2 => PointerButtonKind::Secondary,
        _ => PointerButtonKind::Primary,
    }
}

/// Physical key identity carried by the protocol's key-code byte.
#[derive(Clone, Copy, Debug, PartialEq, Eq, Structural)]
pub enum KeyId {
    Backspace,
    Tab,
    Enter,
    ShiftLeft,
    ControlLeft,
    CapsLock,
    Space,
    ArrowLeft,
    ArrowUp,
    ArrowRight,
    ArrowDown,
    Minus,
    KeyA,
    KeyB,
    KeyC,
    KeyD,
    KeyE,
    KeyF,
    KeyG,
    KeyH,
    KeyI,
    KeyJ,
    KeyK,
    KeyL,
    KeyM,
    KeyN,
    KeyO,
    KeyP,
    KeyQ,
    KeyR,
    KeyS,
    KeyT,
    KeyU,
    KeyV,
    KeyW,
    KeyX,
    KeyY,
    KeyZ,
    ContextMenu,
    NumpadMultiply,
    NumpadAdd,
    NumpadSubtract,
    NumpadComma,
    NumpadDivide,
    F1,
    F2,
    F3,
    F4,
    F5,
    F6,
    F7,
    F8,
    F9,
    F10,
    F11,
    F12,
    Comma,
    Semicolon,
    AltRight,
    ShiftRight,
    ControlRight,
    Unidentified,
}

/// The key identity a protocol key-code byte names; codes outside the table
/// are unidentified (reported by the caller).
pub open spec fn spec_key_of(code: u8) -> KeyId {
    if code == 8 {
        KeyId::Backspace
    } else if code == 9 {
        KeyId::Tab
    } else if code == 13 {
        KeyId::Enter
    } else if code == 16 {
        KeyId::ShiftLeft
    } else if code == 17 {
        KeyId::ControlLeft
    } else if code == 20 {
        KeyId::CapsLock
    } else if code == 32 {
        KeyId::Space
    } else if code == 37 {
        KeyId::ArrowLeft
    } else if code == 38 {
        KeyId::ArrowUp
    } else if code == 39 {
        KeyId::ArrowRight
    } else if code == 40 {
        KeyId::ArrowDown
    } else if code == 54 {
        KeyId::Minus
    } else if code == 65 {
        KeyId::KeyA
    } else if code == 66 {
        KeyId::KeyB
    } else if code == 67 {
        KeyId::KeyC
    } else if code == 68 {
        KeyId::KeyD
    } else if code == 69 {
        KeyId::KeyE
    } else if code == 70 {
        KeyId::KeyF
    } else if code == 71 {
        KeyId::KeyG
    } else if code == 72 {
        KeyId::KeyH
    } else if code == 73 {
        KeyId::KeyI
    } else if code == 74 {
        KeyId::KeyJ
    } else if code == 75 {
        KeyId::KeyK
    } else if code == 76 {
        KeyId::KeyL
    } else if code == 77 {
        KeyId::KeyM
    } else if code == 78 {
        KeyId::KeyN
    } else if code == 79 {
        KeyId::KeyO
    } else if code == 80 {
        KeyId::KeyP
    } else if code == 81 {
        KeyId::KeyQ
    } else if code == 82 {
        KeyId::KeyR
    } else if code == 83 {
        KeyId::KeyS
    } else if code == 84 {
        KeyId::KeyT
    } else if code == 85 {
        KeyId::KeyU
    } else if code == 86 {
        KeyId::KeyV
    } else if code == 87 {
        KeyId::KeyW
    } else if code == 88 {
        KeyId::KeyX
    } else if code == 89 {
        KeyId::KeyY
    } else if code == 90 {
        KeyId::KeyZ
    } else if code == 93 {
        KeyId::ContextMenu
    } else if code == 106 {
        KeyId::NumpadMultiply
    } else if code == 107 {
        KeyId::NumpadAdd
    } else if code == 109 {
        KeyId::NumpadSubtract
    } else if code == 110 {
        KeyId::NumpadComma
    } else if code == 111 {
        KeyId::NumpadDivide
    } else if code == 112 {
        KeyId::F1
    } else if code == 113 {
        KeyId::F2
    } else if code == 114 {
        KeyId::F3
    } else if code == 115 {
        KeyId::F4
    } else if code == 116 {
        KeyId::F5
    } else if code == 117 {
        KeyId::F6
    } else if code == 118 {
        KeyId::F7
    } else if code == 119 {
        KeyId::F8
    } else if code == 120 {
        KeyId::F9
    } else if code == 121 {
        KeyId::F10
    } else if code == 122 {
        KeyId::F11
    } else if code == 123 {
        KeyId::F12
    } else if code == 188 {
        KeyId::Comma
    } else if code == 190 {
        KeyId::Semicolon
    } else if code == 225 {
        KeyId::AltRight
    } else if code == 253 {
        KeyId::ShiftRight
    } else if code == 254 {
        KeyId::ControlRight
    } else {
        KeyId::Unidentified
    }
}

/// Maps the protocol's key-code byte to a key identity.
pub fn key_code_of(code: u8) -> (r: KeyId)
    ensures
        r == spec_key_of(code),
{
    match code {
        8 => KeyId::Backspace,
        9 => KeyId::Tab,
        13 => KeyId::Enter,
        16 => KeyId::ShiftLeft,
        17 => KeyId::ControlLeft,
        20 => KeyId::CapsLock,
        32 => KeyId::Space,
        37 => KeyId::ArrowLeft,
        38 => KeyId::ArrowUp,
        39 => KeyId::ArrowRight,
        40 => KeyId::ArrowDown,
        54 => KeyId::Minus,
        65 => KeyId::KeyA,
        66 => KeyId::KeyB,
        67 => KeyId::KeyC,
        68 => KeyId::KeyD,
        69 => KeyId::KeyE,
        70 => KeyId::KeyF,
        71 => KeyId::KeyG,
        72 => KeyId::KeyH,
        73 => KeyId::KeyI,
        74 => KeyId::KeyJ,
        75 => KeyId::KeyK,
        76 => KeyId::KeyL,
        77 => KeyId::KeyM,
        78 => KeyId::KeyN,
        79 => KeyId::KeyO,
        80 => KeyId::KeyP,
        81 => KeyId::KeyQ,
        82 => KeyId::KeyR,
        83 => KeyId::KeyS,
        84 => KeyId::KeyT,
        85 => KeyId::KeyU,
        86 => KeyId::KeyV,
        87 => KeyId::KeyW,
        88 => KeyId::KeyX,
        89 => KeyId::KeyY,
        90 => KeyId::KeyZ,
        93 => KeyId::ContextMenu,
        106 => KeyId::NumpadMultiply,
        107 => KeyId::NumpadAdd,
        109 => KeyId::NumpadSubtract,
        110 => KeyId::NumpadComma,
        111 => KeyId::NumpadDivide,
        112 => KeyId::F1,
        113 => KeyId::F2,
        114 => KeyId::F3,
        115 => KeyId::F4,
        116 => KeyId::F5,
        117 => KeyId::F6,
        118 => KeyId::F7,
        119 => KeyId::F8,
        120 => KeyId::F9,
        121 => KeyId::F10,
        122 => KeyId::F11,
        123 => KeyId::F12,
        188 => KeyId::Comma,
        190 => KeyId::Semicolon,
        225 => KeyId::AltRight,
        253 => KeyId::ShiftRight,
        254 => KeyId::ControlRight,
        _ => KeyId::Unidentified,
    }
}

/// The character that a character-producing key code stands for: the
/// lowercase letter for the letter keys, the printable symbol for the
/// punctuation and numpad keys, nothing for named keys.
pub open spec fn spec_logical_char(code: u8) -> Option<char> {
    if 65 <= code <= 90 {
        Some(((code - 65 + 97) as u8) as char)
    } else if code == 54 || code == 109 {
        Some('-')
    } else if code == 106 {
        Some('*')
    } else if code == 107 {
        Some('+')
    } else if code == 110 {
        Some('.')
    } else if code == 111 {
        Some('/')
    } else if code == 188 {
        Some(',')
    } else if code == 190 {
        Some(';')
    } else {
        None
    }
}

/// The character a key code produces, if it produces one.
pub fn logical_char_of(code: u8) -> (r: Option<char>)
    ensures
        r == spec_logical_char(code),
{
    if 65 <= code && code <= 90 {
        Some((code - 65 + 97) as char)
    } else if code == 54 || code == 109 {
        Some('-')
    } else if code == 106 {
        Some('*')
    } else if code == 107 {
        Some('+')
    } else if code == 110 {
        Some('.')
    } else if code == 111 {
        Some('/')
    } else if code == 188 {
        Some(',')
    } else if code == 190 {
        Some(';')
    } else {
        None
    }
}

/// Rescales a normalized `0..65536` coordinate to a surface of `extent`
/// pixels.
pub fn scale_to_extent(coord: u16, extent: u32) -> (r: u32)
    ensures
        r == (extent * coord) / (NORMALIZED_SCALE as int),
{
    proof {
        assert(extent * coord <= 0xffff_ffff * 0xffff && extent * coord / 65536 <= extent)
            by (nonlinear_arith)
            requires
                0 <= coord <= 0xffff,
                0 <= extent <= 0xffff_ffff,
        ;
    }
    let wide: u64 = (extent as u64) * (coord as u64) / (NORMALIZED_SCALE as u64);
    wide as u32
}

/// One host-level input event produced from a control-channel message.
/// Positions and deltas stay in the normalized space; the host rescales them
/// to its surface.
#[derive(Clone, Copy, Debug, PartialEq, Eq, Structural)]
pub enum InputEvent {
    MouseMotion { delta_x: i16, delta_y: i16 },
    CursorMoved { x: u16, y: u16, delta_x: i16, delta_y: i16 },
    Button { button: MouseButtonKind, pressed: bool },
    Wheel { delta: i16 },
    Key { key: KeyId, pressed: bool, repeat: bool },
}

/// The input events a control-channel message turns into: a mouse move
/// raises both a relative motion and an absolute cursor event; text, key
/// press, double click and enter/leave messages raise none and are consumed
/// elsewhere or ignored.
pub open spec fn spec_translate(m: UeMessage) -> Seq<InputEvent> {
    match m {
        UeMessage::MouseMove(e) => seq![
            InputEvent::MouseMotion { delta_x: e.delta_x, delta_y: e.delta_y },
            InputEvent::CursorMoved { x: e.x, y: e.y, delta_x: e.delta_x, delta_y: e.delta_y },
        ],
        UeMessage::MouseDown(e) => seq![
            InputEvent::Button { button: spec_mouse_button(e.button), pressed: true },
        ],
        UeMessage::MouseUp(e) => seq![
            InputEvent::Button { button: spec_mouse_button(e.button), pressed: false },
        ],
        UeMessage::KeyDown(k) => seq![
            InputEvent::Key {
                key: spec_key_of(k.key_code),
                pressed: true,
                repeat: k.is_repeat == 1,
            },
        ],
        UeMessage::KeyUp(k) => seq![
            InputEvent::Key { key: spec_key_of(k.key_code), pressed: false, repeat: false },
        ],
        UeMessage::MouseWheel(e) => seq![InputEvent::Wheel { delta: e.delta }],
        _ => seq![],
    }
}

/// Turns one decoded control-channel message into the host input events it
/// stands for.
pub fn translate_message(m: &UeMessage) -> (r: Vec<InputEvent>)
    ensures
        r@ == spec_translate(*m),
{
    let mut out: Vec<InputEvent> = Vec::new();
    match m {
        UeMessage::MouseMove(e) => {
            out.push(InputEvent::MouseMotion { delta_x: e.delta_x, delta_y: e.delta_y });
            out.push(
                InputEvent::CursorMoved {
                    x: e.x,
                    y: e.y,
                    delta_x: e.delta_x,
                    delta_y: e.delta_y,
                },
            );
        },
        UeMessage::MouseDown(e) => {
            out.push(InputEvent::Button { button: ps_to_mouse_button(e.button), pressed: true });
        },
        UeMessage::MouseUp(e) => {
            out.push(InputEvent::Button { button: ps_to_mouse_button(e.button), pressed: false });
        },
        UeMessage::KeyDown(k) => {
            out.push(
                InputEvent::Key {
                    key: key_code_of(k.key_code),
                    pressed: true,
                    repeat: k.is_repeat == 1,
                },
            );
        },
        UeMessage::KeyUp(k) => {
            out.push(
                InputEvent::Key { key: key_code_of(k.key_code), pressed: false, repeat: false },
            );
        },
        UeMessage::MouseWheel(e) => {
            out.push(InputEvent::Wheel { delta: e.delta });
        },
        _ => {},
    }
    proof {
        assert(out@ =~= spec_translate(*m));
    }
    out
}

} // verus!
