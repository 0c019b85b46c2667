use vst3_view::keys::{
    virtual_key_event, vst3_modifiers, vst3_virtual_key_code, Modifiers, VirtualKeyCode,
    VirtualKeyEvent, VKEY_FIRST_ASCII, VKEY_FIRST_CODE, VKEY_LAST_CODE,
};

fn modifiers(shift: bool, alternate: bool, command: bool, control: bool) -> Modifiers {
    Modifiers { shift, alternate, command, control }
}

#[test]
fn every_virtual_key_code_has_its_key() {
    let keys = [
        VirtualKeyCode::Backspace,
        VirtualKeyCode::Tab,
        VirtualKeyCode::Clear,
        VirtualKeyCode::Return,
        VirtualKeyCode::Pause,
        VirtualKeyCode::Escape,
        VirtualKeyCode::Space,
        VirtualKeyCode::Next,
        VirtualKeyCode::End,
        VirtualKeyCode::Home,
        VirtualKeyCode::ArrowLeft,
        VirtualKeyCode::ArrowUp,
        VirtualKeyCode::ArrowRight,
        VirtualKeyCode::ArrowDown,
        VirtualKeyCode::PageUp,
        VirtualKeyCode::PageDown,
        VirtualKeyCode::Select,
        VirtualKeyCode::Print,
        VirtualKeyCode::NumpadEnter,
        VirtualKeyCode::Snapshot,
        VirtualKeyCode::Insert,
        VirtualKeyCode::Delete,
        VirtualKeyCode::Help,
        VirtualKeyCode::Numpad0,
        VirtualKeyCode::Numpad1,
        VirtualKeyCode::Numpad2,
        VirtualKeyCode::Numpad3,
        VirtualKeyCode::Numpad4,
        VirtualKeyCode::Numpad5,
        VirtualKeyCode::Numpad6,
        VirtualKeyCode::Numpad7,
        VirtualKeyCode::Numpad8,
        VirtualKeyCode::Numpad9,
        VirtualKeyCode::NumpadMultiply,
        VirtualKeyCode::NumpadAdd,
        VirtualKeyCode::NumpadSeparator,
        VirtualKeyCode::NumpadSubtract,
        VirtualKeyCode::NumpadDecimal,
        VirtualKeyCode::NumpadDivide,
        VirtualKeyCode::F1,
        VirtualKeyCode::F2,
        VirtualKeyCode::F3,
        VirtualKeyCode::F4,
        VirtualKeyCode::F5,
        VirtualKeyCode::F6,
        VirtualKeyCode::F7,
        VirtualKeyCode::F8,
        VirtualKeyCode::F9,
        VirtualKeyCode::F10,
        VirtualKeyCode::F11,
        VirtualKeyCode::F12,
        VirtualKeyCode::NumLock,
        VirtualKeyCode::ScrollLock,
        VirtualKeyCode::Shift,
        VirtualKeyCode::Control,
        VirtualKeyCode::Alt,
        VirtualKeyCode::Equals,
        VirtualKeyCode::ContextMenu,
        VirtualKeyCode::MediaPlay,
        VirtualKeyCode::MediaStop,
        VirtualKeyCode::MediaPrevTrack,
        VirtualKeyCode::MediaNextTrack,
        VirtualKeyCode::VolumeUp,
        VirtualKeyCode::VolumeDown,
        VirtualKeyCode::F13,
        VirtualKeyCode::F14,
        VirtualKeyCode::F15,
        VirtualKeyCode::F16,
        VirtualKeyCode::F17,
        VirtualKeyCode::F18,
        VirtualKeyCode::F19,
        VirtualKeyCode::F20,
        VirtualKeyCode::F21,
        VirtualKeyCode::F22,
        VirtualKeyCode::F23,
        VirtualKeyCode::F24,
        VirtualKeyCode::Super,
    ];
    assert_eq!(keys.len(), 77);
    for (i, key) in keys.iter().enumerate() {
        assert_eq!(vst3_virtual_key_code(i as i16 + VKEY_FIRST_CODE), Some(*key));
    }
}

#[test]
fn well_known_virtual_key_codes() {
    assert_eq!(VKEY_FIRST_CODE, 1);
    assert_eq!(VKEY_LAST_CODE, 77);
    assert_eq!(vst3_virtual_key_code(1), Some(VirtualKeyCode::Backspace));
    assert_eq!(vst3_virtual_key_code(7), Some(VirtualKeyCode::Space));
    assert_eq!(vst3_virtual_key_code(11), Some(VirtualKeyCode::ArrowLeft));
    assert_eq!(vst3_virtual_key_code(24), Some(VirtualKeyCode::Numpad0));
    assert_eq!(vst3_virtual_key_code(40), Some(VirtualKeyCode::F1));
    assert_eq!(vst3_virtual_key_code(64), Some(VirtualKeyCode::VolumeDown));
    assert_eq!(vst3_virtual_key_code(76), Some(VirtualKeyCode::F24));
    assert_eq!(vst3_virtual_key_code(77), Some(VirtualKeyCode::Super));
}

#[test]
fn other_codes_have_no_key() {
    for raw in [i16::MIN, -1, 0, 78, 127, VKEY_FIRST_ASCII, 200, i16::MAX] {
        assert_eq!(vst3_virtual_key_code(raw), None);
        assert_eq!(virtual_key_event(raw, true, 0), None);
    }
}

#[test]
fn keys_are_distinct() {
    for a in 1..=77 {
        for b in 1..=77 {
            assert_eq!(vst3_virtual_key_code(a) == vst3_virtual_key_code(b), a == b);
        }
    }
}

#[test]
fn modifier_bits() {
    assert_eq!(vst3_modifiers(0), modifiers(false, false, false, false));
    assert_eq!(vst3_modifiers(1), modifiers(true, false, false, false));
    assert_eq!(vst3_modifiers(2), modifiers(false, true, false, false));
    assert_eq!(vst3_modifiers(4), modifiers(false, false, true, false));
    assert_eq!(vst3_modifiers(8), modifiers(false, false, false, true));
    assert_eq!(vst3_modifiers(15), modifiers(true, true, true, true));
}

#[test]
fn undefined_modifier_bits_are_dropped() {
    assert_eq!(vst3_modifiers(0x15), modifiers(true, false, true, false));
    assert_eq!(vst3_modifiers(0x7FF0), modifiers(false, false, false, false));
    assert_eq!(vst3_modifiers(-1), modifiers(true, true, true, true));
    assert_eq!(vst3_modifiers(i16::MIN), modifiers(false, false, false, false));
    assert_eq!(vst3_modifiers(-16 + 6), modifiers(false, true, true, false));
}

#[test]
fn modifiers_survive_a_round_trip() {
    for bits in 0..=255u8 {
        assert_eq!(Modifiers::from_bits_truncate(bits).bits(), bits & 0x0F);
    }
    for raw in i16::MIN..=i16::MAX {
        assert_eq!(vst3_modifiers(raw).bits() as i16, raw & 0x0F);
    }
}

#[test]
fn events_hold_what_the_host_said() {
    assert_eq!(
        virtual_key_event(6, false, 0x19),
        Some(VirtualKeyEvent {
            key_code: VirtualKeyCode::Escape,
            is_down: false,
            modifiers: modifiers(true, false, false, true),
        })
    );
}
