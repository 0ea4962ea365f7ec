use iced_nsview::keyboard::{
    KeyCode, ModifiersState, ALTERNATE_KEY_MASK, COMMAND_KEY_MASK, CONTROL_KEY_MASK,
    SHIFT_KEY_MASK,
};

fn key_table() -> Vec<(u16, KeyCode)> {
    vec![
        (29, KeyCode::Key0),
        (18, KeyCode::Key1),
        (19, KeyCode::Key2),
        (20, KeyCode::Key3),
        (21, KeyCode::Key4),
        (23, KeyCode::Key5),
        (22, KeyCode::Key6),
        (26, KeyCode::Key7),
        (28, KeyCode::Key8),
        (25, KeyCode::Key9),
        (0, KeyCode::A),
        (11, KeyCode::B),
        (8, KeyCode::C),
        (2, KeyCode::D),
        (14, KeyCode::E),
        (3, KeyCode::F),
        (5, KeyCode::G),
        (4, KeyCode::H),
        (34, KeyCode::I),
        (38, KeyCode::J),
        (40, KeyCode::K),
        (37, KeyCode::L),
        (46, KeyCode::M),
        (45, KeyCode::N),
        (31, KeyCode::O),
        (35, KeyCode::P),
        (12, KeyCode::Q),
        (15, KeyCode::R),
        (1, KeyCode::S),
        (17, KeyCode::T),
        (32, KeyCode::U),
        (9, KeyCode::V),
        (13, KeyCode::W),
        (7, KeyCode::X),
        (16, KeyCode::Y),
        (6, KeyCode::Z),
        (50, KeyCode::Grave),
        (27, KeyCode::Minus),
        (24, KeyCode::Equals),
        (33, KeyCode::LBracket),
        (30, KeyCode::RBracket),
        (41, KeyCode::Semicolon),
        (39, KeyCode::Apostrophe),
        (43, KeyCode::Comma),
        (47, KeyCode::Period),
        (44, KeyCode::Slash),
        (42, KeyCode::Backslash),
        (82, KeyCode::Numpad0),
        (83, KeyCode::Numpad1),
        (84, KeyCode::Numpad2),
        (85, KeyCode::Numpad3),
        (86, KeyCode::Numpad4),
        (87, KeyCode::Numpad5),
        (88, KeyCode::Numpad6),
        (89, KeyCode::Numpad7),
        (91, KeyCode::Numpad8),
        (92, KeyCode::Numpad9),
        (65, KeyCode::NumpadComma),
        (67, KeyCode::Multiply),
        (69, KeyCode::Add),
        (75, KeyCode::Divide),
        (78, KeyCode::Minus),
        (81, KeyCode::NumpadEquals),
        (76, KeyCode::NumpadEnter),
        (49, KeyCode::Space),
        (36, KeyCode::Enter),
        (48, KeyCode::Tab),
        (51, KeyCode::Backspace),
        (117, KeyCode::Delete),
        (53, KeyCode::Escape),
        (55, KeyCode::LWin),
        (56, KeyCode::LShift),
        (57, KeyCode::Capital),
        (58, KeyCode::LAlt),
        (59, KeyCode::LControl),
        (60, KeyCode::RShift),
        (61, KeyCode::RAlt),
        (62, KeyCode::RControl),
        (122, KeyCode::F1),
        (120, KeyCode::F2),
        (99, KeyCode::F3),
        (118, KeyCode::F4),
        (96, KeyCode::F5),
        (97, KeyCode::F6),
        (98, KeyCode::F7),
        (100, KeyCode::F8),
        (101, KeyCode::F9),
        (109, KeyCode::F10),
        (103, KeyCode::F11),
        (111, KeyCode::F12),
        (105, KeyCode::F13),
        (107, KeyCode::F14),
        (113, KeyCode::F15),
        (106, KeyCode::F16),
        (64, KeyCode::F17),
        (79, KeyCode::F18),
        (80, KeyCode::F19),
        (90, KeyCode::F20),
        (72, KeyCode::VolumeUp),
        (73, KeyCode::VolumeDown),
        (74, KeyCode::Mute),
        (114, KeyCode::Insert),
        (115, KeyCode::Home),
        (119, KeyCode::End),
        (116, KeyCode::PageUp),
        (121, KeyCode::PageDown),
        (123, KeyCode::Left),
        (124, KeyCode::Right),
        (125, KeyCode::Down),
        (126, KeyCode::Up),
    ]
}

fn state(shift: bool, control: bool, alt: bool, logo: bool) -> ModifiersState {
    ModifiersState { shift, control, alt, logo }
}

#[test]
fn every_listed_code_gives_its_key() {
    for (code, key) in key_table() {
        assert_eq!(KeyCode::from_native(code), Some(key), "code {}", code);
    }
}

#[test]
fn every_other_code_gives_no_key() {
    let listed: Vec<u16> = key_table().into_iter().map(|(code, _)| code).collect();
    for code in 0..=u16::MAX {
        if !listed.contains(&code) {
            assert_eq!(KeyCode::from_native(code), None, "code {}", code);
        }
    }
}

#[test]
fn exactly_one_hundred_and_ten_codes_are_known() {
    let known = (0..=u16::MAX).filter(|&code| KeyCode::from_native(code).is_some()).count();
    assert_eq!(known, 110);
}

#[test]
fn gaps_in_the_table_are_unrecognized() {
    for code in [10u16, 52, 54, 63, 66, 68, 70, 71, 77, 93, 94, 95, 102, 104, 108, 110, 112] {
        assert_eq!(KeyCode::from_native(code), None, "code {}", code);
    }
}

#[test]
fn codes_above_the_table_are_unrecognized() {
    assert_eq!(KeyCode::from_native(126), Some(KeyCode::Up));
    assert_eq!(KeyCode::from_native(127), None);
    assert_eq!(KeyCode::from_native(128), None);
    assert_eq!(KeyCode::from_native(256), None);
    assert_eq!(KeyCode::from_native(256 + 29), None);
    assert_eq!(KeyCode::from_native(u16::MAX), None);
}

#[test]
fn both_minus_keys_are_minus() {
    assert_eq!(KeyCode::from_native(27), Some(KeyCode::Minus));
    assert_eq!(KeyCode::from_native(78), Some(KeyCode::Minus));
}

#[test]
fn only_minus_has_two_codes() {
    let table = key_table();
    for (a, key_a) in &table {
        for (b, key_b) in &table {
            if a != b && key_a == key_b {
                assert_eq!(*key_a, KeyCode::Minus);
                assert!((*a == 27 && *b == 78) || (*a == 78 && *b == 27));
            }
        }
    }
}

#[test]
fn key_translation_is_repeatable() {
    for code in 0..=u16::MAX {
        assert_eq!(KeyCode::from_native(code), KeyCode::from_native(code));
    }
}

#[test]
fn digits_follow_the_key_layout() {
    assert_eq!(KeyCode::from_native(29), Some(KeyCode::Key0));
    assert_eq!(KeyCode::from_native(18), Some(KeyCode::Key1));
    assert_eq!(KeyCode::from_native(23), Some(KeyCode::Key5));
    assert_eq!(KeyCode::from_native(22), Some(KeyCode::Key6));
    assert_eq!(KeyCode::from_native(25), Some(KeyCode::Key9));
}

#[test]
fn keypad_digits_skip_code_ninety() {
    assert_eq!(KeyCode::from_native(89), Some(KeyCode::Numpad7));
    assert_eq!(KeyCode::from_native(90), Some(KeyCode::F20));
    assert_eq!(KeyCode::from_native(91), Some(KeyCode::Numpad8));
    assert_eq!(KeyCode::from_native(92), Some(KeyCode::Numpad9));
}

#[test]
fn modifier_masks_are_bits_seventeen_to_twenty() {
    assert_eq!(SHIFT_KEY_MASK, 1 << 17);
    assert_eq!(CONTROL_KEY_MASK, 1 << 18);
    assert_eq!(ALTERNATE_KEY_MASK, 1 << 19);
    assert_eq!(COMMAND_KEY_MASK, 1 << 20);
}

#[test]
fn no_flags_no_modifiers() {
    assert_eq!(ModifiersState::from_flags(0), state(false, false, false, false));
}

#[test]
fn each_mask_sets_its_modifier() {
    assert_eq!(ModifiersState::from_flags(SHIFT_KEY_MASK), state(true, false, false, false));
    assert_eq!(ModifiersState::from_flags(CONTROL_KEY_MASK), state(false, true, false, false));
    assert_eq!(ModifiersState::from_flags(ALTERNATE_KEY_MASK), state(false, false, true, false));
    assert_eq!(ModifiersState::from_flags(COMMAND_KEY_MASK), state(false, false, false, true));
}

#[test]
fn all_sixteen_combinations_of_modifiers() {
    for bits in 0u64..16 {
        let flags = bits << 17;
        let expected = state(bits & 1 != 0, bits & 2 != 0, bits & 4 != 0, bits & 8 != 0);
        assert_eq!(ModifiersState::from_flags(flags), expected, "flags {:#x}", flags);
    }
}

#[test]
fn other_flag_bits_do_not_count() {
    // Caps lock (bit 16), numeric pad (21), help (22), function (23) and the
    // device-dependent low bits.
    let noise: u64 = (1 << 16) | (1 << 21) | (1 << 22) | (1 << 23) | 0xffff;
    assert_eq!(ModifiersState::from_flags(noise), state(false, false, false, false));
    assert_eq!(
        ModifiersState::from_flags(noise | SHIFT_KEY_MASK | COMMAND_KEY_MASK),
        state(true, false, false, true)
    );
    assert_eq!(ModifiersState::from_flags(u64::MAX), state(true, true, true, true));
    assert_eq!(
        ModifiersState::from_flags(u64::MAX & !CONTROL_KEY_MASK),
        state(true, false, true, true)
    );
}

#[test]
fn modifier_flags_as_a_key_press_reports_them() {
    // What the system reports for shift held on a laptop keyboard.
    assert_eq!(ModifiersState::from_flags(0x20102), state(true, false, false, false));
    // Command and option.
    assert_eq!(ModifiersState::from_flags(0x180128), state(false, false, true, true));
}
