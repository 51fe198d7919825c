use omnispeed::input::{
    build_sequence, is_extended_key, parse_key, KeyCombo, VK_CONTROL, VK_F1, VK_LCONTROL, VK_LMENU,
    VK_LWIN, VK_RCONTROL, VK_RETURN, VK_RMENU, VK_RSHIFT, VK_RWIN, VK_SPACE, VK_UP,
};

const VK_OEM_PLUS: u16 = 0xBB;
const VK_OEM_COMMA: u16 = 0xBC;
const VK_OEM_PERIOD: u16 = 0xBE;
const VK_OEM_4: u16 = 0xDB;
const VK_OEM_6: u16 = 0xDD;
const VK_F5: u16 = 0x74;
const VK_F12: u16 = 0x7B;

/// `VkKeyScanW` on the US layout for the characters these tests use.
fn us_layout(unit: u16) -> i16 {
    match char::from_u32(u32::from(unit)) {
        Some(']') => 0xDD,
        Some('[') => 0xDB,
        Some('=') => 0xBB,
        Some('+') => 0x1BB,
        Some('.') => 0xBE,
        Some(',') => 0xBC,
        _ => -1,
    }
}

fn parse(s: &str) -> Option<KeyCombo> {
    parse_key(s, us_layout)
}

fn combo(ctrl: bool, alt: bool, shift: bool, vk: u16) -> KeyCombo {
    KeyCombo { ctrl, alt, shift, vk }
}

#[test]
fn parses_printable_chars() {
    assert_eq!(parse("]"), Some(combo(false, false, false, VK_OEM_6)));
    assert_eq!(parse("["), Some(combo(false, false, false, VK_OEM_4)));
    assert_eq!(parse("="), Some(combo(false, false, false, VK_OEM_PLUS)));
    assert_eq!(parse("+"), Some(combo(false, false, true, VK_OEM_PLUS)));
}

#[test]
fn parses_letters_and_digits() {
    assert_eq!(parse("j"), Some(combo(false, false, false, u16::from(b'J'))));
    assert_eq!(parse("J"), Some(combo(false, false, false, u16::from(b'J'))));
    assert_eq!(parse("5"), Some(combo(false, false, false, u16::from(b'5'))));
    assert_eq!(parse("0"), Some(combo(false, false, false, u16::from(b'0'))));
}

#[test]
fn parses_named_keys() {
    assert_eq!(parse("Space"), Some(combo(false, false, false, VK_SPACE)));
    assert_eq!(parse("space"), Some(combo(false, false, false, VK_SPACE)));
    assert_eq!(parse("Up"), Some(combo(false, false, false, VK_UP)));
    assert_eq!(parse("Enter"), Some(combo(false, false, false, VK_RETURN)));
}

#[test]
fn parses_function_keys() {
    assert_eq!(parse("F5"), Some(combo(false, false, false, VK_F5)));
    assert_eq!(parse("f12"), Some(combo(false, false, false, VK_F12)));
    assert_eq!(parse("F1"), Some(combo(false, false, false, VK_F1)));
}

#[test]
fn parses_modifier_prefixes() {
    assert_eq!(parse("Ctrl+Up"), Some(combo(true, false, false, VK_UP)));
    assert_eq!(parse("ctrl+alt+z"), Some(combo(true, true, false, u16::from(b'Z'))));
    assert_eq!(parse("Shift+."), Some(combo(false, false, true, VK_OEM_PERIOD)));
    assert_eq!(parse("Ctrl++"), Some(combo(true, false, true, VK_OEM_PLUS)));
}

#[test]
fn rejects_invalid_input() {
    for bad in ["", "   ", "Foo", "F99", "F0", "Ctrl+", "Ctrl", "Win+X", "Meta+Up", "①"] {
        assert_eq!(parse(bad), None, "should be refused: {bad:?}");
    }
}

fn comma() -> KeyCombo {
    combo(false, false, false, VK_OEM_COMMA)
}

#[test]
fn sends_plain_combo_when_nothing_held() {
    assert_eq!(build_sequence(&vec![], comma()), vec![(VK_OEM_COMMA, false), (VK_OEM_COMMA, true)]);
}

#[test]
fn neutralizes_and_restores_held_ctrl_alt() {
    let held = vec![VK_LMENU, VK_LCONTROL];
    assert_eq!(
        build_sequence(&held, comma()),
        vec![
            (VK_LMENU, true),
            (VK_LCONTROL, true),
            (VK_OEM_COMMA, false),
            (VK_OEM_COMMA, true),
            (VK_LCONTROL, false),
            (VK_LMENU, false),
        ]
    );
}

#[test]
fn keeps_combo_own_modifiers() {
    let seq = build_sequence(&vec![VK_LCONTROL], combo(true, false, false, VK_UP));
    assert_eq!(
        seq,
        vec![
            (VK_LCONTROL, true),
            (VK_CONTROL, false),
            (VK_UP, false),
            (VK_UP, true),
            (VK_CONTROL, true),
            (VK_LCONTROL, false),
        ]
    );
}

#[test]
fn masks_lone_alt_or_win_release_with_ctrl() {
    for lone in [VK_LMENU, VK_RMENU, VK_LWIN, VK_RWIN] {
        let seq = build_sequence(&vec![lone], comma());
        assert_eq!(&seq[..3], &[(VK_LCONTROL, false), (lone, true), (VK_LCONTROL, true)], "vk={lone:#x}");
        assert_eq!(seq.last(), Some(&(lone, false)), "vk={lone:#x} restored");
    }
}

#[test]
fn skips_mask_when_ctrl_already_held() {
    let seq = build_sequence(&vec![VK_LMENU, VK_RCONTROL], comma());
    assert_eq!(seq[0], (VK_LMENU, true));
    assert_eq!(seq[1], (VK_RCONTROL, true));
}

#[test]
fn skips_mask_for_lone_shift() {
    let seq = build_sequence(&vec![VK_RSHIFT], comma());
    assert!(!seq.iter().any(|&(vk, _)| vk == VK_LCONTROL), "no Ctrl mask for Shift: {seq:?}");
    assert_eq!(seq[0], (VK_RSHIFT, true));
}

#[test]
fn send_restores_every_held_key_in_reverse() {
    let held = vec![VK_RSHIFT, VK_LMENU, VK_RCONTROL];
    let seq = build_sequence(&held, combo(false, true, false, VK_OEM_PERIOD));
    let n = seq.len();
    assert_eq!(&seq[n - 3..], &[(VK_RCONTROL, false), (VK_LMENU, false), (VK_RSHIFT, false)]);
    assert_eq!(&seq[..3], &[(VK_RSHIFT, true), (VK_LMENU, true), (VK_RCONTROL, true)]);
}

#[test]
fn extended_keys_are_the_navigation_block() {
    assert!(is_extended_key(VK_UP));
    assert!(is_extended_key(VK_RCONTROL));
    assert!(!is_extended_key(VK_LCONTROL));
    assert!(!is_extended_key(VK_OEM_COMMA));
    assert!(!is_extended_key(VK_SPACE));
}

#[test]
fn layout_state_joins_prefix_modifiers() {
    let shifted = |_: u16| 0x2BE_i16;
    assert_eq!(parse_key("Alt+.", shifted), Some(combo(true, true, false, VK_OEM_PERIOD)));
    assert_eq!(parse_key("x", |_| -1), Some(combo(false, false, false, u16::from(b'X'))));
    assert_eq!(parse_key("F24", |_| -1), Some(combo(false, false, false, VK_F1 + 23)));
    assert_eq!(parse_key("F25", |_| -1), None);
}
