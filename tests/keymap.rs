use fcitx_fep::keymap::{
    map_key_event_to_fcitx, KeyCode, KeyEvent, KeyModifiers, XK_BACKSPACE, XK_DELETE, XK_DOWN,
    XK_ESCAPE, XK_LEFT, XK_RETURN, XK_RIGHT, XK_TAB, XK_UP,
};

fn key(code: KeyCode, bits: u8) -> KeyEvent {
    KeyEvent::new(code, KeyModifiers::from_bits(bits))
}

#[test]
fn printable_ascii_maps_to_its_legacy_keysym() {
    for v in 0x20u32..=0x7e {
        let c = char::from_u32(v).unwrap();
        assert_eq!(map_key_event_to_fcitx(&key(KeyCode::Char(c), 0)), Some((v, 0, 0)));
    }
}

#[test]
fn legacy_table_samples() {
    assert_eq!(map_key_event_to_fcitx(&key(KeyCode::Char(' '), 0)), Some((0x20, 0, 0)));
    assert_eq!(map_key_event_to_fcitx(&key(KeyCode::Char('!'), 0)), Some((0x21, 0, 0)));
    assert_eq!(map_key_event_to_fcitx(&key(KeyCode::Char('0'), 0)), Some((0x30, 0, 0)));
    assert_eq!(map_key_event_to_fcitx(&key(KeyCode::Char('@'), 0)), Some((0x40, 0, 0)));
    assert_eq!(map_key_event_to_fcitx(&key(KeyCode::Char('Z'), 0)), Some((0x5a, 0, 0)));
    assert_eq!(map_key_event_to_fcitx(&key(KeyCode::Char('`'), 0)), Some((0x60, 0, 0)));
    assert_eq!(map_key_event_to_fcitx(&key(KeyCode::Char('a'), 0)), Some((0x61, 0, 0)));
    assert_eq!(map_key_event_to_fcitx(&key(KeyCode::Char('~'), 0)), Some((0x7e, 0, 0)));
}

#[test]
fn non_ascii_character_passes_its_code_point() {
    assert_eq!(map_key_event_to_fcitx(&key(KeyCode::Char('あ'), 0)), Some((0x3042, 0, 0)));
    assert_eq!(map_key_event_to_fcitx(&key(KeyCode::Char('é'), 0)), Some((0xe9, 0, 0)));
}

#[test]
fn named_keys_map_to_their_keysyms() {
    let cases = [
        (KeyCode::Backspace, XK_BACKSPACE, 0xff08),
        (KeyCode::Tab, XK_TAB, 0xff09),
        (KeyCode::Enter, XK_RETURN, 0xff0d),
        (KeyCode::Esc, XK_ESCAPE, 0xff1b),
        (KeyCode::Left, XK_LEFT, 0xff51),
        (KeyCode::Up, XK_UP, 0xff52),
        (KeyCode::Right, XK_RIGHT, 0xff53),
        (KeyCode::Down, XK_DOWN, 0xff54),
        (KeyCode::Delete, XK_DELETE, 0xffff),
    ];
    for (code, sym, value) in cases {
        assert_eq!(sym, value);
        assert_eq!(map_key_event_to_fcitx(&key(code, 0)), Some((value, 0, 0)));
    }
}

#[test]
fn unsupported_named_keys_are_not_forwarded() {
    let codes = [
        KeyCode::Home,
        KeyCode::End,
        KeyCode::PageUp,
        KeyCode::PageDown,
        KeyCode::Insert,
        KeyCode::BackTab,
        KeyCode::F(1),
        KeyCode::F(12),
        KeyCode::Null,
        KeyCode::CapsLock,
        KeyCode::ScrollLock,
        KeyCode::NumLock,
        KeyCode::PrintScreen,
        KeyCode::Pause,
        KeyCode::Menu,
        KeyCode::KeypadBegin,
        KeyCode::Media,
        KeyCode::Modifier,
    ];
    for code in codes {
        assert_eq!(map_key_event_to_fcitx(&key(code, KeyModifiers::SHIFT)), None);
    }
}

#[test]
fn modifiers_set_independent_bits() {
    let shift = KeyModifiers::SHIFT;
    let ctrl = KeyModifiers::CONTROL;
    let alt = KeyModifiers::ALT;
    assert_eq!(map_key_event_to_fcitx(&key(KeyCode::Char('A'), shift)), Some((0x41, 0, 1)));
    assert_eq!(map_key_event_to_fcitx(&key(KeyCode::Char('x'), ctrl)), Some((0x78, 0, 4)));
    assert_eq!(map_key_event_to_fcitx(&key(KeyCode::Char('x'), alt)), Some((0x78, 0, 8)));
    assert_eq!(
        map_key_event_to_fcitx(&key(KeyCode::Enter, shift | ctrl | alt)),
        Some((0xff0d, 0, 13))
    );
    assert_eq!(map_key_event_to_fcitx(&key(KeyCode::Left, ctrl | alt)), Some((0xff51, 0, 12)));
}

#[test]
fn unsupported_modifiers_are_ignored() {
    let others = KeyModifiers::SUPER | KeyModifiers::HYPER | KeyModifiers::META;
    assert_eq!(map_key_event_to_fcitx(&key(KeyCode::Char('q'), others)), Some((0x71, 0, 0)));
    assert_eq!(
        map_key_event_to_fcitx(&key(KeyCode::Char('q'), others | KeyModifiers::SHIFT)),
        Some((0x71, 0, 1))
    );
}

#[test]
fn contains_tests_every_bit_of_the_flag() {
    let m = KeyModifiers::from_bits(KeyModifiers::SHIFT | KeyModifiers::ALT);
    assert!(m.contains(KeyModifiers::SHIFT));
    assert!(m.contains(KeyModifiers::ALT));
    assert!(!m.contains(KeyModifiers::CONTROL));
    assert!(!m.contains(KeyModifiers::SHIFT | KeyModifiers::CONTROL));
    assert!(m.contains(0));
}
