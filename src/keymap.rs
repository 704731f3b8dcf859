//! Translation of terminal key presses into the input-method wire vocabulary
//! (keysym, keycode, modifier state).

use vstd::prelude::*;

verus! {

/// Keysym of the Backspace key.
pub const XK_BACKSPACE: u32 = 0xff08;
/// Keysym of the Tab key.
pub const XK_TAB: u32 = 0xff09;
/// Keysym of the Return (Enter) key.
pub const XK_RETURN: u32 = 0xff0d;
/// Keysym of the Escape key.
pub const XK_ESCAPE: u32 = 0xff1b;
/// Keysym of the Left arrow.
pub const XK_LEFT: u32 = 0xff51;
/// Keysym of the Up arrow.
pub const XK_UP: u32 = 0xff52;
/// Keysym of the Right arrow.
pub const XK_RIGHT: u32 = 0xff53;
/// Keysym of the Down arrow.
pub const XK_DOWN: u32 = 0xff54;
/// Keysym of the Delete key.
pub const XK_DELETE: u32 = 0xffff;

/// State bit for Shift.
pub const SHIFT_MASK: u32 = 1;
/// State bit for Control.
pub const CONTROL_MASK: u32 = 4;
/// State bit for Alt (Mod1).
pub const MOD1_MASK: u32 = 8;

/// Keycode sent with every key: the engine resolves keys from keysym and state.
pub const PLACEHOLDER_KEYCODE: u32 = 0;

/// The key of a terminal key event.
#[derive(Clone, Copy, Debug, PartialEq, Eq, Structural)]
pub enum KeyCode {
    Backspace,
    Enter,
    Left,
    Right,
    Up,
    Down,
    Home,
    End,
    PageUp,
    PageDown,
    Tab,
    BackTab,
    Delete,
    Insert,
    F(u8),
    Char(char),
    Null,
    Esc,
    CapsLock,
    ScrollLock,
    NumLock,
    PrintScreen,
    Pause,
    Menu,
    KeypadBegin,
    Media,
    Modifier,
}

/// The modifier keys held during a key event, as a set of bits.
#[derive(Clone, Copy, Debug, PartialEq, Eq, Structural)]
pub struct KeyModifiers {
    pub bits: u8,
}

impl KeyModifiers {
    pub const SHIFT: u8 = 0b0000_0001;
    pub const CONTROL: u8 = 0b0000_0010;
    pub const ALT: u8 = 0b0000_0100;
    pub const SUPER: u8 = 0b0000_1000;
    pub const HYPER: u8 = 0b0001_0000;
    pub const META: u8 = 0b0010_0000;

    /// Whether every bit of `flag` is set.
    pub open spec fn has(self, flag: u8) -> bool {
        self.bits & flag == flag
    }

    pub fn from_bits(bits: u8) -> (r: KeyModifiers)
        ensures
            r.bits == bits,
    {
        KeyModifiers { bits }
    }

    pub fn contains(&self, flag: u8) -> (r: bool)
        ensures
            r == self.has(flag),
    {
        self.bits & flag == flag
    }
}

/// A key press read from the terminal.
#[derive(Clone, Copy, Debug, PartialEq, Eq, Structural)]
pub struct KeyEvent {
    pub code: KeyCode,
    pub modifiers: KeyModifiers,
}

impl KeyEvent {
    pub fn new(code: KeyCode, modifiers: KeyModifiers) -> (r: KeyEvent)
        ensures
            r.code == code,
            r.modifiers == modifiers,
    {
        KeyEvent { code, modifiers }
    }
}

/// The keysym of a key, or `None` for a key that is not forwarded.
/// A character is sent as its code point; for printable ASCII this is
/// also the legacy keysym of that character.
pub open spec fn keysym_of(code: KeyCode) -> Option<u32> {
    match code {
        KeyCode::Char(c) => Some(c as u32),
        KeyCode::Backspace => Some(XK_BACKSPACE),
        KeyCode::Enter => Some(XK_RETURN),
        KeyCode::Left => Some(XK_LEFT),
        KeyCode::Right => Some(XK_RIGHT),
        KeyCode::Up => Some(XK_UP),
        KeyCode::Down => Some(XK_DOWN),
        KeyCode::Tab => Some(XK_TAB),
        KeyCode::Delete => Some(XK_DELETE),
        KeyCode::Esc => Some(XK_ESCAPE),
        _ => None,
    }
}

/// The state mask of a set of modifiers: one bit each for Shift, Control
/// and Alt; other modifiers are ignored.
pub open spec fn state_mask(m: KeyModifiers) -> u32 {
    (if m.has(KeyModifiers::SHIFT) { SHIFT_MASK } else { 0u32 })
        | (if m.has(KeyModifiers::CONTROL) { CONTROL_MASK } else { 0u32 })
        | (if m.has(KeyModifiers::ALT) { MOD1_MASK } else { 0u32 })
}

/// What a key event is sent as: `(keysym, keycode, state)`, or `None`.
pub open spec fn mapped_key(e: KeyEvent) -> Option<(u32, u32, u32)> {
    match keysym_of(e.code) {
        Some(sym) => Some((sym, PLACEHOLDER_KEYCODE, state_mask(e.modifiers))),
        None => None,
    }
}

/// Maps a terminal key event to the `(keysym, keycode, state)` triple that
/// the input method expects; `None` means the key is not forwarded.
pub fn map_key_event_to_fcitx(key_event: &KeyEvent) -> (r: Option<(u32, u32, u32)>)
    ensures
        r == mapped_key(*key_event),
{
    let shift: u32 = if key_event.modifiers.contains(KeyModifiers::SHIFT) {
        SHIFT_MASK
    } else {
        0
    };
    let control: u32 = if key_event.modifiers.contains(KeyModifiers::CONTROL) {
        CONTROL_MASK
    } else {
        0
    };
    let alt: u32 = if key_event.modifiers.contains(KeyModifiers::ALT) {
        MOD1_MASK
    } else {
        0
    };
    let state: u32 = shift | control | alt;
    let keysym: u32 = match key_event.code {
        KeyCode::Char(c) => c as u32,
        KeyCode::Backspace => XK_BACKSPACE,
        KeyCode::Enter => XK_RETURN,
        KeyCode::Left => XK_LEFT,
        KeyCode::Right => XK_RIGHT,
        KeyCode::Up => XK_UP,
        KeyCode::Down => XK_DOWN,
        KeyCode::Tab => XK_TAB,
        KeyCode::Delete => XK_DELETE,
        KeyCode::Esc => XK_ESCAPE,
        _ => {
            return None;
        },
    };
    Some((keysym, PLACEHOLDER_KEYCODE, state))
}

/// The legacy keysym table for characters: space, the ASCII digits and
/// letters and the ASCII punctuation ranges, each with its ASCII value.
pub open spec fn legacy_keysym(c: char) -> Option<u32> {
    let v = c as u32;
    if v == 0x20 || (0x21 <= v <= 0x2f) || (0x30 <= v <= 0x39) || (0x3a <= v <= 0x40) || (0x41
        <= v <= 0x5a) || (0x5b <= v <= 0x60) || (0x61 <= v <= 0x7a) || (0x7b <= v <= 0x7e) {
        Some(v)
    } else {
        None
    }
}

/// The named keys that are forwarded.
pub open spec fn is_supported_named_key(code: KeyCode) -> bool {
    ||| code is Backspace
    ||| code is Enter
    ||| code is Tab
    ||| code is Esc
    ||| code is Delete
    ||| code is Left
    ||| code is Right
    ||| code is Up
    ||| code is Down
}

/// A character key is always forwarded, with the placeholder keycode and the
/// modifiers' state mask. Its keysym is the legacy keysym where the table has
/// one, and the code point otherwise; every printable ASCII character is in
/// the table.
pub proof fn lemma_char_keysym(c: char, m: KeyModifiers)
    ensures
        mapped_key(KeyEvent { code: KeyCode::Char(c), modifiers: m }) == Some(
            (
                match legacy_keysym(c) {
                    Some(sym) => sym,
                    None => c as u32,
                },
                PLACEHOLDER_KEYCODE,
                state_mask(m),
            ),
        ),
        0x20 <= c as u32 <= 0x7e ==> legacy_keysym(c) is Some,
{
}

/// A named key outside the supported set (function keys, Home, End, Page
/// Up/Down, Insert, ...) is not forwarded.
pub proof fn lemma_unsupported_key_unmapped(e: KeyEvent)
    requires
        !(e.code is Char),
        !is_supported_named_key(e.code),
    ensures
        mapped_key(e) is None,
{
}

} // verus!
