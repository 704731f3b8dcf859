//! Decisions of a polling transport, which reads raw bus messages itself
//! instead of subscribing to signals: which messages are updates for this
//! input context, and which key parameters stand for a typed key name.

use vstd::prelude::*;
use crate::keymap::PLACEHOLDER_KEYCODE;

verus! {

/// The D-Bus interface of an input context.
pub open spec fn input_context_interface() -> Seq<char> {
    "org.fcitx.Fcitx.InputContext1"@
}

/// The two signals of an input context that carry updates.
#[derive(Clone, Copy, Debug, PartialEq, Eq, Structural)]
pub enum SignalKind {
    /// `CommitString`: finalized text.
    CommitString,
    /// `UpdateFormattedPreedit`: the preedit, as formatted segments.
    UpdateFormattedPreedit,
}

/// Whether two strings hold the same characters.
pub fn same_text(a: &str, b: &str) -> (r: bool)
    ensures
        r == (a@ == b@),
{
    let n = a.unicode_len();
    if n != b.unicode_len() {
        return false;
    }
    let mut i: usize = 0;
    while i < n
        invariant
            n == a@.len(),
            n == b@.len(),
            i <= n,
            forall|j: int| 0 <= j < i ==> a@[j] == b@[j],
        decreases n - i,
    {
        if a.get_char(i) != b.get_char(i) {
            return false;
        }
        i = i + 1;
    }
    assert(a@ =~= b@);
    true
}

/// The update signal that a message is, if any: a signal from this input
/// context's path, on the input-context interface, named `CommitString` or
/// `UpdateFormattedPreedit`.
pub open spec fn signal_kind_of(interface: Seq<char>, member: Seq<char>, from_our_context: bool) -> Option<SignalKind> {
    if !from_our_context || interface != input_context_interface() {
        None
    } else if member == "CommitString"@ {
        Some(SignalKind::CommitString)
    } else if member == "UpdateFormattedPreedit"@ {
        Some(SignalKind::UpdateFormattedPreedit)
    } else {
        None
    }
}

/// Sorts a received message by its interface, its member and whether its
/// path is that of this input context.
pub fn update_signal_kind(interface: &str, member: &str, from_our_context: bool) -> (r: Option<SignalKind>)
    ensures
        r == signal_kind_of(interface@, member@, from_our_context),
{
    if !from_our_context || !same_text(interface, "org.fcitx.Fcitx.InputContext1") {
        None
    } else if same_text(member, "CommitString") {
        Some(SignalKind::CommitString)
    } else if same_text(member, "UpdateFormattedPreedit") {
        Some(SignalKind::UpdateFormattedPreedit)
    } else {
        None
    }
}

/// The `(keysym, keycode, state)` for a key given as text: a few names with
/// fixed keysyms and states, then any single ASCII character as its own
/// keysym. The keycode is always the placeholder.
pub open spec fn text_key_params(s: Seq<char>) -> Option<(u32, u32, u32)> {
    if s == "a"@ {
        Some((0x61, PLACEHOLDER_KEYCODE, 0))
    } else if s == "A"@ {
        Some((0x41, PLACEHOLDER_KEYCODE, 1))
    } else if s == "\n"@ || s == "\r"@ || s == "Enter"@ {
        Some((0xff0d, PLACEHOLDER_KEYCODE, 0))
    } else if s == "Backspace"@ {
        Some((0xff08, PLACEHOLDER_KEYCODE, 0))
    } else if s.len() == 1 && (s[0] as u32) < 0x80 {
        Some((s[0] as u32, PLACEHOLDER_KEYCODE, 0))
    } else {
        None
    }
}

/// The key parameters for a key given as text; `None` for text that is not
/// forwarded.
pub fn key_params_for_text(key_input: &str) -> (r: Option<(u32, u32, u32)>)
    ensures
        r == text_key_params(key_input@),
{
    if same_text(key_input, "a") {
        Some((0x61, PLACEHOLDER_KEYCODE, 0))
    } else if same_text(key_input, "A") {
        Some((0x41, PLACEHOLDER_KEYCODE, 1))
    } else if same_text(key_input, "\n") || same_text(key_input, "\r") || same_text(
        key_input,
        "Enter",
    ) {
        Some((0xff0d, PLACEHOLDER_KEYCODE, 0))
    } else if same_text(key_input, "Backspace") {
        Some((0xff08, PLACEHOLDER_KEYCODE, 0))
    } else if key_input.unicode_len() == 1 && (key_input.get_char(0) as u32) < 0x80 {
        Some((key_input.get_char(0) as u32, PLACEHOLDER_KEYCODE, 0))
    } else {
        None
    }
}

} // verus!
