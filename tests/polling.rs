use fcitx_fep::polling::{key_params_for_text, same_text, update_signal_kind, SignalKind};

const IC: &str = "org.fcitx.Fcitx.InputContext1";

#[test]
fn signals_of_our_context_are_sorted_by_member() {
    assert_eq!(update_signal_kind(IC, "CommitString", true), Some(SignalKind::CommitString));
    assert_eq!(
        update_signal_kind(IC, "UpdateFormattedPreedit", true),
        Some(SignalKind::UpdateFormattedPreedit)
    );
    assert_eq!(update_signal_kind(IC, "DeleteSurroundingText", true), None);
}

#[test]
fn signals_from_elsewhere_are_skipped() {
    assert_eq!(update_signal_kind(IC, "CommitString", false), None);
    assert_eq!(update_signal_kind("org.fcitx.Fcitx.Controller1", "CommitString", true), None);
    assert_eq!(update_signal_kind("", "", true), None);
}

#[test]
fn named_text_keys_have_fixed_parameters() {
    assert_eq!(key_params_for_text("a"), Some((0x61, 0, 0)));
    assert_eq!(key_params_for_text("A"), Some((0x41, 0, 1)));
    assert_eq!(key_params_for_text("\n"), Some((0xff0d, 0, 0)));
    assert_eq!(key_params_for_text("\r"), Some((0xff0d, 0, 0)));
    assert_eq!(key_params_for_text("Enter"), Some((0xff0d, 0, 0)));
    assert_eq!(key_params_for_text("Backspace"), Some((0xff08, 0, 0)));
}

#[test]
fn single_ascii_text_is_its_own_keysym() {
    assert_eq!(key_params_for_text("b"), Some((0x62, 0, 0)));
    assert_eq!(key_params_for_text("~"), Some((0x7e, 0, 0)));
    assert_eq!(key_params_for_text(" "), Some((0x20, 0, 0)));
}

#[test]
fn other_text_is_not_forwarded() {
    assert_eq!(key_params_for_text(""), None);
    assert_eq!(key_params_for_text("ab"), None);
    assert_eq!(key_params_for_text("あ"), None);
    assert_eq!(key_params_for_text("Tab"), None);
}

#[test]
fn same_text_compares_characters() {
    assert!(same_text("", ""));
    assert!(same_text("かな", "かな"));
    assert!(!same_text("かな", "かに"));
    assert!(!same_text("a", "ab"));
}
