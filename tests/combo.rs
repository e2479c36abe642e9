use winkeylock::keys::{VK_DELETE, VK_LWIN, VK_OEM_7, VK_RWIN};
use winkeylock::{KeyCombo, ParseError};

fn parse(s: &str) -> KeyCombo {
    KeyCombo::from_string(s).unwrap()
}

#[test]
fn modifier_order_does_not_matter() {
    let a = parse("ctrl+alt+del");
    let b = parse("alt+ctrl+del");
    assert_eq!(a, b);
    assert_eq!(a.key, VK_DELETE);
    assert!(a.ctrl && a.alt && !a.shift && !a.win);
}

#[test]
fn reparsing_the_text_gives_an_equal_combo() {
    for s in ["shift+lwin+s", "ctrl+alt+del", "lwin", "rwin", " Alt + F4 "] {
        let c = parse(s);
        let again = parse(&c.string_repr);
        assert_eq!(c, again);
        assert_eq!(c.string_repr, s);
    }
}

#[test]
fn tokens_are_trimmed_and_lower_cased() {
    let c = parse("  CTRL + Shift +a ");
    assert_eq!(c.key, 0x41);
    assert!(c.ctrl && c.shift && !c.alt && !c.win);
    assert_eq!(parse("control+quote").key, VK_OEM_7);
}

#[test]
fn bare_meta_keys_set_the_meta_flag() {
    let l = parse("lwin");
    assert_eq!((l.key, l.shift, l.ctrl, l.alt, l.win), (VK_LWIN, false, false, false, true));
    let s = parse("super");
    assert_eq!(s, l);
    let r = parse("RWin");
    assert_eq!((r.key, r.win), (VK_RWIN, true));
}

#[test]
fn meta_as_modifier_with_a_key() {
    let c = parse("super+e");
    assert_eq!(c.key, 0x45);
    assert!(c.win && !c.shift);
    assert_eq!(parse("rwin+e"), c);
}

#[test]
fn key_table_entries() {
    assert_eq!(parse("f1").key, 0x70);
    assert_eq!(parse("f24").key, 0x87);
    assert_eq!(parse("0").key, 0x30);
    assert_eq!(parse("9").key, 0x39);
    assert_eq!(parse("z").key, 0x5A);
    assert_eq!(parse("enter").key, parse("return").key);
    assert_eq!(parse("esc").key, 0x1B);
    assert_eq!(parse("pageup").key, 0x21);
    assert_eq!(parse("printscreen").key, 0x2C);
    assert_eq!(parse("backslash").key, 0xDC);
}

#[test]
fn empty_input_is_rejected() {
    assert_eq!(KeyCombo::from_string("").unwrap_err(), ParseError::Empty);
}

#[test]
fn modifiers_only_is_rejected() {
    assert_eq!(KeyCombo::from_string("ctrl+shift").unwrap_err(), ParseError::NoKey);
    assert_eq!(KeyCombo::from_string("shift").unwrap_err(), ParseError::NoKey);
    assert_eq!(KeyCombo::from_string("ctrl+lwin").unwrap_err(), ParseError::NoKey);
}

#[test]
fn two_keys_are_rejected() {
    assert_eq!(KeyCombo::from_string("a+b").unwrap_err(), ParseError::MultipleKeys);
    assert_eq!(KeyCombo::from_string("ctrl+foo+bar").unwrap_err(), ParseError::MultipleKeys);
}

#[test]
fn unknown_key_is_rejected() {
    assert_eq!(KeyCombo::from_string("ctrl+foo").unwrap_err(), ParseError::UnknownKey);
    assert_eq!(KeyCombo::from_string("   ").unwrap_err(), ParseError::UnknownKey);
}

#[test]
fn matches_is_exact() {
    let c = parse("shift+lwin+s");
    assert!(c.matches(0x53, true, false, false, true));
    assert!(!c.matches(0x53, true, false, false, false));
    assert!(!c.matches(0x53, true, true, false, true));
    assert!(!c.matches(0x54, true, false, false, true));
}

fn words(list: &[&str]) -> Vec<Vec<char>> {
    list.iter().map(|w| w.chars().collect()).collect()
}

#[test]
fn from_words_reads_normalized_tokens() {
    let c = KeyCombo::from_words(&words(&["ctrl", "alt", "del"]), "x".to_string()).unwrap();
    assert_eq!((c.key, c.shift, c.ctrl, c.alt, c.win), (VK_DELETE, false, true, true, false));
    assert_eq!(c.string_repr, "x");
    let c = KeyCombo::from_words(&words(&["control", "super", "e"]), String::new()).unwrap();
    assert_eq!((c.key, c.ctrl, c.win), (0x45, true, true));
    let bare = KeyCombo::from_words(&words(&["super"]), String::new()).unwrap();
    assert_eq!((bare.key, bare.win), (VK_LWIN, true));
}

#[test]
fn from_words_errors() {
    assert_eq!(KeyCombo::from_words(&words(&[]), String::new()).unwrap_err(), ParseError::NoKey);
    assert_eq!(KeyCombo::from_words(&words(&["shift", "alt"]), String::new()).unwrap_err(), ParseError::NoKey);
    assert_eq!(KeyCombo::from_words(&words(&["a", "shift", "b"]), String::new()).unwrap_err(), ParseError::MultipleKeys);
    assert_eq!(KeyCombo::from_words(&words(&["CTRL", "a"]), String::new()).unwrap_err(), ParseError::MultipleKeys);
    assert_eq!(KeyCombo::from_words(&words(&["Q"]), String::new()).unwrap_err(), ParseError::UnknownKey);
}

#[test]
fn error_messages() {
    assert_eq!(ParseError::Empty.message(), "Empty key combination");
    assert_eq!(ParseError::NoKey.message(), "No key specified");
    assert_eq!(ParseError::MultipleKeys.message(), "Multiple keys specified");
    assert_eq!(ParseError::UnknownKey.message(), "Unknown key");
}
