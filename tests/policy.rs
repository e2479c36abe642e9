use winkeylock::keys::{VK_LWIN, VK_RWIN};
use winkeylock::{KeyCombo, KeyConfig, ParseError};

fn combos(list: &[&str]) -> Vec<KeyCombo> {
    list.iter().map(|s| KeyCombo::from_string(s).unwrap()).collect()
}

fn config(black: &[&str], white: &[&str]) -> KeyConfig {
    KeyConfig { blacklist: combos(black), whitelist: combos(white) }
}

#[test]
fn whitelist_overrides_blacklist() {
    let c = config(&["ctrl+c", "shift+lwin+s"], &["shift+lwin+s"]);
    assert!(!c.should_block(0x53, true, false, false, true));
    assert!(c.should_block(0x43, false, true, false, false));
}

#[test]
fn nothing_matching_is_allowed() {
    let c = config(&["ctrl+c"], &["ctrl+v"]);
    assert!(!c.should_block(0x41, false, false, false, false));
    assert!(!c.should_block(0x43, false, true, true, false));
    let empty = config(&[], &[]);
    assert!(!empty.should_block(VK_LWIN, false, false, false, true));
}

#[test]
fn bare_meta_blacklist_blocks_only_the_bare_key() {
    let c = config(&["lwin"], &[]);
    assert!(c.should_block(VK_LWIN, false, false, false, true));
    assert!(!c.should_block(0x45, false, false, false, true));
    assert!(!c.should_block(0x44, true, false, false, true));
    assert!(!c.should_block(VK_LWIN, true, false, false, true));
}

#[test]
fn default_blocks_both_bare_meta_keys() {
    let c = KeyConfig::default();
    assert_eq!(c.blacklist.len(), 2);
    assert!(c.whitelist.is_empty());
    assert!(c.should_block(VK_LWIN, false, false, false, true));
    assert!(c.should_block(VK_RWIN, false, false, false, true));
    assert!(!c.should_block(0x45, false, false, false, true));
    assert_eq!(c.blacklist[0].string_repr, "lwin");
    assert_eq!(c.blacklist[1].string_repr, "rwin");
    assert_eq!(c.blacklist[0], KeyCombo::from_string("lwin").unwrap());
}

#[test]
fn from_lists_parses_both_lists() {
    let black = vec!["lwin".to_string(), "rwin".to_string()];
    let white = vec!["shift+lwin+s".to_string()];
    let c = KeyConfig::from_lists(&black, &white).unwrap();
    assert_eq!(c.blacklist.len(), 2);
    assert_eq!(c.whitelist[0].string_repr, "shift+lwin+s");
    assert!(!c.should_block(0x53, true, false, false, true));
}

#[test]
fn from_lists_reports_the_first_error() {
    let black = vec!["lwin".to_string(), "ctrl".to_string(), "a+b".to_string()];
    let white = vec!["foo".to_string()];
    assert_eq!(KeyConfig::from_lists(&black, &white).unwrap_err(), ParseError::NoKey);
    let black = vec!["lwin".to_string()];
    assert_eq!(KeyConfig::from_lists(&black, &white).unwrap_err(), ParseError::UnknownKey);
    let white = vec![String::new()];
    assert_eq!(KeyConfig::from_lists(&black, &white).unwrap_err(), ParseError::Empty);
}
