use winkeylock::keys::VK_LWIN;
use winkeylock::wide_string::ToWide;
use winkeylock::{ConfigUI, KeyConfig, Message, ParseError, UiEffect};

fn editor() -> ConfigUI {
    ConfigUI::new(KeyConfig { blacklist: vec![], whitelist: vec![] })
}

#[test]
fn adding_a_trimmed_entry() {
    let mut ui = editor();
    assert_eq!(ui.update(Message::BlacklistKeyInput("  LWin  ".to_string())), UiEffect::Nothing);
    assert_eq!(ui.update(Message::AddBlacklistKey), UiEffect::Nothing);
    assert_eq!(ui.config.blacklist.len(), 1);
    assert_eq!(ui.config.blacklist[0].string_repr, "LWin");
    assert_eq!(ui.config.blacklist[0].key, VK_LWIN);
    assert!(ui.blacklist_input.is_empty());
    assert_eq!(ui.error_message, None);
}

#[test]
fn adding_a_bad_entry_reports_the_error() {
    let mut ui = editor();
    ui.update(Message::WhitelistKeyInput("ctrl+shift".to_string()));
    ui.update(Message::AddWhitelistKey);
    assert_eq!(ui.error_message, Some(ParseError::NoKey));
    assert!(ui.config.whitelist.is_empty());
    assert_eq!(ui.whitelist_input, "ctrl+shift");
    ui.update(Message::ToggleHelp);
    assert_eq!(ui.error_message, None);
    assert!(ui.show_help);
}

#[test]
fn blank_input_adds_nothing() {
    let mut ui = editor();
    ui.update(Message::BlacklistKeyInput("   ".to_string()));
    ui.update(Message::AddBlacklistKey);
    assert!(ui.config.blacklist.is_empty());
    assert_eq!(ui.error_message, None);
}

#[test]
fn removing_entries() {
    let mut ui = ConfigUI::new(KeyConfig::default());
    ui.update(Message::RemoveBlacklistKey(5));
    assert_eq!(ui.config.blacklist.len(), 2);
    ui.update(Message::RemoveBlacklistKey(0));
    assert_eq!(ui.config.blacklist.len(), 1);
    assert_eq!(ui.config.blacklist[0].string_repr, "rwin");
    ui.update(Message::RemoveWhitelistKey(0));
    assert!(ui.config.whitelist.is_empty());
}

#[test]
fn closing_messages() {
    let mut ui = editor();
    assert_eq!(ui.update(Message::Save), UiEffect::SaveAndClose);
    assert_eq!(ui.update(Message::Cancel), UiEffect::Close);
    assert_eq!(ui.update(Message::Close), UiEffect::Exit);
    assert_eq!(ui.title(), "WinKeyLock Configuration");
}

#[test]
fn wide_forms() {
    assert_eq!("ab".to_wide().0, vec![0x61, 0x62, 0]);
    assert_eq!("é😀".to_string().to_wide().0, vec![0xE9, 0xD83D, 0xDE00, 0]);
    assert_eq!("".to_wide().0, vec![0]);
    assert_eq!("A€".to_wide_u8_vec(), vec![0x41, 0, 0xAC, 0x20, 0, 0]);
    let s: String = "ab".to_string();
    assert_eq!(s.to_wide_u8_vec(), "ab".encode_utf16().chain([0]).flat_map(|w| w.to_le_bytes()).collect::<Vec<u8>>());
}

#[test]
fn error_line_text() {
    let mut ui = editor();
    assert_eq!(ui.error_text(), None);
    ui.update(Message::BlacklistKeyInput("ctrl+nope".to_string()));
    ui.update(Message::AddBlacklistKey);
    assert_eq!(ui.error_text(), Some("Invalid key combination: Unknown key".to_string()));
}

#[test]
fn trimming_keeps_inner_text() {
    let mut ui = editor();
    ui.update(Message::WhitelistKeyInput("\t shift + lwin + s \u{3000}".to_string()));
    ui.update(Message::AddWhitelistKey);
    assert_eq!(ui.config.whitelist[0].string_repr, "shift + lwin + s");
    assert!(ui.config.whitelist[0].matches(0x53, true, false, false, true));
}
