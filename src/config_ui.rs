//! The state of the policy editor and how each user message changes it.

use vstd::prelude::*;

use crate::combo::{error_text, parse_combo, KeyCombo, ParseError};
use crate::policy::KeyConfig;
use crate::text::{trim, trim_str};

verus! {

/// What the user did in the editor.
#[derive(Debug, Clone)]
pub enum Message {
    AddBlacklistKey,
    AddWhitelistKey,
    RemoveBlacklistKey(usize),
    RemoveWhitelistKey(usize),
    BlacklistKeyInput(String),
    WhitelistKeyInput(String),
    ToggleHelp,
    Save,
    Cancel,
    Close,
}

/// What the surrounding program does after a message.
#[derive(Debug, Clone, Copy, PartialEq, Eq, Structural)]
pub enum UiEffect {
    Nothing,
    /// Write the edited policy, then close the editor.
    SaveAndClose,
    /// Close the editor without saving.
    Close,
    /// Leave the process.
    Exit,
}

/// The editor: the policy being edited, the two input fields, the last
/// error and whether help is shown.
#[derive(Debug)]
pub struct ConfigUI {
    pub config: KeyConfig,
    pub blacklist_input: String,
    pub whitelist_input: String,
    pub error_message: Option<ParseError>,
    pub show_help: bool,
}

/// Adding the entry typed in `input` to `list`: an input that is blank once
/// trimmed changes nothing; one that parses is appended and the input
/// cleared; one that does not leaves both and reports the error.
pub open spec fn added(
    list: Seq<KeyCombo>,
    input: Seq<char>,
    list2: Seq<KeyCombo>,
    input2: Seq<char>,
    error: Option<ParseError>,
) -> bool {
    let t = trim(input);
    if t.len() == 0 {
        list2 == list && input2 == input && error is None
    } else {
        match parse_combo(t) {
            Ok(m) => list2.len() == list.len() + 1 && list2.subrange(0, list.len() as int) == list
                && list2.last().model() == m && list2.last().string_repr@ == t && input2.len() == 0
                && error is None,
            Err(e) => list2 == list && input2 == input && error == Some(e),
        }
    }
}

/// Removing the entry at `index` from `list`, when there is one.
pub open spec fn removed(list: Seq<KeyCombo>, index: usize, list2: Seq<KeyCombo>) -> bool {
    if index < list.len() {
        list2 == list.remove(index as int)
    } else {
        list2 == list
    }
}

/// Parses the trimmed `input` and appends it to `list` when it parses.
fn add_entry(list: &mut Vec<KeyCombo>, input: &mut String) -> (r: Option<ParseError>)
    ensures
        added(old(list)@, old(input)@, final(list)@, final(input)@, r),
{
    let trimmed = trim_str(input.as_str());
    if trimmed.unicode_len() == 0 {
        return None;
    }
    match KeyCombo::from_string(trimmed) {
        Ok(c) => {
            list.push(c);
            *input = String::new();
            proof {
                assert(final(list)@.subrange(0, old(list)@.len() as int) =~= old(list)@);
            }
            None
        },
        Err(e) => Some(e),
    }
}

impl ConfigUI {
    pub fn new(config: KeyConfig) -> (r: ConfigUI)
        ensures
            r.config == config,
            r.blacklist_input@.len() == 0,
            r.whitelist_input@.len() == 0,
            r.error_message is None,
            !r.show_help,
    {
        ConfigUI {
            config,
            blacklist_input: String::new(),
            whitelist_input: String::new(),
            error_message: None,
            show_help: false,
        }
    }

    pub fn title(&self) -> (r: String)
        ensures
            r@ == "WinKeyLock Configuration"@,
    {
        String::from_str("WinKeyLock Configuration")
    }

    /// The error line shown under the inputs, if the last message failed.
    pub fn error_text(&self) -> (r: Option<String>)
        ensures
            match self.error_message {
                None => r is None,
                Some(e) => r matches Some(t) && t@ == "Invalid key combination: "@ + error_text(e),
            },
    {
        match self.error_message {
            None => None,
            Some(e) => {
                let mut text = String::from_str("Invalid key combination: ");
                text.append(e.message());
                Some(text)
            },
        }
    }

    /// Applies one message. The previous error is cleared first.
    pub fn update(&mut self, message: Message) -> (r: UiEffect)
        ensures
            match message {
                Message::AddBlacklistKey => added(
                    old(self).config.blacklist@,
                    old(self).blacklist_input@,
                    final(self).config.blacklist@,
                    final(self).blacklist_input@,
                    final(self).error_message,
                ) && final(self).config.whitelist@ == old(self).config.whitelist@
                    && final(self).whitelist_input@ == old(self).whitelist_input@
                    && final(self).show_help == old(self).show_help && r == UiEffect::Nothing,
                Message::AddWhitelistKey => added(
                    old(self).config.whitelist@,
                    old(self).whitelist_input@,
                    final(self).config.whitelist@,
                    final(self).whitelist_input@,
                    final(self).error_message,
                ) && final(self).config.blacklist@ == old(self).config.blacklist@
                    && final(self).blacklist_input@ == old(self).blacklist_input@
                    && final(self).show_help == old(self).show_help && r == UiEffect::Nothing,
                Message::RemoveBlacklistKey(i) => removed(
                    old(self).config.blacklist@,
                    i,
                    final(self).config.blacklist@,
                ) && final(self).config.whitelist@ == old(self).config.whitelist@
                    && final(self).blacklist_input@ == old(self).blacklist_input@
                    && final(self).whitelist_input@ == old(self).whitelist_input@
                    && final(self).error_message is None && final(self).show_help == old(self).show_help && r == UiEffect::Nothing,
                Message::RemoveWhitelistKey(i) => removed(
                    old(self).config.whitelist@,
                    i,
                    final(self).config.whitelist@,
                ) && final(self).config.blacklist@ == old(self).config.blacklist@
                    && final(self).blacklist_input@ == old(self).blacklist_input@
                    && final(self).whitelist_input@ == old(self).whitelist_input@
                    && final(self).error_message is None && final(self).show_help == old(self).show_help && r == UiEffect::Nothing,
                Message::BlacklistKeyInput(s) => final(self).blacklist_input@ == s@
                    && final(self).whitelist_input@ == old(self).whitelist_input@
                    && final(self).config == old(self).config && final(self).error_message is None
                    && final(self).show_help == old(self).show_help && r == UiEffect::Nothing,
                Message::WhitelistKeyInput(s) => final(self).whitelist_input@ == s@
                    && final(self).blacklist_input@ == old(self).blacklist_input@
                    && final(self).config == old(self).config && final(self).error_message is None
                    && final(self).show_help == old(self).show_help && r == UiEffect::Nothing,
                Message::ToggleHelp => final(self).show_help == !old(self).show_help && final(self).config == old(self).config && final(self).blacklist_input@ == old(self).blacklist_input@ && final(self).whitelist_input@ == old(self).whitelist_input@
                    && final(self).error_message is None && r == UiEffect::Nothing,
                Message::Save => r == UiEffect::SaveAndClose,
                Message::Cancel => r == UiEffect::Close,
                Message::Close => r == UiEffect::Exit,
            },
            final(self).error_message is Some ==> message is AddBlacklistKey
                || message is AddWhitelistKey,
            !(message is ToggleHelp) ==> final(self).show_help == old(self).show_help,
            (message is Save || message is Cancel || message is Close) ==> final(self).config
                == old(self).config && final(self).blacklist_input@ == old(self).blacklist_input@
                && final(self).whitelist_input@ == old(self).whitelist_input@,
    {
        self.error_message = None;
        match message {
            Message::AddBlacklistKey => {
                self.error_message = add_entry(&mut self.config.blacklist, &mut self.blacklist_input);
                UiEffect::Nothing
            },
            Message::AddWhitelistKey => {
                self.error_message = add_entry(&mut self.config.whitelist, &mut self.whitelist_input);
                UiEffect::Nothing
            },
            Message::RemoveBlacklistKey(index) => {
                if index < self.config.blacklist.len() {
                    self.config.blacklist.remove(index);
                }
                UiEffect::Nothing
            },
            Message::RemoveWhitelistKey(index) => {
                if index < self.config.whitelist.len() {
                    self.config.whitelist.remove(index);
                }
                UiEffect::Nothing
            },
            Message::BlacklistKeyInput(input) => {
                self.blacklist_input = input;
                UiEffect::Nothing
            },
            Message::WhitelistKeyInput(input) => {
                self.whitelist_input = input;
                UiEffect::Nothing
            },
            Message::ToggleHelp => {
                self.show_help = !self.show_help;
                UiEffect::Nothing
            },
            Message::Save => UiEffect::SaveAndClose,
            Message::Cancel => UiEffect::Close,
            Message::Close => UiEffect::Exit,
        }
    }
}

} // verus!
