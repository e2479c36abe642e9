//! Live state of the modifier keys, kept across independently delivered
//! key-down and key-up events.

use vstd::prelude::*;

use crate::keys::{
    is_alt_key, is_ctrl_key, is_meta_key, is_shift_key, VK_CONTROL, VK_LCONTROL, VK_LMENU,
    VK_LSHIFT, VK_LWIN, VK_MENU, VK_RCONTROL, VK_RMENU, VK_RSHIFT, VK_RWIN, VK_SHIFT,
};

verus! {

pub const WM_KEYDOWN: u32 = 0x0100;

pub const WM_KEYUP: u32 = 0x0101;

pub const WM_SYSKEYDOWN: u32 = 0x0104;

pub const WM_SYSKEYUP: u32 = 0x0105;

/// What a keyboard message says happened to its key.
#[derive(Debug, Clone, Copy, PartialEq, Eq, Structural)]
pub enum KeyAction {
    Down,
    Up,
    Other,
}

pub open spec fn action_of(msg: u32) -> KeyAction {
    if msg == WM_KEYDOWN || msg == WM_SYSKEYDOWN {
        KeyAction::Down
    } else if msg == WM_KEYUP || msg == WM_SYSKEYUP {
        KeyAction::Up
    } else {
        KeyAction::Other
    }
}

/// Decodes a keyboard message, the "system" variants included.
pub fn decode_message(msg: u32) -> (r: KeyAction)
    ensures
        r == action_of(msg),
{
    if msg == WM_KEYDOWN || msg == WM_SYSKEYDOWN {
        KeyAction::Down
    } else if msg == WM_KEYUP || msg == WM_SYSKEYUP {
        KeyAction::Up
    } else {
        KeyAction::Other
    }
}

/// Which modifiers are held, and whether another key went down while meta
/// was held since the last meta press.
#[derive(Debug, Clone, Copy, PartialEq, Eq, Structural)]
pub struct ModifierState {
    pub shift: bool,
    pub ctrl: bool,
    pub alt: bool,
    pub win: bool,
    pub win_used_in_combo: bool,
}

impl ModifierState {
    /// The state after an event on key `vk`, a key-down when `down`.
    pub open spec fn after(self, vk: u16, down: bool) -> ModifierState {
        let held = if is_shift_key(vk) {
            ModifierState { shift: down, ..self }
        } else if is_ctrl_key(vk) {
            ModifierState { ctrl: down, ..self }
        } else if is_alt_key(vk) {
            ModifierState { alt: down, ..self }
        } else if is_meta_key(vk) {
            ModifierState {
                win: down,
                win_used_in_combo: if down {
                    false
                } else {
                    self.win_used_in_combo
                },
                ..self
            }
        } else {
            self
        };
        if down && !is_meta_key(vk) && held.win {
            ModifierState { win_used_in_combo: true, ..held }
        } else {
            held
        }
    }

    /// Nothing held.
    pub fn new() -> (r: ModifierState)
        ensures
            r == (ModifierState {
                shift: false,
                ctrl: false,
                alt: false,
                win: false,
                win_used_in_combo: false,
            }),
    {
        ModifierState { shift: false, ctrl: false, alt: false, win: false, win_used_in_combo: false }
    }

    /// Records an event on key `vk`: a modifier's flag follows whether its
    /// key is down; a meta press clears the chord mark; any other key going
    /// down while meta is held sets it.
    pub fn update(&mut self, vk: u16, down: bool)
        ensures
            *final(self) == old(self).after(vk, down),
    {
        if vk == VK_LSHIFT || vk == VK_RSHIFT || vk == VK_SHIFT {
            self.shift = down;
        } else if vk == VK_LCONTROL || vk == VK_RCONTROL || vk == VK_CONTROL {
            self.ctrl = down;
        } else if vk == VK_LMENU || vk == VK_RMENU || vk == VK_MENU {
            self.alt = down;
        } else if vk == VK_LWIN || vk == VK_RWIN {
            self.win = down;
            if down {
                self.win_used_in_combo = false;
            }
        }
        if down && !(vk == VK_LWIN || vk == VK_RWIN) && self.win {
            self.win_used_in_combo = true;
        }
    }
}

} // verus!
