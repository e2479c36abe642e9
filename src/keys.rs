//! Platform key codes and the table of key names that combinations use.

use vstd::prelude::*;

use crate::text::is_word;

verus! {

pub const VK_BACK: u16 = 0x08;
pub const VK_TAB: u16 = 0x09;
pub const VK_RETURN: u16 = 0x0D;
pub const VK_SHIFT: u16 = 0x10;
pub const VK_CONTROL: u16 = 0x11;
pub const VK_MENU: u16 = 0x12;
pub const VK_PAUSE: u16 = 0x13;
pub const VK_CAPITAL: u16 = 0x14;
pub const VK_ESCAPE: u16 = 0x1B;
pub const VK_SPACE: u16 = 0x20;
pub const VK_PRIOR: u16 = 0x21;
pub const VK_NEXT: u16 = 0x22;
pub const VK_END: u16 = 0x23;
pub const VK_HOME: u16 = 0x24;
pub const VK_LEFT: u16 = 0x25;
pub const VK_UP: u16 = 0x26;
pub const VK_RIGHT: u16 = 0x27;
pub const VK_DOWN: u16 = 0x28;
pub const VK_SNAPSHOT: u16 = 0x2C;
pub const VK_INSERT: u16 = 0x2D;
pub const VK_DELETE: u16 = 0x2E;
pub const VK_LWIN: u16 = 0x5B;
pub const VK_RWIN: u16 = 0x5C;
pub const VK_NUMLOCK: u16 = 0x90;
pub const VK_SCROLL: u16 = 0x91;
pub const VK_LSHIFT: u16 = 0xA0;
pub const VK_RSHIFT: u16 = 0xA1;
pub const VK_LCONTROL: u16 = 0xA2;
pub const VK_RCONTROL: u16 = 0xA3;
pub const VK_LMENU: u16 = 0xA4;
pub const VK_RMENU: u16 = 0xA5;
pub const VK_OEM_1: u16 = 0xBA;
pub const VK_OEM_PLUS: u16 = 0xBB;
pub const VK_OEM_COMMA: u16 = 0xBC;
pub const VK_OEM_MINUS: u16 = 0xBD;
pub const VK_OEM_PERIOD: u16 = 0xBE;
pub const VK_OEM_2: u16 = 0xBF;
pub const VK_OEM_3: u16 = 0xC0;
pub const VK_OEM_4: u16 = 0xDB;
pub const VK_OEM_5: u16 = 0xDC;
pub const VK_OEM_6: u16 = 0xDD;
pub const VK_OEM_7: u16 = 0xDE;

/// The code of the key that `name` denotes, if the table knows the name:
/// letters, digits, function keys 1 to 24, navigation and editing keys,
/// common punctuation and both meta keys.
pub open spec fn key_code_of(name: Seq<char>) -> Option<u16> {
    if name == "a"@ {
        Some(0x41)
    } else if name == "b"@ {
        Some(0x42)
    } else if name == "c"@ {
        Some(0x43)
    } else if name == "d"@ {
        Some(0x44)
    } else if name == "e"@ {
        Some(0x45)
    } else if name == "f"@ {
        Some(0x46)
    } else if name == "g"@ {
        Some(0x47)
    } else if name == "h"@ {
        Some(0x48)
    } else if name == "i"@ {
        Some(0x49)
    } else if name == "j"@ {
        Some(0x4A)
    } else if name == "k"@ {
        Some(0x4B)
    } else if name == "l"@ {
        Some(0x4C)
    } else if name == "m"@ {
        Some(0x4D)
    } else if name == "n"@ {
        Some(0x4E)
    } else if name == "o"@ {
        Some(0x4F)
    } else if name == "p"@ {
        Some(0x50)
    } else if name == "q"@ {
        Some(0x51)
    } else if name == "r"@ {
        Some(0x52)
    } else if name == "s"@ {
        Some(0x53)
    } else if name == "t"@ {
        Some(0x54)
    } else if name == "u"@ {
        Some(0x55)
    } else if name == "v"@ {
        Some(0x56)
    } else if name == "w"@ {
        Some(0x57)
    } else if name == "x"@ {
        Some(0x58)
    } else if name == "y"@ {
        Some(0x59)
    } else if name == "z"@ {
        Some(0x5A)
    } else if name == "0"@ {
        Some(0x30)
    } else if name == "1"@ {
        Some(0x31)
    } else if name == "2"@ {
        Some(0x32)
    } else if name == "3"@ {
        Some(0x33)
    } else if name == "4"@ {
        Some(0x34)
    } else if name == "5"@ {
        Some(0x35)
    } else if name == "6"@ {
        Some(0x36)
    } else if name == "7"@ {
        Some(0x37)
    } else if name == "8"@ {
        Some(0x38)
    } else if name == "9"@ {
        Some(0x39)
    } else if name == "f1"@ {
        Some(0x70)
    } else if name == "f2"@ {
        Some(0x71)
    } else if name == "f3"@ {
        Some(0x72)
    } else if name == "f4"@ {
        Some(0x73)
    } else if name == "f5"@ {
        Some(0x74)
    } else if name == "f6"@ {
        Some(0x75)
    } else if name == "f7"@ {
        Some(0x76)
    } else if name == "f8"@ {
        Some(0x77)
    } else if name == "f9"@ {
        Some(0x78)
    } else if name == "f10"@ {
        Some(0x79)
    } else if name == "f11"@ {
        Some(0x7A)
    } else if name == "f12"@ {
        Some(0x7B)
    } else if name == "f13"@ {
        Some(0x7C)
    } else if name == "f14"@ {
        Some(0x7D)
    } else if name == "f15"@ {
        Some(0x7E)
    } else if name == "f16"@ {
        Some(0x7F)
    } else if name == "f17"@ {
        Some(0x80)
    } else if name == "f18"@ {
        Some(0x81)
    } else if name == "f19"@ {
        Some(0x82)
    } else if name == "f20"@ {
        Some(0x83)
    } else if name == "f21"@ {
        Some(0x84)
    } else if name == "f22"@ {
        Some(0x85)
    } else if name == "f23"@ {
        Some(0x86)
    } else if name == "f24"@ {
        Some(0x87)
    } else if name == "space"@ {
        Some(VK_SPACE)
    } else if name == "enter"@ {
        Some(VK_RETURN)
    } else if name == "return"@ {
        Some(VK_RETURN)
    } else if name == "tab"@ {
        Some(VK_TAB)
    } else if name == "escape"@ {
        Some(VK_ESCAPE)
    } else if name == "esc"@ {
        Some(VK_ESCAPE)
    } else if name == "backspace"@ {
        Some(VK_BACK)
    } else if name == "delete"@ {
        Some(VK_DELETE)
    } else if name == "del"@ {
        Some(VK_DELETE)
    } else if name == "insert"@ {
        Some(VK_INSERT)
    } else if name == "ins"@ {
        Some(VK_INSERT)
    } else if name == "home"@ {
        Some(VK_HOME)
    } else if name == "end"@ {
        Some(VK_END)
    } else if name == "pageup"@ {
        Some(VK_PRIOR)
    } else if name == "pagedown"@ {
        Some(VK_NEXT)
    } else if name == "up"@ {
        Some(VK_UP)
    } else if name == "down"@ {
        Some(VK_DOWN)
    } else if name == "left"@ {
        Some(VK_LEFT)
    } else if name == "right"@ {
        Some(VK_RIGHT)
    } else if name == "printscreen"@ {
        Some(VK_SNAPSHOT)
    } else if name == "prtsc"@ {
        Some(VK_SNAPSHOT)
    } else if name == "pause"@ {
        Some(VK_PAUSE)
    } else if name == "capslock"@ {
        Some(VK_CAPITAL)
    } else if name == "numlock"@ {
        Some(VK_NUMLOCK)
    } else if name == "scrolllock"@ {
        Some(VK_SCROLL)
    } else if name == "semicolon"@ {
        Some(VK_OEM_1)
    } else if name == "equals"@ {
        Some(VK_OEM_PLUS)
    } else if name == "comma"@ {
        Some(VK_OEM_COMMA)
    } else if name == "minus"@ {
        Some(VK_OEM_MINUS)
    } else if name == "period"@ {
        Some(VK_OEM_PERIOD)
    } else if name == "slash"@ {
        Some(VK_OEM_2)
    } else if name == "grave"@ {
        Some(VK_OEM_3)
    } else if name == "leftbracket"@ {
        Some(VK_OEM_4)
    } else if name == "backslash"@ {
        Some(VK_OEM_5)
    } else if name == "rightbracket"@ {
        Some(VK_OEM_6)
    } else if name == "quote"@ {
        Some(VK_OEM_7)
    } else if name == "super"@ {
        Some(VK_LWIN)
    } else if name == "lwin"@ {
        Some(VK_LWIN)
    } else if name == "rwin"@ {
        Some(VK_RWIN)
    } else {
        None
    }
}

/// The code of the key named by the characters `name`.
pub fn key_code_from_name(name: &Vec<char>) -> (r: Option<u16>)
    ensures
        r == key_code_of(name@),
{
    if is_word(name, "a") {
        Some(0x41)
    } else if is_word(name, "b") {
        Some(0x42)
    } else if is_word(name, "c") {
        Some(0x43)
    } else if is_word(name, "d") {
        Some(0x44)
    } else if is_word(name, "e") {
        Some(0x45)
    } else if is_word(name, "f") {
        Some(0x46)
    } else if is_word(name, "g") {
        Some(0x47)
    } else if is_word(name, "h") {
        Some(0x48)
    } else if is_word(name, "i") {
        Some(0x49)
    } else if is_word(name, "j") {
        Some(0x4A)
    } else if is_word(name, "k") {
        Some(0x4B)
    } else if is_word(name, "l") {
        Some(0x4C)
    } else if is_word(name, "m") {
        Some(0x4D)
    } else if is_word(name, "n") {
        Some(0x4E)
    } else if is_word(name, "o") {
        Some(0x4F)
    } else if is_word(name, "p") {
        Some(0x50)
    } else if is_word(name, "q") {
        Some(0x51)
    } else if is_word(name, "r") {
        Some(0x52)
    } else if is_word(name, "s") {
        Some(0x53)
    } else if is_word(name, "t") {
        Some(0x54)
    } else if is_word(name, "u") {
        Some(0x55)
    } else if is_word(name, "v") {
        Some(0x56)
    } else if is_word(name, "w") {
        Some(0x57)
    } else if is_word(name, "x") {
        Some(0x58)
    } else if is_word(name, "y") {
        Some(0x59)
    } else if is_word(name, "z") {
        Some(0x5A)
    } else if is_word(name, "0") {
        Some(0x30)
    } else if is_word(name, "1") {
        Some(0x31)
    } else if is_word(name, "2") {
        Some(0x32)
    } else if is_word(name, "3") {
        Some(0x33)
    } else if is_word(name, "4") {
        Some(0x34)
    } else if is_word(name, "5") {
        Some(0x35)
    } else if is_word(name, "6") {
        Some(0x36)
    } else if is_word(name, "7") {
        Some(0x37)
    } else if is_word(name, "8") {
        Some(0x38)
    } else if is_word(name, "9") {
        Some(0x39)
    } else if is_word(name, "f1") {
        Some(0x70)
    } else if is_word(name, "f2") {
        Some(0x71)
    } else if is_word(name, "f3") {
        Some(0x72)
    } else if is_word(name, "f4") {
        Some(0x73)
    } else if is_word(name, "f5") {
        Some(0x74)
    } else if is_word(name, "f6") {
        Some(0x75)
    } else if is_word(name, "f7") {
        Some(0x76)
    } else if is_word(name, "f8") {
        Some(0x77)
    } else if is_word(name, "f9") {
        Some(0x78)
    } else if is_word(name, "f10") {
        Some(0x79)
    } else if is_word(name, "f11") {
        Some(0x7A)
    } else if is_word(name, "f12") {
        Some(0x7B)
    } else if is_word(name, "f13") {
        Some(0x7C)
    } else if is_word(name, "f14") {
        Some(0x7D)
    } else if is_word(name, "f15") {
        Some(0x7E)
    } else if is_word(name, "f16") {
        Some(0x7F)
    } else if is_word(name, "f17") {
        Some(0x80)
    } else if is_word(name, "f18") {
        Some(0x81)
    } else if is_word(name, "f19") {
        Some(0x82)
    } else if is_word(name, "f20") {
        Some(0x83)
    } else if is_word(name, "f21") {
        Some(0x84)
    } else if is_word(name, "f22") {
        Some(0x85)
    } else if is_word(name, "f23") {
        Some(0x86)
    } else if is_word(name, "f24") {
        Some(0x87)
    } else if is_word(name, "space") {
        Some(VK_SPACE)
    } else if is_word(name, "enter") {
        Some(VK_RETURN)
    } else if is_word(name, "return") {
        Some(VK_RETURN)
    } else if is_word(name, "tab") {
        Some(VK_TAB)
    } else if is_word(name, "escape") {
        Some(VK_ESCAPE)
    } else if is_word(name, "esc") {
        Some(VK_ESCAPE)
    } else if is_word(name, "backspace") {
        Some(VK_BACK)
    } else if is_word(name, "delete") {
        Some(VK_DELETE)
    } else if is_word(name, "del") {
        Some(VK_DELETE)
    } else if is_word(name, "insert") {
        Some(VK_INSERT)
    } else if is_word(name, "ins") {
        Some(VK_INSERT)
    } else if is_word(name, "home") {
        Some(VK_HOME)
    } else if is_word(name, "end") {
        Some(VK_END)
    } else if is_word(name, "pageup") {
        Some(VK_PRIOR)
    } else if is_word(name, "pagedown") {
        Some(VK_NEXT)
    } else if is_word(name, "up") {
        Some(VK_UP)
    } else if is_word(name, "down") {
        Some(VK_DOWN)
    } else if is_word(name, "left") {
        Some(VK_LEFT)
    } else if is_word(name, "right") {
        Some(VK_RIGHT)
    } else if is_word(name, "printscreen") {
        Some(VK_SNAPSHOT)
    } else if is_word(name, "prtsc") {
        Some(VK_SNAPSHOT)
    } else if is_word(name, "pause") {
        Some(VK_PAUSE)
    } else if is_word(name, "capslock") {
        Some(VK_CAPITAL)
    } else if is_word(name, "numlock") {
        Some(VK_NUMLOCK)
    } else if is_word(name, "scrolllock") {
        Some(VK_SCROLL)
    } else if is_word(name, "semicolon") {
        Some(VK_OEM_1)
    } else if is_word(name, "equals") {
        Some(VK_OEM_PLUS)
    } else if is_word(name, "comma") {
        Some(VK_OEM_COMMA)
    } else if is_word(name, "minus") {
        Some(VK_OEM_MINUS)
    } else if is_word(name, "period") {
        Some(VK_OEM_PERIOD)
    } else if is_word(name, "slash") {
        Some(VK_OEM_2)
    } else if is_word(name, "grave") {
        Some(VK_OEM_3)
    } else if is_word(name, "leftbracket") {
        Some(VK_OEM_4)
    } else if is_word(name, "backslash") {
        Some(VK_OEM_5)
    } else if is_word(name, "rightbracket") {
        Some(VK_OEM_6)
    } else if is_word(name, "quote") {
        Some(VK_OEM_7)
    } else if is_word(name, "super") {
        Some(VK_LWIN)
    } else if is_word(name, "lwin") {
        Some(VK_LWIN)
    } else if is_word(name, "rwin") {
        Some(VK_RWIN)
    } else {
        None
    }
}

/// Any of the shift keys.
pub open spec fn is_shift_key(vk: u16) -> bool {
    vk == VK_LSHIFT || vk == VK_RSHIFT || vk == VK_SHIFT
}

/// Any of the control keys.
pub open spec fn is_ctrl_key(vk: u16) -> bool {
    vk == VK_LCONTROL || vk == VK_RCONTROL || vk == VK_CONTROL
}

/// Any of the alt keys.
pub open spec fn is_alt_key(vk: u16) -> bool {
    vk == VK_LMENU || vk == VK_RMENU || vk == VK_MENU
}

/// A shift, ctrl or alt key.
pub open spec fn is_modifier_key(vk: u16) -> bool {
    is_shift_key(vk) || is_ctrl_key(vk) || is_alt_key(vk)
}

/// Either meta (Windows) key.
pub open spec fn is_meta_key(vk: u16) -> bool {
    vk == VK_LWIN || vk == VK_RWIN
}

} // verus!
