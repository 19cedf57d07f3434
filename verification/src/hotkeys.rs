//! Hotkeys: the keys a label can name, and the table that binds keys to pads.

use vstd::prelude::*;
use crate::soundboard::{default_hotkey_label, Bank, Pad, Soundboard};
use crate::text::{
    all_white_space, ascii_upper, ascii_upper_text, is_ascii_text, is_text, is_white_space, lemma_trim_idempotent,
    lemma_trim_ignores_surrounding_space, trim_text, trimmed_end, trimmed_start, trimmed_text, uppercase_text,
    uppercased_text,
};

verus! {

/// A keyboard key that a hotkey can name.
#[derive(Clone, Copy, Debug, PartialEq, Eq, Structural, Hash)]
pub enum KeyCode {
    Num0,
    Num1,
    Num2,
    Num3,
    Num4,
    Num5,
    Num6,
    Num7,
    Num8,
    Num9,
    KeyA,
    KeyB,
    KeyC,
    KeyD,
    KeyE,
    KeyF,
    KeyG,
    KeyH,
    KeyI,
    KeyJ,
    KeyK,
    KeyL,
    KeyM,
    KeyN,
    KeyO,
    KeyP,
    KeyQ,
    KeyR,
    KeyS,
    KeyT,
    KeyU,
    KeyV,
    KeyW,
    KeyX,
    KeyY,
    KeyZ,
    F1,
    F2,
    F3,
    F4,
    F5,
    F6,
    F7,
    F8,
    F9,
    F10,
    F11,
    F12,
    Kp0,
    Kp1,
    Kp2,
    Kp3,
    Kp4,
    Kp5,
    Kp6,
    Kp7,
    Kp8,
    Kp9,
    Space,
    Tab,
    Return,
    Backspace,
    Delete,
    Insert,
    Home,
    End,
    PageUp,
    PageDown,
    UpArrow,
    DownArrow,
    LeftArrow,
    RightArrow,
    CapsLock,
    PrintScreen,
    ScrollLock,
    Pause,
    Escape,
}

/// How many distinct keys [`KeyCode`] names.
pub const KEY_COUNT: usize = 77;

/// The position of a key in the binding table: a distinct number below
/// [`KEY_COUNT`] for each key.
pub open spec fn key_slot(k: KeyCode) -> int {
    match k {
        KeyCode::Num0 => 0,
        KeyCode::Num1 => 1,
        KeyCode::Num2 => 2,
        KeyCode::Num3 => 3,
        KeyCode::Num4 => 4,
        KeyCode::Num5 => 5,
        KeyCode::Num6 => 6,
        KeyCode::Num7 => 7,
        KeyCode::Num8 => 8,
        KeyCode::Num9 => 9,
        KeyCode::KeyA => 10,
        KeyCode::KeyB => 11,
        KeyCode::KeyC => 12,
        KeyCode::KeyD => 13,
        KeyCode::KeyE => 14,
        KeyCode::KeyF => 15,
        KeyCode::KeyG => 16,
        KeyCode::KeyH => 17,
        KeyCode::KeyI => 18,
        KeyCode::KeyJ => 19,
        KeyCode::KeyK => 20,
        KeyCode::KeyL => 21,
        KeyCode::KeyM => 22,
        KeyCode::KeyN => 23,
        KeyCode::KeyO => 24,
        KeyCode::KeyP => 25,
        KeyCode::KeyQ => 26,
        KeyCode::KeyR => 27,
        KeyCode::KeyS => 28,
        KeyCode::KeyT => 29,
        KeyCode::KeyU => 30,
        KeyCode::KeyV => 31,
        KeyCode::KeyW => 32,
        KeyCode::KeyX => 33,
        KeyCode::KeyY => 34,
        KeyCode::KeyZ => 35,
        KeyCode::F1 => 36,
        KeyCode::F2 => 37,
        KeyCode::F3 => 38,
        KeyCode::F4 => 39,
        KeyCode::F5 => 40,
        KeyCode::F6 => 41,
        KeyCode::F7 => 42,
        KeyCode::F8 => 43,
        KeyCode::F9 => 44,
        KeyCode::F10 => 45,
        KeyCode::F11 => 46,
        KeyCode::F12 => 47,
        KeyCode::Kp0 => 48,
        KeyCode::Kp1 => 49,
        KeyCode::Kp2 => 50,
        KeyCode::Kp3 => 51,
        KeyCode::Kp4 => 52,
        KeyCode::Kp5 => 53,
        KeyCode::Kp6 => 54,
        KeyCode::Kp7 => 55,
        KeyCode::Kp8 => 56,
        KeyCode::Kp9 => 57,
        KeyCode::Space => 58,
        KeyCode::Tab => 59,
        KeyCode::Return => 60,
        KeyCode::Backspace => 61,
        KeyCode::Delete => 62,
        KeyCode::Insert => 63,
        KeyCode::Home => 64,
        KeyCode::End => 65,
        KeyCode::PageUp => 66,
        KeyCode::PageDown => 67,
        KeyCode::UpArrow => 68,
        KeyCode::DownArrow => 69,
        KeyCode::LeftArrow => 70,
        KeyCode::RightArrow => 71,
        KeyCode::CapsLock => 72,
        KeyCode::PrintScreen => 73,
        KeyCode::ScrollLock => 74,
        KeyCode::Pause => 75,
        KeyCode::Escape => 76,
    }
}

/// The key at a position of the binding table.
pub open spec fn key_at_slot(i: int) -> KeyCode {
    if i == 0 {
        KeyCode::Num0
    } else if i == 1 {
        KeyCode::Num1
    } else if i == 2 {
        KeyCode::Num2
    } else if i == 3 {
        KeyCode::Num3
    } else if i == 4 {
        KeyCode::Num4
    } else if i == 5 {
        KeyCode::Num5
    } else if i == 6 {
        KeyCode::Num6
    } else if i == 7 {
        KeyCode::Num7
    } else if i == 8 {
        KeyCode::Num8
    } else if i == 9 {
        KeyCode::Num9
    } else if i == 10 {
        KeyCode::KeyA
    } else if i == 11 {
        KeyCode::KeyB
    } else if i == 12 {
        KeyCode::KeyC
    } else if i == 13 {
        KeyCode::KeyD
    } else if i == 14 {
        KeyCode::KeyE
    } else if i == 15 {
        KeyCode::KeyF
    } else if i == 16 {
        KeyCode::KeyG
    } else if i == 17 {
        KeyCode::KeyH
    } else if i == 18 {
        KeyCode::KeyI
    } else if i == 19 {
        KeyCode::KeyJ
    } else if i == 20 {
        KeyCode::KeyK
    } else if i == 21 {
        KeyCode::KeyL
    } else if i == 22 {
        KeyCode::KeyM
    } else if i == 23 {
        KeyCode::KeyN
    } else if i == 24 {
        KeyCode::KeyO
    } else if i == 25 {
        KeyCode::KeyP
    } else if i == 26 {
        KeyCode::KeyQ
    } else if i == 27 {
        KeyCode::KeyR
    } else if i == 28 {
        KeyCode::KeyS
    } else if i == 29 {
        KeyCode::KeyT
    } else if i == 30 {
        KeyCode::KeyU
    } else if i == 31 {
        KeyCode::KeyV
    } else if i == 32 {
        KeyCode::KeyW
    } else if i == 33 {
        KeyCode::KeyX
    } else if i == 34 {
        KeyCode::KeyY
    } else if i == 35 {
        KeyCode::KeyZ
    } else if i == 36 {
        KeyCode::F1
    } else if i == 37 {
        KeyCode::F2
    } else if i == 38 {
        KeyCode::F3
    } else if i == 39 {
        KeyCode::F4
    } else if i == 40 {
        KeyCode::F5
    } else if i == 41 {
        KeyCode::F6
    } else if i == 42 {
        KeyCode::F7
    } else if i == 43 {
        KeyCode::F8
    } else if i == 44 {
        KeyCode::F9
    } else if i == 45 {
        KeyCode::F10
    } else if i == 46 {
        KeyCode::F11
    } else if i == 47 {
        KeyCode::F12
    } else if i == 48 {
        KeyCode::Kp0
    } else if i == 49 {
        KeyCode::Kp1
    } else if i == 50 {
        KeyCode::Kp2
    } else if i == 51 {
        KeyCode::Kp3
    } else if i == 52 {
        KeyCode::Kp4
    } else if i == 53 {
        KeyCode::Kp5
    } else if i == 54 {
        KeyCode::Kp6
    } else if i == 55 {
        KeyCode::Kp7
    } else if i == 56 {
        KeyCode::Kp8
    } else if i == 57 {
        KeyCode::Kp9
    } else if i == 58 {
        KeyCode::Space
    } else if i == 59 {
        KeyCode::Tab
    } else if i == 60 {
        KeyCode::Return
    } else if i == 61 {
        KeyCode::Backspace
    } else if i == 62 {
        KeyCode::Delete
    } else if i == 63 {
        KeyCode::Insert
    } else if i == 64 {
        KeyCode::Home
    } else if i == 65 {
        KeyCode::End
    } else if i == 66 {
        KeyCode::PageUp
    } else if i == 67 {
        KeyCode::PageDown
    } else if i == 68 {
        KeyCode::UpArrow
    } else if i == 69 {
        KeyCode::DownArrow
    } else if i == 70 {
        KeyCode::LeftArrow
    } else if i == 71 {
        KeyCode::RightArrow
    } else if i == 72 {
        KeyCode::CapsLock
    } else if i == 73 {
        KeyCode::PrintScreen
    } else if i == 74 {
        KeyCode::ScrollLock
    } else if i == 75 {
        KeyCode::Pause
    } else {
        KeyCode::Escape
    }
}

/// The key that an upper-cased, trimmed label names, as the table of
/// supported labels gives it.
pub open spec fn key_for_label(s: Seq<char>) -> Option<KeyCode> {
    if s == "0"@ {
        Some(KeyCode::Num0)
    } else if s == "1"@ {
        Some(KeyCode::Num1)
    } else if s == "2"@ {
        Some(KeyCode::Num2)
    } else if s == "3"@ {
        Some(KeyCode::Num3)
    } else if s == "4"@ {
        Some(KeyCode::Num4)
    } else if s == "5"@ {
        Some(KeyCode::Num5)
    } else if s == "6"@ {
        Some(KeyCode::Num6)
    } else if s == "7"@ {
        Some(KeyCode::Num7)
    } else if s == "8"@ {
        Some(KeyCode::Num8)
    } else if s == "9"@ {
        Some(KeyCode::Num9)
    } else if s == "A"@ {
        Some(KeyCode::KeyA)
    } else if s == "B"@ {
        Some(KeyCode::KeyB)
    } else if s == "C"@ {
        Some(KeyCode::KeyC)
    } else if s == "D"@ {
        Some(KeyCode::KeyD)
    } else if s == "E"@ {
        Some(KeyCode::KeyE)
    } else if s == "F"@ {
        Some(KeyCode::KeyF)
    } else if s == "G"@ {
        Some(KeyCode::KeyG)
    } else if s == "H"@ {
        Some(KeyCode::KeyH)
    } else if s == "I"@ {
        Some(KeyCode::KeyI)
    } else if s == "J"@ {
        Some(KeyCode::KeyJ)
    } else if s == "K"@ {
        Some(KeyCode::KeyK)
    } else if s == "L"@ {
        Some(KeyCode::KeyL)
    } else if s == "M"@ {
        Some(KeyCode::KeyM)
    } else if s == "N"@ {
        Some(KeyCode::KeyN)
    } else if s == "O"@ {
        Some(KeyCode::KeyO)
    } else if s == "P"@ {
        Some(KeyCode::KeyP)
    } else if s == "Q"@ {
        Some(KeyCode::KeyQ)
    } else if s == "R"@ {
        Some(KeyCode::KeyR)
    } else if s == "S"@ {
        Some(KeyCode::KeyS)
    } else if s == "T"@ {
        Some(KeyCode::KeyT)
    } else if s == "U"@ {
        Some(KeyCode::KeyU)
    } else if s == "V"@ {
        Some(KeyCode::KeyV)
    } else if s == "W"@ {
        Some(KeyCode::KeyW)
    } else if s == "X"@ {
        Some(KeyCode::KeyX)
    } else if s == "Y"@ {
        Some(KeyCode::KeyY)
    } else if s == "Z"@ {
        Some(KeyCode::KeyZ)
    } else if s == "F1"@ {
        Some(KeyCode::F1)
    } else if s == "F2"@ {
        Some(KeyCode::F2)
    } else if s == "F3"@ {
        Some(KeyCode::F3)
    } else if s == "F4"@ {
        Some(KeyCode::F4)
    } else if s == "F5"@ {
        Some(KeyCode::F5)
    } else if s == "F6"@ {
        Some(KeyCode::F6)
    } else if s == "F7"@ {
        Some(KeyCode::F7)
    } else if s == "F8"@ {
        Some(KeyCode::F8)
    } else if s == "F9"@ {
        Some(KeyCode::F9)
    } else if s == "F10"@ {
        Some(KeyCode::F10)
    } else if s == "F11"@ {
        Some(KeyCode::F11)
    } else if s == "F12"@ {
        Some(KeyCode::F12)
    } else if s == "KP0"@ || s == "NUMPAD0"@ {
        Some(KeyCode::Kp0)
    } else if s == "KP1"@ || s == "NUMPAD1"@ {
        Some(KeyCode::Kp1)
    } else if s == "KP2"@ || s == "NUMPAD2"@ {
        Some(KeyCode::Kp2)
    } else if s == "KP3"@ || s == "NUMPAD3"@ {
        Some(KeyCode::Kp3)
    } else if s == "KP4"@ || s == "NUMPAD4"@ {
        Some(KeyCode::Kp4)
    } else if s == "KP5"@ || s == "NUMPAD5"@ {
        Some(KeyCode::Kp5)
    } else if s == "KP6"@ || s == "NUMPAD6"@ {
        Some(KeyCode::Kp6)
    } else if s == "KP7"@ || s == "NUMPAD7"@ {
        Some(KeyCode::Kp7)
    } else if s == "KP8"@ || s == "NUMPAD8"@ {
        Some(KeyCode::Kp8)
    } else if s == "KP9"@ || s == "NUMPAD9"@ {
        Some(KeyCode::Kp9)
    } else if s == "SPACE"@ {
        Some(KeyCode::Space)
    } else if s == "TAB"@ {
        Some(KeyCode::Tab)
    } else if s == "ENTER"@ || s == "RETURN"@ {
        Some(KeyCode::Return)
    } else if s == "BACKSPACE"@ {
        Some(KeyCode::Backspace)
    } else if s == "DELETE"@ || s == "DEL"@ {
        Some(KeyCode::Delete)
    } else if s == "INSERT"@ || s == "INS"@ {
        Some(KeyCode::Insert)
    } else if s == "HOME"@ {
        Some(KeyCode::Home)
    } else if s == "END"@ {
        Some(KeyCode::End)
    } else if s == "PAGEUP"@ || s == "PAGE UP"@ || s == "PGUP"@ {
        Some(KeyCode::PageUp)
    } else if s == "PAGEDOWN"@ || s == "PAGE DOWN"@ || s == "PGDN"@ {
        Some(KeyCode::PageDown)
    } else if s == "UP"@ || s == "ARROWUP"@ {
        Some(KeyCode::UpArrow)
    } else if s == "DOWN"@ || s == "ARROWDOWN"@ {
        Some(KeyCode::DownArrow)
    } else if s == "LEFT"@ || s == "ARROWLEFT"@ {
        Some(KeyCode::LeftArrow)
    } else if s == "RIGHT"@ || s == "ARROWRIGHT"@ {
        Some(KeyCode::RightArrow)
    } else if s == "CAPSLOCK"@ {
        Some(KeyCode::CapsLock)
    } else if s == "PRINTSCREEN"@ || s == "PRTSCR"@ {
        Some(KeyCode::PrintScreen)
    } else if s == "SCROLLLOCK"@ {
        Some(KeyCode::ScrollLock)
    } else if s == "PAUSE"@ {
        Some(KeyCode::Pause)
    } else {
        None
    }
}

impl KeyCode {
    /// The position of this key in the binding table.
    pub fn slot(&self) -> (r: usize)
        ensures
            r == key_slot(*self),
            r < KEY_COUNT,
    {
        match self {
            KeyCode::Num0 => 0,
            KeyCode::Num1 => 1,
            KeyCode::Num2 => 2,
            KeyCode::Num3 => 3,
            KeyCode::Num4 => 4,
            KeyCode::Num5 => 5,
            KeyCode::Num6 => 6,
            KeyCode::Num7 => 7,
            KeyCode::Num8 => 8,
            KeyCode::Num9 => 9,
            KeyCode::KeyA => 10,
            KeyCode::KeyB => 11,
            KeyCode::KeyC => 12,
            KeyCode::KeyD => 13,
            KeyCode::KeyE => 14,
            KeyCode::KeyF => 15,
            KeyCode::KeyG => 16,
            KeyCode::KeyH => 17,
            KeyCode::KeyI => 18,
            KeyCode::KeyJ => 19,
            KeyCode::KeyK => 20,
            KeyCode::KeyL => 21,
            KeyCode::KeyM => 22,
            KeyCode::KeyN => 23,
            KeyCode::KeyO => 24,
            KeyCode::KeyP => 25,
            KeyCode::KeyQ => 26,
            KeyCode::KeyR => 27,
            KeyCode::KeyS => 28,
            KeyCode::KeyT => 29,
            KeyCode::KeyU => 30,
            KeyCode::KeyV => 31,
            KeyCode::KeyW => 32,
            KeyCode::KeyX => 33,
            KeyCode::KeyY => 34,
            KeyCode::KeyZ => 35,
            KeyCode::F1 => 36,
            KeyCode::F2 => 37,
            KeyCode::F3 => 38,
            KeyCode::F4 => 39,
            KeyCode::F5 => 40,
            KeyCode::F6 => 41,
            KeyCode::F7 => 42,
            KeyCode::F8 => 43,
            KeyCode::F9 => 44,
            KeyCode::F10 => 45,
            KeyCode::F11 => 46,
            KeyCode::F12 => 47,
            KeyCode::Kp0 => 48,
            KeyCode::Kp1 => 49,
            KeyCode::Kp2 => 50,
            KeyCode::Kp3 => 51,
            KeyCode::Kp4 => 52,
            KeyCode::Kp5 => 53,
            KeyCode::Kp6 => 54,
            KeyCode::Kp7 => 55,
            KeyCode::Kp8 => 56,
            KeyCode::Kp9 => 57,
            KeyCode::Space => 58,
            KeyCode::Tab => 59,
            KeyCode::Return => 60,
            KeyCode::Backspace => 61,
            KeyCode::Delete => 62,
            KeyCode::Insert => 63,
            KeyCode::Home => 64,
            KeyCode::End => 65,
            KeyCode::PageUp => 66,
            KeyCode::PageDown => 67,
            KeyCode::UpArrow => 68,
            KeyCode::DownArrow => 69,
            KeyCode::LeftArrow => 70,
            KeyCode::RightArrow => 71,
            KeyCode::CapsLock => 72,
            KeyCode::PrintScreen => 73,
            KeyCode::ScrollLock => 74,
            KeyCode::Pause => 75,
            KeyCode::Escape => 76,
        }
    }

    /// The key at a position of the binding table.
    pub fn at_slot(i: usize) -> (k: KeyCode)
        requires
            i < KEY_COUNT,
        ensures
            k == key_at_slot(i as int),
            key_slot(k) == i,
    {
        if i == 0 {
            KeyCode::Num0
        } else if i == 1 {
            KeyCode::Num1
        } else if i == 2 {
            KeyCode::Num2
        } else if i == 3 {
            KeyCode::Num3
        } else if i == 4 {
            KeyCode::Num4
        } else if i == 5 {
            KeyCode::Num5
        } else if i == 6 {
            KeyCode::Num6
        } else if i == 7 {
            KeyCode::Num7
        } else if i == 8 {
            KeyCode::Num8
        } else if i == 9 {
            KeyCode::Num9
        } else if i == 10 {
            KeyCode::KeyA
        } else if i == 11 {
            KeyCode::KeyB
        } else if i == 12 {
            KeyCode::KeyC
        } else if i == 13 {
            KeyCode::KeyD
        } else if i == 14 {
            KeyCode::KeyE
        } else if i == 15 {
            KeyCode::KeyF
        } else if i == 16 {
            KeyCode::KeyG
        } else if i == 17 {
            KeyCode::KeyH
        } else if i == 18 {
            KeyCode::KeyI
        } else if i == 19 {
            KeyCode::KeyJ
        } else if i == 20 {
            KeyCode::KeyK
        } else if i == 21 {
            KeyCode::KeyL
        } else if i == 22 {
            KeyCode::KeyM
        } else if i == 23 {
            KeyCode::KeyN
        } else if i == 24 {
            KeyCode::KeyO
        } else if i == 25 {
            KeyCode::KeyP
        } else if i == 26 {
            KeyCode::KeyQ
        } else if i == 27 {
            KeyCode::KeyR
        } else if i == 28 {
            KeyCode::KeyS
        } else if i == 29 {
            KeyCode::KeyT
        } else if i == 30 {
            KeyCode::KeyU
        } else if i == 31 {
            KeyCode::KeyV
        } else if i == 32 {
            KeyCode::KeyW
        } else if i == 33 {
            KeyCode::KeyX
        } else if i == 34 {
            KeyCode::KeyY
        } else if i == 35 {
            KeyCode::KeyZ
        } else if i == 36 {
            KeyCode::F1
        } else if i == 37 {
            KeyCode::F2
        } else if i == 38 {
            KeyCode::F3
        } else if i == 39 {
            KeyCode::F4
        } else if i == 40 {
            KeyCode::F5
        } else if i == 41 {
            KeyCode::F6
        } else if i == 42 {
            KeyCode::F7
        } else if i == 43 {
            KeyCode::F8
        } else if i == 44 {
            KeyCode::F9
        } else if i == 45 {
            KeyCode::F10
        } else if i == 46 {
            KeyCode::F11
        } else if i == 47 {
            KeyCode::F12
        } else if i == 48 {
            KeyCode::Kp0
        } else if i == 49 {
            KeyCode::Kp1
        } else if i == 50 {
            KeyCode::Kp2
        } else if i == 51 {
            KeyCode::Kp3
        } else if i == 52 {
            KeyCode::Kp4
        } else if i == 53 {
            KeyCode::Kp5
        } else if i == 54 {
            KeyCode::Kp6
        } else if i == 55 {
            KeyCode::Kp7
        } else if i == 56 {
            KeyCode::Kp8
        } else if i == 57 {
            KeyCode::Kp9
        } else if i == 58 {
            KeyCode::Space
        } else if i == 59 {
            KeyCode::Tab
        } else if i == 60 {
            KeyCode::Return
        } else if i == 61 {
            KeyCode::Backspace
        } else if i == 62 {
            KeyCode::Delete
        } else if i == 63 {
            KeyCode::Insert
        } else if i == 64 {
            KeyCode::Home
        } else if i == 65 {
            KeyCode::End
        } else if i == 66 {
            KeyCode::PageUp
        } else if i == 67 {
            KeyCode::PageDown
        } else if i == 68 {
            KeyCode::UpArrow
        } else if i == 69 {
            KeyCode::DownArrow
        } else if i == 70 {
            KeyCode::LeftArrow
        } else if i == 71 {
            KeyCode::RightArrow
        } else if i == 72 {
            KeyCode::CapsLock
        } else if i == 73 {
            KeyCode::PrintScreen
        } else if i == 74 {
            KeyCode::ScrollLock
        } else if i == 75 {
            KeyCode::Pause
        } else {
            KeyCode::Escape
        }
    }
}

/// The key that an upper-cased, trimmed label names, or `None` for a
/// label outside the table.
pub fn key_from_upper(up: &String) -> (r: Option<KeyCode>)
    ensures
        r == key_for_label(up@),
{
    if is_text(up, "0") {
        return Some(KeyCode::Num0);
    }
    if is_text(up, "1") {
        return Some(KeyCode::Num1);
    }
    if is_text(up, "2") {
        return Some(KeyCode::Num2);
    }
    if is_text(up, "3") {
        return Some(KeyCode::Num3);
    }
    if is_text(up, "4") {
        return Some(KeyCode::Num4);
    }
    if is_text(up, "5") {
        return Some(KeyCode::Num5);
    }
    if is_text(up, "6") {
        return Some(KeyCode::Num6);
    }
    if is_text(up, "7") {
        return Some(KeyCode::Num7);
    }
    if is_text(up, "8") {
        return Some(KeyCode::Num8);
    }
    if is_text(up, "9") {
        return Some(KeyCode::Num9);
    }
    if is_text(up, "A") {
        return Some(KeyCode::KeyA);
    }
    if is_text(up, "B") {
        return Some(KeyCode::KeyB);
    }
    if is_text(up, "C") {
        return Some(KeyCode::KeyC);
    }
    if is_text(up, "D") {
        return Some(KeyCode::KeyD);
    }
    if is_text(up, "E") {
        return Some(KeyCode::KeyE);
    }
    if is_text(up, "F") {
        return Some(KeyCode::KeyF);
    }
    if is_text(up, "G") {
        return Some(KeyCode::KeyG);
    }
    if is_text(up, "H") {
        return Some(KeyCode::KeyH);
    }
    if is_text(up, "I") {
        return Some(KeyCode::KeyI);
    }
    if is_text(up, "J") {
        return Some(KeyCode::KeyJ);
    }
    if is_text(up, "K") {
        return Some(KeyCode::KeyK);
    }
    if is_text(up, "L") {
        return Some(KeyCode::KeyL);
    }
    if is_text(up, "M") {
        return Some(KeyCode::KeyM);
    }
    if is_text(up, "N") {
        return Some(KeyCode::KeyN);
    }
    if is_text(up, "O") {
        return Some(KeyCode::KeyO);
    }
    if is_text(up, "P") {
        return Some(KeyCode::KeyP);
    }
    if is_text(up, "Q") {
        return Some(KeyCode::KeyQ);
    }
    if is_text(up, "R") {
        return Some(KeyCode::KeyR);
    }
    if is_text(up, "S") {
        return Some(KeyCode::KeyS);
    }
    if is_text(up, "T") {
        return Some(KeyCode::KeyT);
    }
    if is_text(up, "U") {
        return Some(KeyCode::KeyU);
    }
    if is_text(up, "V") {
        return Some(KeyCode::KeyV);
    }
    if is_text(up, "W") {
        return Some(KeyCode::KeyW);
    }
    if is_text(up, "X") {
        return Some(KeyCode::KeyX);
    }
    if is_text(up, "Y") {
        return Some(KeyCode::KeyY);
    }
    if is_text(up, "Z") {
        return Some(KeyCode::KeyZ);
    }
    if is_text(up, "F1") {
        return Some(KeyCode::F1);
    }
    if is_text(up, "F2") {
        return Some(KeyCode::F2);
    }
    if is_text(up, "F3") {
        return Some(KeyCode::F3);
    }
    if is_text(up, "F4") {
        return Some(KeyCode::F4);
    }
    if is_text(up, "F5") {
        return Some(KeyCode::F5);
    }
    if is_text(up, "F6") {
        return Some(KeyCode::F6);
    }
    if is_text(up, "F7") {
        return Some(KeyCode::F7);
    }
    if is_text(up, "F8") {
        return Some(KeyCode::F8);
    }
    if is_text(up, "F9") {
        return Some(KeyCode::F9);
    }
    if is_text(up, "F10") {
        return Some(KeyCode::F10);
    }
    if is_text(up, "F11") {
        return Some(KeyCode::F11);
    }
    if is_text(up, "F12") {
        return Some(KeyCode::F12);
    }
    if is_text(up, "KP0") || is_text(up, "NUMPAD0") {
        return Some(KeyCode::Kp0);
    }
    if is_text(up, "KP1") || is_text(up, "NUMPAD1") {
        return Some(KeyCode::Kp1);
    }
    if is_text(up, "KP2") || is_text(up, "NUMPAD2") {
        return Some(KeyCode::Kp2);
    }
    if is_text(up, "KP3") || is_text(up, "NUMPAD3") {
        return Some(KeyCode::Kp3);
    }
    if is_text(up, "KP4") || is_text(up, "NUMPAD4") {
        return Some(KeyCode::Kp4);
    }
    if is_text(up, "KP5") || is_text(up, "NUMPAD5") {
        return Some(KeyCode::Kp5);
    }
    if is_text(up, "KP6") || is_text(up, "NUMPAD6") {
        return Some(KeyCode::Kp6);
    }
    if is_text(up, "KP7") || is_text(up, "NUMPAD7") {
        return Some(KeyCode::Kp7);
    }
    if is_text(up, "KP8") || is_text(up, "NUMPAD8") {
        return Some(KeyCode::Kp8);
    }
    if is_text(up, "KP9") || is_text(up, "NUMPAD9") {
        return Some(KeyCode::Kp9);
    }
    if is_text(up, "SPACE") {
        return Some(KeyCode::Space);
    }
    if is_text(up, "TAB") {
        return Some(KeyCode::Tab);
    }
    if is_text(up, "ENTER") || is_text(up, "RETURN") {
        return Some(KeyCode::Return);
    }
    if is_text(up, "BACKSPACE") {
        return Some(KeyCode::Backspace);
    }
    if is_text(up, "DELETE") || is_text(up, "DEL") {
        return Some(KeyCode::Delete);
    }
    if is_text(up, "INSERT") || is_text(up, "INS") {
        return Some(KeyCode::Insert);
    }
    if is_text(up, "HOME") {
        return Some(KeyCode::Home);
    }
    if is_text(up, "END") {
        return Some(KeyCode::End);
    }
    if is_text(up, "PAGEUP") || is_text(up, "PAGE UP") || is_text(up, "PGUP") {
        return Some(KeyCode::PageUp);
    }
    if is_text(up, "PAGEDOWN") || is_text(up, "PAGE DOWN") || is_text(up, "PGDN") {
        return Some(KeyCode::PageDown);
    }
    if is_text(up, "UP") || is_text(up, "ARROWUP") {
        return Some(KeyCode::UpArrow);
    }
    if is_text(up, "DOWN") || is_text(up, "ARROWDOWN") {
        return Some(KeyCode::DownArrow);
    }
    if is_text(up, "LEFT") || is_text(up, "ARROWLEFT") {
        return Some(KeyCode::LeftArrow);
    }
    if is_text(up, "RIGHT") || is_text(up, "ARROWRIGHT") {
        return Some(KeyCode::RightArrow);
    }
    if is_text(up, "CAPSLOCK") {
        return Some(KeyCode::CapsLock);
    }
    if is_text(up, "PRINTSCREEN") || is_text(up, "PRTSCR") {
        return Some(KeyCode::PrintScreen);
    }
    if is_text(up, "SCROLLLOCK") {
        return Some(KeyCode::ScrollLock);
    }
    if is_text(up, "PAUSE") {
        return Some(KeyCode::Pause);
    }
    None
}

/// The key a hotkey label names: the label is trimmed, upper-cased and then
/// looked up in the table of supported labels.
pub open spec fn parse_label_spec(label: Seq<char>) -> Option<KeyCode> {
    key_for_label(uppercased_text(trimmed_text(label)))
}

/// Parses a hotkey label such as `"q"`, `"F5"` or `"kp7"`.
pub fn parse_key_label(label: &str) -> (r: Option<KeyCode>)
    ensures
        r == parse_label_spec(label@),
        is_ascii_text(trimmed_text(label@)) ==> r == key_for_label(ascii_upper_text(trimmed_text(label@))),
{
    let trimmed = trim_text(label);
    let up = uppercase_text(trimmed);
    key_from_upper(&up)
}

/// Every key sits at its own position of the binding table.
pub proof fn lemma_key_slot_inverse(k: KeyCode)
    ensures
        key_at_slot(key_slot(k)) == k,
        0 <= key_slot(k) < KEY_COUNT,
{
}

/// Distinct keys sit at distinct positions of the binding table.
pub proof fn lemma_key_slot_injective(a: KeyCode, b: KeyCode)
    ensures
        key_slot(a) == key_slot(b) ==> a == b,
{
    lemma_key_slot_inverse(a);
    lemma_key_slot_inverse(b);
}

/// The key that stops every sound.
pub open spec fn panic_key() -> KeyCode {
    KeyCode::Escape
}

/// The bindings a fresh service starts with: the first fifteen pads of bank 0
/// on the keys 1-9, 0, Q, W, E, R, T.
pub open spec fn default_binding(k: KeyCode) -> Option<(usize, usize)> {
    match k {
        KeyCode::Num1 => Some((0usize, 0usize)),
        KeyCode::Num2 => Some((0usize, 1usize)),
        KeyCode::Num3 => Some((0usize, 2usize)),
        KeyCode::Num4 => Some((0usize, 3usize)),
        KeyCode::Num5 => Some((0usize, 4usize)),
        KeyCode::Num6 => Some((0usize, 5usize)),
        KeyCode::Num7 => Some((0usize, 6usize)),
        KeyCode::Num8 => Some((0usize, 7usize)),
        KeyCode::Num9 => Some((0usize, 8usize)),
        KeyCode::Num0 => Some((0usize, 9usize)),
        KeyCode::KeyQ => Some((0usize, 10usize)),
        KeyCode::KeyW => Some((0usize, 11usize)),
        KeyCode::KeyE => Some((0usize, 12usize)),
        KeyCode::KeyR => Some((0usize, 13usize)),
        KeyCode::KeyT => Some((0usize, 14usize)),
        _ => None,
    }
}

/// The default table lists exactly fifteen bindings: the `i`-th default key
/// plays pad `i` of bank 0, for the fifteen pads of a fresh bank.
pub proof fn law_default_mapping()
    ensures
        listed(default_table(), KEY_COUNT as int).len() == 15,
        default_keys().len() == 15,
        forall|i: int| 0 <= i < 15 ==> #[trigger] default_binding(default_keys()[i]) == Some((0usize, i as usize)),
        forall|i: int| 0 <= i < 15 ==> listed(default_table(), KEY_COUNT as int).contains(
            (#[trigger] default_keys()[i], (0usize, i as usize)),
        ),
{
    assert(listed(default_table(), KEY_COUNT as int) == seq![
        (KeyCode::Num0, (0usize, 9usize)), (KeyCode::Num1, (0usize, 0usize)), (KeyCode::Num2, (0usize, 1usize)),
        (KeyCode::Num3, (0usize, 2usize)), (KeyCode::Num4, (0usize, 3usize)), (KeyCode::Num5, (0usize, 4usize)),
        (KeyCode::Num6, (0usize, 5usize)), (KeyCode::Num7, (0usize, 6usize)), (KeyCode::Num8, (0usize, 7usize)),
        (KeyCode::Num9, (0usize, 8usize)), (KeyCode::KeyE, (0usize, 12usize)), (KeyCode::KeyQ, (0usize, 10usize)),
        (KeyCode::KeyR, (0usize, 13usize)), (KeyCode::KeyT, (0usize, 14usize)), (KeyCode::KeyW, (0usize, 11usize)),
    ]) by {
        reveal_with_fuel(listed, 78);
    }
    let l = listed(default_table(), KEY_COUNT as int);
    assert forall|i: int| 0 <= i < 15 implies l.contains((#[trigger] default_keys()[i], (0usize, i as usize))) by {
        let pos: Seq<int> = seq![1int, 2, 3, 4, 5, 6, 7, 8, 9, 0, 11, 14, 10, 12, 13];
        assert(l[pos[i]] == (default_keys()[i], (0usize, i as usize)));
    }
}

/// `s` is a one-character text whose character has code point `code`.
pub open spec fn is_char_text(s: Seq<char>, code: int) -> bool {
    s.len() == 1 && s[0] as u32 == code
}

/// `s` names function key `n`: `F` and the number in decimal.
pub open spec fn is_f_name(s: Seq<char>, n: int) -> bool {
    &&& s.len() >= 2
    &&& s[0] == 'F'
    &&& if n < 10 {
        s.len() == 2 && s[1] as u32 == 48 + n
    } else {
        s.len() == 3 && s[1] == '1' && s[2] as u32 == 38 + n
    }
}

/// `s` names keypad digit `d`: `KP` or `NUMPAD`, then the digit.
pub open spec fn is_keypad_name(s: Seq<char>, d: int) -> bool {
    ||| s.len() == 3 && s[0] == 'K' && s[1] == 'P' && s[2] as u32 == 48 + d
    ||| s.len() == 7 && s[0] == 'N' && s[1] == 'U' && s[2] == 'M' && s[3] == 'P' && s[4] == 'A' && s[5] == 'D'
        && s[6] as u32 == 48 + d
}

/// The upper-case names a hotkey label may give for key `k`: the digit or
/// the letter itself, `F1` to `F12`, `KP0` or `NUMPAD0` to `KP9` or
/// `NUMPAD9` for the keypad, and the names of the other keys. Digits,
/// letters, function keys and keypad keys are numbered by their slot in the
/// key table. `Escape`, the panic key, has no name.
pub open spec fn is_key_name(s: Seq<char>, k: KeyCode) -> bool {
    match k {
        KeyCode::Num0 | KeyCode::Num1 | KeyCode::Num2 | KeyCode::Num3 | KeyCode::Num4 | KeyCode::Num5 | KeyCode::Num6 | KeyCode::Num7 | KeyCode::Num8 | KeyCode::Num9 => is_char_text(s, 48 + key_slot(k)),
        KeyCode::KeyA | KeyCode::KeyB | KeyCode::KeyC | KeyCode::KeyD | KeyCode::KeyE | KeyCode::KeyF | KeyCode::KeyG | KeyCode::KeyH | KeyCode::KeyI | KeyCode::KeyJ | KeyCode::KeyK | KeyCode::KeyL | KeyCode::KeyM | KeyCode::KeyN | KeyCode::KeyO | KeyCode::KeyP | KeyCode::KeyQ | KeyCode::KeyR | KeyCode::KeyS | KeyCode::KeyT | KeyCode::KeyU | KeyCode::KeyV | KeyCode::KeyW | KeyCode::KeyX | KeyCode::KeyY | KeyCode::KeyZ => is_char_text(s, 55 + key_slot(k)),
        KeyCode::F1 | KeyCode::F2 | KeyCode::F3 | KeyCode::F4 | KeyCode::F5 | KeyCode::F6 | KeyCode::F7 | KeyCode::F8 | KeyCode::F9 | KeyCode::F10 | KeyCode::F11 | KeyCode::F12 => is_f_name(s, key_slot(k) - 35),
        KeyCode::Kp0 | KeyCode::Kp1 | KeyCode::Kp2 | KeyCode::Kp3 | KeyCode::Kp4 | KeyCode::Kp5 | KeyCode::Kp6 | KeyCode::Kp7 | KeyCode::Kp8 | KeyCode::Kp9 => is_keypad_name(s, key_slot(k) - 48),
        KeyCode::Space => s == "SPACE"@,
        KeyCode::Tab => s == "TAB"@,
        KeyCode::Return => s == "ENTER"@ || s == "RETURN"@,
        KeyCode::Backspace => s == "BACKSPACE"@,
        KeyCode::Delete => s == "DELETE"@ || s == "DEL"@,
        KeyCode::Insert => s == "INSERT"@ || s == "INS"@,
        KeyCode::Home => s == "HOME"@,
        KeyCode::End => s == "END"@,
        KeyCode::PageUp => s == "PAGEUP"@ || s == "PAGE UP"@ || s == "PGUP"@,
        KeyCode::PageDown => s == "PAGEDOWN"@ || s == "PAGE DOWN"@ || s == "PGDN"@,
        KeyCode::UpArrow => s == "UP"@ || s == "ARROWUP"@,
        KeyCode::DownArrow => s == "DOWN"@ || s == "ARROWDOWN"@,
        KeyCode::LeftArrow => s == "LEFT"@ || s == "ARROWLEFT"@,
        KeyCode::RightArrow => s == "RIGHT"@ || s == "ARROWRIGHT"@,
        KeyCode::CapsLock => s == "CAPSLOCK"@,
        KeyCode::PrintScreen => s == "PRINTSCREEN"@ || s == "PRTSCR"@,
        KeyCode::ScrollLock => s == "SCROLLLOCK"@,
        KeyCode::Pause => s == "PAUSE"@,
        KeyCode::Escape => false,
    }
}

/// Names 0 to 9 of the label table pick their keys and are
/// names of those keys.
#[verifier::rlimit(60)]
proof fn lemma_label_table_0()
    ensures
        key_for_label("0"@) == Some(KeyCode::Num0),
        is_key_name("0"@, KeyCode::Num0),
        key_for_label("1"@) == Some(KeyCode::Num1),
        is_key_name("1"@, KeyCode::Num1),
        key_for_label("2"@) == Some(KeyCode::Num2),
        is_key_name("2"@, KeyCode::Num2),
        key_for_label("3"@) == Some(KeyCode::Num3),
        is_key_name("3"@, KeyCode::Num3),
        key_for_label("4"@) == Some(KeyCode::Num4),
        is_key_name("4"@, KeyCode::Num4),
        key_for_label("5"@) == Some(KeyCode::Num5),
        is_key_name("5"@, KeyCode::Num5),
        key_for_label("6"@) == Some(KeyCode::Num6),
        is_key_name("6"@, KeyCode::Num6),
        key_for_label("7"@) == Some(KeyCode::Num7),
        is_key_name("7"@, KeyCode::Num7),
        key_for_label("8"@) == Some(KeyCode::Num8),
        is_key_name("8"@, KeyCode::Num8),
        key_for_label("9"@) == Some(KeyCode::Num9),
        is_key_name("9"@, KeyCode::Num9),
{
    reveal_strlit("0");
    assert("0"@.len() == 1 && "0"@[0] == '0');
    reveal_strlit("1");
    assert("1"@.len() == 1 && "1"@[0] == '1');
    reveal_strlit("2");
    assert("2"@.len() == 1 && "2"@[0] == '2');
    reveal_strlit("3");
    assert("3"@.len() == 1 && "3"@[0] == '3');
    reveal_strlit("4");
    assert("4"@.len() == 1 && "4"@[0] == '4');
    reveal_strlit("5");
    assert("5"@.len() == 1 && "5"@[0] == '5');
    reveal_strlit("6");
    assert("6"@.len() == 1 && "6"@[0] == '6');
    reveal_strlit("7");
    assert("7"@.len() == 1 && "7"@[0] == '7');
    reveal_strlit("8");
    assert("8"@.len() == 1 && "8"@[0] == '8');
    reveal_strlit("9");
    assert("9"@.len() == 1 && "9"@[0] == '9');

}

/// Names A to J of the label table pick their keys and are
/// names of those keys.
#[verifier::rlimit(60)]
proof fn lemma_label_table_1()
    ensures
        key_for_label("A"@) == Some(KeyCode::KeyA),
        is_key_name("A"@, KeyCode::KeyA),
        key_for_label("B"@) == Some(KeyCode::KeyB),
        is_key_name("B"@, KeyCode::KeyB),
        key_for_label("C"@) == Some(KeyCode::KeyC),
        is_key_name("C"@, KeyCode::KeyC),
        key_for_label("D"@) == Some(KeyCode::KeyD),
        is_key_name("D"@, KeyCode::KeyD),
        key_for_label("E"@) == Some(KeyCode::KeyE),
        is_key_name("E"@, KeyCode::KeyE),
        key_for_label("F"@) == Some(KeyCode::KeyF),
        is_key_name("F"@, KeyCode::KeyF),
        key_for_label("G"@) == Some(KeyCode::KeyG),
        is_key_name("G"@, KeyCode::KeyG),
        key_for_label("H"@) == Some(KeyCode::KeyH),
        is_key_name("H"@, KeyCode::KeyH),
        key_for_label("I"@) == Some(KeyCode::KeyI),
        is_key_name("I"@, KeyCode::KeyI),
        key_for_label("J"@) == Some(KeyCode::KeyJ),
        is_key_name("J"@, KeyCode::KeyJ),
{
    reveal_strlit("0");
    assert("0"@.len() == 1 && "0"@[0] == '0');
    reveal_strlit("1");
    assert("1"@.len() == 1 && "1"@[0] == '1');
    reveal_strlit("2");
    assert("2"@.len() == 1 && "2"@[0] == '2');
    reveal_strlit("3");
    assert("3"@.len() == 1 && "3"@[0] == '3');
    reveal_strlit("4");
    assert("4"@.len() == 1 && "4"@[0] == '4');
    reveal_strlit("5");
    assert("5"@.len() == 1 && "5"@[0] == '5');
    reveal_strlit("6");
    assert("6"@.len() == 1 && "6"@[0] == '6');
    reveal_strlit("7");
    assert("7"@.len() == 1 && "7"@[0] == '7');
    reveal_strlit("8");
    assert("8"@.len() == 1 && "8"@[0] == '8');
    reveal_strlit("9");
    assert("9"@.len() == 1 && "9"@[0] == '9');
    reveal_strlit("A");
    assert("A"@.len() == 1 && "A"@[0] == 'A');
    reveal_strlit("B");
    assert("B"@.len() == 1 && "B"@[0] == 'B');
    reveal_strlit("C");
    assert("C"@.len() == 1 && "C"@[0] == 'C');
    reveal_strlit("D");
    assert("D"@.len() == 1 && "D"@[0] == 'D');
    reveal_strlit("E");
    assert("E"@.len() == 1 && "E"@[0] == 'E');
    reveal_strlit("F");
    assert("F"@.len() == 1 && "F"@[0] == 'F');
    reveal_strlit("G");
    assert("G"@.len() == 1 && "G"@[0] == 'G');
    reveal_strlit("H");
    assert("H"@.len() == 1 && "H"@[0] == 'H');
    reveal_strlit("I");
    assert("I"@.len() == 1 && "I"@[0] == 'I');
    reveal_strlit("J");
    assert("J"@.len() == 1 && "J"@[0] == 'J');

}

/// Names K to T of the label table pick their keys and are
/// names of those keys.
#[verifier::rlimit(60)]
proof fn lemma_label_table_2()
    ensures
        key_for_label("K"@) == Some(KeyCode::KeyK),
        is_key_name("K"@, KeyCode::KeyK),
        key_for_label("L"@) == Some(KeyCode::KeyL),
        is_key_name("L"@, KeyCode::KeyL),
        key_for_label("M"@) == Some(KeyCode::KeyM),
        is_key_name("M"@, KeyCode::KeyM),
        key_for_label("N"@) == Some(KeyCode::KeyN),
        is_key_name("N"@, KeyCode::KeyN),
        key_for_label("O"@) == Some(KeyCode::KeyO),
        is_key_name("O"@, KeyCode::KeyO),
        key_for_label("P"@) == Some(KeyCode::KeyP),
        is_key_name("P"@, KeyCode::KeyP),
        key_for_label("Q"@) == Some(KeyCode::KeyQ),
        is_key_name("Q"@, KeyCode::KeyQ),
        key_for_label("R"@) == Some(KeyCode::KeyR),
        is_key_name("R"@, KeyCode::KeyR),
        key_for_label("S"@) == Some(KeyCode::KeyS),
        is_key_name("S"@, KeyCode::KeyS),
        key_for_label("T"@) == Some(KeyCode::KeyT),
        is_key_name("T"@, KeyCode::KeyT),
{
    reveal_strlit("0");
    assert("0"@.len() == 1 && "0"@[0] == '0');
    reveal_strlit("1");
    assert("1"@.len() == 1 && "1"@[0] == '1');
    reveal_strlit("2");
    assert("2"@.len() == 1 && "2"@[0] == '2');
    reveal_strlit("3");
    assert("3"@.len() == 1 && "3"@[0] == '3');
    reveal_strlit("4");
    assert("4"@.len() == 1 && "4"@[0] == '4');
    reveal_strlit("5");
    assert("5"@.len() == 1 && "5"@[0] == '5');
    reveal_strlit("6");
    assert("6"@.len() == 1 && "6"@[0] == '6');
    reveal_strlit("7");
    assert("7"@.len() == 1 && "7"@[0] == '7');
    reveal_strlit("8");
    assert("8"@.len() == 1 && "8"@[0] == '8');
    reveal_strlit("9");
    assert("9"@.len() == 1 && "9"@[0] == '9');
    reveal_strlit("A");
    assert("A"@.len() == 1 && "A"@[0] == 'A');
    reveal_strlit("B");
    assert("B"@.len() == 1 && "B"@[0] == 'B');
    reveal_strlit("C");
    assert("C"@.len() == 1 && "C"@[0] == 'C');
    reveal_strlit("D");
    assert("D"@.len() == 1 && "D"@[0] == 'D');
    reveal_strlit("E");
    assert("E"@.len() == 1 && "E"@[0] == 'E');
    reveal_strlit("F");
    assert("F"@.len() == 1 && "F"@[0] == 'F');
    reveal_strlit("G");
    assert("G"@.len() == 1 && "G"@[0] == 'G');
    reveal_strlit("H");
    assert("H"@.len() == 1 && "H"@[0] == 'H');
    reveal_strlit("I");
    assert("I"@.len() == 1 && "I"@[0] == 'I');
    reveal_strlit("J");
    assert("J"@.len() == 1 && "J"@[0] == 'J');
    reveal_strlit("K");
    assert("K"@.len() == 1 && "K"@[0] == 'K');
    reveal_strlit("L");
    assert("L"@.len() == 1 && "L"@[0] == 'L');
    reveal_strlit("M");
    assert("M"@.len() == 1 && "M"@[0] == 'M');
    reveal_strlit("N");
    assert("N"@.len() == 1 && "N"@[0] == 'N');
    reveal_strlit("O");
    assert("O"@.len() == 1 && "O"@[0] == 'O');
    reveal_strlit("P");
    assert("P"@.len() == 1 && "P"@[0] == 'P');
    reveal_strlit("Q");
    assert("Q"@.len() == 1 && "Q"@[0] == 'Q');
    reveal_strlit("R");
    assert("R"@.len() == 1 && "R"@[0] == 'R');
    reveal_strlit("S");
    assert("S"@.len() == 1 && "S"@[0] == 'S');
    reveal_strlit("T");
    assert("T"@.len() == 1 && "T"@[0] == 'T');

}

/// Names U to F4 of the label table pick their keys and are
/// names of those keys.
#[verifier::rlimit(60)]
proof fn lemma_label_table_3()
    ensures
        key_for_label("U"@) == Some(KeyCode::KeyU),
        is_key_name("U"@, KeyCode::KeyU),
        key_for_label("V"@) == Some(KeyCode::KeyV),
        is_key_name("V"@, KeyCode::KeyV),
        key_for_label("W"@) == Some(KeyCode::KeyW),
        is_key_name("W"@, KeyCode::KeyW),
        key_for_label("X"@) == Some(KeyCode::KeyX),
        is_key_name("X"@, KeyCode::KeyX),
        key_for_label("Y"@) == Some(KeyCode::KeyY),
        is_key_name("Y"@, KeyCode::KeyY),
        key_for_label("Z"@) == Some(KeyCode::KeyZ),
        is_key_name("Z"@, KeyCode::KeyZ),
        key_for_label("F1"@) == Some(KeyCode::F1),
        is_key_name("F1"@, KeyCode::F1),
        key_for_label("F2"@) == Some(KeyCode::F2),
        is_key_name("F2"@, KeyCode::F2),
        key_for_label("F3"@) == Some(KeyCode::F3),
        is_key_name("F3"@, KeyCode::F3),
        key_for_label("F4"@) == Some(KeyCode::F4),
        is_key_name("F4"@, KeyCode::F4),
{
    reveal_strlit("0");
    assert("0"@.len() == 1 && "0"@[0] == '0');
    reveal_strlit("1");
    assert("1"@.len() == 1 && "1"@[0] == '1');
    reveal_strlit("2");
    assert("2"@.len() == 1 && "2"@[0] == '2');
    reveal_strlit("3");
    assert("3"@.len() == 1 && "3"@[0] == '3');
    reveal_strlit("4");
    assert("4"@.len() == 1 && "4"@[0] == '4');
    reveal_strlit("5");
    assert("5"@.len() == 1 && "5"@[0] == '5');
    reveal_strlit("6");
    assert("6"@.len() == 1 && "6"@[0] == '6');
    reveal_strlit("7");
    assert("7"@.len() == 1 && "7"@[0] == '7');
    reveal_strlit("8");
    assert("8"@.len() == 1 && "8"@[0] == '8');
    reveal_strlit("9");
    assert("9"@.len() == 1 && "9"@[0] == '9');
    reveal_strlit("A");
    assert("A"@.len() == 1 && "A"@[0] == 'A');
    reveal_strlit("B");
    assert("B"@.len() == 1 && "B"@[0] == 'B');
    reveal_strlit("C");
    assert("C"@.len() == 1 && "C"@[0] == 'C');
    reveal_strlit("D");
    assert("D"@.len() == 1 && "D"@[0] == 'D');
    reveal_strlit("E");
    assert("E"@.len() == 1 && "E"@[0] == 'E');
    reveal_strlit("F");
    assert("F"@.len() == 1 && "F"@[0] == 'F');
    reveal_strlit("G");
    assert("G"@.len() == 1 && "G"@[0] == 'G');
    reveal_strlit("H");
    assert("H"@.len() == 1 && "H"@[0] == 'H');
    reveal_strlit("I");
    assert("I"@.len() == 1 && "I"@[0] == 'I');
    reveal_strlit("J");
    assert("J"@.len() == 1 && "J"@[0] == 'J');
    reveal_strlit("K");
    assert("K"@.len() == 1 && "K"@[0] == 'K');
    reveal_strlit("L");
    assert("L"@.len() == 1 && "L"@[0] == 'L');
    reveal_strlit("M");
    assert("M"@.len() == 1 && "M"@[0] == 'M');
    reveal_strlit("N");
    assert("N"@.len() == 1 && "N"@[0] == 'N');
    reveal_strlit("O");
    assert("O"@.len() == 1 && "O"@[0] == 'O');
    reveal_strlit("P");
    assert("P"@.len() == 1 && "P"@[0] == 'P');
    reveal_strlit("Q");
    assert("Q"@.len() == 1 && "Q"@[0] == 'Q');
    reveal_strlit("R");
    assert("R"@.len() == 1 && "R"@[0] == 'R');
    reveal_strlit("S");
    assert("S"@.len() == 1 && "S"@[0] == 'S');
    reveal_strlit("T");
    assert("T"@.len() == 1 && "T"@[0] == 'T');
    reveal_strlit("U");
    assert("U"@.len() == 1 && "U"@[0] == 'U');
    reveal_strlit("V");
    assert("V"@.len() == 1 && "V"@[0] == 'V');
    reveal_strlit("W");
    assert("W"@.len() == 1 && "W"@[0] == 'W');
    reveal_strlit("X");
    assert("X"@.len() == 1 && "X"@[0] == 'X');
    reveal_strlit("Y");
    assert("Y"@.len() == 1 && "Y"@[0] == 'Y');
    reveal_strlit("Z");
    assert("Z"@.len() == 1 && "Z"@[0] == 'Z');
    reveal_strlit("F1");
    assert("F1"@.len() == 2 && "F1"@[0] == 'F' && "F1"@[1] == '1');
    reveal_strlit("F2");
    assert("F2"@.len() == 2 && "F2"@[0] == 'F' && "F2"@[1] == '2');
    reveal_strlit("F3");
    assert("F3"@.len() == 2 && "F3"@[0] == 'F' && "F3"@[1] == '3');
    reveal_strlit("F4");
    assert("F4"@.len() == 2 && "F4"@[0] == 'F' && "F4"@[1] == '4');

}

/// Names F5 to NUMPAD0 of the label table pick their keys and are
/// names of those keys.
#[verifier::rlimit(60)]
proof fn lemma_label_table_4()
    ensures
        key_for_label("F5"@) == Some(KeyCode::F5),
        is_key_name("F5"@, KeyCode::F5),
        key_for_label("F6"@) == Some(KeyCode::F6),
        is_key_name("F6"@, KeyCode::F6),
        key_for_label("F7"@) == Some(KeyCode::F7),
        is_key_name("F7"@, KeyCode::F7),
        key_for_label("F8"@) == Some(KeyCode::F8),
        is_key_name("F8"@, KeyCode::F8),
        key_for_label("F9"@) == Some(KeyCode::F9),
        is_key_name("F9"@, KeyCode::F9),
        key_for_label("F10"@) == Some(KeyCode::F10),
        is_key_name("F10"@, KeyCode::F10),
        key_for_label("F11"@) == Some(KeyCode::F11),
        is_key_name("F11"@, KeyCode::F11),
        key_for_label("F12"@) == Some(KeyCode::F12),
        is_key_name("F12"@, KeyCode::F12),
        key_for_label("KP0"@) == Some(KeyCode::Kp0),
        is_key_name("KP0"@, KeyCode::Kp0),
        key_for_label("NUMPAD0"@) == Some(KeyCode::Kp0),
        is_key_name("NUMPAD0"@, KeyCode::Kp0),
{
    reveal_strlit("0");
    assert("0"@.len() == 1 && "0"@[0] == '0');
    reveal_strlit("1");
    assert("1"@.len() == 1 && "1"@[0] == '1');
    reveal_strlit("2");
    assert("2"@.len() == 1 && "2"@[0] == '2');
    reveal_strlit("3");
    assert("3"@.len() == 1 && "3"@[0] == '3');
    reveal_strlit("4");
    assert("4"@.len() == 1 && "4"@[0] == '4');
    reveal_strlit("5");
    assert("5"@.len() == 1 && "5"@[0] == '5');
    reveal_strlit("6");
    assert("6"@.len() == 1 && "6"@[0] == '6');
    reveal_strlit("7");
    assert("7"@.len() == 1 && "7"@[0] == '7');
    reveal_strlit("8");
    assert("8"@.len() == 1 && "8"@[0] == '8');
    reveal_strlit("9");
    assert("9"@.len() == 1 && "9"@[0] == '9');
    reveal_strlit("A");
    assert("A"@.len() == 1 && "A"@[0] == 'A');
    reveal_strlit("B");
    assert("B"@.len() == 1 && "B"@[0] == 'B');
    reveal_strlit("C");
    assert("C"@.len() == 1 && "C"@[0] == 'C');
    reveal_strlit("D");
    assert("D"@.len() == 1 && "D"@[0] == 'D');
    reveal_strlit("E");
    assert("E"@.len() == 1 && "E"@[0] == 'E');
    reveal_strlit("F");
    assert("F"@.len() == 1 && "F"@[0] == 'F');
    reveal_strlit("G");
    assert("G"@.len() == 1 && "G"@[0] == 'G');
    reveal_strlit("H");
    assert("H"@.len() == 1 && "H"@[0] == 'H');
    reveal_strlit("I");
    assert("I"@.len() == 1 && "I"@[0] == 'I');
    reveal_strlit("J");
    assert("J"@.len() == 1 && "J"@[0] == 'J');
    reveal_strlit("K");
    assert("K"@.len() == 1 && "K"@[0] == 'K');
    reveal_strlit("L");
    assert("L"@.len() == 1 && "L"@[0] == 'L');
    reveal_strlit("M");
    assert("M"@.len() == 1 && "M"@[0] == 'M');
    reveal_strlit("N");
    assert("N"@.len() == 1 && "N"@[0] == 'N');
    reveal_strlit("O");
    assert("O"@.len() == 1 && "O"@[0] == 'O');
    reveal_strlit("P");
    assert("P"@.len() == 1 && "P"@[0] == 'P');
    reveal_strlit("Q");
    assert("Q"@.len() == 1 && "Q"@[0] == 'Q');
    reveal_strlit("R");
    assert("R"@.len() == 1 && "R"@[0] == 'R');
    reveal_strlit("S");
    assert("S"@.len() == 1 && "S"@[0] == 'S');
    reveal_strlit("T");
    assert("T"@.len() == 1 && "T"@[0] == 'T');
    reveal_strlit("U");
    assert("U"@.len() == 1 && "U"@[0] == 'U');
    reveal_strlit("V");
    assert("V"@.len() == 1 && "V"@[0] == 'V');
    reveal_strlit("W");
    assert("W"@.len() == 1 && "W"@[0] == 'W');
    reveal_strlit("X");
    assert("X"@.len() == 1 && "X"@[0] == 'X');
    reveal_strlit("Y");
    assert("Y"@.len() == 1 && "Y"@[0] == 'Y');
    reveal_strlit("Z");
    assert("Z"@.len() == 1 && "Z"@[0] == 'Z');
    reveal_strlit("F1");
    assert("F1"@.len() == 2 && "F1"@[0] == 'F' && "F1"@[1] == '1');
    reveal_strlit("F2");
    assert("F2"@.len() == 2 && "F2"@[0] == 'F' && "F2"@[1] == '2');
    reveal_strlit("F3");
    assert("F3"@.len() == 2 && "F3"@[0] == 'F' && "F3"@[1] == '3');
    reveal_strlit("F4");
    assert("F4"@.len() == 2 && "F4"@[0] == 'F' && "F4"@[1] == '4');
    reveal_strlit("F5");
    assert("F5"@.len() == 2 && "F5"@[0] == 'F' && "F5"@[1] == '5');
    reveal_strlit("F6");
    assert("F6"@.len() == 2 && "F6"@[0] == 'F' && "F6"@[1] == '6');
    reveal_strlit("F7");
    assert("F7"@.len() == 2 && "F7"@[0] == 'F' && "F7"@[1] == '7');
    reveal_strlit("F8");
    assert("F8"@.len() == 2 && "F8"@[0] == 'F' && "F8"@[1] == '8');
    reveal_strlit("F9");
    assert("F9"@.len() == 2 && "F9"@[0] == 'F' && "F9"@[1] == '9');
    reveal_strlit("F10");
    assert("F10"@.len() == 3 && "F10"@[0] == 'F' && "F10"@[1] == '1' && "F10"@[2] == '0');
    reveal_strlit("F11");
    assert("F11"@.len() == 3 && "F11"@[0] == 'F' && "F11"@[1] == '1' && "F11"@[2] == '1');
    reveal_strlit("F12");
    assert("F12"@.len() == 3 && "F12"@[0] == 'F' && "F12"@[1] == '1' && "F12"@[2] == '2');
    reveal_strlit("KP0");
    assert("KP0"@.len() == 3 && "KP0"@[0] == 'K' && "KP0"@[1] == 'P' && "KP0"@[2] == '0');
    reveal_strlit("NUMPAD0");
    assert("NUMPAD0"@.len() == 7 && "NUMPAD0"@[0] == 'N' && "NUMPAD0"@[1] == 'U' && "NUMPAD0"@[2] == 'M' && "NUMPAD0"@[3] == 'P' && "NUMPAD0"@[4] == 'A' && "NUMPAD0"@[5] == 'D' && "NUMPAD0"@[6] == '0');

}

/// Names KP1 to NUMPAD5 of the label table pick their keys and are
/// names of those keys.
#[verifier::rlimit(60)]
proof fn lemma_label_table_5()
    ensures
        key_for_label("KP1"@) == Some(KeyCode::Kp1),
        is_key_name("KP1"@, KeyCode::Kp1),
        key_for_label("NUMPAD1"@) == Some(KeyCode::Kp1),
        is_key_name("NUMPAD1"@, KeyCode::Kp1),
        key_for_label("KP2"@) == Some(KeyCode::Kp2),
        is_key_name("KP2"@, KeyCode::Kp2),
        key_for_label("NUMPAD2"@) == Some(KeyCode::Kp2),
        is_key_name("NUMPAD2"@, KeyCode::Kp2),
        key_for_label("KP3"@) == Some(KeyCode::Kp3),
        is_key_name("KP3"@, KeyCode::Kp3),
        key_for_label("NUMPAD3"@) == Some(KeyCode::Kp3),
        is_key_name("NUMPAD3"@, KeyCode::Kp3),
        key_for_label("KP4"@) == Some(KeyCode::Kp4),
        is_key_name("KP4"@, KeyCode::Kp4),
        key_for_label("NUMPAD4"@) == Some(KeyCode::Kp4),
        is_key_name("NUMPAD4"@, KeyCode::Kp4),
        key_for_label("KP5"@) == Some(KeyCode::Kp5),
        is_key_name("KP5"@, KeyCode::Kp5),
        key_for_label("NUMPAD5"@) == Some(KeyCode::Kp5),
        is_key_name("NUMPAD5"@, KeyCode::Kp5),
{
    reveal_strlit("0");
    assert("0"@.len() == 1 && "0"@[0] == '0');
    reveal_strlit("1");
    assert("1"@.len() == 1 && "1"@[0] == '1');
    reveal_strlit("2");
    assert("2"@.len() == 1 && "2"@[0] == '2');
    reveal_strlit("3");
    assert("3"@.len() == 1 && "3"@[0] == '3');
    reveal_strlit("4");
    assert("4"@.len() == 1 && "4"@[0] == '4');
    reveal_strlit("5");
    assert("5"@.len() == 1 && "5"@[0] == '5');
    reveal_strlit("6");
    assert("6"@.len() == 1 && "6"@[0] == '6');
    reveal_strlit("7");
    assert("7"@.len() == 1 && "7"@[0] == '7');
    reveal_strlit("8");
    assert("8"@.len() == 1 && "8"@[0] == '8');
    reveal_strlit("9");
    assert("9"@.len() == 1 && "9"@[0] == '9');
    reveal_strlit("A");
    assert("A"@.len() == 1 && "A"@[0] == 'A');
    reveal_strlit("B");
    assert("B"@.len() == 1 && "B"@[0] == 'B');
    reveal_strlit("C");
    assert("C"@.len() == 1 && "C"@[0] == 'C');
    reveal_strlit("D");
    assert("D"@.len() == 1 && "D"@[0] == 'D');
    reveal_strlit("E");
    assert("E"@.len() == 1 && "E"@[0] == 'E');
    reveal_strlit("F");
    assert("F"@.len() == 1 && "F"@[0] == 'F');
    reveal_strlit("G");
    assert("G"@.len() == 1 && "G"@[0] == 'G');
    reveal_strlit("H");
    assert("H"@.len() == 1 && "H"@[0] == 'H');
    reveal_strlit("I");
    assert("I"@.len() == 1 && "I"@[0] == 'I');
    reveal_strlit("J");
    assert("J"@.len() == 1 && "J"@[0] == 'J');
    reveal_strlit("K");
    assert("K"@.len() == 1 && "K"@[0] == 'K');
    reveal_strlit("L");
    assert("L"@.len() == 1 && "L"@[0] == 'L');
    reveal_strlit("M");
    assert("M"@.len() == 1 && "M"@[0] == 'M');
    reveal_strlit("N");
    assert("N"@.len() == 1 && "N"@[0] == 'N');
    reveal_strlit("O");
    assert("O"@.len() == 1 && "O"@[0] == 'O');
    reveal_strlit("P");
    assert("P"@.len() == 1 && "P"@[0] == 'P');
    reveal_strlit("Q");
    assert("Q"@.len() == 1 && "Q"@[0] == 'Q');
    reveal_strlit("R");
    assert("R"@.len() == 1 && "R"@[0] == 'R');
    reveal_strlit("S");
    assert("S"@.len() == 1 && "S"@[0] == 'S');
    reveal_strlit("T");
    assert("T"@.len() == 1 && "T"@[0] == 'T');
    reveal_strlit("U");
    assert("U"@.len() == 1 && "U"@[0] == 'U');
    reveal_strlit("V");
    assert("V"@.len() == 1 && "V"@[0] == 'V');
    reveal_strlit("W");
    assert("W"@.len() == 1 && "W"@[0] == 'W');
    reveal_strlit("X");
    assert("X"@.len() == 1 && "X"@[0] == 'X');
    reveal_strlit("Y");
    assert("Y"@.len() == 1 && "Y"@[0] == 'Y');
    reveal_strlit("Z");
    assert("Z"@.len() == 1 && "Z"@[0] == 'Z');
    reveal_strlit("F1");
    assert("F1"@.len() == 2 && "F1"@[0] == 'F' && "F1"@[1] == '1');
    reveal_strlit("F2");
    assert("F2"@.len() == 2 && "F2"@[0] == 'F' && "F2"@[1] == '2');
    reveal_strlit("F3");
    assert("F3"@.len() == 2 && "F3"@[0] == 'F' && "F3"@[1] == '3');
    reveal_strlit("F4");
    assert("F4"@.len() == 2 && "F4"@[0] == 'F' && "F4"@[1] == '4');
    reveal_strlit("F5");
    assert("F5"@.len() == 2 && "F5"@[0] == 'F' && "F5"@[1] == '5');
    reveal_strlit("F6");
    assert("F6"@.len() == 2 && "F6"@[0] == 'F' && "F6"@[1] == '6');
    reveal_strlit("F7");
    assert("F7"@.len() == 2 && "F7"@[0] == 'F' && "F7"@[1] == '7');
    reveal_strlit("F8");
    assert("F8"@.len() == 2 && "F8"@[0] == 'F' && "F8"@[1] == '8');
    reveal_strlit("F9");
    assert("F9"@.len() == 2 && "F9"@[0] == 'F' && "F9"@[1] == '9');
    reveal_strlit("F10");
    assert("F10"@.len() == 3 && "F10"@[0] == 'F' && "F10"@[1] == '1' && "F10"@[2] == '0');
    reveal_strlit("F11");
    assert("F11"@.len() == 3 && "F11"@[0] == 'F' && "F11"@[1] == '1' && "F11"@[2] == '1');
    reveal_strlit("F12");
    assert("F12"@.len() == 3 && "F12"@[0] == 'F' && "F12"@[1] == '1' && "F12"@[2] == '2');
    reveal_strlit("KP0");
    assert("KP0"@.len() == 3 && "KP0"@[0] == 'K' && "KP0"@[1] == 'P' && "KP0"@[2] == '0');
    reveal_strlit("NUMPAD0");
    assert("NUMPAD0"@.len() == 7 && "NUMPAD0"@[0] == 'N' && "NUMPAD0"@[1] == 'U' && "NUMPAD0"@[2] == 'M' && "NUMPAD0"@[3] == 'P' && "NUMPAD0"@[4] == 'A' && "NUMPAD0"@[5] == 'D' && "NUMPAD0"@[6] == '0');
    reveal_strlit("KP1");
    assert("KP1"@.len() == 3 && "KP1"@[0] == 'K' && "KP1"@[1] == 'P' && "KP1"@[2] == '1');
    reveal_strlit("NUMPAD1");
    assert("NUMPAD1"@.len() == 7 && "NUMPAD1"@[0] == 'N' && "NUMPAD1"@[1] == 'U' && "NUMPAD1"@[2] == 'M' && "NUMPAD1"@[3] == 'P' && "NUMPAD1"@[4] == 'A' && "NUMPAD1"@[5] == 'D' && "NUMPAD1"@[6] == '1');
    reveal_strlit("KP2");
    assert("KP2"@.len() == 3 && "KP2"@[0] == 'K' && "KP2"@[1] == 'P' && "KP2"@[2] == '2');
    reveal_strlit("NUMPAD2");
    assert("NUMPAD2"@.len() == 7 && "NUMPAD2"@[0] == 'N' && "NUMPAD2"@[1] == 'U' && "NUMPAD2"@[2] == 'M' && "NUMPAD2"@[3] == 'P' && "NUMPAD2"@[4] == 'A' && "NUMPAD2"@[5] == 'D' && "NUMPAD2"@[6] == '2');
    reveal_strlit("KP3");
    assert("KP3"@.len() == 3 && "KP3"@[0] == 'K' && "KP3"@[1] == 'P' && "KP3"@[2] == '3');
    reveal_strlit("NUMPAD3");
    assert("NUMPAD3"@.len() == 7 && "NUMPAD3"@[0] == 'N' && "NUMPAD3"@[1] == 'U' && "NUMPAD3"@[2] == 'M' && "NUMPAD3"@[3] == 'P' && "NUMPAD3"@[4] == 'A' && "NUMPAD3"@[5] == 'D' && "NUMPAD3"@[6] == '3');
    reveal_strlit("KP4");
    assert("KP4"@.len() == 3 && "KP4"@[0] == 'K' && "KP4"@[1] == 'P' && "KP4"@[2] == '4');
    reveal_strlit("NUMPAD4");
    assert("NUMPAD4"@.len() == 7 && "NUMPAD4"@[0] == 'N' && "NUMPAD4"@[1] == 'U' && "NUMPAD4"@[2] == 'M' && "NUMPAD4"@[3] == 'P' && "NUMPAD4"@[4] == 'A' && "NUMPAD4"@[5] == 'D' && "NUMPAD4"@[6] == '4');
    reveal_strlit("KP5");
    assert("KP5"@.len() == 3 && "KP5"@[0] == 'K' && "KP5"@[1] == 'P' && "KP5"@[2] == '5');
    reveal_strlit("NUMPAD5");
    assert("NUMPAD5"@.len() == 7 && "NUMPAD5"@[0] == 'N' && "NUMPAD5"@[1] == 'U' && "NUMPAD5"@[2] == 'M' && "NUMPAD5"@[3] == 'P' && "NUMPAD5"@[4] == 'A' && "NUMPAD5"@[5] == 'D' && "NUMPAD5"@[6] == '5');

}

/// Names KP6 to TAB of the label table pick their keys and are
/// names of those keys.
#[verifier::rlimit(60)]
proof fn lemma_label_table_6()
    ensures
        key_for_label("KP6"@) == Some(KeyCode::Kp6),
        is_key_name("KP6"@, KeyCode::Kp6),
        key_for_label("NUMPAD6"@) == Some(KeyCode::Kp6),
        is_key_name("NUMPAD6"@, KeyCode::Kp6),
        key_for_label("KP7"@) == Some(KeyCode::Kp7),
        is_key_name("KP7"@, KeyCode::Kp7),
        key_for_label("NUMPAD7"@) == Some(KeyCode::Kp7),
        is_key_name("NUMPAD7"@, KeyCode::Kp7),
        key_for_label("KP8"@) == Some(KeyCode::Kp8),
        is_key_name("KP8"@, KeyCode::Kp8),
        key_for_label("NUMPAD8"@) == Some(KeyCode::Kp8),
        is_key_name("NUMPAD8"@, KeyCode::Kp8),
        key_for_label("KP9"@) == Some(KeyCode::Kp9),
        is_key_name("KP9"@, KeyCode::Kp9),
        key_for_label("NUMPAD9"@) == Some(KeyCode::Kp9),
        is_key_name("NUMPAD9"@, KeyCode::Kp9),
        key_for_label("SPACE"@) == Some(KeyCode::Space),
        is_key_name("SPACE"@, KeyCode::Space),
        key_for_label("TAB"@) == Some(KeyCode::Tab),
        is_key_name("TAB"@, KeyCode::Tab),
{
    reveal_strlit("0");
    assert("0"@.len() == 1 && "0"@[0] == '0');
    reveal_strlit("1");
    assert("1"@.len() == 1 && "1"@[0] == '1');
    reveal_strlit("2");
    assert("2"@.len() == 1 && "2"@[0] == '2');
    reveal_strlit("3");
    assert("3"@.len() == 1 && "3"@[0] == '3');
    reveal_strlit("4");
    assert("4"@.len() == 1 && "4"@[0] == '4');
    reveal_strlit("5");
    assert("5"@.len() == 1 && "5"@[0] == '5');
    reveal_strlit("6");
    assert("6"@.len() == 1 && "6"@[0] == '6');
    reveal_strlit("7");
    assert("7"@.len() == 1 && "7"@[0] == '7');
    reveal_strlit("8");
    assert("8"@.len() == 1 && "8"@[0] == '8');
    reveal_strlit("9");
    assert("9"@.len() == 1 && "9"@[0] == '9');
    reveal_strlit("A");
    assert("A"@.len() == 1 && "A"@[0] == 'A');
    reveal_strlit("B");
    assert("B"@.len() == 1 && "B"@[0] == 'B');
    reveal_strlit("C");
    assert("C"@.len() == 1 && "C"@[0] == 'C');
    reveal_strlit("D");
    assert("D"@.len() == 1 && "D"@[0] == 'D');
    reveal_strlit("E");
    assert("E"@.len() == 1 && "E"@[0] == 'E');
    reveal_strlit("F");
    assert("F"@.len() == 1 && "F"@[0] == 'F');
    reveal_strlit("G");
    assert("G"@.len() == 1 && "G"@[0] == 'G');
    reveal_strlit("H");
    assert("H"@.len() == 1 && "H"@[0] == 'H');
    reveal_strlit("I");
    assert("I"@.len() == 1 && "I"@[0] == 'I');
    reveal_strlit("J");
    assert("J"@.len() == 1 && "J"@[0] == 'J');
    reveal_strlit("K");
    assert("K"@.len() == 1 && "K"@[0] == 'K');
    reveal_strlit("L");
    assert("L"@.len() == 1 && "L"@[0] == 'L');
    reveal_strlit("M");
    assert("M"@.len() == 1 && "M"@[0] == 'M');
    reveal_strlit("N");
    assert("N"@.len() == 1 && "N"@[0] == 'N');
    reveal_strlit("O");
    assert("O"@.len() == 1 && "O"@[0] == 'O');
    reveal_strlit("P");
    assert("P"@.len() == 1 && "P"@[0] == 'P');
    reveal_strlit("Q");
    assert("Q"@.len() == 1 && "Q"@[0] == 'Q');
    reveal_strlit("R");
    assert("R"@.len() == 1 && "R"@[0] == 'R');
    reveal_strlit("S");
    assert("S"@.len() == 1 && "S"@[0] == 'S');
    reveal_strlit("T");
    assert("T"@.len() == 1 && "T"@[0] == 'T');
    reveal_strlit("U");
    assert("U"@.len() == 1 && "U"@[0] == 'U');
    reveal_strlit("V");
    assert("V"@.len() == 1 && "V"@[0] == 'V');
    reveal_strlit("W");
    assert("W"@.len() == 1 && "W"@[0] == 'W');
    reveal_strlit("X");
    assert("X"@.len() == 1 && "X"@[0] == 'X');
    reveal_strlit("Y");
    assert("Y"@.len() == 1 && "Y"@[0] == 'Y');
    reveal_strlit("Z");
    assert("Z"@.len() == 1 && "Z"@[0] == 'Z');
    reveal_strlit("F1");
    assert("F1"@.len() == 2 && "F1"@[0] == 'F' && "F1"@[1] == '1');
    reveal_strlit("F2");
    assert("F2"@.len() == 2 && "F2"@[0] == 'F' && "F2"@[1] == '2');
    reveal_strlit("F3");
    assert("F3"@.len() == 2 && "F3"@[0] == 'F' && "F3"@[1] == '3');
    reveal_strlit("F4");
    assert("F4"@.len() == 2 && "F4"@[0] == 'F' && "F4"@[1] == '4');
    reveal_strlit("F5");
    assert("F5"@.len() == 2 && "F5"@[0] == 'F' && "F5"@[1] == '5');
    reveal_strlit("F6");
    assert("F6"@.len() == 2 && "F6"@[0] == 'F' && "F6"@[1] == '6');
    reveal_strlit("F7");
    assert("F7"@.len() == 2 && "F7"@[0] == 'F' && "F7"@[1] == '7');
    reveal_strlit("F8");
    assert("F8"@.len() == 2 && "F8"@[0] == 'F' && "F8"@[1] == '8');
    reveal_strlit("F9");
    assert("F9"@.len() == 2 && "F9"@[0] == 'F' && "F9"@[1] == '9');
    reveal_strlit("F10");
    assert("F10"@.len() == 3 && "F10"@[0] == 'F' && "F10"@[1] == '1' && "F10"@[2] == '0');
    reveal_strlit("F11");
    assert("F11"@.len() == 3 && "F11"@[0] == 'F' && "F11"@[1] == '1' && "F11"@[2] == '1');
    reveal_strlit("F12");
    assert("F12"@.len() == 3 && "F12"@[0] == 'F' && "F12"@[1] == '1' && "F12"@[2] == '2');
    reveal_strlit("KP0");
    assert("KP0"@.len() == 3 && "KP0"@[0] == 'K' && "KP0"@[1] == 'P' && "KP0"@[2] == '0');
    reveal_strlit("NUMPAD0");
    assert("NUMPAD0"@.len() == 7 && "NUMPAD0"@[0] == 'N' && "NUMPAD0"@[1] == 'U' && "NUMPAD0"@[2] == 'M' && "NUMPAD0"@[3] == 'P' && "NUMPAD0"@[4] == 'A' && "NUMPAD0"@[5] == 'D' && "NUMPAD0"@[6] == '0');
    reveal_strlit("KP1");
    assert("KP1"@.len() == 3 && "KP1"@[0] == 'K' && "KP1"@[1] == 'P' && "KP1"@[2] == '1');
    reveal_strlit("NUMPAD1");
    assert("NUMPAD1"@.len() == 7 && "NUMPAD1"@[0] == 'N' && "NUMPAD1"@[1] == 'U' && "NUMPAD1"@[2] == 'M' && "NUMPAD1"@[3] == 'P' && "NUMPAD1"@[4] == 'A' && "NUMPAD1"@[5] == 'D' && "NUMPAD1"@[6] == '1');
    reveal_strlit("KP2");
    assert("KP2"@.len() == 3 && "KP2"@[0] == 'K' && "KP2"@[1] == 'P' && "KP2"@[2] == '2');
    reveal_strlit("NUMPAD2");
    assert("NUMPAD2"@.len() == 7 && "NUMPAD2"@[0] == 'N' && "NUMPAD2"@[1] == 'U' && "NUMPAD2"@[2] == 'M' && "NUMPAD2"@[3] == 'P' && "NUMPAD2"@[4] == 'A' && "NUMPAD2"@[5] == 'D' && "NUMPAD2"@[6] == '2');
    reveal_strlit("KP3");
    assert("KP3"@.len() == 3 && "KP3"@[0] == 'K' && "KP3"@[1] == 'P' && "KP3"@[2] == '3');
    reveal_strlit("NUMPAD3");
    assert("NUMPAD3"@.len() == 7 && "NUMPAD3"@[0] == 'N' && "NUMPAD3"@[1] == 'U' && "NUMPAD3"@[2] == 'M' && "NUMPAD3"@[3] == 'P' && "NUMPAD3"@[4] == 'A' && "NUMPAD3"@[5] == 'D' && "NUMPAD3"@[6] == '3');
    reveal_strlit("KP4");
    assert("KP4"@.len() == 3 && "KP4"@[0] == 'K' && "KP4"@[1] == 'P' && "KP4"@[2] == '4');
    reveal_strlit("NUMPAD4");
    assert("NUMPAD4"@.len() == 7 && "NUMPAD4"@[0] == 'N' && "NUMPAD4"@[1] == 'U' && "NUMPAD4"@[2] == 'M' && "NUMPAD4"@[3] == 'P' && "NUMPAD4"@[4] == 'A' && "NUMPAD4"@[5] == 'D' && "NUMPAD4"@[6] == '4');
    reveal_strlit("KP5");
    assert("KP5"@.len() == 3 && "KP5"@[0] == 'K' && "KP5"@[1] == 'P' && "KP5"@[2] == '5');
    reveal_strlit("NUMPAD5");
    assert("NUMPAD5"@.len() == 7 && "NUMPAD5"@[0] == 'N' && "NUMPAD5"@[1] == 'U' && "NUMPAD5"@[2] == 'M' && "NUMPAD5"@[3] == 'P' && "NUMPAD5"@[4] == 'A' && "NUMPAD5"@[5] == 'D' && "NUMPAD5"@[6] == '5');
    reveal_strlit("KP6");
    assert("KP6"@.len() == 3 && "KP6"@[0] == 'K' && "KP6"@[1] == 'P' && "KP6"@[2] == '6');
    reveal_strlit("NUMPAD6");
    assert("NUMPAD6"@.len() == 7 && "NUMPAD6"@[0] == 'N' && "NUMPAD6"@[1] == 'U' && "NUMPAD6"@[2] == 'M' && "NUMPAD6"@[3] == 'P' && "NUMPAD6"@[4] == 'A' && "NUMPAD6"@[5] == 'D' && "NUMPAD6"@[6] == '6');
    reveal_strlit("KP7");
    assert("KP7"@.len() == 3 && "KP7"@[0] == 'K' && "KP7"@[1] == 'P' && "KP7"@[2] == '7');
    reveal_strlit("NUMPAD7");
    assert("NUMPAD7"@.len() == 7 && "NUMPAD7"@[0] == 'N' && "NUMPAD7"@[1] == 'U' && "NUMPAD7"@[2] == 'M' && "NUMPAD7"@[3] == 'P' && "NUMPAD7"@[4] == 'A' && "NUMPAD7"@[5] == 'D' && "NUMPAD7"@[6] == '7');
    reveal_strlit("KP8");
    assert("KP8"@.len() == 3 && "KP8"@[0] == 'K' && "KP8"@[1] == 'P' && "KP8"@[2] == '8');
    reveal_strlit("NUMPAD8");
    assert("NUMPAD8"@.len() == 7 && "NUMPAD8"@[0] == 'N' && "NUMPAD8"@[1] == 'U' && "NUMPAD8"@[2] == 'M' && "NUMPAD8"@[3] == 'P' && "NUMPAD8"@[4] == 'A' && "NUMPAD8"@[5] == 'D' && "NUMPAD8"@[6] == '8');
    reveal_strlit("KP9");
    assert("KP9"@.len() == 3 && "KP9"@[0] == 'K' && "KP9"@[1] == 'P' && "KP9"@[2] == '9');
    reveal_strlit("NUMPAD9");
    assert("NUMPAD9"@.len() == 7 && "NUMPAD9"@[0] == 'N' && "NUMPAD9"@[1] == 'U' && "NUMPAD9"@[2] == 'M' && "NUMPAD9"@[3] == 'P' && "NUMPAD9"@[4] == 'A' && "NUMPAD9"@[5] == 'D' && "NUMPAD9"@[6] == '9');
    reveal_strlit("SPACE");
    assert("SPACE"@.len() == 5 && "SPACE"@[0] == 'S' && "SPACE"@[1] == 'P' && "SPACE"@[2] == 'A' && "SPACE"@[3] == 'C' && "SPACE"@[4] == 'E');
    reveal_strlit("TAB");
    assert("TAB"@.len() == 3 && "TAB"@[0] == 'T' && "TAB"@[1] == 'A' && "TAB"@[2] == 'B');

}

/// Names ENTER to PAGEUP of the label table pick their keys and are
/// names of those keys.
#[verifier::rlimit(60)]
proof fn lemma_label_table_7()
    ensures
        key_for_label("ENTER"@) == Some(KeyCode::Return),
        is_key_name("ENTER"@, KeyCode::Return),
        key_for_label("RETURN"@) == Some(KeyCode::Return),
        is_key_name("RETURN"@, KeyCode::Return),
        key_for_label("BACKSPACE"@) == Some(KeyCode::Backspace),
        is_key_name("BACKSPACE"@, KeyCode::Backspace),
        key_for_label("DELETE"@) == Some(KeyCode::Delete),
        is_key_name("DELETE"@, KeyCode::Delete),
        key_for_label("DEL"@) == Some(KeyCode::Delete),
        is_key_name("DEL"@, KeyCode::Delete),
        key_for_label("INSERT"@) == Some(KeyCode::Insert),
        is_key_name("INSERT"@, KeyCode::Insert),
        key_for_label("INS"@) == Some(KeyCode::Insert),
        is_key_name("INS"@, KeyCode::Insert),
        key_for_label("HOME"@) == Some(KeyCode::Home),
        is_key_name("HOME"@, KeyCode::Home),
        key_for_label("END"@) == Some(KeyCode::End),
        is_key_name("END"@, KeyCode::End),
        key_for_label("PAGEUP"@) == Some(KeyCode::PageUp),
        is_key_name("PAGEUP"@, KeyCode::PageUp),
{
    reveal_strlit("0");
    assert("0"@.len() == 1 && "0"@[0] == '0');
    reveal_strlit("1");
    assert("1"@.len() == 1 && "1"@[0] == '1');
    reveal_strlit("2");
    assert("2"@.len() == 1 && "2"@[0] == '2');
    reveal_strlit("3");
    assert("3"@.len() == 1 && "3"@[0] == '3');
    reveal_strlit("4");
    assert("4"@.len() == 1 && "4"@[0] == '4');
    reveal_strlit("5");
    assert("5"@.len() == 1 && "5"@[0] == '5');
    reveal_strlit("6");
    assert("6"@.len() == 1 && "6"@[0] == '6');
    reveal_strlit("7");
    assert("7"@.len() == 1 && "7"@[0] == '7');
    reveal_strlit("8");
    assert("8"@.len() == 1 && "8"@[0] == '8');
    reveal_strlit("9");
    assert("9"@.len() == 1 && "9"@[0] == '9');
    reveal_strlit("A");
    assert("A"@.len() == 1 && "A"@[0] == 'A');
    reveal_strlit("B");
    assert("B"@.len() == 1 && "B"@[0] == 'B');
    reveal_strlit("C");
    assert("C"@.len() == 1 && "C"@[0] == 'C');
    reveal_strlit("D");
    assert("D"@.len() == 1 && "D"@[0] == 'D');
    reveal_strlit("E");
    assert("E"@.len() == 1 && "E"@[0] == 'E');
    reveal_strlit("F");
    assert("F"@.len() == 1 && "F"@[0] == 'F');
    reveal_strlit("G");
    assert("G"@.len() == 1 && "G"@[0] == 'G');
    reveal_strlit("H");
    assert("H"@.len() == 1 && "H"@[0] == 'H');
    reveal_strlit("I");
    assert("I"@.len() == 1 && "I"@[0] == 'I');
    reveal_strlit("J");
    assert("J"@.len() == 1 && "J"@[0] == 'J');
    reveal_strlit("K");
    assert("K"@.len() == 1 && "K"@[0] == 'K');
    reveal_strlit("L");
    assert("L"@.len() == 1 && "L"@[0] == 'L');
    reveal_strlit("M");
    assert("M"@.len() == 1 && "M"@[0] == 'M');
    reveal_strlit("N");
    assert("N"@.len() == 1 && "N"@[0] == 'N');
    reveal_strlit("O");
    assert("O"@.len() == 1 && "O"@[0] == 'O');
    reveal_strlit("P");
    assert("P"@.len() == 1 && "P"@[0] == 'P');
    reveal_strlit("Q");
    assert("Q"@.len() == 1 && "Q"@[0] == 'Q');
    reveal_strlit("R");
    assert("R"@.len() == 1 && "R"@[0] == 'R');
    reveal_strlit("S");
    assert("S"@.len() == 1 && "S"@[0] == 'S');
    reveal_strlit("T");
    assert("T"@.len() == 1 && "T"@[0] == 'T');
    reveal_strlit("U");
    assert("U"@.len() == 1 && "U"@[0] == 'U');
    reveal_strlit("V");
    assert("V"@.len() == 1 && "V"@[0] == 'V');
    reveal_strlit("W");
    assert("W"@.len() == 1 && "W"@[0] == 'W');
    reveal_strlit("X");
    assert("X"@.len() == 1 && "X"@[0] == 'X');
    reveal_strlit("Y");
    assert("Y"@.len() == 1 && "Y"@[0] == 'Y');
    reveal_strlit("Z");
    assert("Z"@.len() == 1 && "Z"@[0] == 'Z');
    reveal_strlit("F1");
    assert("F1"@.len() == 2 && "F1"@[0] == 'F' && "F1"@[1] == '1');
    reveal_strlit("F2");
    assert("F2"@.len() == 2 && "F2"@[0] == 'F' && "F2"@[1] == '2');
    reveal_strlit("F3");
    assert("F3"@.len() == 2 && "F3"@[0] == 'F' && "F3"@[1] == '3');
    reveal_strlit("F4");
    assert("F4"@.len() == 2 && "F4"@[0] == 'F' && "F4"@[1] == '4');
    reveal_strlit("F5");
    assert("F5"@.len() == 2 && "F5"@[0] == 'F' && "F5"@[1] == '5');
    reveal_strlit("F6");
    assert("F6"@.len() == 2 && "F6"@[0] == 'F' && "F6"@[1] == '6');
    reveal_strlit("F7");
    assert("F7"@.len() == 2 && "F7"@[0] == 'F' && "F7"@[1] == '7');
    reveal_strlit("F8");
    assert("F8"@.len() == 2 && "F8"@[0] == 'F' && "F8"@[1] == '8');
    reveal_strlit("F9");
    assert("F9"@.len() == 2 && "F9"@[0] == 'F' && "F9"@[1] == '9');
    reveal_strlit("F10");
    assert("F10"@.len() == 3 && "F10"@[0] == 'F' && "F10"@[1] == '1' && "F10"@[2] == '0');
    reveal_strlit("F11");
    assert("F11"@.len() == 3 && "F11"@[0] == 'F' && "F11"@[1] == '1' && "F11"@[2] == '1');
    reveal_strlit("F12");
    assert("F12"@.len() == 3 && "F12"@[0] == 'F' && "F12"@[1] == '1' && "F12"@[2] == '2');
    reveal_strlit("KP0");
    assert("KP0"@.len() == 3 && "KP0"@[0] == 'K' && "KP0"@[1] == 'P' && "KP0"@[2] == '0');
    reveal_strlit("NUMPAD0");
    assert("NUMPAD0"@.len() == 7 && "NUMPAD0"@[0] == 'N' && "NUMPAD0"@[1] == 'U' && "NUMPAD0"@[2] == 'M' && "NUMPAD0"@[3] == 'P' && "NUMPAD0"@[4] == 'A' && "NUMPAD0"@[5] == 'D' && "NUMPAD0"@[6] == '0');
    reveal_strlit("KP1");
    assert("KP1"@.len() == 3 && "KP1"@[0] == 'K' && "KP1"@[1] == 'P' && "KP1"@[2] == '1');
    reveal_strlit("NUMPAD1");
    assert("NUMPAD1"@.len() == 7 && "NUMPAD1"@[0] == 'N' && "NUMPAD1"@[1] == 'U' && "NUMPAD1"@[2] == 'M' && "NUMPAD1"@[3] == 'P' && "NUMPAD1"@[4] == 'A' && "NUMPAD1"@[5] == 'D' && "NUMPAD1"@[6] == '1');
    reveal_strlit("KP2");
    assert("KP2"@.len() == 3 && "KP2"@[0] == 'K' && "KP2"@[1] == 'P' && "KP2"@[2] == '2');
    reveal_strlit("NUMPAD2");
    assert("NUMPAD2"@.len() == 7 && "NUMPAD2"@[0] == 'N' && "NUMPAD2"@[1] == 'U' && "NUMPAD2"@[2] == 'M' && "NUMPAD2"@[3] == 'P' && "NUMPAD2"@[4] == 'A' && "NUMPAD2"@[5] == 'D' && "NUMPAD2"@[6] == '2');
    reveal_strlit("KP3");
    assert("KP3"@.len() == 3 && "KP3"@[0] == 'K' && "KP3"@[1] == 'P' && "KP3"@[2] == '3');
    reveal_strlit("NUMPAD3");
    assert("NUMPAD3"@.len() == 7 && "NUMPAD3"@[0] == 'N' && "NUMPAD3"@[1] == 'U' && "NUMPAD3"@[2] == 'M' && "NUMPAD3"@[3] == 'P' && "NUMPAD3"@[4] == 'A' && "NUMPAD3"@[5] == 'D' && "NUMPAD3"@[6] == '3');
    reveal_strlit("KP4");
    assert("KP4"@.len() == 3 && "KP4"@[0] == 'K' && "KP4"@[1] == 'P' && "KP4"@[2] == '4');
    reveal_strlit("NUMPAD4");
    assert("NUMPAD4"@.len() == 7 && "NUMPAD4"@[0] == 'N' && "NUMPAD4"@[1] == 'U' && "NUMPAD4"@[2] == 'M' && "NUMPAD4"@[3] == 'P' && "NUMPAD4"@[4] == 'A' && "NUMPAD4"@[5] == 'D' && "NUMPAD4"@[6] == '4');
    reveal_strlit("KP5");
    assert("KP5"@.len() == 3 && "KP5"@[0] == 'K' && "KP5"@[1] == 'P' && "KP5"@[2] == '5');
    reveal_strlit("NUMPAD5");
    assert("NUMPAD5"@.len() == 7 && "NUMPAD5"@[0] == 'N' && "NUMPAD5"@[1] == 'U' && "NUMPAD5"@[2] == 'M' && "NUMPAD5"@[3] == 'P' && "NUMPAD5"@[4] == 'A' && "NUMPAD5"@[5] == 'D' && "NUMPAD5"@[6] == '5');
    reveal_strlit("KP6");
    assert("KP6"@.len() == 3 && "KP6"@[0] == 'K' && "KP6"@[1] == 'P' && "KP6"@[2] == '6');
    reveal_strlit("NUMPAD6");
    assert("NUMPAD6"@.len() == 7 && "NUMPAD6"@[0] == 'N' && "NUMPAD6"@[1] == 'U' && "NUMPAD6"@[2] == 'M' && "NUMPAD6"@[3] == 'P' && "NUMPAD6"@[4] == 'A' && "NUMPAD6"@[5] == 'D' && "NUMPAD6"@[6] == '6');
    reveal_strlit("KP7");
    assert("KP7"@.len() == 3 && "KP7"@[0] == 'K' && "KP7"@[1] == 'P' && "KP7"@[2] == '7');
    reveal_strlit("NUMPAD7");
    assert("NUMPAD7"@.len() == 7 && "NUMPAD7"@[0] == 'N' && "NUMPAD7"@[1] == 'U' && "NUMPAD7"@[2] == 'M' && "NUMPAD7"@[3] == 'P' && "NUMPAD7"@[4] == 'A' && "NUMPAD7"@[5] == 'D' && "NUMPAD7"@[6] == '7');
    reveal_strlit("KP8");
    assert("KP8"@.len() == 3 && "KP8"@[0] == 'K' && "KP8"@[1] == 'P' && "KP8"@[2] == '8');
    reveal_strlit("NUMPAD8");
    assert("NUMPAD8"@.len() == 7 && "NUMPAD8"@[0] == 'N' && "NUMPAD8"@[1] == 'U' && "NUMPAD8"@[2] == 'M' && "NUMPAD8"@[3] == 'P' && "NUMPAD8"@[4] == 'A' && "NUMPAD8"@[5] == 'D' && "NUMPAD8"@[6] == '8');
    reveal_strlit("KP9");
    assert("KP9"@.len() == 3 && "KP9"@[0] == 'K' && "KP9"@[1] == 'P' && "KP9"@[2] == '9');
    reveal_strlit("NUMPAD9");
    assert("NUMPAD9"@.len() == 7 && "NUMPAD9"@[0] == 'N' && "NUMPAD9"@[1] == 'U' && "NUMPAD9"@[2] == 'M' && "NUMPAD9"@[3] == 'P' && "NUMPAD9"@[4] == 'A' && "NUMPAD9"@[5] == 'D' && "NUMPAD9"@[6] == '9');
    reveal_strlit("SPACE");
    assert("SPACE"@.len() == 5 && "SPACE"@[0] == 'S' && "SPACE"@[1] == 'P' && "SPACE"@[2] == 'A' && "SPACE"@[3] == 'C' && "SPACE"@[4] == 'E');
    reveal_strlit("TAB");
    assert("TAB"@.len() == 3 && "TAB"@[0] == 'T' && "TAB"@[1] == 'A' && "TAB"@[2] == 'B');
    reveal_strlit("ENTER");
    assert("ENTER"@.len() == 5 && "ENTER"@[0] == 'E' && "ENTER"@[1] == 'N' && "ENTER"@[2] == 'T' && "ENTER"@[3] == 'E' && "ENTER"@[4] == 'R');
    reveal_strlit("RETURN");
    assert("RETURN"@.len() == 6 && "RETURN"@[0] == 'R' && "RETURN"@[1] == 'E' && "RETURN"@[2] == 'T' && "RETURN"@[3] == 'U' && "RETURN"@[4] == 'R' && "RETURN"@[5] == 'N');
    reveal_strlit("BACKSPACE");
    assert("BACKSPACE"@.len() == 9 && "BACKSPACE"@[0] == 'B' && "BACKSPACE"@[1] == 'A' && "BACKSPACE"@[2] == 'C' && "BACKSPACE"@[3] == 'K' && "BACKSPACE"@[4] == 'S' && "BACKSPACE"@[5] == 'P' && "BACKSPACE"@[6] == 'A' && "BACKSPACE"@[7] == 'C' && "BACKSPACE"@[8] == 'E');
    reveal_strlit("DELETE");
    assert("DELETE"@.len() == 6 && "DELETE"@[0] == 'D' && "DELETE"@[1] == 'E' && "DELETE"@[2] == 'L' && "DELETE"@[3] == 'E' && "DELETE"@[4] == 'T' && "DELETE"@[5] == 'E');
    reveal_strlit("DEL");
    assert("DEL"@.len() == 3 && "DEL"@[0] == 'D' && "DEL"@[1] == 'E' && "DEL"@[2] == 'L');
    reveal_strlit("INSERT");
    assert("INSERT"@.len() == 6 && "INSERT"@[0] == 'I' && "INSERT"@[1] == 'N' && "INSERT"@[2] == 'S' && "INSERT"@[3] == 'E' && "INSERT"@[4] == 'R' && "INSERT"@[5] == 'T');
    reveal_strlit("INS");
    assert("INS"@.len() == 3 && "INS"@[0] == 'I' && "INS"@[1] == 'N' && "INS"@[2] == 'S');
    reveal_strlit("HOME");
    assert("HOME"@.len() == 4 && "HOME"@[0] == 'H' && "HOME"@[1] == 'O' && "HOME"@[2] == 'M' && "HOME"@[3] == 'E');
    reveal_strlit("END");
    assert("END"@.len() == 3 && "END"@[0] == 'E' && "END"@[1] == 'N' && "END"@[2] == 'D');
    reveal_strlit("PAGEUP");
    assert("PAGEUP"@.len() == 6 && "PAGEUP"@[0] == 'P' && "PAGEUP"@[1] == 'A' && "PAGEUP"@[2] == 'G' && "PAGEUP"@[3] == 'E' && "PAGEUP"@[4] == 'U' && "PAGEUP"@[5] == 'P');

}

/// Names PAGE UP to LEFT of the label table pick their keys and are
/// names of those keys.
#[verifier::rlimit(60)]
proof fn lemma_label_table_8()
    ensures
        key_for_label("PAGE UP"@) == Some(KeyCode::PageUp),
        is_key_name("PAGE UP"@, KeyCode::PageUp),
        key_for_label("PGUP"@) == Some(KeyCode::PageUp),
        is_key_name("PGUP"@, KeyCode::PageUp),
        key_for_label("PAGEDOWN"@) == Some(KeyCode::PageDown),
        is_key_name("PAGEDOWN"@, KeyCode::PageDown),
        key_for_label("PAGE DOWN"@) == Some(KeyCode::PageDown),
        is_key_name("PAGE DOWN"@, KeyCode::PageDown),
        key_for_label("PGDN"@) == Some(KeyCode::PageDown),
        is_key_name("PGDN"@, KeyCode::PageDown),
        key_for_label("UP"@) == Some(KeyCode::UpArrow),
        is_key_name("UP"@, KeyCode::UpArrow),
        key_for_label("ARROWUP"@) == Some(KeyCode::UpArrow),
        is_key_name("ARROWUP"@, KeyCode::UpArrow),
        key_for_label("DOWN"@) == Some(KeyCode::DownArrow),
        is_key_name("DOWN"@, KeyCode::DownArrow),
        key_for_label("ARROWDOWN"@) == Some(KeyCode::DownArrow),
        is_key_name("ARROWDOWN"@, KeyCode::DownArrow),
        key_for_label("LEFT"@) == Some(KeyCode::LeftArrow),
        is_key_name("LEFT"@, KeyCode::LeftArrow),
{
    reveal_strlit("0");
    assert("0"@.len() == 1 && "0"@[0] == '0');
    reveal_strlit("1");
    assert("1"@.len() == 1 && "1"@[0] == '1');
    reveal_strlit("2");
    assert("2"@.len() == 1 && "2"@[0] == '2');
    reveal_strlit("3");
    assert("3"@.len() == 1 && "3"@[0] == '3');
    reveal_strlit("4");
    assert("4"@.len() == 1 && "4"@[0] == '4');
    reveal_strlit("5");
    assert("5"@.len() == 1 && "5"@[0] == '5');
    reveal_strlit("6");
    assert("6"@.len() == 1 && "6"@[0] == '6');
    reveal_strlit("7");
    assert("7"@.len() == 1 && "7"@[0] == '7');
    reveal_strlit("8");
    assert("8"@.len() == 1 && "8"@[0] == '8');
    reveal_strlit("9");
    assert("9"@.len() == 1 && "9"@[0] == '9');
    reveal_strlit("A");
    assert("A"@.len() == 1 && "A"@[0] == 'A');
    reveal_strlit("B");
    assert("B"@.len() == 1 && "B"@[0] == 'B');
    reveal_strlit("C");
    assert("C"@.len() == 1 && "C"@[0] == 'C');
    reveal_strlit("D");
    assert("D"@.len() == 1 && "D"@[0] == 'D');
    reveal_strlit("E");
    assert("E"@.len() == 1 && "E"@[0] == 'E');
    reveal_strlit("F");
    assert("F"@.len() == 1 && "F"@[0] == 'F');
    reveal_strlit("G");
    assert("G"@.len() == 1 && "G"@[0] == 'G');
    reveal_strlit("H");
    assert("H"@.len() == 1 && "H"@[0] == 'H');
    reveal_strlit("I");
    assert("I"@.len() == 1 && "I"@[0] == 'I');
    reveal_strlit("J");
    assert("J"@.len() == 1 && "J"@[0] == 'J');
    reveal_strlit("K");
    assert("K"@.len() == 1 && "K"@[0] == 'K');
    reveal_strlit("L");
    assert("L"@.len() == 1 && "L"@[0] == 'L');
    reveal_strlit("M");
    assert("M"@.len() == 1 && "M"@[0] == 'M');
    reveal_strlit("N");
    assert("N"@.len() == 1 && "N"@[0] == 'N');
    reveal_strlit("O");
    assert("O"@.len() == 1 && "O"@[0] == 'O');
    reveal_strlit("P");
    assert("P"@.len() == 1 && "P"@[0] == 'P');
    reveal_strlit("Q");
    assert("Q"@.len() == 1 && "Q"@[0] == 'Q');
    reveal_strlit("R");
    assert("R"@.len() == 1 && "R"@[0] == 'R');
    reveal_strlit("S");
    assert("S"@.len() == 1 && "S"@[0] == 'S');
    reveal_strlit("T");
    assert("T"@.len() == 1 && "T"@[0] == 'T');
    reveal_strlit("U");
    assert("U"@.len() == 1 && "U"@[0] == 'U');
    reveal_strlit("V");
    assert("V"@.len() == 1 && "V"@[0] == 'V');
    reveal_strlit("W");
    assert("W"@.len() == 1 && "W"@[0] == 'W');
    reveal_strlit("X");
    assert("X"@.len() == 1 && "X"@[0] == 'X');
    reveal_strlit("Y");
    assert("Y"@.len() == 1 && "Y"@[0] == 'Y');
    reveal_strlit("Z");
    assert("Z"@.len() == 1 && "Z"@[0] == 'Z');
    reveal_strlit("F1");
    assert("F1"@.len() == 2 && "F1"@[0] == 'F' && "F1"@[1] == '1');
    reveal_strlit("F2");
    assert("F2"@.len() == 2 && "F2"@[0] == 'F' && "F2"@[1] == '2');
    reveal_strlit("F3");
    assert("F3"@.len() == 2 && "F3"@[0] == 'F' && "F3"@[1] == '3');
    reveal_strlit("F4");
    assert("F4"@.len() == 2 && "F4"@[0] == 'F' && "F4"@[1] == '4');
    reveal_strlit("F5");
    assert("F5"@.len() == 2 && "F5"@[0] == 'F' && "F5"@[1] == '5');
    reveal_strlit("F6");
    assert("F6"@.len() == 2 && "F6"@[0] == 'F' && "F6"@[1] == '6');
    reveal_strlit("F7");
    assert("F7"@.len() == 2 && "F7"@[0] == 'F' && "F7"@[1] == '7');
    reveal_strlit("F8");
    assert("F8"@.len() == 2 && "F8"@[0] == 'F' && "F8"@[1] == '8');
    reveal_strlit("F9");
    assert("F9"@.len() == 2 && "F9"@[0] == 'F' && "F9"@[1] == '9');
    reveal_strlit("F10");
    assert("F10"@.len() == 3 && "F10"@[0] == 'F' && "F10"@[1] == '1' && "F10"@[2] == '0');
    reveal_strlit("F11");
    assert("F11"@.len() == 3 && "F11"@[0] == 'F' && "F11"@[1] == '1' && "F11"@[2] == '1');
    reveal_strlit("F12");
    assert("F12"@.len() == 3 && "F12"@[0] == 'F' && "F12"@[1] == '1' && "F12"@[2] == '2');
    reveal_strlit("KP0");
    assert("KP0"@.len() == 3 && "KP0"@[0] == 'K' && "KP0"@[1] == 'P' && "KP0"@[2] == '0');
    reveal_strlit("NUMPAD0");
    assert("NUMPAD0"@.len() == 7 && "NUMPAD0"@[0] == 'N' && "NUMPAD0"@[1] == 'U' && "NUMPAD0"@[2] == 'M' && "NUMPAD0"@[3] == 'P' && "NUMPAD0"@[4] == 'A' && "NUMPAD0"@[5] == 'D' && "NUMPAD0"@[6] == '0');
    reveal_strlit("KP1");
    assert("KP1"@.len() == 3 && "KP1"@[0] == 'K' && "KP1"@[1] == 'P' && "KP1"@[2] == '1');
    reveal_strlit("NUMPAD1");
    assert("NUMPAD1"@.len() == 7 && "NUMPAD1"@[0] == 'N' && "NUMPAD1"@[1] == 'U' && "NUMPAD1"@[2] == 'M' && "NUMPAD1"@[3] == 'P' && "NUMPAD1"@[4] == 'A' && "NUMPAD1"@[5] == 'D' && "NUMPAD1"@[6] == '1');
    reveal_strlit("KP2");
    assert("KP2"@.len() == 3 && "KP2"@[0] == 'K' && "KP2"@[1] == 'P' && "KP2"@[2] == '2');
    reveal_strlit("NUMPAD2");
    assert("NUMPAD2"@.len() == 7 && "NUMPAD2"@[0] == 'N' && "NUMPAD2"@[1] == 'U' && "NUMPAD2"@[2] == 'M' && "NUMPAD2"@[3] == 'P' && "NUMPAD2"@[4] == 'A' && "NUMPAD2"@[5] == 'D' && "NUMPAD2"@[6] == '2');
    reveal_strlit("KP3");
    assert("KP3"@.len() == 3 && "KP3"@[0] == 'K' && "KP3"@[1] == 'P' && "KP3"@[2] == '3');
    reveal_strlit("NUMPAD3");
    assert("NUMPAD3"@.len() == 7 && "NUMPAD3"@[0] == 'N' && "NUMPAD3"@[1] == 'U' && "NUMPAD3"@[2] == 'M' && "NUMPAD3"@[3] == 'P' && "NUMPAD3"@[4] == 'A' && "NUMPAD3"@[5] == 'D' && "NUMPAD3"@[6] == '3');
    reveal_strlit("KP4");
    assert("KP4"@.len() == 3 && "KP4"@[0] == 'K' && "KP4"@[1] == 'P' && "KP4"@[2] == '4');
    reveal_strlit("NUMPAD4");
    assert("NUMPAD4"@.len() == 7 && "NUMPAD4"@[0] == 'N' && "NUMPAD4"@[1] == 'U' && "NUMPAD4"@[2] == 'M' && "NUMPAD4"@[3] == 'P' && "NUMPAD4"@[4] == 'A' && "NUMPAD4"@[5] == 'D' && "NUMPAD4"@[6] == '4');
    reveal_strlit("KP5");
    assert("KP5"@.len() == 3 && "KP5"@[0] == 'K' && "KP5"@[1] == 'P' && "KP5"@[2] == '5');
    reveal_strlit("NUMPAD5");
    assert("NUMPAD5"@.len() == 7 && "NUMPAD5"@[0] == 'N' && "NUMPAD5"@[1] == 'U' && "NUMPAD5"@[2] == 'M' && "NUMPAD5"@[3] == 'P' && "NUMPAD5"@[4] == 'A' && "NUMPAD5"@[5] == 'D' && "NUMPAD5"@[6] == '5');
    reveal_strlit("KP6");
    assert("KP6"@.len() == 3 && "KP6"@[0] == 'K' && "KP6"@[1] == 'P' && "KP6"@[2] == '6');
    reveal_strlit("NUMPAD6");
    assert("NUMPAD6"@.len() == 7 && "NUMPAD6"@[0] == 'N' && "NUMPAD6"@[1] == 'U' && "NUMPAD6"@[2] == 'M' && "NUMPAD6"@[3] == 'P' && "NUMPAD6"@[4] == 'A' && "NUMPAD6"@[5] == 'D' && "NUMPAD6"@[6] == '6');
    reveal_strlit("KP7");
    assert("KP7"@.len() == 3 && "KP7"@[0] == 'K' && "KP7"@[1] == 'P' && "KP7"@[2] == '7');
    reveal_strlit("NUMPAD7");
    assert("NUMPAD7"@.len() == 7 && "NUMPAD7"@[0] == 'N' && "NUMPAD7"@[1] == 'U' && "NUMPAD7"@[2] == 'M' && "NUMPAD7"@[3] == 'P' && "NUMPAD7"@[4] == 'A' && "NUMPAD7"@[5] == 'D' && "NUMPAD7"@[6] == '7');
    reveal_strlit("KP8");
    assert("KP8"@.len() == 3 && "KP8"@[0] == 'K' && "KP8"@[1] == 'P' && "KP8"@[2] == '8');
    reveal_strlit("NUMPAD8");
    assert("NUMPAD8"@.len() == 7 && "NUMPAD8"@[0] == 'N' && "NUMPAD8"@[1] == 'U' && "NUMPAD8"@[2] == 'M' && "NUMPAD8"@[3] == 'P' && "NUMPAD8"@[4] == 'A' && "NUMPAD8"@[5] == 'D' && "NUMPAD8"@[6] == '8');
    reveal_strlit("KP9");
    assert("KP9"@.len() == 3 && "KP9"@[0] == 'K' && "KP9"@[1] == 'P' && "KP9"@[2] == '9');
    reveal_strlit("NUMPAD9");
    assert("NUMPAD9"@.len() == 7 && "NUMPAD9"@[0] == 'N' && "NUMPAD9"@[1] == 'U' && "NUMPAD9"@[2] == 'M' && "NUMPAD9"@[3] == 'P' && "NUMPAD9"@[4] == 'A' && "NUMPAD9"@[5] == 'D' && "NUMPAD9"@[6] == '9');
    reveal_strlit("SPACE");
    assert("SPACE"@.len() == 5 && "SPACE"@[0] == 'S' && "SPACE"@[1] == 'P' && "SPACE"@[2] == 'A' && "SPACE"@[3] == 'C' && "SPACE"@[4] == 'E');
    reveal_strlit("TAB");
    assert("TAB"@.len() == 3 && "TAB"@[0] == 'T' && "TAB"@[1] == 'A' && "TAB"@[2] == 'B');
    reveal_strlit("ENTER");
    assert("ENTER"@.len() == 5 && "ENTER"@[0] == 'E' && "ENTER"@[1] == 'N' && "ENTER"@[2] == 'T' && "ENTER"@[3] == 'E' && "ENTER"@[4] == 'R');
    reveal_strlit("RETURN");
    assert("RETURN"@.len() == 6 && "RETURN"@[0] == 'R' && "RETURN"@[1] == 'E' && "RETURN"@[2] == 'T' && "RETURN"@[3] == 'U' && "RETURN"@[4] == 'R' && "RETURN"@[5] == 'N');
    reveal_strlit("BACKSPACE");
    assert("BACKSPACE"@.len() == 9 && "BACKSPACE"@[0] == 'B' && "BACKSPACE"@[1] == 'A' && "BACKSPACE"@[2] == 'C' && "BACKSPACE"@[3] == 'K' && "BACKSPACE"@[4] == 'S' && "BACKSPACE"@[5] == 'P' && "BACKSPACE"@[6] == 'A' && "BACKSPACE"@[7] == 'C' && "BACKSPACE"@[8] == 'E');
    reveal_strlit("DELETE");
    assert("DELETE"@.len() == 6 && "DELETE"@[0] == 'D' && "DELETE"@[1] == 'E' && "DELETE"@[2] == 'L' && "DELETE"@[3] == 'E' && "DELETE"@[4] == 'T' && "DELETE"@[5] == 'E');
    reveal_strlit("DEL");
    assert("DEL"@.len() == 3 && "DEL"@[0] == 'D' && "DEL"@[1] == 'E' && "DEL"@[2] == 'L');
    reveal_strlit("INSERT");
    assert("INSERT"@.len() == 6 && "INSERT"@[0] == 'I' && "INSERT"@[1] == 'N' && "INSERT"@[2] == 'S' && "INSERT"@[3] == 'E' && "INSERT"@[4] == 'R' && "INSERT"@[5] == 'T');
    reveal_strlit("INS");
    assert("INS"@.len() == 3 && "INS"@[0] == 'I' && "INS"@[1] == 'N' && "INS"@[2] == 'S');
    reveal_strlit("HOME");
    assert("HOME"@.len() == 4 && "HOME"@[0] == 'H' && "HOME"@[1] == 'O' && "HOME"@[2] == 'M' && "HOME"@[3] == 'E');
    reveal_strlit("END");
    assert("END"@.len() == 3 && "END"@[0] == 'E' && "END"@[1] == 'N' && "END"@[2] == 'D');
    reveal_strlit("PAGEUP");
    assert("PAGEUP"@.len() == 6 && "PAGEUP"@[0] == 'P' && "PAGEUP"@[1] == 'A' && "PAGEUP"@[2] == 'G' && "PAGEUP"@[3] == 'E' && "PAGEUP"@[4] == 'U' && "PAGEUP"@[5] == 'P');
    reveal_strlit("PAGE UP");
    assert("PAGE UP"@.len() == 7 && "PAGE UP"@[0] == 'P' && "PAGE UP"@[1] == 'A' && "PAGE UP"@[2] == 'G' && "PAGE UP"@[3] == 'E' && "PAGE UP"@[4] == ' ' && "PAGE UP"@[5] == 'U' && "PAGE UP"@[6] == 'P');
    reveal_strlit("PGUP");
    assert("PGUP"@.len() == 4 && "PGUP"@[0] == 'P' && "PGUP"@[1] == 'G' && "PGUP"@[2] == 'U' && "PGUP"@[3] == 'P');
    reveal_strlit("PAGEDOWN");
    assert("PAGEDOWN"@.len() == 8 && "PAGEDOWN"@[0] == 'P' && "PAGEDOWN"@[1] == 'A' && "PAGEDOWN"@[2] == 'G' && "PAGEDOWN"@[3] == 'E' && "PAGEDOWN"@[4] == 'D' && "PAGEDOWN"@[5] == 'O' && "PAGEDOWN"@[6] == 'W' && "PAGEDOWN"@[7] == 'N');
    reveal_strlit("PAGE DOWN");
    assert("PAGE DOWN"@.len() == 9 && "PAGE DOWN"@[0] == 'P' && "PAGE DOWN"@[1] == 'A' && "PAGE DOWN"@[2] == 'G' && "PAGE DOWN"@[3] == 'E' && "PAGE DOWN"@[4] == ' ' && "PAGE DOWN"@[5] == 'D' && "PAGE DOWN"@[6] == 'O' && "PAGE DOWN"@[7] == 'W' && "PAGE DOWN"@[8] == 'N');
    reveal_strlit("PGDN");
    assert("PGDN"@.len() == 4 && "PGDN"@[0] == 'P' && "PGDN"@[1] == 'G' && "PGDN"@[2] == 'D' && "PGDN"@[3] == 'N');
    reveal_strlit("UP");
    assert("UP"@.len() == 2 && "UP"@[0] == 'U' && "UP"@[1] == 'P');
    reveal_strlit("ARROWUP");
    assert("ARROWUP"@.len() == 7 && "ARROWUP"@[0] == 'A' && "ARROWUP"@[1] == 'R' && "ARROWUP"@[2] == 'R' && "ARROWUP"@[3] == 'O' && "ARROWUP"@[4] == 'W' && "ARROWUP"@[5] == 'U' && "ARROWUP"@[6] == 'P');
    reveal_strlit("DOWN");
    assert("DOWN"@.len() == 4 && "DOWN"@[0] == 'D' && "DOWN"@[1] == 'O' && "DOWN"@[2] == 'W' && "DOWN"@[3] == 'N');
    reveal_strlit("ARROWDOWN");
    assert("ARROWDOWN"@.len() == 9 && "ARROWDOWN"@[0] == 'A' && "ARROWDOWN"@[1] == 'R' && "ARROWDOWN"@[2] == 'R' && "ARROWDOWN"@[3] == 'O' && "ARROWDOWN"@[4] == 'W' && "ARROWDOWN"@[5] == 'D' && "ARROWDOWN"@[6] == 'O' && "ARROWDOWN"@[7] == 'W' && "ARROWDOWN"@[8] == 'N');
    reveal_strlit("LEFT");
    assert("LEFT"@.len() == 4 && "LEFT"@[0] == 'L' && "LEFT"@[1] == 'E' && "LEFT"@[2] == 'F' && "LEFT"@[3] == 'T');

}

/// Names ARROWLEFT to PAUSE of the label table pick their keys and are
/// names of those keys.
#[verifier::rlimit(60)]
proof fn lemma_label_table_9()
    ensures
        key_for_label("ARROWLEFT"@) == Some(KeyCode::LeftArrow),
        is_key_name("ARROWLEFT"@, KeyCode::LeftArrow),
        key_for_label("RIGHT"@) == Some(KeyCode::RightArrow),
        is_key_name("RIGHT"@, KeyCode::RightArrow),
        key_for_label("ARROWRIGHT"@) == Some(KeyCode::RightArrow),
        is_key_name("ARROWRIGHT"@, KeyCode::RightArrow),
        key_for_label("CAPSLOCK"@) == Some(KeyCode::CapsLock),
        is_key_name("CAPSLOCK"@, KeyCode::CapsLock),
        key_for_label("PRINTSCREEN"@) == Some(KeyCode::PrintScreen),
        is_key_name("PRINTSCREEN"@, KeyCode::PrintScreen),
        key_for_label("PRTSCR"@) == Some(KeyCode::PrintScreen),
        is_key_name("PRTSCR"@, KeyCode::PrintScreen),
        key_for_label("SCROLLLOCK"@) == Some(KeyCode::ScrollLock),
        is_key_name("SCROLLLOCK"@, KeyCode::ScrollLock),
        key_for_label("PAUSE"@) == Some(KeyCode::Pause),
        is_key_name("PAUSE"@, KeyCode::Pause),
{
    reveal_strlit("0");
    assert("0"@.len() == 1 && "0"@[0] == '0');
    reveal_strlit("1");
    assert("1"@.len() == 1 && "1"@[0] == '1');
    reveal_strlit("2");
    assert("2"@.len() == 1 && "2"@[0] == '2');
    reveal_strlit("3");
    assert("3"@.len() == 1 && "3"@[0] == '3');
    reveal_strlit("4");
    assert("4"@.len() == 1 && "4"@[0] == '4');
    reveal_strlit("5");
    assert("5"@.len() == 1 && "5"@[0] == '5');
    reveal_strlit("6");
    assert("6"@.len() == 1 && "6"@[0] == '6');
    reveal_strlit("7");
    assert("7"@.len() == 1 && "7"@[0] == '7');
    reveal_strlit("8");
    assert("8"@.len() == 1 && "8"@[0] == '8');
    reveal_strlit("9");
    assert("9"@.len() == 1 && "9"@[0] == '9');
    reveal_strlit("A");
    assert("A"@.len() == 1 && "A"@[0] == 'A');
    reveal_strlit("B");
    assert("B"@.len() == 1 && "B"@[0] == 'B');
    reveal_strlit("C");
    assert("C"@.len() == 1 && "C"@[0] == 'C');
    reveal_strlit("D");
    assert("D"@.len() == 1 && "D"@[0] == 'D');
    reveal_strlit("E");
    assert("E"@.len() == 1 && "E"@[0] == 'E');
    reveal_strlit("F");
    assert("F"@.len() == 1 && "F"@[0] == 'F');
    reveal_strlit("G");
    assert("G"@.len() == 1 && "G"@[0] == 'G');
    reveal_strlit("H");
    assert("H"@.len() == 1 && "H"@[0] == 'H');
    reveal_strlit("I");
    assert("I"@.len() == 1 && "I"@[0] == 'I');
    reveal_strlit("J");
    assert("J"@.len() == 1 && "J"@[0] == 'J');
    reveal_strlit("K");
    assert("K"@.len() == 1 && "K"@[0] == 'K');
    reveal_strlit("L");
    assert("L"@.len() == 1 && "L"@[0] == 'L');
    reveal_strlit("M");
    assert("M"@.len() == 1 && "M"@[0] == 'M');
    reveal_strlit("N");
    assert("N"@.len() == 1 && "N"@[0] == 'N');
    reveal_strlit("O");
    assert("O"@.len() == 1 && "O"@[0] == 'O');
    reveal_strlit("P");
    assert("P"@.len() == 1 && "P"@[0] == 'P');
    reveal_strlit("Q");
    assert("Q"@.len() == 1 && "Q"@[0] == 'Q');
    reveal_strlit("R");
    assert("R"@.len() == 1 && "R"@[0] == 'R');
    reveal_strlit("S");
    assert("S"@.len() == 1 && "S"@[0] == 'S');
    reveal_strlit("T");
    assert("T"@.len() == 1 && "T"@[0] == 'T');
    reveal_strlit("U");
    assert("U"@.len() == 1 && "U"@[0] == 'U');
    reveal_strlit("V");
    assert("V"@.len() == 1 && "V"@[0] == 'V');
    reveal_strlit("W");
    assert("W"@.len() == 1 && "W"@[0] == 'W');
    reveal_strlit("X");
    assert("X"@.len() == 1 && "X"@[0] == 'X');
    reveal_strlit("Y");
    assert("Y"@.len() == 1 && "Y"@[0] == 'Y');
    reveal_strlit("Z");
    assert("Z"@.len() == 1 && "Z"@[0] == 'Z');
    reveal_strlit("F1");
    assert("F1"@.len() == 2 && "F1"@[0] == 'F' && "F1"@[1] == '1');
    reveal_strlit("F2");
    assert("F2"@.len() == 2 && "F2"@[0] == 'F' && "F2"@[1] == '2');
    reveal_strlit("F3");
    assert("F3"@.len() == 2 && "F3"@[0] == 'F' && "F3"@[1] == '3');
    reveal_strlit("F4");
    assert("F4"@.len() == 2 && "F4"@[0] == 'F' && "F4"@[1] == '4');
    reveal_strlit("F5");
    assert("F5"@.len() == 2 && "F5"@[0] == 'F' && "F5"@[1] == '5');
    reveal_strlit("F6");
    assert("F6"@.len() == 2 && "F6"@[0] == 'F' && "F6"@[1] == '6');
    reveal_strlit("F7");
    assert("F7"@.len() == 2 && "F7"@[0] == 'F' && "F7"@[1] == '7');
    reveal_strlit("F8");
    assert("F8"@.len() == 2 && "F8"@[0] == 'F' && "F8"@[1] == '8');
    reveal_strlit("F9");
    assert("F9"@.len() == 2 && "F9"@[0] == 'F' && "F9"@[1] == '9');
    reveal_strlit("F10");
    assert("F10"@.len() == 3 && "F10"@[0] == 'F' && "F10"@[1] == '1' && "F10"@[2] == '0');
    reveal_strlit("F11");
    assert("F11"@.len() == 3 && "F11"@[0] == 'F' && "F11"@[1] == '1' && "F11"@[2] == '1');
    reveal_strlit("F12");
    assert("F12"@.len() == 3 && "F12"@[0] == 'F' && "F12"@[1] == '1' && "F12"@[2] == '2');
    reveal_strlit("KP0");
    assert("KP0"@.len() == 3 && "KP0"@[0] == 'K' && "KP0"@[1] == 'P' && "KP0"@[2] == '0');
    reveal_strlit("NUMPAD0");
    assert("NUMPAD0"@.len() == 7 && "NUMPAD0"@[0] == 'N' && "NUMPAD0"@[1] == 'U' && "NUMPAD0"@[2] == 'M' && "NUMPAD0"@[3] == 'P' && "NUMPAD0"@[4] == 'A' && "NUMPAD0"@[5] == 'D' && "NUMPAD0"@[6] == '0');
    reveal_strlit("KP1");
    assert("KP1"@.len() == 3 && "KP1"@[0] == 'K' && "KP1"@[1] == 'P' && "KP1"@[2] == '1');
    reveal_strlit("NUMPAD1");
    assert("NUMPAD1"@.len() == 7 && "NUMPAD1"@[0] == 'N' && "NUMPAD1"@[1] == 'U' && "NUMPAD1"@[2] == 'M' && "NUMPAD1"@[3] == 'P' && "NUMPAD1"@[4] == 'A' && "NUMPAD1"@[5] == 'D' && "NUMPAD1"@[6] == '1');
    reveal_strlit("KP2");
    assert("KP2"@.len() == 3 && "KP2"@[0] == 'K' && "KP2"@[1] == 'P' && "KP2"@[2] == '2');
    reveal_strlit("NUMPAD2");
    assert("NUMPAD2"@.len() == 7 && "NUMPAD2"@[0] == 'N' && "NUMPAD2"@[1] == 'U' && "NUMPAD2"@[2] == 'M' && "NUMPAD2"@[3] == 'P' && "NUMPAD2"@[4] == 'A' && "NUMPAD2"@[5] == 'D' && "NUMPAD2"@[6] == '2');
    reveal_strlit("KP3");
    assert("KP3"@.len() == 3 && "KP3"@[0] == 'K' && "KP3"@[1] == 'P' && "KP3"@[2] == '3');
    reveal_strlit("NUMPAD3");
    assert("NUMPAD3"@.len() == 7 && "NUMPAD3"@[0] == 'N' && "NUMPAD3"@[1] == 'U' && "NUMPAD3"@[2] == 'M' && "NUMPAD3"@[3] == 'P' && "NUMPAD3"@[4] == 'A' && "NUMPAD3"@[5] == 'D' && "NUMPAD3"@[6] == '3');
    reveal_strlit("KP4");
    assert("KP4"@.len() == 3 && "KP4"@[0] == 'K' && "KP4"@[1] == 'P' && "KP4"@[2] == '4');
    reveal_strlit("NUMPAD4");
    assert("NUMPAD4"@.len() == 7 && "NUMPAD4"@[0] == 'N' && "NUMPAD4"@[1] == 'U' && "NUMPAD4"@[2] == 'M' && "NUMPAD4"@[3] == 'P' && "NUMPAD4"@[4] == 'A' && "NUMPAD4"@[5] == 'D' && "NUMPAD4"@[6] == '4');
    reveal_strlit("KP5");
    assert("KP5"@.len() == 3 && "KP5"@[0] == 'K' && "KP5"@[1] == 'P' && "KP5"@[2] == '5');
    reveal_strlit("NUMPAD5");
    assert("NUMPAD5"@.len() == 7 && "NUMPAD5"@[0] == 'N' && "NUMPAD5"@[1] == 'U' && "NUMPAD5"@[2] == 'M' && "NUMPAD5"@[3] == 'P' && "NUMPAD5"@[4] == 'A' && "NUMPAD5"@[5] == 'D' && "NUMPAD5"@[6] == '5');
    reveal_strlit("KP6");
    assert("KP6"@.len() == 3 && "KP6"@[0] == 'K' && "KP6"@[1] == 'P' && "KP6"@[2] == '6');
    reveal_strlit("NUMPAD6");
    assert("NUMPAD6"@.len() == 7 && "NUMPAD6"@[0] == 'N' && "NUMPAD6"@[1] == 'U' && "NUMPAD6"@[2] == 'M' && "NUMPAD6"@[3] == 'P' && "NUMPAD6"@[4] == 'A' && "NUMPAD6"@[5] == 'D' && "NUMPAD6"@[6] == '6');
    reveal_strlit("KP7");
    assert("KP7"@.len() == 3 && "KP7"@[0] == 'K' && "KP7"@[1] == 'P' && "KP7"@[2] == '7');
    reveal_strlit("NUMPAD7");
    assert("NUMPAD7"@.len() == 7 && "NUMPAD7"@[0] == 'N' && "NUMPAD7"@[1] == 'U' && "NUMPAD7"@[2] == 'M' && "NUMPAD7"@[3] == 'P' && "NUMPAD7"@[4] == 'A' && "NUMPAD7"@[5] == 'D' && "NUMPAD7"@[6] == '7');
    reveal_strlit("KP8");
    assert("KP8"@.len() == 3 && "KP8"@[0] == 'K' && "KP8"@[1] == 'P' && "KP8"@[2] == '8');
    reveal_strlit("NUMPAD8");
    assert("NUMPAD8"@.len() == 7 && "NUMPAD8"@[0] == 'N' && "NUMPAD8"@[1] == 'U' && "NUMPAD8"@[2] == 'M' && "NUMPAD8"@[3] == 'P' && "NUMPAD8"@[4] == 'A' && "NUMPAD8"@[5] == 'D' && "NUMPAD8"@[6] == '8');
    reveal_strlit("KP9");
    assert("KP9"@.len() == 3 && "KP9"@[0] == 'K' && "KP9"@[1] == 'P' && "KP9"@[2] == '9');
    reveal_strlit("NUMPAD9");
    assert("NUMPAD9"@.len() == 7 && "NUMPAD9"@[0] == 'N' && "NUMPAD9"@[1] == 'U' && "NUMPAD9"@[2] == 'M' && "NUMPAD9"@[3] == 'P' && "NUMPAD9"@[4] == 'A' && "NUMPAD9"@[5] == 'D' && "NUMPAD9"@[6] == '9');
    reveal_strlit("SPACE");
    assert("SPACE"@.len() == 5 && "SPACE"@[0] == 'S' && "SPACE"@[1] == 'P' && "SPACE"@[2] == 'A' && "SPACE"@[3] == 'C' && "SPACE"@[4] == 'E');
    reveal_strlit("TAB");
    assert("TAB"@.len() == 3 && "TAB"@[0] == 'T' && "TAB"@[1] == 'A' && "TAB"@[2] == 'B');
    reveal_strlit("ENTER");
    assert("ENTER"@.len() == 5 && "ENTER"@[0] == 'E' && "ENTER"@[1] == 'N' && "ENTER"@[2] == 'T' && "ENTER"@[3] == 'E' && "ENTER"@[4] == 'R');
    reveal_strlit("RETURN");
    assert("RETURN"@.len() == 6 && "RETURN"@[0] == 'R' && "RETURN"@[1] == 'E' && "RETURN"@[2] == 'T' && "RETURN"@[3] == 'U' && "RETURN"@[4] == 'R' && "RETURN"@[5] == 'N');
    reveal_strlit("BACKSPACE");
    assert("BACKSPACE"@.len() == 9 && "BACKSPACE"@[0] == 'B' && "BACKSPACE"@[1] == 'A' && "BACKSPACE"@[2] == 'C' && "BACKSPACE"@[3] == 'K' && "BACKSPACE"@[4] == 'S' && "BACKSPACE"@[5] == 'P' && "BACKSPACE"@[6] == 'A' && "BACKSPACE"@[7] == 'C' && "BACKSPACE"@[8] == 'E');
    reveal_strlit("DELETE");
    assert("DELETE"@.len() == 6 && "DELETE"@[0] == 'D' && "DELETE"@[1] == 'E' && "DELETE"@[2] == 'L' && "DELETE"@[3] == 'E' && "DELETE"@[4] == 'T' && "DELETE"@[5] == 'E');
    reveal_strlit("DEL");
    assert("DEL"@.len() == 3 && "DEL"@[0] == 'D' && "DEL"@[1] == 'E' && "DEL"@[2] == 'L');
    reveal_strlit("INSERT");
    assert("INSERT"@.len() == 6 && "INSERT"@[0] == 'I' && "INSERT"@[1] == 'N' && "INSERT"@[2] == 'S' && "INSERT"@[3] == 'E' && "INSERT"@[4] == 'R' && "INSERT"@[5] == 'T');
    reveal_strlit("INS");
    assert("INS"@.len() == 3 && "INS"@[0] == 'I' && "INS"@[1] == 'N' && "INS"@[2] == 'S');
    reveal_strlit("HOME");
    assert("HOME"@.len() == 4 && "HOME"@[0] == 'H' && "HOME"@[1] == 'O' && "HOME"@[2] == 'M' && "HOME"@[3] == 'E');
    reveal_strlit("END");
    assert("END"@.len() == 3 && "END"@[0] == 'E' && "END"@[1] == 'N' && "END"@[2] == 'D');
    reveal_strlit("PAGEUP");
    assert("PAGEUP"@.len() == 6 && "PAGEUP"@[0] == 'P' && "PAGEUP"@[1] == 'A' && "PAGEUP"@[2] == 'G' && "PAGEUP"@[3] == 'E' && "PAGEUP"@[4] == 'U' && "PAGEUP"@[5] == 'P');
    reveal_strlit("PAGE UP");
    assert("PAGE UP"@.len() == 7 && "PAGE UP"@[0] == 'P' && "PAGE UP"@[1] == 'A' && "PAGE UP"@[2] == 'G' && "PAGE UP"@[3] == 'E' && "PAGE UP"@[4] == ' ' && "PAGE UP"@[5] == 'U' && "PAGE UP"@[6] == 'P');
    reveal_strlit("PGUP");
    assert("PGUP"@.len() == 4 && "PGUP"@[0] == 'P' && "PGUP"@[1] == 'G' && "PGUP"@[2] == 'U' && "PGUP"@[3] == 'P');
    reveal_strlit("PAGEDOWN");
    assert("PAGEDOWN"@.len() == 8 && "PAGEDOWN"@[0] == 'P' && "PAGEDOWN"@[1] == 'A' && "PAGEDOWN"@[2] == 'G' && "PAGEDOWN"@[3] == 'E' && "PAGEDOWN"@[4] == 'D' && "PAGEDOWN"@[5] == 'O' && "PAGEDOWN"@[6] == 'W' && "PAGEDOWN"@[7] == 'N');
    reveal_strlit("PAGE DOWN");
    assert("PAGE DOWN"@.len() == 9 && "PAGE DOWN"@[0] == 'P' && "PAGE DOWN"@[1] == 'A' && "PAGE DOWN"@[2] == 'G' && "PAGE DOWN"@[3] == 'E' && "PAGE DOWN"@[4] == ' ' && "PAGE DOWN"@[5] == 'D' && "PAGE DOWN"@[6] == 'O' && "PAGE DOWN"@[7] == 'W' && "PAGE DOWN"@[8] == 'N');
    reveal_strlit("PGDN");
    assert("PGDN"@.len() == 4 && "PGDN"@[0] == 'P' && "PGDN"@[1] == 'G' && "PGDN"@[2] == 'D' && "PGDN"@[3] == 'N');
    reveal_strlit("UP");
    assert("UP"@.len() == 2 && "UP"@[0] == 'U' && "UP"@[1] == 'P');
    reveal_strlit("ARROWUP");
    assert("ARROWUP"@.len() == 7 && "ARROWUP"@[0] == 'A' && "ARROWUP"@[1] == 'R' && "ARROWUP"@[2] == 'R' && "ARROWUP"@[3] == 'O' && "ARROWUP"@[4] == 'W' && "ARROWUP"@[5] == 'U' && "ARROWUP"@[6] == 'P');
    reveal_strlit("DOWN");
    assert("DOWN"@.len() == 4 && "DOWN"@[0] == 'D' && "DOWN"@[1] == 'O' && "DOWN"@[2] == 'W' && "DOWN"@[3] == 'N');
    reveal_strlit("ARROWDOWN");
    assert("ARROWDOWN"@.len() == 9 && "ARROWDOWN"@[0] == 'A' && "ARROWDOWN"@[1] == 'R' && "ARROWDOWN"@[2] == 'R' && "ARROWDOWN"@[3] == 'O' && "ARROWDOWN"@[4] == 'W' && "ARROWDOWN"@[5] == 'D' && "ARROWDOWN"@[6] == 'O' && "ARROWDOWN"@[7] == 'W' && "ARROWDOWN"@[8] == 'N');
    reveal_strlit("LEFT");
    assert("LEFT"@.len() == 4 && "LEFT"@[0] == 'L' && "LEFT"@[1] == 'E' && "LEFT"@[2] == 'F' && "LEFT"@[3] == 'T');
    reveal_strlit("ARROWLEFT");
    assert("ARROWLEFT"@.len() == 9 && "ARROWLEFT"@[0] == 'A' && "ARROWLEFT"@[1] == 'R' && "ARROWLEFT"@[2] == 'R' && "ARROWLEFT"@[3] == 'O' && "ARROWLEFT"@[4] == 'W' && "ARROWLEFT"@[5] == 'L' && "ARROWLEFT"@[6] == 'E' && "ARROWLEFT"@[7] == 'F' && "ARROWLEFT"@[8] == 'T');
    reveal_strlit("RIGHT");
    assert("RIGHT"@.len() == 5 && "RIGHT"@[0] == 'R' && "RIGHT"@[1] == 'I' && "RIGHT"@[2] == 'G' && "RIGHT"@[3] == 'H' && "RIGHT"@[4] == 'T');
    reveal_strlit("ARROWRIGHT");
    assert("ARROWRIGHT"@.len() == 10 && "ARROWRIGHT"@[0] == 'A' && "ARROWRIGHT"@[1] == 'R' && "ARROWRIGHT"@[2] == 'R' && "ARROWRIGHT"@[3] == 'O' && "ARROWRIGHT"@[4] == 'W' && "ARROWRIGHT"@[5] == 'R' && "ARROWRIGHT"@[6] == 'I' && "ARROWRIGHT"@[7] == 'G' && "ARROWRIGHT"@[8] == 'H' && "ARROWRIGHT"@[9] == 'T');
    reveal_strlit("CAPSLOCK");
    assert("CAPSLOCK"@.len() == 8 && "CAPSLOCK"@[0] == 'C' && "CAPSLOCK"@[1] == 'A' && "CAPSLOCK"@[2] == 'P' && "CAPSLOCK"@[3] == 'S' && "CAPSLOCK"@[4] == 'L' && "CAPSLOCK"@[5] == 'O' && "CAPSLOCK"@[6] == 'C' && "CAPSLOCK"@[7] == 'K');
    reveal_strlit("PRINTSCREEN");
    assert("PRINTSCREEN"@.len() == 11 && "PRINTSCREEN"@[0] == 'P' && "PRINTSCREEN"@[1] == 'R' && "PRINTSCREEN"@[2] == 'I' && "PRINTSCREEN"@[3] == 'N' && "PRINTSCREEN"@[4] == 'T' && "PRINTSCREEN"@[5] == 'S' && "PRINTSCREEN"@[6] == 'C' && "PRINTSCREEN"@[7] == 'R' && "PRINTSCREEN"@[8] == 'E' && "PRINTSCREEN"@[9] == 'E' && "PRINTSCREEN"@[10] == 'N');
    reveal_strlit("PRTSCR");
    assert("PRTSCR"@.len() == 6 && "PRTSCR"@[0] == 'P' && "PRTSCR"@[1] == 'R' && "PRTSCR"@[2] == 'T' && "PRTSCR"@[3] == 'S' && "PRTSCR"@[4] == 'C' && "PRTSCR"@[5] == 'R');
    reveal_strlit("SCROLLLOCK");
    assert("SCROLLLOCK"@.len() == 10 && "SCROLLLOCK"@[0] == 'S' && "SCROLLLOCK"@[1] == 'C' && "SCROLLLOCK"@[2] == 'R' && "SCROLLLOCK"@[3] == 'O' && "SCROLLLOCK"@[4] == 'L' && "SCROLLLOCK"@[5] == 'L' && "SCROLLLOCK"@[6] == 'L' && "SCROLLLOCK"@[7] == 'O' && "SCROLLLOCK"@[8] == 'C' && "SCROLLLOCK"@[9] == 'K');
    reveal_strlit("PAUSE");
    assert("PAUSE"@.len() == 5 && "PAUSE"@[0] == 'P' && "PAUSE"@[1] == 'A' && "PAUSE"@[2] == 'U' && "PAUSE"@[3] == 'S' && "PAUSE"@[4] == 'E');

}

/// The name of a digit, letter, function or keypad key as it stands in the
/// label table.
spec fn table_name(k: KeyCode) -> Seq<char> {
    match k {
        KeyCode::Num0 => "0"@,
        KeyCode::Num1 => "1"@,
        KeyCode::Num2 => "2"@,
        KeyCode::Num3 => "3"@,
        KeyCode::Num4 => "4"@,
        KeyCode::Num5 => "5"@,
        KeyCode::Num6 => "6"@,
        KeyCode::Num7 => "7"@,
        KeyCode::Num8 => "8"@,
        KeyCode::Num9 => "9"@,
        KeyCode::KeyA => "A"@,
        KeyCode::KeyB => "B"@,
        KeyCode::KeyC => "C"@,
        KeyCode::KeyD => "D"@,
        KeyCode::KeyE => "E"@,
        KeyCode::KeyF => "F"@,
        KeyCode::KeyG => "G"@,
        KeyCode::KeyH => "H"@,
        KeyCode::KeyI => "I"@,
        KeyCode::KeyJ => "J"@,
        KeyCode::KeyK => "K"@,
        KeyCode::KeyL => "L"@,
        KeyCode::KeyM => "M"@,
        KeyCode::KeyN => "N"@,
        KeyCode::KeyO => "O"@,
        KeyCode::KeyP => "P"@,
        KeyCode::KeyQ => "Q"@,
        KeyCode::KeyR => "R"@,
        KeyCode::KeyS => "S"@,
        KeyCode::KeyT => "T"@,
        KeyCode::KeyU => "U"@,
        KeyCode::KeyV => "V"@,
        KeyCode::KeyW => "W"@,
        KeyCode::KeyX => "X"@,
        KeyCode::KeyY => "Y"@,
        KeyCode::KeyZ => "Z"@,
        KeyCode::F1 => "F1"@,
        KeyCode::F2 => "F2"@,
        KeyCode::F3 => "F3"@,
        KeyCode::F4 => "F4"@,
        KeyCode::F5 => "F5"@,
        KeyCode::F6 => "F6"@,
        KeyCode::F7 => "F7"@,
        KeyCode::F8 => "F8"@,
        KeyCode::F9 => "F9"@,
        KeyCode::F10 => "F10"@,
        KeyCode::F11 => "F11"@,
        KeyCode::F12 => "F12"@,
        KeyCode::Kp0 => "KP0"@,
        KeyCode::Kp1 => "KP1"@,
        KeyCode::Kp2 => "KP2"@,
        KeyCode::Kp3 => "KP3"@,
        KeyCode::Kp4 => "KP4"@,
        KeyCode::Kp5 => "KP5"@,
        KeyCode::Kp6 => "KP6"@,
        KeyCode::Kp7 => "KP7"@,
        KeyCode::Kp8 => "KP8"@,
        KeyCode::Kp9 => "KP9"@,
        _ => Seq::empty(),
    }
}

/// The second name of a keypad key.
spec fn table_alt_name(k: KeyCode) -> Seq<char> {
    match k {
        KeyCode::Kp0 => "NUMPAD0"@,
        KeyCode::Kp1 => "NUMPAD1"@,
        KeyCode::Kp2 => "NUMPAD2"@,
        KeyCode::Kp3 => "NUMPAD3"@,
        KeyCode::Kp4 => "NUMPAD4"@,
        KeyCode::Kp5 => "NUMPAD5"@,
        KeyCode::Kp6 => "NUMPAD6"@,
        KeyCode::Kp7 => "NUMPAD7"@,
        KeyCode::Kp8 => "NUMPAD8"@,
        KeyCode::Kp9 => "NUMPAD9"@,
        _ => Seq::empty(),
    }
}

/// A name of a digit, letter, function or keypad key is the one the label
/// table writes for it.
proof fn lemma_name_is_table_name(s: Seq<char>, k: KeyCode)
    requires
        is_key_name(s, k),
    ensures
        key_slot(k) < 58 ==> s == table_name(k) || s == table_alt_name(k),
{
    match k {
        KeyCode::Num0 => {
            lemma_char_code(s[0], '0');
            assert(s =~= "0"@) by {
                reveal_strlit("0");
                assert("0"@.len() == 1 && "0"@[0] == '0');
            }
        },
        KeyCode::Num1 => {
            lemma_char_code(s[0], '1');
            assert(s =~= "1"@) by {
                reveal_strlit("1");
                assert("1"@.len() == 1 && "1"@[0] == '1');
            }
        },
        KeyCode::Num2 => {
            lemma_char_code(s[0], '2');
            assert(s =~= "2"@) by {
                reveal_strlit("2");
                assert("2"@.len() == 1 && "2"@[0] == '2');
            }
        },
        KeyCode::Num3 => {
            lemma_char_code(s[0], '3');
            assert(s =~= "3"@) by {
                reveal_strlit("3");
                assert("3"@.len() == 1 && "3"@[0] == '3');
            }
        },
        KeyCode::Num4 => {
            lemma_char_code(s[0], '4');
            assert(s =~= "4"@) by {
                reveal_strlit("4");
                assert("4"@.len() == 1 && "4"@[0] == '4');
            }
        },
        KeyCode::Num5 => {
            lemma_char_code(s[0], '5');
            assert(s =~= "5"@) by {
                reveal_strlit("5");
                assert("5"@.len() == 1 && "5"@[0] == '5');
            }
        },
        KeyCode::Num6 => {
            lemma_char_code(s[0], '6');
            assert(s =~= "6"@) by {
                reveal_strlit("6");
                assert("6"@.len() == 1 && "6"@[0] == '6');
            }
        },
        KeyCode::Num7 => {
            lemma_char_code(s[0], '7');
            assert(s =~= "7"@) by {
                reveal_strlit("7");
                assert("7"@.len() == 1 && "7"@[0] == '7');
            }
        },
        KeyCode::Num8 => {
            lemma_char_code(s[0], '8');
            assert(s =~= "8"@) by {
                reveal_strlit("8");
                assert("8"@.len() == 1 && "8"@[0] == '8');
            }
        },
        KeyCode::Num9 => {
            lemma_char_code(s[0], '9');
            assert(s =~= "9"@) by {
                reveal_strlit("9");
                assert("9"@.len() == 1 && "9"@[0] == '9');
            }
        },
        KeyCode::KeyA => {
            lemma_char_code(s[0], 'A');
            assert(s =~= "A"@) by {
                reveal_strlit("A");
                assert("A"@.len() == 1 && "A"@[0] == 'A');
            }
        },
        KeyCode::KeyB => {
            lemma_char_code(s[0], 'B');
            assert(s =~= "B"@) by {
                reveal_strlit("B");
                assert("B"@.len() == 1 && "B"@[0] == 'B');
            }
        },
        KeyCode::KeyC => {
            lemma_char_code(s[0], 'C');
            assert(s =~= "C"@) by {
                reveal_strlit("C");
                assert("C"@.len() == 1 && "C"@[0] == 'C');
            }
        },
        KeyCode::KeyD => {
            lemma_char_code(s[0], 'D');
            assert(s =~= "D"@) by {
                reveal_strlit("D");
                assert("D"@.len() == 1 && "D"@[0] == 'D');
            }
        },
        KeyCode::KeyE => {
            lemma_char_code(s[0], 'E');
            assert(s =~= "E"@) by {
                reveal_strlit("E");
                assert("E"@.len() == 1 && "E"@[0] == 'E');
            }
        },
        KeyCode::KeyF => {
            lemma_char_code(s[0], 'F');
            assert(s =~= "F"@) by {
                reveal_strlit("F");
                assert("F"@.len() == 1 && "F"@[0] == 'F');
            }
        },
        KeyCode::KeyG => {
            lemma_char_code(s[0], 'G');
            assert(s =~= "G"@) by {
                reveal_strlit("G");
                assert("G"@.len() == 1 && "G"@[0] == 'G');
            }
        },
        KeyCode::KeyH => {
            lemma_char_code(s[0], 'H');
            assert(s =~= "H"@) by {
                reveal_strlit("H");
                assert("H"@.len() == 1 && "H"@[0] == 'H');
            }
        },
        KeyCode::KeyI => {
            lemma_char_code(s[0], 'I');
            assert(s =~= "I"@) by {
                reveal_strlit("I");
                assert("I"@.len() == 1 && "I"@[0] == 'I');
            }
        },
        KeyCode::KeyJ => {
            lemma_char_code(s[0], 'J');
            assert(s =~= "J"@) by {
                reveal_strlit("J");
                assert("J"@.len() == 1 && "J"@[0] == 'J');
            }
        },
        KeyCode::KeyK => {
            lemma_char_code(s[0], 'K');
            assert(s =~= "K"@) by {
                reveal_strlit("K");
                assert("K"@.len() == 1 && "K"@[0] == 'K');
            }
        },
        KeyCode::KeyL => {
            lemma_char_code(s[0], 'L');
            assert(s =~= "L"@) by {
                reveal_strlit("L");
                assert("L"@.len() == 1 && "L"@[0] == 'L');
            }
        },
        KeyCode::KeyM => {
            lemma_char_code(s[0], 'M');
            assert(s =~= "M"@) by {
                reveal_strlit("M");
                assert("M"@.len() == 1 && "M"@[0] == 'M');
            }
        },
        KeyCode::KeyN => {
            lemma_char_code(s[0], 'N');
            assert(s =~= "N"@) by {
                reveal_strlit("N");
                assert("N"@.len() == 1 && "N"@[0] == 'N');
            }
        },
        KeyCode::KeyO => {
            lemma_char_code(s[0], 'O');
            assert(s =~= "O"@) by {
                reveal_strlit("O");
                assert("O"@.len() == 1 && "O"@[0] == 'O');
            }
        },
        KeyCode::KeyP => {
            lemma_char_code(s[0], 'P');
            assert(s =~= "P"@) by {
                reveal_strlit("P");
                assert("P"@.len() == 1 && "P"@[0] == 'P');
            }
        },
        KeyCode::KeyQ => {
            lemma_char_code(s[0], 'Q');
            assert(s =~= "Q"@) by {
                reveal_strlit("Q");
                assert("Q"@.len() == 1 && "Q"@[0] == 'Q');
            }
        },
        KeyCode::KeyR => {
            lemma_char_code(s[0], 'R');
            assert(s =~= "R"@) by {
                reveal_strlit("R");
                assert("R"@.len() == 1 && "R"@[0] == 'R');
            }
        },
        KeyCode::KeyS => {
            lemma_char_code(s[0], 'S');
            assert(s =~= "S"@) by {
                reveal_strlit("S");
                assert("S"@.len() == 1 && "S"@[0] == 'S');
            }
        },
        KeyCode::KeyT => {
            lemma_char_code(s[0], 'T');
            assert(s =~= "T"@) by {
                reveal_strlit("T");
                assert("T"@.len() == 1 && "T"@[0] == 'T');
            }
        },
        KeyCode::KeyU => {
            lemma_char_code(s[0], 'U');
            assert(s =~= "U"@) by {
                reveal_strlit("U");
                assert("U"@.len() == 1 && "U"@[0] == 'U');
            }
        },
        KeyCode::KeyV => {
            lemma_char_code(s[0], 'V');
            assert(s =~= "V"@) by {
                reveal_strlit("V");
                assert("V"@.len() == 1 && "V"@[0] == 'V');
            }
        },
        KeyCode::KeyW => {
            lemma_char_code(s[0], 'W');
            assert(s =~= "W"@) by {
                reveal_strlit("W");
                assert("W"@.len() == 1 && "W"@[0] == 'W');
            }
        },
        KeyCode::KeyX => {
            lemma_char_code(s[0], 'X');
            assert(s =~= "X"@) by {
                reveal_strlit("X");
                assert("X"@.len() == 1 && "X"@[0] == 'X');
            }
        },
        KeyCode::KeyY => {
            lemma_char_code(s[0], 'Y');
            assert(s =~= "Y"@) by {
                reveal_strlit("Y");
                assert("Y"@.len() == 1 && "Y"@[0] == 'Y');
            }
        },
        KeyCode::KeyZ => {
            lemma_char_code(s[0], 'Z');
            assert(s =~= "Z"@) by {
                reveal_strlit("Z");
                assert("Z"@.len() == 1 && "Z"@[0] == 'Z');
            }
        },
        KeyCode::F1 => {
            lemma_char_code(s[0], 'F');
            lemma_char_code(s[1], '1');
            assert(s =~= "F1"@) by {
                reveal_strlit("F1");
                assert("F1"@.len() == 2 && "F1"@[0] == 'F' && "F1"@[1] == '1');
            }
        },
        KeyCode::F2 => {
            lemma_char_code(s[0], 'F');
            lemma_char_code(s[1], '2');
            assert(s =~= "F2"@) by {
                reveal_strlit("F2");
                assert("F2"@.len() == 2 && "F2"@[0] == 'F' && "F2"@[1] == '2');
            }
        },
        KeyCode::F3 => {
            lemma_char_code(s[0], 'F');
            lemma_char_code(s[1], '3');
            assert(s =~= "F3"@) by {
                reveal_strlit("F3");
                assert("F3"@.len() == 2 && "F3"@[0] == 'F' && "F3"@[1] == '3');
            }
        },
        KeyCode::F4 => {
            lemma_char_code(s[0], 'F');
            lemma_char_code(s[1], '4');
            assert(s =~= "F4"@) by {
                reveal_strlit("F4");
                assert("F4"@.len() == 2 && "F4"@[0] == 'F' && "F4"@[1] == '4');
            }
        },
        KeyCode::F5 => {
            lemma_char_code(s[0], 'F');
            lemma_char_code(s[1], '5');
            assert(s =~= "F5"@) by {
                reveal_strlit("F5");
                assert("F5"@.len() == 2 && "F5"@[0] == 'F' && "F5"@[1] == '5');
            }
        },
        KeyCode::F6 => {
            lemma_char_code(s[0], 'F');
            lemma_char_code(s[1], '6');
            assert(s =~= "F6"@) by {
                reveal_strlit("F6");
                assert("F6"@.len() == 2 && "F6"@[0] == 'F' && "F6"@[1] == '6');
            }
        },
        KeyCode::F7 => {
            lemma_char_code(s[0], 'F');
            lemma_char_code(s[1], '7');
            assert(s =~= "F7"@) by {
                reveal_strlit("F7");
                assert("F7"@.len() == 2 && "F7"@[0] == 'F' && "F7"@[1] == '7');
            }
        },
        KeyCode::F8 => {
            lemma_char_code(s[0], 'F');
            lemma_char_code(s[1], '8');
            assert(s =~= "F8"@) by {
                reveal_strlit("F8");
                assert("F8"@.len() == 2 && "F8"@[0] == 'F' && "F8"@[1] == '8');
            }
        },
        KeyCode::F9 => {
            lemma_char_code(s[0], 'F');
            lemma_char_code(s[1], '9');
            assert(s =~= "F9"@) by {
                reveal_strlit("F9");
                assert("F9"@.len() == 2 && "F9"@[0] == 'F' && "F9"@[1] == '9');
            }
        },
        KeyCode::F10 => {
            lemma_char_code(s[0], 'F');
            lemma_char_code(s[1], '1');
            lemma_char_code(s[2], '0');
            assert(s =~= "F10"@) by {
                reveal_strlit("F10");
                assert("F10"@.len() == 3 && "F10"@[0] == 'F' && "F10"@[1] == '1' && "F10"@[2] == '0');
            }
        },
        KeyCode::F11 => {
            lemma_char_code(s[0], 'F');
            lemma_char_code(s[1], '1');
            lemma_char_code(s[2], '1');
            assert(s =~= "F11"@) by {
                reveal_strlit("F11");
                assert("F11"@.len() == 3 && "F11"@[0] == 'F' && "F11"@[1] == '1' && "F11"@[2] == '1');
            }
        },
        KeyCode::F12 => {
            lemma_char_code(s[0], 'F');
            lemma_char_code(s[1], '1');
            lemma_char_code(s[2], '2');
            assert(s =~= "F12"@) by {
                reveal_strlit("F12");
                assert("F12"@.len() == 3 && "F12"@[0] == 'F' && "F12"@[1] == '1' && "F12"@[2] == '2');
            }
        },
        KeyCode::Kp0 => {
            if s.len() == 3 {
                lemma_char_code(s[0], 'K');
                lemma_char_code(s[1], 'P');
                lemma_char_code(s[2], '0');
                assert(s =~= "KP0"@) by {
                    reveal_strlit("KP0");
                    assert("KP0"@.len() == 3 && "KP0"@[0] == 'K' && "KP0"@[1] == 'P' && "KP0"@[2] == '0');
                }
            } else {
                lemma_char_code(s[0], 'N');
                lemma_char_code(s[1], 'U');
                lemma_char_code(s[2], 'M');
                lemma_char_code(s[3], 'P');
                lemma_char_code(s[4], 'A');
                lemma_char_code(s[5], 'D');
                lemma_char_code(s[6], '0');
                assert(s =~= "NUMPAD0"@) by {
                    reveal_strlit("NUMPAD0");
                    assert("NUMPAD0"@.len() == 7 && "NUMPAD0"@[0] == 'N' && "NUMPAD0"@[1] == 'U' && "NUMPAD0"@[2] == 'M' && "NUMPAD0"@[3] == 'P' && "NUMPAD0"@[4] == 'A' && "NUMPAD0"@[5] == 'D' && "NUMPAD0"@[6] == '0');
                }
            }
        },
        KeyCode::Kp1 => {
            if s.len() == 3 {
                lemma_char_code(s[0], 'K');
                lemma_char_code(s[1], 'P');
                lemma_char_code(s[2], '1');
                assert(s =~= "KP1"@) by {
                    reveal_strlit("KP1");
                    assert("KP1"@.len() == 3 && "KP1"@[0] == 'K' && "KP1"@[1] == 'P' && "KP1"@[2] == '1');
                }
            } else {
                lemma_char_code(s[0], 'N');
                lemma_char_code(s[1], 'U');
                lemma_char_code(s[2], 'M');
                lemma_char_code(s[3], 'P');
                lemma_char_code(s[4], 'A');
                lemma_char_code(s[5], 'D');
                lemma_char_code(s[6], '1');
                assert(s =~= "NUMPAD1"@) by {
                    reveal_strlit("NUMPAD1");
                    assert("NUMPAD1"@.len() == 7 && "NUMPAD1"@[0] == 'N' && "NUMPAD1"@[1] == 'U' && "NUMPAD1"@[2] == 'M' && "NUMPAD1"@[3] == 'P' && "NUMPAD1"@[4] == 'A' && "NUMPAD1"@[5] == 'D' && "NUMPAD1"@[6] == '1');
                }
            }
        },
        KeyCode::Kp2 => {
            if s.len() == 3 {
                lemma_char_code(s[0], 'K');
                lemma_char_code(s[1], 'P');
                lemma_char_code(s[2], '2');
                assert(s =~= "KP2"@) by {
                    reveal_strlit("KP2");
                    assert("KP2"@.len() == 3 && "KP2"@[0] == 'K' && "KP2"@[1] == 'P' && "KP2"@[2] == '2');
                }
            } else {
                lemma_char_code(s[0], 'N');
                lemma_char_code(s[1], 'U');
                lemma_char_code(s[2], 'M');
                lemma_char_code(s[3], 'P');
                lemma_char_code(s[4], 'A');
                lemma_char_code(s[5], 'D');
                lemma_char_code(s[6], '2');
                assert(s =~= "NUMPAD2"@) by {
                    reveal_strlit("NUMPAD2");
                    assert("NUMPAD2"@.len() == 7 && "NUMPAD2"@[0] == 'N' && "NUMPAD2"@[1] == 'U' && "NUMPAD2"@[2] == 'M' && "NUMPAD2"@[3] == 'P' && "NUMPAD2"@[4] == 'A' && "NUMPAD2"@[5] == 'D' && "NUMPAD2"@[6] == '2');
                }
            }
        },
        KeyCode::Kp3 => {
            if s.len() == 3 {
                lemma_char_code(s[0], 'K');
                lemma_char_code(s[1], 'P');
                lemma_char_code(s[2], '3');
                assert(s =~= "KP3"@) by {
                    reveal_strlit("KP3");
                    assert("KP3"@.len() == 3 && "KP3"@[0] == 'K' && "KP3"@[1] == 'P' && "KP3"@[2] == '3');
                }
            } else {
                lemma_char_code(s[0], 'N');
                lemma_char_code(s[1], 'U');
                lemma_char_code(s[2], 'M');
                lemma_char_code(s[3], 'P');
                lemma_char_code(s[4], 'A');
                lemma_char_code(s[5], 'D');
                lemma_char_code(s[6], '3');
                assert(s =~= "NUMPAD3"@) by {
                    reveal_strlit("NUMPAD3");
                    assert("NUMPAD3"@.len() == 7 && "NUMPAD3"@[0] == 'N' && "NUMPAD3"@[1] == 'U' && "NUMPAD3"@[2] == 'M' && "NUMPAD3"@[3] == 'P' && "NUMPAD3"@[4] == 'A' && "NUMPAD3"@[5] == 'D' && "NUMPAD3"@[6] == '3');
                }
            }
        },
        KeyCode::Kp4 => {
            if s.len() == 3 {
                lemma_char_code(s[0], 'K');
                lemma_char_code(s[1], 'P');
                lemma_char_code(s[2], '4');
                assert(s =~= "KP4"@) by {
                    reveal_strlit("KP4");
                    assert("KP4"@.len() == 3 && "KP4"@[0] == 'K' && "KP4"@[1] == 'P' && "KP4"@[2] == '4');
                }
            } else {
                lemma_char_code(s[0], 'N');
                lemma_char_code(s[1], 'U');
                lemma_char_code(s[2], 'M');
                lemma_char_code(s[3], 'P');
                lemma_char_code(s[4], 'A');
                lemma_char_code(s[5], 'D');
                lemma_char_code(s[6], '4');
                assert(s =~= "NUMPAD4"@) by {
                    reveal_strlit("NUMPAD4");
                    assert("NUMPAD4"@.len() == 7 && "NUMPAD4"@[0] == 'N' && "NUMPAD4"@[1] == 'U' && "NUMPAD4"@[2] == 'M' && "NUMPAD4"@[3] == 'P' && "NUMPAD4"@[4] == 'A' && "NUMPAD4"@[5] == 'D' && "NUMPAD4"@[6] == '4');
                }
            }
        },
        KeyCode::Kp5 => {
            if s.len() == 3 {
                lemma_char_code(s[0], 'K');
                lemma_char_code(s[1], 'P');
                lemma_char_code(s[2], '5');
                assert(s =~= "KP5"@) by {
                    reveal_strlit("KP5");
                    assert("KP5"@.len() == 3 && "KP5"@[0] == 'K' && "KP5"@[1] == 'P' && "KP5"@[2] == '5');
                }
            } else {
                lemma_char_code(s[0], 'N');
                lemma_char_code(s[1], 'U');
                lemma_char_code(s[2], 'M');
                lemma_char_code(s[3], 'P');
                lemma_char_code(s[4], 'A');
                lemma_char_code(s[5], 'D');
                lemma_char_code(s[6], '5');
                assert(s =~= "NUMPAD5"@) by {
                    reveal_strlit("NUMPAD5");
                    assert("NUMPAD5"@.len() == 7 && "NUMPAD5"@[0] == 'N' && "NUMPAD5"@[1] == 'U' && "NUMPAD5"@[2] == 'M' && "NUMPAD5"@[3] == 'P' && "NUMPAD5"@[4] == 'A' && "NUMPAD5"@[5] == 'D' && "NUMPAD5"@[6] == '5');
                }
            }
        },
        KeyCode::Kp6 => {
            if s.len() == 3 {
                lemma_char_code(s[0], 'K');
                lemma_char_code(s[1], 'P');
                lemma_char_code(s[2], '6');
                assert(s =~= "KP6"@) by {
                    reveal_strlit("KP6");
                    assert("KP6"@.len() == 3 && "KP6"@[0] == 'K' && "KP6"@[1] == 'P' && "KP6"@[2] == '6');
                }
            } else {
                lemma_char_code(s[0], 'N');
                lemma_char_code(s[1], 'U');
                lemma_char_code(s[2], 'M');
                lemma_char_code(s[3], 'P');
                lemma_char_code(s[4], 'A');
                lemma_char_code(s[5], 'D');
                lemma_char_code(s[6], '6');
                assert(s =~= "NUMPAD6"@) by {
                    reveal_strlit("NUMPAD6");
                    assert("NUMPAD6"@.len() == 7 && "NUMPAD6"@[0] == 'N' && "NUMPAD6"@[1] == 'U' && "NUMPAD6"@[2] == 'M' && "NUMPAD6"@[3] == 'P' && "NUMPAD6"@[4] == 'A' && "NUMPAD6"@[5] == 'D' && "NUMPAD6"@[6] == '6');
                }
            }
        },
        KeyCode::Kp7 => {
            if s.len() == 3 {
                lemma_char_code(s[0], 'K');
                lemma_char_code(s[1], 'P');
                lemma_char_code(s[2], '7');
                assert(s =~= "KP7"@) by {
                    reveal_strlit("KP7");
                    assert("KP7"@.len() == 3 && "KP7"@[0] == 'K' && "KP7"@[1] == 'P' && "KP7"@[2] == '7');
                }
            } else {
                lemma_char_code(s[0], 'N');
                lemma_char_code(s[1], 'U');
                lemma_char_code(s[2], 'M');
                lemma_char_code(s[3], 'P');
                lemma_char_code(s[4], 'A');
                lemma_char_code(s[5], 'D');
                lemma_char_code(s[6], '7');
                assert(s =~= "NUMPAD7"@) by {
                    reveal_strlit("NUMPAD7");
                    assert("NUMPAD7"@.len() == 7 && "NUMPAD7"@[0] == 'N' && "NUMPAD7"@[1] == 'U' && "NUMPAD7"@[2] == 'M' && "NUMPAD7"@[3] == 'P' && "NUMPAD7"@[4] == 'A' && "NUMPAD7"@[5] == 'D' && "NUMPAD7"@[6] == '7');
                }
            }
        },
        KeyCode::Kp8 => {
            if s.len() == 3 {
                lemma_char_code(s[0], 'K');
                lemma_char_code(s[1], 'P');
                lemma_char_code(s[2], '8');
                assert(s =~= "KP8"@) by {
                    reveal_strlit("KP8");
                    assert("KP8"@.len() == 3 && "KP8"@[0] == 'K' && "KP8"@[1] == 'P' && "KP8"@[2] == '8');
                }
            } else {
                lemma_char_code(s[0], 'N');
                lemma_char_code(s[1], 'U');
                lemma_char_code(s[2], 'M');
                lemma_char_code(s[3], 'P');
                lemma_char_code(s[4], 'A');
                lemma_char_code(s[5], 'D');
                lemma_char_code(s[6], '8');
                assert(s =~= "NUMPAD8"@) by {
                    reveal_strlit("NUMPAD8");
                    assert("NUMPAD8"@.len() == 7 && "NUMPAD8"@[0] == 'N' && "NUMPAD8"@[1] == 'U' && "NUMPAD8"@[2] == 'M' && "NUMPAD8"@[3] == 'P' && "NUMPAD8"@[4] == 'A' && "NUMPAD8"@[5] == 'D' && "NUMPAD8"@[6] == '8');
                }
            }
        },
        KeyCode::Kp9 => {
            if s.len() == 3 {
                lemma_char_code(s[0], 'K');
                lemma_char_code(s[1], 'P');
                lemma_char_code(s[2], '9');
                assert(s =~= "KP9"@) by {
                    reveal_strlit("KP9");
                    assert("KP9"@.len() == 3 && "KP9"@[0] == 'K' && "KP9"@[1] == 'P' && "KP9"@[2] == '9');
                }
            } else {
                lemma_char_code(s[0], 'N');
                lemma_char_code(s[1], 'U');
                lemma_char_code(s[2], 'M');
                lemma_char_code(s[3], 'P');
                lemma_char_code(s[4], 'A');
                lemma_char_code(s[5], 'D');
                lemma_char_code(s[6], '9');
                assert(s =~= "NUMPAD9"@) by {
                    reveal_strlit("NUMPAD9");
                    assert("NUMPAD9"@.len() == 7 && "NUMPAD9"@[0] == 'N' && "NUMPAD9"@[1] == 'U' && "NUMPAD9"@[2] == 'M' && "NUMPAD9"@[3] == 'P' && "NUMPAD9"@[4] == 'A' && "NUMPAD9"@[5] == 'D' && "NUMPAD9"@[6] == '9');
                }
            }
        },
        _ => {},
    }
}

/// Whatever a label names, it names the right key: an upper-case label
/// picks key `k` exactly when it is one of `k`'s names, so no label picks a
/// key it does not name and every name of a key picks that key.
pub proof fn law_labels_name_their_keys(s: Seq<char>, k: KeyCode)
    ensures
        key_for_label(s) == Some(k) <==> is_key_name(s, k),
{
    lemma_label_table_0();
    lemma_label_table_1();
    lemma_label_table_2();
    lemma_label_table_3();
    lemma_label_table_4();
    lemma_label_table_5();
    lemma_label_table_6();
    lemma_label_table_7();
    lemma_label_table_8();
    lemma_label_table_9();
    if is_key_name(s, k) {
        lemma_name_is_table_name(s, k);
    }
}

/// The key at a slot of the table sits at that slot.
pub proof fn lemma_slot_of_key_at(n: int)
    requires
        0 <= n < KEY_COUNT,
    ensures
        key_slot(key_at_slot(n)) == n,
{
}

/// The slot of the key a one-character letter or digit label names: digits
/// `0` to `9` take slots 0 to 9, letters `A` to `Z`, in either case, slots
/// 10 to 35 in alphabetical order.
pub open spec fn letter_or_digit_slot(c: char) -> int {
    let u = c as u32;
    if 48 <= u <= 57 {
        u - 48
    } else if 65 <= u <= 90 {
        u - 55
    } else {
        u - 87
    }
}

/// A label of one digit or one letter, in either case and with any white
/// space around it, picks the key of that digit or letter: `"z"`, `"Z"` and
/// `" z "` pick `KeyZ`, `"7"` picks `Num7`.
pub proof fn law_letter_and_digit_labels(p: Seq<char>, c: char, q: Seq<char>)
    requires
        all_white_space(p),
        all_white_space(q),
        (48 <= (c as u32) <= 57) || (65 <= (c as u32) <= 90) || (97 <= (c as u32) <= 122),
    ensures
        is_ascii_text(trimmed_text(p + seq![c] + q)),
        key_for_label(ascii_upper_text(trimmed_text(p + seq![c] + q))) == Some(key_at_slot(letter_or_digit_slot(c))),
{
    let one = seq![c];
    lemma_trim_ignores_surrounding_space(p, one, q);
    assert(!is_white_space(c));
    assert(trimmed_start(one) == one);
    assert(one.drop_last().len() == 0);
    assert(trimmed_end(one) == one);
    assert(trimmed_text(one) == one);
    let up = ascii_upper_text(one);
    let n = letter_or_digit_slot(c);
    lemma_slot_of_key_at(n);
    let k = key_at_slot(n);
    assert(up.len() == 1);
    assert(up[0] == ascii_upper(c));
    assert(is_key_name(up, k));
    law_labels_name_their_keys(up, k);
}

/// The hotkey label a fresh pad gets in each of the first fifteen slots
/// picks the key that the default table binds to that pad of bank 0, so a
/// fresh board's labels and the default bindings agree.
pub proof fn law_default_labels_pick_default_keys(j: int)
    requires
        0 <= j < 15,
    ensures
        default_hotkey_label(j) is Some,
        is_ascii_text(trimmed_text(default_hotkey_label(j)->0)),
        key_for_label(ascii_upper_text(trimmed_text(default_hotkey_label(j)->0))) == Some(default_keys()[j]),
        default_binding(default_keys()[j]) == Some((0usize, j as usize)),
{
    law_default_mapping();
    if j == 0 {
        reveal_strlit("1");
        assert("1"@ =~= seq!['1']);
        law_letter_and_digit_labels(Seq::empty(), '1', Seq::empty());
        assert(Seq::<char>::empty() + seq!['1'] + Seq::<char>::empty() =~= "1"@);
    } else if j == 1 {
        reveal_strlit("2");
        assert("2"@ =~= seq!['2']);
        law_letter_and_digit_labels(Seq::empty(), '2', Seq::empty());
        assert(Seq::<char>::empty() + seq!['2'] + Seq::<char>::empty() =~= "2"@);
    } else if j == 2 {
        reveal_strlit("3");
        assert("3"@ =~= seq!['3']);
        law_letter_and_digit_labels(Seq::empty(), '3', Seq::empty());
        assert(Seq::<char>::empty() + seq!['3'] + Seq::<char>::empty() =~= "3"@);
    } else if j == 3 {
        reveal_strlit("4");
        assert("4"@ =~= seq!['4']);
        law_letter_and_digit_labels(Seq::empty(), '4', Seq::empty());
        assert(Seq::<char>::empty() + seq!['4'] + Seq::<char>::empty() =~= "4"@);
    } else if j == 4 {
        reveal_strlit("5");
        assert("5"@ =~= seq!['5']);
        law_letter_and_digit_labels(Seq::empty(), '5', Seq::empty());
        assert(Seq::<char>::empty() + seq!['5'] + Seq::<char>::empty() =~= "5"@);
    } else if j == 5 {
        reveal_strlit("6");
        assert("6"@ =~= seq!['6']);
        law_letter_and_digit_labels(Seq::empty(), '6', Seq::empty());
        assert(Seq::<char>::empty() + seq!['6'] + Seq::<char>::empty() =~= "6"@);
    } else if j == 6 {
        reveal_strlit("7");
        assert("7"@ =~= seq!['7']);
        law_letter_and_digit_labels(Seq::empty(), '7', Seq::empty());
        assert(Seq::<char>::empty() + seq!['7'] + Seq::<char>::empty() =~= "7"@);
    } else if j == 7 {
        reveal_strlit("8");
        assert("8"@ =~= seq!['8']);
        law_letter_and_digit_labels(Seq::empty(), '8', Seq::empty());
        assert(Seq::<char>::empty() + seq!['8'] + Seq::<char>::empty() =~= "8"@);
    } else if j == 8 {
        reveal_strlit("9");
        assert("9"@ =~= seq!['9']);
        law_letter_and_digit_labels(Seq::empty(), '9', Seq::empty());
        assert(Seq::<char>::empty() + seq!['9'] + Seq::<char>::empty() =~= "9"@);
    } else if j == 9 {
        reveal_strlit("0");
        assert("0"@ =~= seq!['0']);
        law_letter_and_digit_labels(Seq::empty(), '0', Seq::empty());
        assert(Seq::<char>::empty() + seq!['0'] + Seq::<char>::empty() =~= "0"@);
    } else if j == 10 {
        reveal_strlit("Q");
        assert("Q"@ =~= seq!['Q']);
        law_letter_and_digit_labels(Seq::empty(), 'Q', Seq::empty());
        assert(Seq::<char>::empty() + seq!['Q'] + Seq::<char>::empty() =~= "Q"@);
    } else if j == 11 {
        reveal_strlit("W");
        assert("W"@ =~= seq!['W']);
        law_letter_and_digit_labels(Seq::empty(), 'W', Seq::empty());
        assert(Seq::<char>::empty() + seq!['W'] + Seq::<char>::empty() =~= "W"@);
    } else if j == 12 {
        reveal_strlit("E");
        assert("E"@ =~= seq!['E']);
        law_letter_and_digit_labels(Seq::empty(), 'E', Seq::empty());
        assert(Seq::<char>::empty() + seq!['E'] + Seq::<char>::empty() =~= "E"@);
    } else if j == 13 {
        reveal_strlit("R");
        assert("R"@ =~= seq!['R']);
        law_letter_and_digit_labels(Seq::empty(), 'R', Seq::empty());
        assert(Seq::<char>::empty() + seq!['R'] + Seq::<char>::empty() =~= "R"@);
    } else if j == 14 {
        reveal_strlit("T");
        assert("T"@ =~= seq!['T']);
        law_letter_and_digit_labels(Seq::empty(), 'T', Seq::empty());
        assert(Seq::<char>::empty() + seq!['T'] + Seq::<char>::empty() =~= "T"@);
    }
}

/// What a key press asks the soundboard to do.
#[derive(Clone, Copy, Debug, PartialEq, Eq, Structural)]
pub enum HotkeyAction {
    /// The panic key: stop every sound.
    StopAll,
    /// A bound key: play the pad in this bank and slot.
    Play { bank: usize, slot: usize },
    /// A key with no binding.
    Ignore,
}

/// Why a label could not be bound.
#[derive(Debug)]
pub enum HotkeyError {
    /// The label names no supported key; the label is given back.
    UnsupportedLabel(String),
}

/// The table of global hotkeys: each key is bound to at most one
/// (bank, slot) pad, and a fixed panic key stops all sounds.
pub struct HotkeyService {
    slots: Vec<Option<(usize, usize)>>,
    panic: KeyCode,
}

impl HotkeyService {
    /// The table holds one entry per key and `Escape` as its panic key.
    pub closed spec fn wf(self) -> bool {
        &&& self.slots.len() == KEY_COUNT
        &&& self.panic == panic_key()
    }

    /// The pad a key is bound to, if any.
    pub closed spec fn bound(self, k: KeyCode) -> Option<(usize, usize)> {
        self.slots[key_slot(k)]
    }

    /// The panic key of this table.
    pub closed spec fn spec_panic_key(self) -> KeyCode {
        self.panic
    }

    /// The binding of each key, by key slot.
    pub closed spec fn table(self) -> Seq<Option<(usize, usize)>> {
        self.slots@
    }

    /// A table with the default bindings and `Escape` as the panic key.
    pub fn new() -> (r: Self)
        ensures
            r.wf(),
            forall|k: KeyCode| #[trigger] r.bound(k) == default_binding(k),
            r.table() == default_table(),
            r.spec_panic_key() == panic_key(),
    {
        let mut slots: Vec<Option<(usize, usize)>> = Vec::new();
        let mut i: usize = 0;
        while i < KEY_COUNT
            invariant
                i <= KEY_COUNT,
                slots.len() == i,
                forall|j: int| 0 <= j < i ==> #[trigger] slots[j] == default_binding(key_at_slot(j)),
            decreases KEY_COUNT - i,
        {
            let k = KeyCode::at_slot(i);
            slots.push(default_binding_of(k));
            i = i + 1;
        }
        let r = HotkeyService { slots, panic: KeyCode::Escape };
        assert forall|k: KeyCode| #[trigger] r.bound(k) == default_binding(k) by {
            lemma_key_slot_inverse(k);
        }
        assert(r.slots@ =~= default_table());
        r
    }

    /// The pad a key is bound to, if any.
    pub fn binding(&self, key: KeyCode) -> (r: Option<(usize, usize)>)
        requires
            self.wf(),
        ensures
            r == self.bound(key),
    {
        self.slots[key.slot()]
    }

    /// Unbinds every key bound to the pad (bank, slot).
    pub fn clear_binding(&mut self, bank: usize, slot: usize)
        requires
            old(self).wf(),
        ensures
            final(self).wf(),
            forall|k: KeyCode| #[trigger] final(self).bound(k) == (if old(self).bound(k) == Some((bank, slot)) {
                None
            } else {
                old(self).bound(k)
            }),
            final(self).spec_panic_key() == old(self).spec_panic_key(),
    {
        let ghost before = self.slots@;
        let mut i: usize = 0;
        while i < KEY_COUNT
            invariant
                self.slots.len() == before.len(),
                before.len() == KEY_COUNT,
                self.panic == old(self).panic,
                i <= KEY_COUNT,
                forall|j: int| 0 <= j < i ==> #[trigger] self.slots[j] == (if before[j] == Some((bank, slot)) {
                    None
                } else {
                    before[j]
                }),
                forall|j: int| i <= j < KEY_COUNT ==> #[trigger] self.slots[j] == before[j],
            decreases KEY_COUNT - i,
        {
            let hit = match self.slots[i] {
                Some(v) => v.0 == bank && v.1 == slot,
                None => false,
            };
            if hit {
                self.slots.set(i, None);
            }
            i = i + 1;
        }
    }

    /// Binds `key` to the pad (bank, slot): the pad loses any other key it
    /// had, and whatever `key` was bound to before is replaced.
    pub fn rebind(&mut self, bank: usize, slot: usize, key: KeyCode)
        requires
            old(self).wf(),
        ensures
            final(self).wf(),
            forall|k: KeyCode| #[trigger] final(self).bound(k) == rebound(old(self).bound(k), k, bank, slot, key),
            final(self).spec_panic_key() == old(self).spec_panic_key(),
    {
        self.clear_binding(bank, slot);
        let ghost mid = *self;
        let i = key.slot();
        self.slots.set(i, Some((bank, slot)));
        assert forall|k: KeyCode| #[trigger] self.bound(k) == (if k == key {
            Some((bank, slot))
        } else {
            mid.bound(k)
        }) by {
            lemma_key_slot_injective(k, key);
        }
    }

    /// Binds the key that `label` names to the pad (bank, slot), as `rebind`
    /// does; a label that names no supported key changes nothing.
    pub fn rebind_label(&mut self, bank: usize, slot: usize, label: &str) -> (r: Result<(), HotkeyError>)
        requires
            old(self).wf(),
        ensures
            final(self).wf(),
            match parse_label_spec(label@) {
                Some(key) => r is Ok && forall|k: KeyCode| #[trigger] final(self).bound(k)
                    == rebound(old(self).bound(k), k, bank, slot, key),
                None => r matches Err(HotkeyError::UnsupportedLabel(l)) && l@ == label@
                    && forall|k: KeyCode| #[trigger] final(self).bound(k) == old(self).bound(k),
            },
            final(self).spec_panic_key() == old(self).spec_panic_key(),
    {
        match parse_key_label(label) {
            Some(key) => {
                self.rebind(bank, slot, key);
                Ok(())
            },
            None => Err(HotkeyError::UnsupportedLabel(String::from_str(label))),
        }
    }

    /// What a press of `key` asks for: the panic key stops everything, a
    /// bound key plays its pad, any other key is ignored.
    pub fn on_key_press(&self, key: KeyCode) -> (r: HotkeyAction)
        requires
            self.wf(),
        ensures
            r == key_press_action(self.spec_panic_key(), self.bound(key), key),
    {
        if key == self.panic {
            return HotkeyAction::StopAll;
        }
        match self.binding(key) {
            Some(v) => HotkeyAction::Play { bank: v.0, slot: v.1 },
            None => HotkeyAction::Ignore,
        }
    }

    /// Every binding of the table, one (key, (bank, slot)) pair per bound key.
    pub fn mapping(&self) -> (r: Vec<(KeyCode, (usize, usize))>)
        requires
            self.wf(),
        ensures
            r@ == listed(self.table(), KEY_COUNT as int),
            forall|k: KeyCode, v: (usize, usize)| #[trigger] r@.contains((k, v)) <==> self.bound(k) == Some(v),
            forall|i: int, j: int| 0 <= i < j < r.len() ==> r[i].0 != r[j].0,
    {
        let mut out: Vec<(KeyCode, (usize, usize))> = Vec::new();
        let mut i: usize = 0;
        while i < KEY_COUNT
            invariant
                i <= KEY_COUNT,
                self.slots.len() == KEY_COUNT,
                out@ == listed(self.slots@, i as int),
                forall|m: int| 0 <= m < out.len() ==> key_slot(#[trigger] out[m].0) < i
                    && self.slots[key_slot(out[m].0)] == Some(out[m].1),
                forall|m: int, n: int| 0 <= m < n < out.len() ==> key_slot(out[m].0) < key_slot(out[n].0),
                forall|j: int| 0 <= j < i && #[trigger] self.slots[j] is Some ==>
                    out@.contains((key_at_slot(j), self.slots[j]->0)),
            decreases KEY_COUNT - i,
        {
            match self.slots[i] {
                Some(v) => {
                    let k = KeyCode::at_slot(i);
                    let ghost prev = out@;
                    out.push((k, v));
                    assert forall|j: int| 0 <= j < i + 1 && #[trigger] self.slots[j] is Some implies
                        out@.contains((key_at_slot(j), self.slots[j]->0)) by {
                        if j < i {
                            assert(prev.contains((key_at_slot(j), self.slots[j]->0)));
                            let w = choose|w: int| 0 <= w < prev.len() && prev[w] == (key_at_slot(j), self.slots[j]->0);
                            assert(out@[w] == prev[w]);
                        } else {
                            assert(out@[out.len() - 1] == (k, v));
                        }
                    }
                },
                None => {},
            }
            i = i + 1;
        }
        assert forall|k: KeyCode, v: (usize, usize)| #[trigger] out@.contains((k, v)) <==> self.bound(k) == Some(v) by {
            lemma_key_slot_inverse(k);
            if out@.contains((k, v)) {
                let m = choose|m: int| 0 <= m < out.len() && out@[m] == (k, v);
                assert(self.slots[key_slot(out[m].0)] == Some(out[m].1));
            }
            if self.bound(k) == Some(v) {
                assert(self.slots[key_slot(k)] is Some);
            }
        }
        assert forall|i: int, j: int| 0 <= i < j < out.len() implies out[i].0 != out[j].0 by {
            assert(key_slot(out[i].0) < key_slot(out[j].0));
        }
        out
    }
}

/// The bindings of the first `n` key slots of a table, one (key, pad) pair
/// per bound key, in key-slot order.
pub open spec fn listed(table: Seq<Option<(usize, usize)>>, n: int) -> Seq<(KeyCode, (usize, usize))>
    decreases n,
{
    if n <= 0 {
        Seq::empty()
    } else {
        let prev = listed(table, n - 1);
        match table[n - 1] {
            Some(v) => prev.push((key_at_slot(n - 1), v)),
            None => prev,
        }
    }
}

/// The default binding of each key, by key slot.
pub open spec fn default_table() -> Seq<Option<(usize, usize)>> {
    Seq::new(KEY_COUNT as nat, |j: int| default_binding(key_at_slot(j)))
}

/// The keys that the default table binds, in the order of the pads of bank
/// 0 they play: 1 to 9, 0, Q, W, E, R, T.
pub open spec fn default_keys() -> Seq<KeyCode> {
    seq![
        KeyCode::Num1, KeyCode::Num2, KeyCode::Num3, KeyCode::Num4, KeyCode::Num5,
        KeyCode::Num6, KeyCode::Num7, KeyCode::Num8, KeyCode::Num9, KeyCode::Num0,
        KeyCode::KeyQ, KeyCode::KeyW, KeyCode::KeyE, KeyCode::KeyR, KeyCode::KeyT,
    ]
}

/// The binding of key `k` after `key` was bound to the pad (bank, slot),
/// given the binding `before` that `k` had.
pub open spec fn rebound(before: Option<(usize, usize)>, k: KeyCode, bank: usize, slot: usize, key: KeyCode) -> Option<(usize, usize)> {
    if k == key {
        Some((bank, slot))
    } else if before == Some((bank, slot)) {
        None
    } else {
        before
    }
}

/// The action for a press of `key`, given the panic key and the key's binding.
pub open spec fn key_press_action(panic: KeyCode, binding: Option<(usize, usize)>, key: KeyCode) -> HotkeyAction {
    if key == panic {
        HotkeyAction::StopAll
    } else {
        match binding {
            Some(v) => HotkeyAction::Play { bank: v.0, slot: v.1 },
            None => HotkeyAction::Ignore,
        }
    }
}

/// The default binding of a key.
fn default_binding_of(k: KeyCode) -> (r: Option<(usize, usize)>)
    ensures
        r == default_binding(k),
{
    match k {
        KeyCode::Num1 => Some((0, 0)),
        KeyCode::Num2 => Some((0, 1)),
        KeyCode::Num3 => Some((0, 2)),
        KeyCode::Num4 => Some((0, 3)),
        KeyCode::Num5 => Some((0, 4)),
        KeyCode::Num6 => Some((0, 5)),
        KeyCode::Num7 => Some((0, 6)),
        KeyCode::Num8 => Some((0, 7)),
        KeyCode::Num9 => Some((0, 8)),
        KeyCode::Num0 => Some((0, 9)),
        KeyCode::KeyQ => Some((0, 10)),
        KeyCode::KeyW => Some((0, 11)),
        KeyCode::KeyE => Some((0, 12)),
        KeyCode::KeyR => Some((0, 13)),
        KeyCode::KeyT => Some((0, 14)),
        _ => None,
    }
}

impl Default for HotkeyService {
    fn default() -> (r: Self)
        ensures
            r.wf(),
            forall|k: KeyCode| #[trigger] r.bound(k) == default_binding(k),
            r.spec_panic_key() == panic_key(),
    {
        Self::new()
    }
}

/// The key a pad's hotkey label names, if it has a label and the label is
/// supported.
pub open spec fn pad_key(p: Pad) -> Option<KeyCode> {
    match p.hotkey {
        Some(l) => parse_label_spec(l@),
        None => None,
    }
}

/// The pad of `pads` that binds key `k`: the last one whose hotkey names
/// `k`, as (its bank, its id).
pub open spec fn pads_binding(pads: Seq<Pad>, k: KeyCode) -> Option<(usize, usize)>
    decreases pads.len(),
{
    if pads.len() == 0 {
        None
    } else if pad_key(pads.last()) == Some(k) {
        Some((pads.last().bank, pads.last().id))
    } else {
        pads_binding(pads.drop_last(), k)
    }
}

/// The binding of key `k` after a table is built from the banks `banks`: the
/// last pad, bank by bank and slot by slot, whose hotkey names `k`; the
/// default binding of `k` when no pad names it.
pub open spec fn board_binding(banks: Seq<Bank>, k: KeyCode) -> Option<(usize, usize)>
    decreases banks.len(),
{
    if banks.len() == 0 {
        default_binding(k)
    } else {
        match pads_binding(banks.last().pads@, k) {
            Some(v) => Some(v),
            None => board_binding(banks.drop_last(), k),
        }
    }
}

impl HotkeyService {
    /// Binds `key` to (bank, slot), replacing what `key` was bound to and
    /// leaving every other key as it was.
    fn insert(&mut self, key: KeyCode, bank: usize, slot: usize)
        requires
            old(self).wf(),
        ensures
            final(self).wf(),
            forall|k: KeyCode| #[trigger] final(self).bound(k) == (if k == key {
                Some((bank, slot))
            } else {
                old(self).bound(k)
            }),
    {
        let i = key.slot();
        self.slots.set(i, Some((bank, slot)));
        assert forall|k: KeyCode| #[trigger] self.bound(k) == (if k == key {
            Some((bank, slot))
        } else {
            old(self).bound(k)
        }) by {
            lemma_key_slot_injective(k, key);
        }
    }

    /// Rebuilds the table from the hotkey labels of the soundboard's pads,
    /// on top of the default bindings; labels that name no key are skipped.
    pub fn sync_from_board(&mut self, board: &Soundboard)
        requires
            old(self).wf(),
        ensures
            final(self).wf(),
            forall|k: KeyCode| #[trigger] final(self).bound(k) == board_binding(board.banks@, k),
    {
        let mut table = HotkeyService::new();
        let nb = board.banks.len();
        let mut i: usize = 0;
        while i < nb
            invariant
                nb == board.banks.len(),
                i <= nb,
                table.wf(),
                forall|k: KeyCode| #[trigger] table.bound(k) == board_binding(board.banks@.take(i as int), k),
            decreases nb - i,
        {
            let bank = &board.banks[i];
            let np = bank.pads.len();
            let mut j: usize = 0;
            while j < np
                invariant
                    np == bank.pads.len(),
                    j <= np,
                    table.wf(),
                    forall|k: KeyCode| #[trigger] table.bound(k) == (match pads_binding(bank.pads@.take(j as int), k) {
                        Some(v) => Some(v),
                        None => board_binding(board.banks@.take(i as int), k),
                    }),
                decreases np - j,
            {
                let pad = &bank.pads[j];
                let ghost before = table;
                match &pad.hotkey {
                    Some(label) => {
                        match parse_key_label(label.as_str()) {
                            Some(key) => {
                                table.insert(key, pad.bank, pad.id);
                            },
                            None => {},
                        }
                    },
                    None => {},
                }
                assert(bank.pads@.take(j + 1).drop_last() =~= bank.pads@.take(j as int));
                assert(bank.pads@.take(j + 1).last() == bank.pads@[j as int]);
                j = j + 1;
            }
            assert(bank.pads@.take(np as int) =~= bank.pads@);
            assert(board.banks@.take(i + 1).drop_last() =~= board.banks@.take(i as int));
            assert(board.banks@.take(i + 1).last() == board.banks@[i as int]);
            i = i + 1;
        }
        assert(board.banks@.take(nb as int) =~= board.banks@);
        *self = table;
    }
}


/// After `rebind(bank, slot, key)`, `key` is the one key bound to the pad
/// (bank, slot), and keys that were bound elsewhere keep their binding.
pub proof fn law_rebind_single_key(before: HotkeyService, after: HotkeyService, bank: usize, slot: usize, key: KeyCode)
    requires
        forall|k: KeyCode| #[trigger] after.bound(k) == rebound(before.bound(k), k, bank, slot, key),
    ensures
        forall|k: KeyCode| #[trigger] after.bound(k) == Some((bank, slot)) <==> k == key,
        forall|k: KeyCode| k != key && before.bound(k) != Some((bank, slot)) ==> #[trigger] after.bound(k) == before.bound(k),
{
}

/// After `clear_binding(bank, slot)` no key is bound to the pad, and every
/// other binding is kept.
pub proof fn law_clear_unbinds(before: HotkeyService, after: HotkeyService, bank: usize, slot: usize)
    requires
        forall|k: KeyCode| #[trigger] after.bound(k) == (if before.bound(k) == Some((bank, slot)) {
            None
        } else {
            before.bound(k)
        }),
    ensures
        forall|k: KeyCode| #[trigger] after.bound(k) != Some((bank, slot)),
        forall|k: KeyCode| before.bound(k) != Some((bank, slot)) ==> #[trigger] after.bound(k) == before.bound(k),
{
}

/// The panic key stops every sound, whatever it is bound to.
pub proof fn law_panic_key_stops_all(binding: Option<(usize, usize)>)
    ensures
        key_press_action(panic_key(), binding, panic_key()) == HotkeyAction::StopAll,
{
}

/// The default bindings give each of the first fifteen pads of bank 0 its
/// own key.
pub proof fn law_default_bindings_distinct(a: KeyCode, b: KeyCode)
    requires
        default_binding(a) is Some,
        default_binding(a) == default_binding(b),
    ensures
        a == b,
{
    match a {
        KeyCode::Num1 | KeyCode::Num2 | KeyCode::Num3 | KeyCode::Num4 | KeyCode::Num5 | KeyCode::Num6
        | KeyCode::Num7 | KeyCode::Num8 | KeyCode::Num9 | KeyCode::Num0 | KeyCode::KeyQ | KeyCode::KeyW
        | KeyCode::KeyE | KeyCode::KeyR | KeyCode::KeyT => {
            match b {
                KeyCode::Num1 | KeyCode::Num2 | KeyCode::Num3 | KeyCode::Num4 | KeyCode::Num5 | KeyCode::Num6
                | KeyCode::Num7 | KeyCode::Num8 | KeyCode::Num9 | KeyCode::Num0 | KeyCode::KeyQ | KeyCode::KeyW
                | KeyCode::KeyE | KeyCode::KeyR | KeyCode::KeyT => {},
                _ => {},
            }
        },
        _ => {},
    }
}


/// The binding of key `k` after the pad (bank, slot) lost its keys.
pub open spec fn unbound(before: Option<(usize, usize)>, bank: usize, slot: usize) -> Option<(usize, usize)> {
    if before == Some((bank, slot)) {
        None
    } else {
        before
    }
}

impl HotkeyService {
    /// Gives the pad (bank, slot) the hotkey `label` after an edit of the
    /// pad: the pad loses its keys, then a label that is not blank is bound
    /// as `rebind_label` binds it.
    pub fn apply_pad_hotkey(&mut self, bank: usize, slot: usize, label: Option<&str>) -> (r: Result<(), HotkeyError>)
        requires
            old(self).wf(),
        ensures
            final(self).wf(),
            final(self).spec_panic_key() == old(self).spec_panic_key(),
            match label {
                Some(l) if trimmed_text(l@).len() != 0 => match parse_label_spec(l@) {
                    Some(key) => r is Ok && forall|k: KeyCode| #[trigger] final(self).bound(k)
                        == rebound(unbound(old(self).bound(k), bank, slot), k, bank, slot, key),
                    None => r matches Err(HotkeyError::UnsupportedLabel(e)) && e@ == l@
                        && forall|k: KeyCode| #[trigger] final(self).bound(k) == unbound(old(self).bound(k), bank, slot),
                },
                _ => r is Ok && forall|k: KeyCode| #[trigger] final(self).bound(k) == unbound(old(self).bound(k), bank, slot),
            },
    {
        self.clear_binding(bank, slot);
        match label {
            Some(l) => {
                if trim_text(l).is_empty() {
                    Ok(())
                } else {
                    self.rebind_label(bank, slot, l)
                }
            },
            None => Ok(()),
        }
    }
}


/// Pressing the key just bound to a pad plays that pad, unless the key is
/// the panic key.
pub proof fn law_assigned_key_plays(before: HotkeyService, after: HotkeyService, bank: usize, slot: usize, key: KeyCode)
    requires
        forall|k: KeyCode| #[trigger] after.bound(k) == rebound(before.bound(k), k, bank, slot, key),
        key != panic_key(),
    ensures
        key_press_action(panic_key(), after.bound(key), key) == (HotkeyAction::Play { bank, slot }),
{
    assert(after.bound(key) == Some((bank, slot)));
}

/// White space around a label never matters, and a trimmed label parses as
/// the label itself: `" f5 "` is `F5`.
pub proof fn law_label_spacing_ignored(p: Seq<char>, label: Seq<char>, q: Seq<char>)
    requires
        all_white_space(p),
        all_white_space(q),
    ensures
        parse_label_spec(p + label + q) == parse_label_spec(label),
        parse_label_spec(trimmed_text(label)) == parse_label_spec(label),
{
    lemma_trim_ignores_surrounding_space(p, label, q);
    lemma_trim_idempotent(label);
}


/// Two characters with the same code point are the same character.
proof fn lemma_char_code(c: char, d: char)
    requires
        c as u32 == d as u32,
    ensures
        c == d,
{
}
} // verus!
