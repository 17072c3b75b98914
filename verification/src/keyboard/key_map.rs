//! The translation between logical keys and physical key codes.

use crate::keyboard::code::Code;
use crate::keyboard::key::Key;
use crate::keyboard::key::KeyView;
use crate::keyboard::key::Named;
use crate::keyboard::keybind_manager::KeybindManager;
use vstd::prelude::*;

verus! {

/// The physical key that a typed character stands for. Only the lowercase
/// letters `a` to `z` have one.
pub open spec fn letter_code(c: char) -> Option<Code> {
    match c {
        'a' => Some(Code::KeyA),
        'b' => Some(Code::KeyB),
        'c' => Some(Code::KeyC),
        'd' => Some(Code::KeyD),
        'e' => Some(Code::KeyE),
        'f' => Some(Code::KeyF),
        'g' => Some(Code::KeyG),
        'h' => Some(Code::KeyH),
        'i' => Some(Code::KeyI),
        'j' => Some(Code::KeyJ),
        'k' => Some(Code::KeyK),
        'l' => Some(Code::KeyL),
        'm' => Some(Code::KeyM),
        'n' => Some(Code::KeyN),
        'o' => Some(Code::KeyO),
        'p' => Some(Code::KeyP),
        'q' => Some(Code::KeyQ),
        'r' => Some(Code::KeyR),
        's' => Some(Code::KeyS),
        't' => Some(Code::KeyT),
        'u' => Some(Code::KeyU),
        'v' => Some(Code::KeyV),
        'w' => Some(Code::KeyW),
        'x' => Some(Code::KeyX),
        'y' => Some(Code::KeyY),
        'z' => Some(Code::KeyZ),
        _ => None,
    }
}

/// The physical key that a logical key stands for: a key that types exactly
/// one lowercase letter has the code of that letter, every other key has none.
pub open spec fn key_code(key: KeyView) -> Option<Code> {
    match key {
        KeyView::Character(text) => if text.len() == 1 {
            letter_code(text[0])
        } else {
            None
        },
        _ => None,
    }
}

/// The key types exactly one lowercase letter `a` to `z`.
pub open spec fn is_letter_key(key: KeyView) -> bool {
    key matches KeyView::Character(text) && text.len() == 1 && 'a' <= text[0] <= 'z'
}

/// The physical key of a typed character.
fn code_of_letter(c: char) -> (r: Option<Code>)
    ensures
        r == letter_code(c),
{
    match c {
        'a' => Some(Code::KeyA),
        'b' => Some(Code::KeyB),
        'c' => Some(Code::KeyC),
        'd' => Some(Code::KeyD),
        'e' => Some(Code::KeyE),
        'f' => Some(Code::KeyF),
        'g' => Some(Code::KeyG),
        'h' => Some(Code::KeyH),
        'i' => Some(Code::KeyI),
        'j' => Some(Code::KeyJ),
        'k' => Some(Code::KeyK),
        'l' => Some(Code::KeyL),
        'm' => Some(Code::KeyM),
        'n' => Some(Code::KeyN),
        'o' => Some(Code::KeyO),
        'p' => Some(Code::KeyP),
        'q' => Some(Code::KeyQ),
        'r' => Some(Code::KeyR),
        's' => Some(Code::KeyS),
        't' => Some(Code::KeyT),
        'u' => Some(Code::KeyU),
        'v' => Some(Code::KeyV),
        'w' => Some(Code::KeyW),
        'x' => Some(Code::KeyX),
        'y' => Some(Code::KeyY),
        'z' => Some(Code::KeyZ),
        _ => None,
    }
}

/// The physical key that a logical key stands for, if it has one.
pub fn code_of_key(key: &Key) -> (r: Option<Code>)
    ensures
        r == key_code(key@),
{
    match key {
        Key::Character(text) => {
            let text = text.as_str();
            if text.unicode_len() == 1 {
                code_of_letter(text.get_char(0))
            } else {
                None
            }
        },
        _ => None,
    }
}

/// The logical key that a physical key usually stands for: the character
/// that a letter, digit, punctuation or numpad key types, or the name of a
/// functional key. Keys of the main block and of the numpad that type the
/// same character stand for the same logical key, and so do the left and the
/// right key of a modifier. Other physical keys stand for none.
pub open spec fn code_key(code: Code) -> Option<KeyView> {
    match code {
        Code::KeyA => Some(KeyView::Character("a"@)),
        Code::KeyB => Some(KeyView::Character("b"@)),
        Code::KeyC => Some(KeyView::Character("c"@)),
        Code::KeyD => Some(KeyView::Character("d"@)),
        Code::KeyE => Some(KeyView::Character("e"@)),
        Code::KeyF => Some(KeyView::Character("f"@)),
        Code::KeyG => Some(KeyView::Character("g"@)),
        Code::KeyH => Some(KeyView::Character("h"@)),
        Code::KeyI => Some(KeyView::Character("i"@)),
        Code::KeyJ => Some(KeyView::Character("j"@)),
        Code::KeyK => Some(KeyView::Character("k"@)),
        Code::KeyL => Some(KeyView::Character("l"@)),
        Code::KeyM => Some(KeyView::Character("m"@)),
        Code::KeyN => Some(KeyView::Character("n"@)),
        Code::KeyO => Some(KeyView::Character("o"@)),
        Code::KeyP => Some(KeyView::Character("p"@)),
        Code::KeyQ => Some(KeyView::Character("q"@)),
        Code::KeyR => Some(KeyView::Character("r"@)),
        Code::KeyS => Some(KeyView::Character("s"@)),
        Code::KeyT => Some(KeyView::Character("t"@)),
        Code::KeyU => Some(KeyView::Character("u"@)),
        Code::KeyV => Some(KeyView::Character("v"@)),
        Code::KeyW => Some(KeyView::Character("w"@)),
        Code::KeyX => Some(KeyView::Character("x"@)),
        Code::KeyY => Some(KeyView::Character("y"@)),
        Code::KeyZ => Some(KeyView::Character("z"@)),
        Code::Digit1 => Some(KeyView::Character("1"@)),
        Code::Digit2 => Some(KeyView::Character("2"@)),
        Code::Digit3 => Some(KeyView::Character("3"@)),
        Code::Digit4 => Some(KeyView::Character("4"@)),
        Code::Digit5 => Some(KeyView::Character("5"@)),
        Code::Digit6 => Some(KeyView::Character("6"@)),
        Code::Digit7 => Some(KeyView::Character("7"@)),
        Code::Digit8 => Some(KeyView::Character("8"@)),
        Code::Digit9 => Some(KeyView::Character("9"@)),
        Code::Digit0 => Some(KeyView::Character("0"@)),
        Code::Minus => Some(KeyView::Character("-"@)),
        Code::Equal => Some(KeyView::Character("="@)),
        Code::BracketLeft => Some(KeyView::Character("["@)),
        Code::BracketRight => Some(KeyView::Character("]"@)),
        Code::Backslash => Some(KeyView::Character("\\"@)),
        Code::Semicolon => Some(KeyView::Character(";"@)),
        Code::Quote => Some(KeyView::Character("'"@)),
        Code::Comma => Some(KeyView::Character(","@)),
        Code::Period => Some(KeyView::Character("."@)),
        Code::Slash => Some(KeyView::Character("/"@)),
        Code::Space => Some(KeyView::Character(" "@)),
        Code::Tab => Some(KeyView::Named(Named::Tab)),
        Code::Enter => Some(KeyView::Named(Named::Enter)),
        Code::Backspace => Some(KeyView::Named(Named::Backspace)),
        Code::Escape => Some(KeyView::Named(Named::Escape)),
        Code::Delete => Some(KeyView::Named(Named::Delete)),
        Code::Insert => Some(KeyView::Named(Named::Insert)),
        Code::Home => Some(KeyView::Named(Named::Home)),
        Code::End => Some(KeyView::Named(Named::End)),
        Code::PageUp => Some(KeyView::Named(Named::PageUp)),
        Code::PageDown => Some(KeyView::Named(Named::PageDown)),
        Code::ArrowLeft => Some(KeyView::Named(Named::ArrowLeft)),
        Code::ArrowRight => Some(KeyView::Named(Named::ArrowRight)),
        Code::ArrowUp => Some(KeyView::Named(Named::ArrowUp)),
        Code::ArrowDown => Some(KeyView::Named(Named::ArrowDown)),
        Code::F1 => Some(KeyView::Named(Named::F1)),
        Code::F2 => Some(KeyView::Named(Named::F2)),
        Code::F3 => Some(KeyView::Named(Named::F3)),
        Code::F4 => Some(KeyView::Named(Named::F4)),
        Code::F5 => Some(KeyView::Named(Named::F5)),
        Code::F6 => Some(KeyView::Named(Named::F6)),
        Code::F7 => Some(KeyView::Named(Named::F7)),
        Code::F8 => Some(KeyView::Named(Named::F8)),
        Code::F9 => Some(KeyView::Named(Named::F9)),
        Code::F10 => Some(KeyView::Named(Named::F10)),
        Code::F11 => Some(KeyView::Named(Named::F11)),
        Code::F12 => Some(KeyView::Named(Named::F12)),
        Code::Numpad0 => Some(KeyView::Character("0"@)),
        Code::Numpad1 => Some(KeyView::Character("1"@)),
        Code::Numpad2 => Some(KeyView::Character("2"@)),
        Code::Numpad3 => Some(KeyView::Character("3"@)),
        Code::Numpad4 => Some(KeyView::Character("4"@)),
        Code::Numpad5 => Some(KeyView::Character("5"@)),
        Code::Numpad6 => Some(KeyView::Character("6"@)),
        Code::Numpad7 => Some(KeyView::Character("7"@)),
        Code::Numpad8 => Some(KeyView::Character("8"@)),
        Code::Numpad9 => Some(KeyView::Character("9"@)),
        Code::NumpadDecimal => Some(KeyView::Character("."@)),
        Code::NumpadDivide => Some(KeyView::Character("/"@)),
        Code::NumpadMultiply => Some(KeyView::Character("*"@)),
        Code::NumpadSubtract => Some(KeyView::Character("-"@)),
        Code::NumpadAdd => Some(KeyView::Character("+"@)),
        Code::NumpadEnter => Some(KeyView::Named(Named::Enter)),
        Code::ShiftLeft => Some(KeyView::Named(Named::Shift)),
        Code::ShiftRight => Some(KeyView::Named(Named::Shift)),
        Code::ControlLeft => Some(KeyView::Named(Named::Control)),
        Code::ControlRight => Some(KeyView::Named(Named::Control)),
        Code::AltLeft => Some(KeyView::Named(Named::Alt)),
        Code::AltRight => Some(KeyView::Named(Named::Alt)),
        _ => None,
    }
}

/// The key that types `text`.
fn character(text: &str) -> (r: Key)
    ensures
        r@ == KeyView::Character(text@),
{
    Key::Character(text.to_string())
}

impl KeybindManager {
    /// The logical key that a physical key stands for, if it has one.
    pub fn map_code_to_key(code: Code) -> (r: Option<Key>)
        ensures
            match r {
                Some(key) => code_key(code) == Some(key@),
                None => code_key(code) is None,
            },
    {
        match code {
            Code::KeyA => Some(character("a")),
            Code::KeyB => Some(character("b")),
            Code::KeyC => Some(character("c")),
            Code::KeyD => Some(character("d")),
            Code::KeyE => Some(character("e")),
            Code::KeyF => Some(character("f")),
            Code::KeyG => Some(character("g")),
            Code::KeyH => Some(character("h")),
            Code::KeyI => Some(character("i")),
            Code::KeyJ => Some(character("j")),
            Code::KeyK => Some(character("k")),
            Code::KeyL => Some(character("l")),
            Code::KeyM => Some(character("m")),
            Code::KeyN => Some(character("n")),
            Code::KeyO => Some(character("o")),
            Code::KeyP => Some(character("p")),
            Code::KeyQ => Some(character("q")),
            Code::KeyR => Some(character("r")),
            Code::KeyS => Some(character("s")),
            Code::KeyT => Some(character("t")),
            Code::KeyU => Some(character("u")),
            Code::KeyV => Some(character("v")),
            Code::KeyW => Some(character("w")),
            Code::KeyX => Some(character("x")),
            Code::KeyY => Some(character("y")),
            Code::KeyZ => Some(character("z")),
            Code::Digit1 => Some(character("1")),
            Code::Digit2 => Some(character("2")),
            Code::Digit3 => Some(character("3")),
            Code::Digit4 => Some(character("4")),
            Code::Digit5 => Some(character("5")),
            Code::Digit6 => Some(character("6")),
            Code::Digit7 => Some(character("7")),
            Code::Digit8 => Some(character("8")),
            Code::Digit9 => Some(character("9")),
            Code::Digit0 => Some(character("0")),
            Code::Minus => Some(character("-")),
            Code::Equal => Some(character("=")),
            Code::BracketLeft => Some(character("[")),
            Code::BracketRight => Some(character("]")),
            Code::Backslash => Some(character("\\")),
            Code::Semicolon => Some(character(";")),
            Code::Quote => Some(character("'")),
            Code::Comma => Some(character(",")),
            Code::Period => Some(character(".")),
            Code::Slash => Some(character("/")),
            Code::Space => Some(character(" ")),
            Code::Tab => Some(Key::Named(Named::Tab)),
            Code::Enter => Some(Key::Named(Named::Enter)),
            Code::Backspace => Some(Key::Named(Named::Backspace)),
            Code::Escape => Some(Key::Named(Named::Escape)),
            Code::Delete => Some(Key::Named(Named::Delete)),
            Code::Insert => Some(Key::Named(Named::Insert)),
            Code::Home => Some(Key::Named(Named::Home)),
            Code::End => Some(Key::Named(Named::End)),
            Code::PageUp => Some(Key::Named(Named::PageUp)),
            Code::PageDown => Some(Key::Named(Named::PageDown)),
            Code::ArrowLeft => Some(Key::Named(Named::ArrowLeft)),
            Code::ArrowRight => Some(Key::Named(Named::ArrowRight)),
            Code::ArrowUp => Some(Key::Named(Named::ArrowUp)),
            Code::ArrowDown => Some(Key::Named(Named::ArrowDown)),
            Code::F1 => Some(Key::Named(Named::F1)),
            Code::F2 => Some(Key::Named(Named::F2)),
            Code::F3 => Some(Key::Named(Named::F3)),
            Code::F4 => Some(Key::Named(Named::F4)),
            Code::F5 => Some(Key::Named(Named::F5)),
            Code::F6 => Some(Key::Named(Named::F6)),
            Code::F7 => Some(Key::Named(Named::F7)),
            Code::F8 => Some(Key::Named(Named::F8)),
            Code::F9 => Some(Key::Named(Named::F9)),
            Code::F10 => Some(Key::Named(Named::F10)),
            Code::F11 => Some(Key::Named(Named::F11)),
            Code::F12 => Some(Key::Named(Named::F12)),
            Code::Numpad0 => Some(character("0")),
            Code::Numpad1 => Some(character("1")),
            Code::Numpad2 => Some(character("2")),
            Code::Numpad3 => Some(character("3")),
            Code::Numpad4 => Some(character("4")),
            Code::Numpad5 => Some(character("5")),
            Code::Numpad6 => Some(character("6")),
            Code::Numpad7 => Some(character("7")),
            Code::Numpad8 => Some(character("8")),
            Code::Numpad9 => Some(character("9")),
            Code::NumpadDecimal => Some(character(".")),
            Code::NumpadDivide => Some(character("/")),
            Code::NumpadMultiply => Some(character("*")),
            Code::NumpadSubtract => Some(character("-")),
            Code::NumpadAdd => Some(character("+")),
            Code::NumpadEnter => Some(Key::Named(Named::Enter)),
            Code::ShiftLeft => Some(Key::Named(Named::Shift)),
            Code::ShiftRight => Some(Key::Named(Named::Shift)),
            Code::ControlLeft => Some(Key::Named(Named::Control)),
            Code::ControlRight => Some(Key::Named(Named::Control)),
            Code::AltLeft => Some(Key::Named(Named::Alt)),
            Code::AltRight => Some(Key::Named(Named::Alt)),
            _ => None,
        }
    }
}

} // verus!
