//! The text that shows a key chord to the user, such as `Ctrl+S`.

use crate::keyboard::code::Code;
use crate::keyboard::keybind_action::KeybindAction;
use crate::keyboard::keybind_manager::first_chord;
use crate::keyboard::keybind_manager::KeybindManager;
use crate::keyboard::modifiers::Modifiers;
use vstd::prelude::*;

verus! {

/// The glyph that stands for a physical key in a shortcut hint: letters,
/// F1 to F12, Enter, Space, Esc, Tab, Backspace, Delete and the four arrows.
/// Other keys have none.
pub open spec fn key_glyph(code: Code) -> Option<Seq<char>> {
    match code {
        Code::KeyA => Some("A"@),
        Code::KeyB => Some("B"@),
        Code::KeyC => Some("C"@),
        Code::KeyD => Some("D"@),
        Code::KeyE => Some("E"@),
        Code::KeyF => Some("F"@),
        Code::KeyG => Some("G"@),
        Code::KeyH => Some("H"@),
        Code::KeyI => Some("I"@),
        Code::KeyJ => Some("J"@),
        Code::KeyK => Some("K"@),
        Code::KeyL => Some("L"@),
        Code::KeyM => Some("M"@),
        Code::KeyN => Some("N"@),
        Code::KeyO => Some("O"@),
        Code::KeyP => Some("P"@),
        Code::KeyQ => Some("Q"@),
        Code::KeyR => Some("R"@),
        Code::KeyS => Some("S"@),
        Code::KeyT => Some("T"@),
        Code::KeyU => Some("U"@),
        Code::KeyV => Some("V"@),
        Code::KeyW => Some("W"@),
        Code::KeyX => Some("X"@),
        Code::KeyY => Some("Y"@),
        Code::KeyZ => Some("Z"@),
        Code::F1 => Some("F1"@),
        Code::F2 => Some("F2"@),
        Code::F3 => Some("F3"@),
        Code::F4 => Some("F4"@),
        Code::F5 => Some("F5"@),
        Code::F6 => Some("F6"@),
        Code::F7 => Some("F7"@),
        Code::F8 => Some("F8"@),
        Code::F9 => Some("F9"@),
        Code::F10 => Some("F10"@),
        Code::F11 => Some("F11"@),
        Code::F12 => Some("F12"@),
        Code::Enter => Some("Enter"@),
        Code::Space => Some("Space"@),
        Code::Escape => Some("Esc"@),
        Code::Tab => Some("Tab"@),
        Code::Backspace => Some("Backspace"@),
        Code::Delete => Some("Delete"@),
        Code::ArrowUp => Some("↑"@),
        Code::ArrowDown => Some("↓"@),
        Code::ArrowLeft => Some("←"@),
        Code::ArrowRight => Some("→"@),
        _ => None,
    }
}

/// The text that stands for a physical key in a shortcut hint: its glyph,
/// or the identifier of the key code where it has no glyph.
pub open spec fn key_text(code: Code) -> Seq<char> {
    match key_glyph(code) {
        Some(glyph) => glyph,
        None => code.spec_name(),
    }
}

/// The part of a shortcut hint that one modifier contributes: its name and
/// the separator if it is held, nothing if it is not.
pub open spec fn held_text(held: bool, name: Seq<char>) -> Seq<char> {
    if held {
        name + "+"@
    } else {
        Seq::empty()
    }
}

/// The shortcut hint of a chord: the names of the held modifiers in the
/// order Ctrl, Shift, Alt, Super, then the text of the key, joined by `+`.
pub open spec fn chord_label(modifiers: Modifiers, code: Code) -> Seq<char> {
    held_text(modifiers.ctrl, "Ctrl"@) + held_text(modifiers.shift, "Shift"@) + held_text(
        modifiers.alt,
        "Alt"@,
    ) + held_text(modifiers.logo, "Super"@) + key_text(code)
}

/// The shortcut hint of the chord that triggers `action`, empty where no
/// chord does.
pub open spec fn action_label(chord: Option<(Modifiers, Code)>) -> Seq<char> {
    match chord {
        Some((modifiers, code)) => chord_label(modifiers, code),
        None => Seq::empty(),
    }
}

/// The glyph of a physical key, if it has one.
pub fn glyph_of_code(code: Code) -> (r: Option<&'static str>)
    ensures
        match r {
            Some(glyph) => key_glyph(code) == Some(glyph@),
            None => key_glyph(code) is None,
        },
{
    match code {
        Code::KeyA => Some("A"),
        Code::KeyB => Some("B"),
        Code::KeyC => Some("C"),
        Code::KeyD => Some("D"),
        Code::KeyE => Some("E"),
        Code::KeyF => Some("F"),
        Code::KeyG => Some("G"),
        Code::KeyH => Some("H"),
        Code::KeyI => Some("I"),
        Code::KeyJ => Some("J"),
        Code::KeyK => Some("K"),
        Code::KeyL => Some("L"),
        Code::KeyM => Some("M"),
        Code::KeyN => Some("N"),
        Code::KeyO => Some("O"),
        Code::KeyP => Some("P"),
        Code::KeyQ => Some("Q"),
        Code::KeyR => Some("R"),
        Code::KeyS => Some("S"),
        Code::KeyT => Some("T"),
        Code::KeyU => Some("U"),
        Code::KeyV => Some("V"),
        Code::KeyW => Some("W"),
        Code::KeyX => Some("X"),
        Code::KeyY => Some("Y"),
        Code::KeyZ => Some("Z"),
        Code::F1 => Some("F1"),
        Code::F2 => Some("F2"),
        Code::F3 => Some("F3"),
        Code::F4 => Some("F4"),
        Code::F5 => Some("F5"),
        Code::F6 => Some("F6"),
        Code::F7 => Some("F7"),
        Code::F8 => Some("F8"),
        Code::F9 => Some("F9"),
        Code::F10 => Some("F10"),
        Code::F11 => Some("F11"),
        Code::F12 => Some("F12"),
        Code::Enter => Some("Enter"),
        Code::Space => Some("Space"),
        Code::Escape => Some("Esc"),
        Code::Tab => Some("Tab"),
        Code::Backspace => Some("Backspace"),
        Code::Delete => Some("Delete"),
        Code::ArrowUp => Some("↑"),
        Code::ArrowDown => Some("↓"),
        Code::ArrowLeft => Some("←"),
        Code::ArrowRight => Some("→"),
        _ => None,
    }
}

/// Appends the name of a modifier and the separator to `text` if the
/// modifier is held.
fn push_held(text: &mut String, held: bool, name: &str)
    ensures
        final(text)@ == old(text)@ + held_text(held, name@),
{
    if held {
        text.append(name);
        text.append("+");
    }
}

impl KeybindManager {
    /// The shortcut hint of a chord, such as `Ctrl+Shift+S`.
    pub fn get_display_text_for_keybind(mods: Modifiers, code: Code) -> (r: String)
        ensures
            r@ == chord_label(mods, code),
    {
        let mut text = String::new();
        push_held(&mut text, mods.ctrl, "Ctrl");
        push_held(&mut text, mods.shift, "Shift");
        push_held(&mut text, mods.alt, "Alt");
        push_held(&mut text, mods.logo, "Super");
        match glyph_of_code(code) {
            Some(glyph) => text.append(glyph),
            None => text.append(code.name()),
        }
        text
    }

    /// The shortcut hint of the chord that triggers `keybind_action`; the
    /// empty string where no chord triggers it.
    pub fn get_display_text_for_action(&self, keybind_action: KeybindAction) -> (r: String)
        ensures
            r@ == action_label(first_chord(self.table(), keybind_action)),
    {
        match self.get_key_for_action(keybind_action) {
            Some(value) => KeybindManager::get_display_text_for_keybind(value.0, value.1),
            None => String::new(),
        }
    }
}

} // verus!
