//! Physical key codes: which key of the keyboard was pressed, whatever the
//! layout prints on it.

use vstd::prelude::*;

verus! {

/// A physical key, named after the W3C UI Events `code` values: writing
/// system keys, functional keys, the control pad, the arrow pad, the numpad,
/// the function row, media keys and legacy keys.
#[derive(Debug, Clone, Copy, PartialEq, Eq, Structural, Hash)]
pub enum Code {
    Backquote,
    Backslash,
    BracketLeft,
    BracketRight,
    Comma,
    Digit0,
    Digit1,
    Digit2,
    Digit3,
    Digit4,
    Digit5,
    Digit6,
    Digit7,
    Digit8,
    Digit9,
    Equal,
    IntlBackslash,
    IntlRo,
    IntlYen,
    KeyA,
    KeyB,
    KeyC,
    KeyD,
    KeyE,
    KeyF,
    KeyG,
    KeyH,
    KeyI,
    KeyJ,
    KeyK,
    KeyL,
    KeyM,
    KeyN,
    KeyO,
    KeyP,
    KeyQ,
    KeyR,
    KeyS,
    KeyT,
    KeyU,
    KeyV,
    KeyW,
    KeyX,
    KeyY,
    KeyZ,
    Minus,
    Period,
    Quote,
    Semicolon,
    Slash,
    AltLeft,
    AltRight,
    Backspace,
    CapsLock,
    ContextMenu,
    ControlLeft,
    ControlRight,
    Enter,
    SuperLeft,
    SuperRight,
    ShiftLeft,
    ShiftRight,
    Space,
    Tab,
    Convert,
    KanaMode,
    Lang1,
    Lang2,
    Lang3,
    Lang4,
    Lang5,
    NonConvert,
    Delete,
    End,
    Help,
    Home,
    Insert,
    PageDown,
    PageUp,
    ArrowDown,
    ArrowLeft,
    ArrowRight,
    ArrowUp,
    NumLock,
    Numpad0,
    Numpad1,
    Numpad2,
    Numpad3,
    Numpad4,
    Numpad5,
    Numpad6,
    Numpad7,
    Numpad8,
    Numpad9,
    NumpadAdd,
    NumpadBackspace,
    NumpadClear,
    NumpadClearEntry,
    NumpadComma,
    NumpadDecimal,
    NumpadDivide,
    NumpadEnter,
    NumpadEqual,
    NumpadHash,
    NumpadMemoryAdd,
    NumpadMemoryClear,
    NumpadMemoryRecall,
    NumpadMemoryStore,
    NumpadMemorySubtract,
    NumpadMultiply,
    NumpadParenLeft,
    NumpadParenRight,
    NumpadStar,
    NumpadSubtract,
    Escape,
    Fn,
    FnLock,
    PrintScreen,
    ScrollLock,
    Pause,
    BrowserBack,
    BrowserFavorites,
    BrowserForward,
    BrowserHome,
    BrowserRefresh,
    BrowserSearch,
    BrowserStop,
    Eject,
    LaunchApp1,
    LaunchApp2,
    LaunchMail,
    MediaPlayPause,
    MediaSelect,
    MediaStop,
    MediaTrackNext,
    MediaTrackPrevious,
    Power,
    Sleep,
    AudioVolumeDown,
    AudioVolumeMute,
    AudioVolumeUp,
    WakeUp,
    Meta,
    Hyper,
    Turbo,
    Abort,
    Resume,
    Suspend,
    Again,
    Copy,
    Cut,
    Find,
    Open,
    Paste,
    Props,
    Select,
    Undo,
    Hiragana,
    Katakana,
    F1,
    F2,
    F3,
    F4,
    F5,
    F6,
    F7,
    F8,
    F9,
    F10,
    F11,
    F12,
    F13,
    F14,
    F15,
    F16,
    F17,
    F18,
    F19,
    F20,
    F21,
    F22,
    F23,
    F24,
    F25,
    F26,
    F27,
    F28,
    F29,
    F30,
    F31,
    F32,
    F33,
    F34,
    F35,
}

impl Code {
    /// The identifier of the key code as text, such as `KeyA` or `NumpadEnter`.
    pub open spec fn spec_name(self) -> Seq<char> {
        match self {
            Code::Backquote => "Backquote"@,
            Code::Backslash => "Backslash"@,
            Code::BracketLeft => "BracketLeft"@,
            Code::BracketRight => "BracketRight"@,
            Code::Comma => "Comma"@,
            Code::Digit0 => "Digit0"@,
            Code::Digit1 => "Digit1"@,
            Code::Digit2 => "Digit2"@,
            Code::Digit3 => "Digit3"@,
            Code::Digit4 => "Digit4"@,
            Code::Digit5 => "Digit5"@,
            Code::Digit6 => "Digit6"@,
            Code::Digit7 => "Digit7"@,
            Code::Digit8 => "Digit8"@,
            Code::Digit9 => "Digit9"@,
            Code::Equal => "Equal"@,
            Code::IntlBackslash => "IntlBackslash"@,
            Code::IntlRo => "IntlRo"@,
            Code::IntlYen => "IntlYen"@,
            Code::KeyA => "KeyA"@,
            Code::KeyB => "KeyB"@,
            Code::KeyC => "KeyC"@,
            Code::KeyD => "KeyD"@,
            Code::KeyE => "KeyE"@,
            Code::KeyF => "KeyF"@,
            Code::KeyG => "KeyG"@,
            Code::KeyH => "KeyH"@,
            Code::KeyI => "KeyI"@,
            Code::KeyJ => "KeyJ"@,
            Code::KeyK => "KeyK"@,
            Code::KeyL => "KeyL"@,
            Code::KeyM => "KeyM"@,
            Code::KeyN => "KeyN"@,
            Code::KeyO => "KeyO"@,
            Code::KeyP => "KeyP"@,
            Code::KeyQ => "KeyQ"@,
            Code::KeyR => "KeyR"@,
            Code::KeyS => "KeyS"@,
            Code::KeyT => "KeyT"@,
            Code::KeyU => "KeyU"@,
            Code::KeyV => "KeyV"@,
            Code::KeyW => "KeyW"@,
            Code::KeyX => "KeyX"@,
            Code::KeyY => "KeyY"@,
            Code::KeyZ => "KeyZ"@,
            Code::Minus => "Minus"@,
            Code::Period => "Period"@,
            Code::Quote => "Quote"@,
            Code::Semicolon => "Semicolon"@,
            Code::Slash => "Slash"@,
            Code::AltLeft => "AltLeft"@,
            Code::AltRight => "AltRight"@,
            Code::Backspace => "Backspace"@,
            Code::CapsLock => "CapsLock"@,
            Code::ContextMenu => "ContextMenu"@,
            Code::ControlLeft => "ControlLeft"@,
            Code::ControlRight => "ControlRight"@,
            Code::Enter => "Enter"@,
            Code::SuperLeft => "SuperLeft"@,
            Code::SuperRight => "SuperRight"@,
            Code::ShiftLeft => "ShiftLeft"@,
            Code::ShiftRight => "ShiftRight"@,
            Code::Space => "Space"@,
            Code::Tab => "Tab"@,
            Code::Convert => "Convert"@,
            Code::KanaMode => "KanaMode"@,
            Code::Lang1 => "Lang1"@,
            Code::Lang2 => "Lang2"@,
            Code::Lang3 => "Lang3"@,
            Code::Lang4 => "Lang4"@,
            Code::Lang5 => "Lang5"@,
            Code::NonConvert => "NonConvert"@,
            Code::Delete => "Delete"@,
            Code::End => "End"@,
            Code::Help => "Help"@,
            Code::Home => "Home"@,
            Code::Insert => "Insert"@,
            Code::PageDown => "PageDown"@,
            Code::PageUp => "PageUp"@,
            Code::ArrowDown => "ArrowDown"@,
            Code::ArrowLeft => "ArrowLeft"@,
            Code::ArrowRight => "ArrowRight"@,
            Code::ArrowUp => "ArrowUp"@,
            Code::NumLock => "NumLock"@,
            Code::Numpad0 => "Numpad0"@,
            Code::Numpad1 => "Numpad1"@,
            Code::Numpad2 => "Numpad2"@,
            Code::Numpad3 => "Numpad3"@,
            Code::Numpad4 => "Numpad4"@,
            Code::Numpad5 => "Numpad5"@,
            Code::Numpad6 => "Numpad6"@,
            Code::Numpad7 => "Numpad7"@,
            Code::Numpad8 => "Numpad8"@,
            Code::Numpad9 => "Numpad9"@,
            Code::NumpadAdd => "NumpadAdd"@,
            Code::NumpadBackspace => "NumpadBackspace"@,
            Code::NumpadClear => "NumpadClear"@,
            Code::NumpadClearEntry => "NumpadClearEntry"@,
            Code::NumpadComma => "NumpadComma"@,
            Code::NumpadDecimal => "NumpadDecimal"@,
            Code::NumpadDivide => "NumpadDivide"@,
            Code::NumpadEnter => "NumpadEnter"@,
            Code::NumpadEqual => "NumpadEqual"@,
            Code::NumpadHash => "NumpadHash"@,
            Code::NumpadMemoryAdd => "NumpadMemoryAdd"@,
            Code::NumpadMemoryClear => "NumpadMemoryClear"@,
            Code::NumpadMemoryRecall => "NumpadMemoryRecall"@,
            Code::NumpadMemoryStore => "NumpadMemoryStore"@,
            Code::NumpadMemorySubtract => "NumpadMemorySubtract"@,
            Code::NumpadMultiply => "NumpadMultiply"@,
            Code::NumpadParenLeft => "NumpadParenLeft"@,
            Code::NumpadParenRight => "NumpadParenRight"@,
            Code::NumpadStar => "NumpadStar"@,
            Code::NumpadSubtract => "NumpadSubtract"@,
            Code::Escape => "Escape"@,
            Code::Fn => "Fn"@,
            Code::FnLock => "FnLock"@,
            Code::PrintScreen => "PrintScreen"@,
            Code::ScrollLock => "ScrollLock"@,
            Code::Pause => "Pause"@,
            Code::BrowserBack => "BrowserBack"@,
            Code::BrowserFavorites => "BrowserFavorites"@,
            Code::BrowserForward => "BrowserForward"@,
            Code::BrowserHome => "BrowserHome"@,
            Code::BrowserRefresh => "BrowserRefresh"@,
            Code::BrowserSearch => "BrowserSearch"@,
            Code::BrowserStop => "BrowserStop"@,
            Code::Eject => "Eject"@,
            Code::LaunchApp1 => "LaunchApp1"@,
            Code::LaunchApp2 => "LaunchApp2"@,
            Code::LaunchMail => "LaunchMail"@,
            Code::MediaPlayPause => "MediaPlayPause"@,
            Code::MediaSelect => "MediaSelect"@,
            Code::MediaStop => "MediaStop"@,
            Code::MediaTrackNext => "MediaTrackNext"@,
            Code::MediaTrackPrevious => "MediaTrackPrevious"@,
            Code::Power => "Power"@,
            Code::Sleep => "Sleep"@,
            Code::AudioVolumeDown => "AudioVolumeDown"@,
            Code::AudioVolumeMute => "AudioVolumeMute"@,
            Code::AudioVolumeUp => "AudioVolumeUp"@,
            Code::WakeUp => "WakeUp"@,
            Code::Meta => "Meta"@,
            Code::Hyper => "Hyper"@,
            Code::Turbo => "Turbo"@,
            Code::Abort => "Abort"@,
            Code::Resume => "Resume"@,
            Code::Suspend => "Suspend"@,
            Code::Again => "Again"@,
            Code::Copy => "Copy"@,
            Code::Cut => "Cut"@,
            Code::Find => "Find"@,
            Code::Open => "Open"@,
            Code::Paste => "Paste"@,
            Code::Props => "Props"@,
            Code::Select => "Select"@,
            Code::Undo => "Undo"@,
            Code::Hiragana => "Hiragana"@,
            Code::Katakana => "Katakana"@,
            Code::F1 => "F1"@,
            Code::F2 => "F2"@,
            Code::F3 => "F3"@,
            Code::F4 => "F4"@,
            Code::F5 => "F5"@,
            Code::F6 => "F6"@,
            Code::F7 => "F7"@,
            Code::F8 => "F8"@,
            Code::F9 => "F9"@,
            Code::F10 => "F10"@,
            Code::F11 => "F11"@,
            Code::F12 => "F12"@,
            Code::F13 => "F13"@,
            Code::F14 => "F14"@,
            Code::F15 => "F15"@,
            Code::F16 => "F16"@,
            Code::F17 => "F17"@,
            Code::F18 => "F18"@,
            Code::F19 => "F19"@,
            Code::F20 => "F20"@,
            Code::F21 => "F21"@,
            Code::F22 => "F22"@,
            Code::F23 => "F23"@,
            Code::F24 => "F24"@,
            Code::F25 => "F25"@,
            Code::F26 => "F26"@,
            Code::F27 => "F27"@,
            Code::F28 => "F28"@,
            Code::F29 => "F29"@,
            Code::F30 => "F30"@,
            Code::F31 => "F31"@,
            Code::F32 => "F32"@,
            Code::F33 => "F33"@,
            Code::F34 => "F34"@,
            Code::F35 => "F35"@,
        }
    }

    /// The identifier of the key code as text, such as `KeyA` or `NumpadEnter`.
    pub fn name(self) -> (r: &'static str)
        ensures
            r@ == self.spec_name(),
    {
        match self {
            Code::Backquote => "Backquote",
            Code::Backslash => "Backslash",
            Code::BracketLeft => "BracketLeft",
            Code::BracketRight => "BracketRight",
            Code::Comma => "Comma",
            Code::Digit0 => "Digit0",
            Code::Digit1 => "Digit1",
            Code::Digit2 => "Digit2",
            Code::Digit3 => "Digit3",
            Code::Digit4 => "Digit4",
            Code::Digit5 => "Digit5",
            Code::Digit6 => "Digit6",
            Code::Digit7 => "Digit7",
            Code::Digit8 => "Digit8",
            Code::Digit9 => "Digit9",
            Code::Equal => "Equal",
            Code::IntlBackslash => "IntlBackslash",
            Code::IntlRo => "IntlRo",
            Code::IntlYen => "IntlYen",
            Code::KeyA => "KeyA",
            Code::KeyB => "KeyB",
            Code::KeyC => "KeyC",
            Code::KeyD => "KeyD",
            Code::KeyE => "KeyE",
            Code::KeyF => "KeyF",
            Code::KeyG => "KeyG",
            Code::KeyH => "KeyH",
            Code::KeyI => "KeyI",
            Code::KeyJ => "KeyJ",
            Code::KeyK => "KeyK",
            Code::KeyL => "KeyL",
            Code::KeyM => "KeyM",
            Code::KeyN => "KeyN",
            Code::KeyO => "KeyO",
            Code::KeyP => "KeyP",
            Code::KeyQ => "KeyQ",
            Code::KeyR => "KeyR",
            Code::KeyS => "KeyS",
            Code::KeyT => "KeyT",
            Code::KeyU => "KeyU",
            Code::KeyV => "KeyV",
            Code::KeyW => "KeyW",
            Code::KeyX => "KeyX",
            Code::KeyY => "KeyY",
            Code::KeyZ => "KeyZ",
            Code::Minus => "Minus",
            Code::Period => "Period",
            Code::Quote => "Quote",
            Code::Semicolon => "Semicolon",
            Code::Slash => "Slash",
            Code::AltLeft => "AltLeft",
            Code::AltRight => "AltRight",
            Code::Backspace => "Backspace",
            Code::CapsLock => "CapsLock",
            Code::ContextMenu => "ContextMenu",
            Code::ControlLeft => "ControlLeft",
            Code::ControlRight => "ControlRight",
            Code::Enter => "Enter",
            Code::SuperLeft => "SuperLeft",
            Code::SuperRight => "SuperRight",
            Code::ShiftLeft => "ShiftLeft",
            Code::ShiftRight => "ShiftRight",
            Code::Space => "Space",
            Code::Tab => "Tab",
            Code::Convert => "Convert",
            Code::KanaMode => "KanaMode",
            Code::Lang1 => "Lang1",
            Code::Lang2 => "Lang2",
            Code::Lang3 => "Lang3",
            Code::Lang4 => "Lang4",
            Code::Lang5 => "Lang5",
            Code::NonConvert => "NonConvert",
            Code::Delete => "Delete",
            Code::End => "End",
            Code::Help => "Help",
            Code::Home => "Home",
            Code::Insert => "Insert",
            Code::PageDown => "PageDown",
            Code::PageUp => "PageUp",
            Code::ArrowDown => "ArrowDown",
            Code::ArrowLeft => "ArrowLeft",
            Code::ArrowRight => "ArrowRight",
            Code::ArrowUp => "ArrowUp",
            Code::NumLock => "NumLock",
            Code::Numpad0 => "Numpad0",
            Code::Numpad1 => "Numpad1",
            Code::Numpad2 => "Numpad2",
            Code::Numpad3 => "Numpad3",
            Code::Numpad4 => "Numpad4",
            Code::Numpad5 => "Numpad5",
            Code::Numpad6 => "Numpad6",
            Code::Numpad7 => "Numpad7",
            Code::Numpad8 => "Numpad8",
            Code::Numpad9 => "Numpad9",
            Code::NumpadAdd => "NumpadAdd",
            Code::NumpadBackspace => "NumpadBackspace",
            Code::NumpadClear => "NumpadClear",
            Code::NumpadClearEntry => "NumpadClearEntry",
            Code::NumpadComma => "NumpadComma",
            Code::NumpadDecimal => "NumpadDecimal",
            Code::NumpadDivide => "NumpadDivide",
            Code::NumpadEnter => "NumpadEnter",
            Code::NumpadEqual => "NumpadEqual",
            Code::NumpadHash => "NumpadHash",
            Code::NumpadMemoryAdd => "NumpadMemoryAdd",
            Code::NumpadMemoryClear => "NumpadMemoryClear",
            Code::NumpadMemoryRecall => "NumpadMemoryRecall",
            Code::NumpadMemoryStore => "NumpadMemoryStore",
            Code::NumpadMemorySubtract => "NumpadMemorySubtract",
            Code::NumpadMultiply => "NumpadMultiply",
            Code::NumpadParenLeft => "NumpadParenLeft",
            Code::NumpadParenRight => "NumpadParenRight",
            Code::NumpadStar => "NumpadStar",
            Code::NumpadSubtract => "NumpadSubtract",
            Code::Escape => "Escape",
            Code::Fn => "Fn",
            Code::FnLock => "FnLock",
            Code::PrintScreen => "PrintScreen",
            Code::ScrollLock => "ScrollLock",
            Code::Pause => "Pause",
            Code::BrowserBack => "BrowserBack",
            Code::BrowserFavorites => "BrowserFavorites",
            Code::BrowserForward => "BrowserForward",
            Code::BrowserHome => "BrowserHome",
            Code::BrowserRefresh => "BrowserRefresh",
            Code::BrowserSearch => "BrowserSearch",
            Code::BrowserStop => "BrowserStop",
            Code::Eject => "Eject",
            Code::LaunchApp1 => "LaunchApp1",
            Code::LaunchApp2 => "LaunchApp2",
            Code::LaunchMail => "LaunchMail",
            Code::MediaPlayPause => "MediaPlayPause",
            Code::MediaSelect => "MediaSelect",
            Code::MediaStop => "MediaStop",
            Code::MediaTrackNext => "MediaTrackNext",
            Code::MediaTrackPrevious => "MediaTrackPrevious",
            Code::Power => "Power",
            Code::Sleep => "Sleep",
            Code::AudioVolumeDown => "AudioVolumeDown",
            Code::AudioVolumeMute => "AudioVolumeMute",
            Code::AudioVolumeUp => "AudioVolumeUp",
            Code::WakeUp => "WakeUp",
            Code::Meta => "Meta",
            Code::Hyper => "Hyper",
            Code::Turbo => "Turbo",
            Code::Abort => "Abort",
            Code::Resume => "Resume",
            Code::Suspend => "Suspend",
            Code::Again => "Again",
            Code::Copy => "Copy",
            Code::Cut => "Cut",
            Code::Find => "Find",
            Code::Open => "Open",
            Code::Paste => "Paste",
            Code::Props => "Props",
            Code::Select => "Select",
            Code::Undo => "Undo",
            Code::Hiragana => "Hiragana",
            Code::Katakana => "Katakana",
            Code::F1 => "F1",
            Code::F2 => "F2",
            Code::F3 => "F3",
            Code::F4 => "F4",
            Code::F5 => "F5",
            Code::F6 => "F6",
            Code::F7 => "F7",
            Code::F8 => "F8",
            Code::F9 => "F9",
            Code::F10 => "F10",
            Code::F11 => "F11",
            Code::F12 => "F12",
            Code::F13 => "F13",
            Code::F14 => "F14",
            Code::F15 => "F15",
            Code::F16 => "F16",
            Code::F17 => "F17",
            Code::F18 => "F18",
            Code::F19 => "F19",
            Code::F20 => "F20",
            Code::F21 => "F21",
            Code::F22 => "F22",
            Code::F23 => "F23",
            Code::F24 => "F24",
            Code::F25 => "F25",
            Code::F26 => "F26",
            Code::F27 => "F27",
            Code::F28 => "F28",
            Code::F29 => "F29",
            Code::F30 => "F30",
            Code::F31 => "F31",
            Code::F32 => "F32",
            Code::F33 => "F33",
            Code::F34 => "F34",
            Code::F35 => "F35",
        }
    }
}

} // verus!
