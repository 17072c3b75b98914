use iced::keyboard::key::Code as ToolkitCode;
use iced::keyboard::key::Named as ToolkitNamed;
use notespace_editor::keyboard::code::Code;
use notespace_editor::keyboard::key::Named;

fn code_pairs() -> Vec<(Code, ToolkitCode)> {
    vec![
        (Code::Backquote, ToolkitCode::Backquote),
        (Code::Backslash, ToolkitCode::Backslash),
        (Code::BracketLeft, ToolkitCode::BracketLeft),
        (Code::BracketRight, ToolkitCode::BracketRight),
        (Code::Comma, ToolkitCode::Comma),
        (Code::Digit0, ToolkitCode::Digit0),
        (Code::Digit1, ToolkitCode::Digit1),
        (Code::Digit2, ToolkitCode::Digit2),
        (Code::Digit3, ToolkitCode::Digit3),
        (Code::Digit4, ToolkitCode::Digit4),
        (Code::Digit5, ToolkitCode::Digit5),
        (Code::Digit6, ToolkitCode::Digit6),
        (Code::Digit7, ToolkitCode::Digit7),
        (Code::Digit8, ToolkitCode::Digit8),
        (Code::Digit9, ToolkitCode::Digit9),
        (Code::Equal, ToolkitCode::Equal),
        (Code::IntlBackslash, ToolkitCode::IntlBackslash),
        (Code::IntlRo, ToolkitCode::IntlRo),
        (Code::IntlYen, ToolkitCode::IntlYen),
        (Code::KeyA, ToolkitCode::KeyA),
        (Code::KeyB, ToolkitCode::KeyB),
        (Code::KeyC, ToolkitCode::KeyC),
        (Code::KeyD, ToolkitCode::KeyD),
        (Code::KeyE, ToolkitCode::KeyE),
        (Code::KeyF, ToolkitCode::KeyF),
        (Code::KeyG, ToolkitCode::KeyG),
        (Code::KeyH, ToolkitCode::KeyH),
        (Code::KeyI, ToolkitCode::KeyI),
        (Code::KeyJ, ToolkitCode::KeyJ),
        (Code::KeyK, ToolkitCode::KeyK),
        (Code::KeyL, ToolkitCode::KeyL),
        (Code::KeyM, ToolkitCode::KeyM),
        (Code::KeyN, ToolkitCode::KeyN),
        (Code::KeyO, ToolkitCode::KeyO),
        (Code::KeyP, ToolkitCode::KeyP),
        (Code::KeyQ, ToolkitCode::KeyQ),
        (Code::KeyR, ToolkitCode::KeyR),
        (Code::KeyS, ToolkitCode::KeyS),
        (Code::KeyT, ToolkitCode::KeyT),
        (Code::KeyU, ToolkitCode::KeyU),
        (Code::KeyV, ToolkitCode::KeyV),
        (Code::KeyW, ToolkitCode::KeyW),
        (Code::KeyX, ToolkitCode::KeyX),
        (Code::KeyY, ToolkitCode::KeyY),
        (Code::KeyZ, ToolkitCode::KeyZ),
        (Code::Minus, ToolkitCode::Minus),
        (Code::Period, ToolkitCode::Period),
        (Code::Quote, ToolkitCode::Quote),
        (Code::Semicolon, ToolkitCode::Semicolon),
        (Code::Slash, ToolkitCode::Slash),
        (Code::AltLeft, ToolkitCode::AltLeft),
        (Code::AltRight, ToolkitCode::AltRight),
        (Code::Backspace, ToolkitCode::Backspace),
        (Code::CapsLock, ToolkitCode::CapsLock),
        (Code::ContextMenu, ToolkitCode::ContextMenu),
        (Code::ControlLeft, ToolkitCode::ControlLeft),
        (Code::ControlRight, ToolkitCode::ControlRight),
        (Code::Enter, ToolkitCode::Enter),
        (Code::SuperLeft, ToolkitCode::SuperLeft),
        (Code::SuperRight, ToolkitCode::SuperRight),
        (Code::ShiftLeft, ToolkitCode::ShiftLeft),
        (Code::ShiftRight, ToolkitCode::ShiftRight),
        (Code::Space, ToolkitCode::Space),
        (Code::Tab, ToolkitCode::Tab),
        (Code::Convert, ToolkitCode::Convert),
        (Code::KanaMode, ToolkitCode::KanaMode),
        (Code::Lang1, ToolkitCode::Lang1),
        (Code::Lang2, ToolkitCode::Lang2),
        (Code::Lang3, ToolkitCode::Lang3),
        (Code::Lang4, ToolkitCode::Lang4),
        (Code::Lang5, ToolkitCode::Lang5),
        (Code::NonConvert, ToolkitCode::NonConvert),
        (Code::Delete, ToolkitCode::Delete),
        (Code::End, ToolkitCode::End),
        (Code::Help, ToolkitCode::Help),
        (Code::Home, ToolkitCode::Home),
        (Code::Insert, ToolkitCode::Insert),
        (Code::PageDown, ToolkitCode::PageDown),
        (Code::PageUp, ToolkitCode::PageUp),
        (Code::ArrowDown, ToolkitCode::ArrowDown),
        (Code::ArrowLeft, ToolkitCode::ArrowLeft),
        (Code::ArrowRight, ToolkitCode::ArrowRight),
        (Code::ArrowUp, ToolkitCode::ArrowUp),
        (Code::NumLock, ToolkitCode::NumLock),
        (Code::Numpad0, ToolkitCode::Numpad0),
        (Code::Numpad1, ToolkitCode::Numpad1),
        (Code::Numpad2, ToolkitCode::Numpad2),
        (Code::Numpad3, ToolkitCode::Numpad3),
        (Code::Numpad4, ToolkitCode::Numpad4),
        (Code::Numpad5, ToolkitCode::Numpad5),
        (Code::Numpad6, ToolkitCode::Numpad6),
        (Code::Numpad7, ToolkitCode::Numpad7),
        (Code::Numpad8, ToolkitCode::Numpad8),
        (Code::Numpad9, ToolkitCode::Numpad9),
        (Code::NumpadAdd, ToolkitCode::NumpadAdd),
        (Code::NumpadBackspace, ToolkitCode::NumpadBackspace),
        (Code::NumpadClear, ToolkitCode::NumpadClear),
        (Code::NumpadClearEntry, ToolkitCode::NumpadClearEntry),
        (Code::NumpadComma, ToolkitCode::NumpadComma),
        (Code::NumpadDecimal, ToolkitCode::NumpadDecimal),
        (Code::NumpadDivide, ToolkitCode::NumpadDivide),
        (Code::NumpadEnter, ToolkitCode::NumpadEnter),
        (Code::NumpadEqual, ToolkitCode::NumpadEqual),
        (Code::NumpadHash, ToolkitCode::NumpadHash),
        (Code::NumpadMemoryAdd, ToolkitCode::NumpadMemoryAdd),
        (Code::NumpadMemoryClear, ToolkitCode::NumpadMemoryClear),
        (Code::NumpadMemoryRecall, ToolkitCode::NumpadMemoryRecall),
        (Code::NumpadMemoryStore, ToolkitCode::NumpadMemoryStore),
        (Code::NumpadMemorySubtract, ToolkitCode::NumpadMemorySubtract),
        (Code::NumpadMultiply, ToolkitCode::NumpadMultiply),
        (Code::NumpadParenLeft, ToolkitCode::NumpadParenLeft),
        (Code::NumpadParenRight, ToolkitCode::NumpadParenRight),
        (Code::NumpadStar, ToolkitCode::NumpadStar),
        (Code::NumpadSubtract, ToolkitCode::NumpadSubtract),
        (Code::Escape, ToolkitCode::Escape),
        (Code::Fn, ToolkitCode::Fn),
        (Code::FnLock, ToolkitCode::FnLock),
        (Code::PrintScreen, ToolkitCode::PrintScreen),
        (Code::ScrollLock, ToolkitCode::ScrollLock),
        (Code::Pause, ToolkitCode::Pause),
        (Code::BrowserBack, ToolkitCode::BrowserBack),
        (Code::BrowserFavorites, ToolkitCode::BrowserFavorites),
        (Code::BrowserForward, ToolkitCode::BrowserForward),
        (Code::BrowserHome, ToolkitCode::BrowserHome),
        (Code::BrowserRefresh, ToolkitCode::BrowserRefresh),
        (Code::BrowserSearch, ToolkitCode::BrowserSearch),
        (Code::BrowserStop, ToolkitCode::BrowserStop),
        (Code::Eject, ToolkitCode::Eject),
        (Code::LaunchApp1, ToolkitCode::LaunchApp1),
        (Code::LaunchApp2, ToolkitCode::LaunchApp2),
        (Code::LaunchMail, ToolkitCode::LaunchMail),
        (Code::MediaPlayPause, ToolkitCode::MediaPlayPause),
        (Code::MediaSelect, ToolkitCode::MediaSelect),
        (Code::MediaStop, ToolkitCode::MediaStop),
        (Code::MediaTrackNext, ToolkitCode::MediaTrackNext),
        (Code::MediaTrackPrevious, ToolkitCode::MediaTrackPrevious),
        (Code::Power, ToolkitCode::Power),
        (Code::Sleep, ToolkitCode::Sleep),
        (Code::AudioVolumeDown, ToolkitCode::AudioVolumeDown),
        (Code::AudioVolumeMute, ToolkitCode::AudioVolumeMute),
        (Code::AudioVolumeUp, ToolkitCode::AudioVolumeUp),
        (Code::WakeUp, ToolkitCode::WakeUp),
        (Code::Meta, ToolkitCode::Meta),
        (Code::Hyper, ToolkitCode::Hyper),
        (Code::Turbo, ToolkitCode::Turbo),
        (Code::Abort, ToolkitCode::Abort),
        (Code::Resume, ToolkitCode::Resume),
        (Code::Suspend, ToolkitCode::Suspend),
        (Code::Again, ToolkitCode::Again),
        (Code::Copy, ToolkitCode::Copy),
        (Code::Cut, ToolkitCode::Cut),
        (Code::Find, ToolkitCode::Find),
        (Code::Open, ToolkitCode::Open),
        (Code::Paste, ToolkitCode::Paste),
        (Code::Props, ToolkitCode::Props),
        (Code::Select, ToolkitCode::Select),
        (Code::Undo, ToolkitCode::Undo),
        (Code::Hiragana, ToolkitCode::Hiragana),
        (Code::Katakana, ToolkitCode::Katakana),
        (Code::F1, ToolkitCode::F1),
        (Code::F2, ToolkitCode::F2),
        (Code::F3, ToolkitCode::F3),
        (Code::F4, ToolkitCode::F4),
        (Code::F5, ToolkitCode::F5),
        (Code::F6, ToolkitCode::F6),
        (Code::F7, ToolkitCode::F7),
        (Code::F8, ToolkitCode::F8),
        (Code::F9, ToolkitCode::F9),
        (Code::F10, ToolkitCode::F10),
        (Code::F11, ToolkitCode::F11),
        (Code::F12, ToolkitCode::F12),
        (Code::F13, ToolkitCode::F13),
        (Code::F14, ToolkitCode::F14),
        (Code::F15, ToolkitCode::F15),
        (Code::F16, ToolkitCode::F16),
        (Code::F17, ToolkitCode::F17),
        (Code::F18, ToolkitCode::F18),
        (Code::F19, ToolkitCode::F19),
        (Code::F20, ToolkitCode::F20),
        (Code::F21, ToolkitCode::F21),
        (Code::F22, ToolkitCode::F22),
        (Code::F23, ToolkitCode::F23),
        (Code::F24, ToolkitCode::F24),
        (Code::F25, ToolkitCode::F25),
        (Code::F26, ToolkitCode::F26),
        (Code::F27, ToolkitCode::F27),
        (Code::F28, ToolkitCode::F28),
        (Code::F29, ToolkitCode::F29),
        (Code::F30, ToolkitCode::F30),
        (Code::F31, ToolkitCode::F31),
        (Code::F32, ToolkitCode::F32),
        (Code::F33, ToolkitCode::F33),
        (Code::F34, ToolkitCode::F34),
        (Code::F35, ToolkitCode::F35),
    ]
}

fn named_pairs() -> Vec<(Named, ToolkitNamed)> {
    vec![
        (Named::Alt, ToolkitNamed::Alt),
        (Named::AltGraph, ToolkitNamed::AltGraph),
        (Named::CapsLock, ToolkitNamed::CapsLock),
        (Named::Control, ToolkitNamed::Control),
        (Named::Fn, ToolkitNamed::Fn),
        (Named::FnLock, ToolkitNamed::FnLock),
        (Named::NumLock, ToolkitNamed::NumLock),
        (Named::ScrollLock, ToolkitNamed::ScrollLock),
        (Named::Shift, ToolkitNamed::Shift),
        (Named::Symbol, ToolkitNamed::Symbol),
        (Named::SymbolLock, ToolkitNamed::SymbolLock),
        (Named::Meta, ToolkitNamed::Meta),
        (Named::Hyper, ToolkitNamed::Hyper),
        (Named::Super, ToolkitNamed::Super),
        (Named::Enter, ToolkitNamed::Enter),
        (Named::Tab, ToolkitNamed::Tab),
        (Named::Space, ToolkitNamed::Space),
        (Named::ArrowDown, ToolkitNamed::ArrowDown),
        (Named::ArrowLeft, ToolkitNamed::ArrowLeft),
        (Named::ArrowRight, ToolkitNamed::ArrowRight),
        (Named::ArrowUp, ToolkitNamed::ArrowUp),
        (Named::End, ToolkitNamed::End),
        (Named::Home, ToolkitNamed::Home),
        (Named::PageDown, ToolkitNamed::PageDown),
        (Named::PageUp, ToolkitNamed::PageUp),
        (Named::Backspace, ToolkitNamed::Backspace),
        (Named::Clear, ToolkitNamed::Clear),
        (Named::Copy, ToolkitNamed::Copy),
        (Named::CrSel, ToolkitNamed::CrSel),
        (Named::Cut, ToolkitNamed::Cut),
        (Named::Delete, ToolkitNamed::Delete),
        (Named::EraseEof, ToolkitNamed::EraseEof),
        (Named::ExSel, ToolkitNamed::ExSel),
        (Named::Insert, ToolkitNamed::Insert),
        (Named::Paste, ToolkitNamed::Paste),
        (Named::Redo, ToolkitNamed::Redo),
        (Named::Undo, ToolkitNamed::Undo),
        (Named::Accept, ToolkitNamed::Accept),
        (Named::Again, ToolkitNamed::Again),
        (Named::Attn, ToolkitNamed::Attn),
        (Named::Cancel, ToolkitNamed::Cancel),
        (Named::ContextMenu, ToolkitNamed::ContextMenu),
        (Named::Escape, ToolkitNamed::Escape),
        (Named::Execute, ToolkitNamed::Execute),
        (Named::Find, ToolkitNamed::Find),
        (Named::Help, ToolkitNamed::Help),
        (Named::Pause, ToolkitNamed::Pause),
        (Named::Play, ToolkitNamed::Play),
        (Named::Props, ToolkitNamed::Props),
        (Named::Select, ToolkitNamed::Select),
        (Named::ZoomIn, ToolkitNamed::ZoomIn),
        (Named::ZoomOut, ToolkitNamed::ZoomOut),
        (Named::BrightnessDown, ToolkitNamed::BrightnessDown),
        (Named::BrightnessUp, ToolkitNamed::BrightnessUp),
        (Named::Eject, ToolkitNamed::Eject),
        (Named::LogOff, ToolkitNamed::LogOff),
        (Named::Power, ToolkitNamed::Power),
        (Named::PowerOff, ToolkitNamed::PowerOff),
        (Named::PrintScreen, ToolkitNamed::PrintScreen),
        (Named::Hibernate, ToolkitNamed::Hibernate),
        (Named::Standby, ToolkitNamed::Standby),
        (Named::WakeUp, ToolkitNamed::WakeUp),
        (Named::AllCandidates, ToolkitNamed::AllCandidates),
        (Named::Alphanumeric, ToolkitNamed::Alphanumeric),
        (Named::CodeInput, ToolkitNamed::CodeInput),
        (Named::Compose, ToolkitNamed::Compose),
        (Named::Convert, ToolkitNamed::Convert),
        (Named::FinalMode, ToolkitNamed::FinalMode),
        (Named::GroupFirst, ToolkitNamed::GroupFirst),
        (Named::GroupLast, ToolkitNamed::GroupLast),
        (Named::GroupNext, ToolkitNamed::GroupNext),
        (Named::GroupPrevious, ToolkitNamed::GroupPrevious),
        (Named::ModeChange, ToolkitNamed::ModeChange),
        (Named::NextCandidate, ToolkitNamed::NextCandidate),
        (Named::NonConvert, ToolkitNamed::NonConvert),
        (Named::PreviousCandidate, ToolkitNamed::PreviousCandidate),
        (Named::Process, ToolkitNamed::Process),
        (Named::SingleCandidate, ToolkitNamed::SingleCandidate),
        (Named::HangulMode, ToolkitNamed::HangulMode),
        (Named::HanjaMode, ToolkitNamed::HanjaMode),
        (Named::JunjaMode, ToolkitNamed::JunjaMode),
        (Named::Eisu, ToolkitNamed::Eisu),
        (Named::Hankaku, ToolkitNamed::Hankaku),
        (Named::Hiragana, ToolkitNamed::Hiragana),
        (Named::HiraganaKatakana, ToolkitNamed::HiraganaKatakana),
        (Named::KanaMode, ToolkitNamed::KanaMode),
        (Named::KanjiMode, ToolkitNamed::KanjiMode),
        (Named::Katakana, ToolkitNamed::Katakana),
        (Named::Romaji, ToolkitNamed::Romaji),
        (Named::Zenkaku, ToolkitNamed::Zenkaku),
        (Named::ZenkakuHankaku, ToolkitNamed::ZenkakuHankaku),
        (Named::Soft1, ToolkitNamed::Soft1),
        (Named::Soft2, ToolkitNamed::Soft2),
        (Named::Soft3, ToolkitNamed::Soft3),
        (Named::Soft4, ToolkitNamed::Soft4),
        (Named::ChannelDown, ToolkitNamed::ChannelDown),
        (Named::ChannelUp, ToolkitNamed::ChannelUp),
        (Named::Close, ToolkitNamed::Close),
        (Named::MailForward, ToolkitNamed::MailForward),
        (Named::MailReply, ToolkitNamed::MailReply),
        (Named::MailSend, ToolkitNamed::MailSend),
        (Named::MediaClose, ToolkitNamed::MediaClose),
        (Named::MediaFastForward, ToolkitNamed::MediaFastForward),
        (Named::MediaPause, ToolkitNamed::MediaPause),
        (Named::MediaPlay, ToolkitNamed::MediaPlay),
        (Named::MediaPlayPause, ToolkitNamed::MediaPlayPause),
        (Named::MediaRecord, ToolkitNamed::MediaRecord),
        (Named::MediaRewind, ToolkitNamed::MediaRewind),
        (Named::MediaStop, ToolkitNamed::MediaStop),
        (Named::MediaTrackNext, ToolkitNamed::MediaTrackNext),
        (Named::MediaTrackPrevious, ToolkitNamed::MediaTrackPrevious),
        (Named::New, ToolkitNamed::New),
        (Named::Open, ToolkitNamed::Open),
        (Named::Print, ToolkitNamed::Print),
        (Named::Save, ToolkitNamed::Save),
        (Named::SpellCheck, ToolkitNamed::SpellCheck),
        (Named::Key11, ToolkitNamed::Key11),
        (Named::Key12, ToolkitNamed::Key12),
        (Named::AudioBalanceLeft, ToolkitNamed::AudioBalanceLeft),
        (Named::AudioBalanceRight, ToolkitNamed::AudioBalanceRight),
        (Named::AudioBassBoostDown, ToolkitNamed::AudioBassBoostDown),
        (Named::AudioBassBoostToggle, ToolkitNamed::AudioBassBoostToggle),
        (Named::AudioBassBoostUp, ToolkitNamed::AudioBassBoostUp),
        (Named::AudioFaderFront, ToolkitNamed::AudioFaderFront),
        (Named::AudioFaderRear, ToolkitNamed::AudioFaderRear),
        (Named::AudioSurroundModeNext, ToolkitNamed::AudioSurroundModeNext),
        (Named::AudioTrebleDown, ToolkitNamed::AudioTrebleDown),
        (Named::AudioTrebleUp, ToolkitNamed::AudioTrebleUp),
        (Named::AudioVolumeDown, ToolkitNamed::AudioVolumeDown),
        (Named::AudioVolumeUp, ToolkitNamed::AudioVolumeUp),
        (Named::AudioVolumeMute, ToolkitNamed::AudioVolumeMute),
        (Named::MicrophoneToggle, ToolkitNamed::MicrophoneToggle),
        (Named::MicrophoneVolumeDown, ToolkitNamed::MicrophoneVolumeDown),
        (Named::MicrophoneVolumeUp, ToolkitNamed::MicrophoneVolumeUp),
        (Named::MicrophoneVolumeMute, ToolkitNamed::MicrophoneVolumeMute),
        (Named::SpeechCorrectionList, ToolkitNamed::SpeechCorrectionList),
        (Named::SpeechInputToggle, ToolkitNamed::SpeechInputToggle),
        (Named::LaunchApplication1, ToolkitNamed::LaunchApplication1),
        (Named::LaunchApplication2, ToolkitNamed::LaunchApplication2),
        (Named::LaunchCalendar, ToolkitNamed::LaunchCalendar),
        (Named::LaunchContacts, ToolkitNamed::LaunchContacts),
        (Named::LaunchMail, ToolkitNamed::LaunchMail),
        (Named::LaunchMediaPlayer, ToolkitNamed::LaunchMediaPlayer),
        (Named::LaunchMusicPlayer, ToolkitNamed::LaunchMusicPlayer),
        (Named::LaunchPhone, ToolkitNamed::LaunchPhone),
        (Named::LaunchScreenSaver, ToolkitNamed::LaunchScreenSaver),
        (Named::LaunchSpreadsheet, ToolkitNamed::LaunchSpreadsheet),
        (Named::LaunchWebBrowser, ToolkitNamed::LaunchWebBrowser),
        (Named::LaunchWebCam, ToolkitNamed::LaunchWebCam),
        (Named::LaunchWordProcessor, ToolkitNamed::LaunchWordProcessor),
        (Named::BrowserBack, ToolkitNamed::BrowserBack),
        (Named::BrowserFavorites, ToolkitNamed::BrowserFavorites),
        (Named::BrowserForward, ToolkitNamed::BrowserForward),
        (Named::BrowserHome, ToolkitNamed::BrowserHome),
        (Named::BrowserRefresh, ToolkitNamed::BrowserRefresh),
        (Named::BrowserSearch, ToolkitNamed::BrowserSearch),
        (Named::BrowserStop, ToolkitNamed::BrowserStop),
        (Named::AppSwitch, ToolkitNamed::AppSwitch),
        (Named::Call, ToolkitNamed::Call),
        (Named::Camera, ToolkitNamed::Camera),
        (Named::CameraFocus, ToolkitNamed::CameraFocus),
        (Named::EndCall, ToolkitNamed::EndCall),
        (Named::GoBack, ToolkitNamed::GoBack),
        (Named::GoHome, ToolkitNamed::GoHome),
        (Named::HeadsetHook, ToolkitNamed::HeadsetHook),
        (Named::LastNumberRedial, ToolkitNamed::LastNumberRedial),
        (Named::Notification, ToolkitNamed::Notification),
        (Named::MannerMode, ToolkitNamed::MannerMode),
        (Named::VoiceDial, ToolkitNamed::VoiceDial),
        (Named::TV, ToolkitNamed::TV),
        (Named::TV3DMode, ToolkitNamed::TV3DMode),
        (Named::TVAntennaCable, ToolkitNamed::TVAntennaCable),
        (Named::TVAudioDescription, ToolkitNamed::TVAudioDescription),
        (Named::TVAudioDescriptionMixDown, ToolkitNamed::TVAudioDescriptionMixDown),
        (Named::TVAudioDescriptionMixUp, ToolkitNamed::TVAudioDescriptionMixUp),
        (Named::TVContentsMenu, ToolkitNamed::TVContentsMenu),
        (Named::TVDataService, ToolkitNamed::TVDataService),
        (Named::TVInput, ToolkitNamed::TVInput),
        (Named::TVInputComponent1, ToolkitNamed::TVInputComponent1),
        (Named::TVInputComponent2, ToolkitNamed::TVInputComponent2),
        (Named::TVInputComposite1, ToolkitNamed::TVInputComposite1),
        (Named::TVInputComposite2, ToolkitNamed::TVInputComposite2),
        (Named::TVInputHDMI1, ToolkitNamed::TVInputHDMI1),
        (Named::TVInputHDMI2, ToolkitNamed::TVInputHDMI2),
        (Named::TVInputHDMI3, ToolkitNamed::TVInputHDMI3),
        (Named::TVInputHDMI4, ToolkitNamed::TVInputHDMI4),
        (Named::TVInputVGA1, ToolkitNamed::TVInputVGA1),
        (Named::TVMediaContext, ToolkitNamed::TVMediaContext),
        (Named::TVNetwork, ToolkitNamed::TVNetwork),
        (Named::TVNumberEntry, ToolkitNamed::TVNumberEntry),
        (Named::TVPower, ToolkitNamed::TVPower),
        (Named::TVRadioService, ToolkitNamed::TVRadioService),
        (Named::TVSatellite, ToolkitNamed::TVSatellite),
        (Named::TVSatelliteBS, ToolkitNamed::TVSatelliteBS),
        (Named::TVSatelliteCS, ToolkitNamed::TVSatelliteCS),
        (Named::TVSatelliteToggle, ToolkitNamed::TVSatelliteToggle),
        (Named::TVTerrestrialAnalog, ToolkitNamed::TVTerrestrialAnalog),
        (Named::TVTerrestrialDigital, ToolkitNamed::TVTerrestrialDigital),
        (Named::TVTimer, ToolkitNamed::TVTimer),
        (Named::AVRInput, ToolkitNamed::AVRInput),
        (Named::AVRPower, ToolkitNamed::AVRPower),
        (Named::ColorF0Red, ToolkitNamed::ColorF0Red),
        (Named::ColorF1Green, ToolkitNamed::ColorF1Green),
        (Named::ColorF2Yellow, ToolkitNamed::ColorF2Yellow),
        (Named::ColorF3Blue, ToolkitNamed::ColorF3Blue),
        (Named::ColorF4Grey, ToolkitNamed::ColorF4Grey),
        (Named::ColorF5Brown, ToolkitNamed::ColorF5Brown),
        (Named::ClosedCaptionToggle, ToolkitNamed::ClosedCaptionToggle),
        (Named::Dimmer, ToolkitNamed::Dimmer),
        (Named::DisplaySwap, ToolkitNamed::DisplaySwap),
        (Named::DVR, ToolkitNamed::DVR),
        (Named::Exit, ToolkitNamed::Exit),
        (Named::FavoriteClear0, ToolkitNamed::FavoriteClear0),
        (Named::FavoriteClear1, ToolkitNamed::FavoriteClear1),
        (Named::FavoriteClear2, ToolkitNamed::FavoriteClear2),
        (Named::FavoriteClear3, ToolkitNamed::FavoriteClear3),
        (Named::FavoriteRecall0, ToolkitNamed::FavoriteRecall0),
        (Named::FavoriteRecall1, ToolkitNamed::FavoriteRecall1),
        (Named::FavoriteRecall2, ToolkitNamed::FavoriteRecall2),
        (Named::FavoriteRecall3, ToolkitNamed::FavoriteRecall3),
        (Named::FavoriteStore0, ToolkitNamed::FavoriteStore0),
        (Named::FavoriteStore1, ToolkitNamed::FavoriteStore1),
        (Named::FavoriteStore2, ToolkitNamed::FavoriteStore2),
        (Named::FavoriteStore3, ToolkitNamed::FavoriteStore3),
        (Named::Guide, ToolkitNamed::Guide),
        (Named::GuideNextDay, ToolkitNamed::GuideNextDay),
        (Named::GuidePreviousDay, ToolkitNamed::GuidePreviousDay),
        (Named::Info, ToolkitNamed::Info),
        (Named::InstantReplay, ToolkitNamed::InstantReplay),
        (Named::Link, ToolkitNamed::Link),
        (Named::ListProgram, ToolkitNamed::ListProgram),
        (Named::LiveContent, ToolkitNamed::LiveContent),
        (Named::Lock, ToolkitNamed::Lock),
        (Named::MediaApps, ToolkitNamed::MediaApps),
        (Named::MediaAudioTrack, ToolkitNamed::MediaAudioTrack),
        (Named::MediaLast, ToolkitNamed::MediaLast),
        (Named::MediaSkipBackward, ToolkitNamed::MediaSkipBackward),
        (Named::MediaSkipForward, ToolkitNamed::MediaSkipForward),
        (Named::MediaStepBackward, ToolkitNamed::MediaStepBackward),
        (Named::MediaStepForward, ToolkitNamed::MediaStepForward),
        (Named::MediaTopMenu, ToolkitNamed::MediaTopMenu),
        (Named::NavigateIn, ToolkitNamed::NavigateIn),
        (Named::NavigateNext, ToolkitNamed::NavigateNext),
        (Named::NavigateOut, ToolkitNamed::NavigateOut),
        (Named::NavigatePrevious, ToolkitNamed::NavigatePrevious),
        (Named::NextFavoriteChannel, ToolkitNamed::NextFavoriteChannel),
        (Named::NextUserProfile, ToolkitNamed::NextUserProfile),
        (Named::OnDemand, ToolkitNamed::OnDemand),
        (Named::Pairing, ToolkitNamed::Pairing),
        (Named::PinPDown, ToolkitNamed::PinPDown),
        (Named::PinPMove, ToolkitNamed::PinPMove),
        (Named::PinPToggle, ToolkitNamed::PinPToggle),
        (Named::PinPUp, ToolkitNamed::PinPUp),
        (Named::PlaySpeedDown, ToolkitNamed::PlaySpeedDown),
        (Named::PlaySpeedReset, ToolkitNamed::PlaySpeedReset),
        (Named::PlaySpeedUp, ToolkitNamed::PlaySpeedUp),
        (Named::RandomToggle, ToolkitNamed::RandomToggle),
        (Named::RcLowBattery, ToolkitNamed::RcLowBattery),
        (Named::RecordSpeedNext, ToolkitNamed::RecordSpeedNext),
        (Named::RfBypass, ToolkitNamed::RfBypass),
        (Named::ScanChannelsToggle, ToolkitNamed::ScanChannelsToggle),
        (Named::ScreenModeNext, ToolkitNamed::ScreenModeNext),
        (Named::Settings, ToolkitNamed::Settings),
        (Named::SplitScreenToggle, ToolkitNamed::SplitScreenToggle),
        (Named::STBInput, ToolkitNamed::STBInput),
        (Named::STBPower, ToolkitNamed::STBPower),
        (Named::Subtitle, ToolkitNamed::Subtitle),
        (Named::Teletext, ToolkitNamed::Teletext),
        (Named::VideoModeNext, ToolkitNamed::VideoModeNext),
        (Named::Wink, ToolkitNamed::Wink),
        (Named::ZoomToggle, ToolkitNamed::ZoomToggle),
        (Named::F1, ToolkitNamed::F1),
        (Named::F2, ToolkitNamed::F2),
        (Named::F3, ToolkitNamed::F3),
        (Named::F4, ToolkitNamed::F4),
        (Named::F5, ToolkitNamed::F5),
        (Named::F6, ToolkitNamed::F6),
        (Named::F7, ToolkitNamed::F7),
        (Named::F8, ToolkitNamed::F8),
        (Named::F9, ToolkitNamed::F9),
        (Named::F10, ToolkitNamed::F10),
        (Named::F11, ToolkitNamed::F11),
        (Named::F12, ToolkitNamed::F12),
        (Named::F13, ToolkitNamed::F13),
        (Named::F14, ToolkitNamed::F14),
        (Named::F15, ToolkitNamed::F15),
        (Named::F16, ToolkitNamed::F16),
        (Named::F17, ToolkitNamed::F17),
        (Named::F18, ToolkitNamed::F18),
        (Named::F19, ToolkitNamed::F19),
        (Named::F20, ToolkitNamed::F20),
        (Named::F21, ToolkitNamed::F21),
        (Named::F22, ToolkitNamed::F22),
        (Named::F23, ToolkitNamed::F23),
        (Named::F24, ToolkitNamed::F24),
        (Named::F25, ToolkitNamed::F25),
        (Named::F26, ToolkitNamed::F26),
        (Named::F27, ToolkitNamed::F27),
        (Named::F28, ToolkitNamed::F28),
        (Named::F29, ToolkitNamed::F29),
        (Named::F30, ToolkitNamed::F30),
        (Named::F31, ToolkitNamed::F31),
        (Named::F32, ToolkitNamed::F32),
        (Named::F33, ToolkitNamed::F33),
        (Named::F34, ToolkitNamed::F34),
        (Named::F35, ToolkitNamed::F35),
    ]
}

#[test]
fn key_codes_have_the_names_of_the_toolkit() {
    let pairs = code_pairs();
    assert_eq!(pairs.len(), 194);
    for (code, toolkit) in pairs {
        assert_eq!(code.name(), format!("{:?}", toolkit));
    }
}

#[test]
fn key_codes_come_in_the_order_of_the_toolkit() {
    let pairs = code_pairs();
    for window in pairs.windows(2) {
        assert!(window[0].1 < window[1].1);
    }
}

#[test]
fn named_keys_have_the_names_of_the_toolkit() {
    let pairs = named_pairs();
    assert_eq!(pairs.len(), 306);
    for (named, toolkit) in pairs {
        assert_eq!(format!("{:?}", named), format!("{:?}", toolkit));
    }
}

#[test]
fn named_keys_come_in_the_order_of_the_toolkit() {
    let pairs = named_pairs();
    for window in pairs.windows(2) {
        assert!(window[0].1 < window[1].1);
    }
}
