//! What each key press means to the performer's console.
use vstd::prelude::*;

verus! {

/// A key as the console sees it.
#[derive(Clone, Copy, Debug, PartialEq, Eq, Structural)]
pub enum Key {
    Char(char),
    Enter,
    Esc,
    Tab,
    Backspace,
    Home,
    End,
    /// Any other key; none is bound to a buffer.
    Other,
}

/// What the console is doing.
#[derive(Clone, Copy, Debug, PartialEq, Eq, Structural)]
pub enum Mode {
    Loading,
    Jam,
    /// Asking for a name under which to save the main recording.
    SaveMain,
    /// Asking for a name under which to keep the secondary recording.
    SaveSecondary,
}

/// What a key press asks for.
#[derive(Clone, Copy, Debug, PartialEq, Eq, Structural)]
pub enum KeyAction {
    /// Leave the naming prompt, discarding the recording.
    DiscardRecording,
    /// Save the recording under the name typed so far.
    SaveRecording,
    /// Nothing to do.
    Ignore,
    /// Append a character to the name being typed.
    TypeChar(char),
    /// Remove the last character of the name being typed.
    DeleteChar,
    Reload,
    ReinitAudio,
    ClearStack,
    /// Stop the main recording and ask for a name for it.
    StopMainRecording,
    /// Stop the secondary recording and ask for a name for it.
    StopSecondaryRecording,
    StartMainRecording,
    StartSecondaryRecording,
    Exit,
    StopPlayback,
    /// Fire the buffer bound to the trigger, held in a loop when `hold`.
    Trigger { key: char, hold: bool },
    /// A key that can be bound to nothing.
    Unbound,
}

/// Starts and stops the secondary recording.
pub const SECONDARY_RECORD_KEY: char = '\\';

/// The trigger a character stands for: ASCII letters fold to lower case.
pub open spec fn trigger_of(c: char) -> char {
    if 'A' <= c <= 'Z' {
        ((c as u8) + 32) as char
    } else {
        c
    }
}

/// What `key` asks for in `mode`, given whether the hold modifier is down,
/// which sessions are recording, and whether a name has been typed.
pub open spec fn spec_key_action(
    mode: Mode,
    key: Key,
    hold: bool,
    recording_main: bool,
    recording_secondary: bool,
    input_empty: bool,
) -> KeyAction {
    let naming = mode == Mode::SaveMain || mode == Mode::SaveSecondary;
    if naming && key == Key::Esc {
        KeyAction::DiscardRecording
    } else if naming && key == Key::Enter {
        if input_empty {
            KeyAction::Ignore
        } else {
            KeyAction::SaveRecording
        }
    } else if naming && key is Char {
        KeyAction::TypeChar(key->Char_0)
    } else if naming && key == Key::Backspace {
        KeyAction::DeleteChar
    } else if key == Key::Tab {
        KeyAction::Reload
    } else if key == Key::Home {
        KeyAction::ReinitAudio
    } else if key == Key::Backspace {
        KeyAction::ClearStack
    } else if mode == Mode::Jam && key == Key::Enter && recording_main {
        KeyAction::StopMainRecording
    } else if mode == Mode::Jam && key == Key::Char(SECONDARY_RECORD_KEY) && recording_secondary {
        KeyAction::StopSecondaryRecording
    } else if key == Key::Enter {
        KeyAction::StartMainRecording
    } else if key == Key::Char(SECONDARY_RECORD_KEY) {
        KeyAction::StartSecondaryRecording
    } else if key == Key::Esc {
        KeyAction::Exit
    } else if key == Key::End {
        KeyAction::StopPlayback
    } else if key is Char {
        KeyAction::Trigger { key: trigger_of(key->Char_0), hold }
    } else {
        KeyAction::Unbound
    }
}

/// The trigger a character stands for: ASCII letters fold to lower case.
pub fn trigger_for(c: char) -> (r: char)
    ensures
        r == trigger_of(c),
{
    if 'A' <= c && c <= 'Z' {
        ((c as u8) + 32) as char
    } else {
        c
    }
}

/// What a key press asks for.
pub fn key_action(
    mode: Mode,
    key: Key,
    hold: bool,
    recording_main: bool,
    recording_secondary: bool,
    input_empty: bool,
) -> (r: KeyAction)
    ensures
        r == spec_key_action(mode, key, hold, recording_main, recording_secondary, input_empty),
{
    let naming = matches!(mode, Mode::SaveMain | Mode::SaveSecondary);
    match key {
        Key::Esc if naming => KeyAction::DiscardRecording,
        Key::Enter if naming => {
            if input_empty {
                KeyAction::Ignore
            } else {
                KeyAction::SaveRecording
            }
        },
        Key::Char(c) if naming => KeyAction::TypeChar(c),
        Key::Backspace if naming => KeyAction::DeleteChar,
        Key::Tab => KeyAction::Reload,
        Key::Home => KeyAction::ReinitAudio,
        Key::Backspace => KeyAction::ClearStack,
        Key::Enter => {
            if mode == Mode::Jam && recording_main {
                KeyAction::StopMainRecording
            } else {
                KeyAction::StartMainRecording
            }
        },
        Key::Char(c) => {
            if c == SECONDARY_RECORD_KEY {
                if mode == Mode::Jam && recording_secondary {
                    KeyAction::StopSecondaryRecording
                } else {
                    KeyAction::StartSecondaryRecording
                }
            } else {
                KeyAction::Trigger { key: trigger_for(c), hold }
            }
        },
        Key::Esc => KeyAction::Exit,
        Key::End => KeyAction::StopPlayback,
        Key::Other => KeyAction::Unbound,
    }
}

} // verus!
