//! Which command each key stands for, on each tab.
use vstd::prelude::*;

use crate::app::AppTab;
use crate::tuner::TuningMode;

verus! {

/// The keys the application reacts to.
#[derive(Clone, Copy, Debug, PartialEq, Eq, Structural)]
pub enum Key {
    Char(char),
    Tab,
    Up,
    Down,
    Left,
    Right,
    Enter,
    Esc,
    Backspace,
    Other,
}

/// Whether the main loop goes on after a key.
#[derive(Clone, Copy, Debug, PartialEq, Eq, Structural)]
pub enum InputAction {
    Continue,
    Quit,
}

/// What a key asks the application to do.
#[derive(Clone, Copy, Debug, PartialEq, Eq, Structural)]
pub enum Command {
    Nothing,
    Quit,
    NextTab,
    TogglePlay,
    IncreaseBpm,
    DecreaseBpm,
    PrevRoot,
    NextRoot,
    SelectMinor,
    SelectMajor,
    PrevGenre,
    NextGenre,
    ToggleCapture,
    PrevDevice,
    NextDevice,
    IncreaseGain,
    DecreaseGain,
    ToggleTuningMode,
    PrevString,
    NextString,
    BeginSearchEdit,
    TypeChar(char),
    EraseChar,
    CancelSearchEdit,
    SubmitSearch,
    PrevResult,
    NextResult,
    ToggleSelected,
    ToggleFavorite,
    ToggleLibraryView,
    StopTrack,
}

/// The command for a key on the Groove tab.
pub open spec fn groove_command(key: Key) -> Command {
    match key {
        Key::Char(' ') => Command::TogglePlay,
        Key::Up => Command::IncreaseBpm,
        Key::Down => Command::DecreaseBpm,
        Key::Left => Command::PrevRoot,
        Key::Right => Command::NextRoot,
        Key::Char(',') => Command::SelectMinor,
        Key::Char('.') => Command::SelectMajor,
        Key::Char('g') | Key::Char('G') => Command::PrevGenre,
        Key::Char('h') | Key::Char('H') => Command::NextGenre,
        _ => Command::Nothing,
    }
}

/// The command for a key on the Tuner tab; the target string only moves in manual mode.
pub open spec fn tuner_command(mode: TuningMode, key: Key) -> Command {
    match key {
        Key::Char(' ') => Command::ToggleCapture,
        Key::Left => Command::PrevDevice,
        Key::Right => Command::NextDevice,
        Key::Up => Command::IncreaseGain,
        Key::Down => Command::DecreaseGain,
        Key::Char('m') | Key::Char('M') => Command::ToggleTuningMode,
        Key::Char('a') | Key::Char('A') => if mode == TuningMode::Manual {
            Command::PrevString
        } else {
            Command::Nothing
        },
        Key::Char('d') | Key::Char('D') => if mode == TuningMode::Manual {
            Command::NextString
        } else {
            Command::Nothing
        },
        _ => Command::Nothing,
    }
}

/// The command for a key on the Backing tab while no query is being typed.
pub open spec fn backing_command(key: Key) -> Command {
    match key {
        Key::Char('/') => Command::BeginSearchEdit,
        Key::Enter => Command::SubmitSearch,
        Key::Esc => Command::CancelSearchEdit,
        Key::Up => Command::PrevResult,
        Key::Down => Command::NextResult,
        Key::Char(' ') => Command::ToggleSelected,
        Key::Char('f') | Key::Char('F') => Command::ToggleFavorite,
        Key::Char('v') | Key::Char('V') => Command::ToggleLibraryView,
        Key::Char('s') | Key::Char('S') => Command::StopTrack,
        _ => Command::Nothing,
    }
}

/// The command for a key while a query is being typed: characters go into
/// the query; `Tab` still switches tabs.
pub open spec fn typing_command(key: Key) -> Command {
    match key {
        Key::Char(c) => Command::TypeChar(c),
        Key::Backspace => Command::EraseChar,
        Key::Enter => Command::SubmitSearch,
        Key::Esc => Command::CancelSearchEdit,
        Key::Tab => Command::NextTab,
        _ => Command::Nothing,
    }
}

/// The command for a key: typing into the query first, then `q` to quit and
/// `Tab` to switch tabs anywhere, then the keys of the current tab.
pub open spec fn command_for(tab: AppTab, mode: TuningMode, typing: bool, key: Key) -> Command {
    if tab == AppTab::Backing && typing {
        typing_command(key)
    } else {
        match key {
            Key::Char('q') | Key::Char('Q') => Command::Quit,
            Key::Tab => Command::NextTab,
            _ => match tab {
                AppTab::Groove => groove_command(key),
                AppTab::Tuner => tuner_command(mode, key),
                AppTab::Backing => backing_command(key),
            },
        }
    }
}

fn groove_key(key: Key) -> (c: Command)
    ensures
        c == groove_command(key),
{
    match key {
        Key::Char(' ') => Command::TogglePlay,
        Key::Up => Command::IncreaseBpm,
        Key::Down => Command::DecreaseBpm,
        Key::Left => Command::PrevRoot,
        Key::Right => Command::NextRoot,
        Key::Char(',') => Command::SelectMinor,
        Key::Char('.') => Command::SelectMajor,
        Key::Char('g') | Key::Char('G') => Command::PrevGenre,
        Key::Char('h') | Key::Char('H') => Command::NextGenre,
        _ => Command::Nothing,
    }
}

fn tuner_key(mode: TuningMode, key: Key) -> (c: Command)
    ensures
        c == tuner_command(mode, key),
{
    let manual = match mode {
        TuningMode::Manual => true,
        TuningMode::Auto => false,
    };
    match key {
        Key::Char(' ') => Command::ToggleCapture,
        Key::Left => Command::PrevDevice,
        Key::Right => Command::NextDevice,
        Key::Up => Command::IncreaseGain,
        Key::Down => Command::DecreaseGain,
        Key::Char('m') | Key::Char('M') => Command::ToggleTuningMode,
        Key::Char('a') | Key::Char('A') => if manual {
            Command::PrevString
        } else {
            Command::Nothing
        },
        Key::Char('d') | Key::Char('D') => if manual {
            Command::NextString
        } else {
            Command::Nothing
        },
        _ => Command::Nothing,
    }
}

fn backing_key(key: Key) -> (c: Command)
    ensures
        c == backing_command(key),
{
    match key {
        Key::Char('/') => Command::BeginSearchEdit,
        Key::Enter => Command::SubmitSearch,
        Key::Esc => Command::CancelSearchEdit,
        Key::Up => Command::PrevResult,
        Key::Down => Command::NextResult,
        Key::Char(' ') => Command::ToggleSelected,
        Key::Char('f') | Key::Char('F') => Command::ToggleFavorite,
        Key::Char('v') | Key::Char('V') => Command::ToggleLibraryView,
        Key::Char('s') | Key::Char('S') => Command::StopTrack,
        _ => Command::Nothing,
    }
}

fn typing_key(key: Key) -> (c: Command)
    ensures
        c == typing_command(key),
{
    match key {
        Key::Char(c) => Command::TypeChar(c),
        Key::Backspace => Command::EraseChar,
        Key::Enter => Command::SubmitSearch,
        Key::Esc => Command::CancelSearchEdit,
        Key::Tab => Command::NextTab,
        _ => Command::Nothing,
    }
}

/// The command that a key stands for on a tab, given the tuning mode and
/// whether a backing-track query is being typed.
pub fn key_command(tab: AppTab, mode: TuningMode, typing: bool, key: Key) -> (c: Command)
    ensures
        c == command_for(tab, mode, typing, key),
{
    let on_backing = match tab {
        AppTab::Backing => true,
        _ => false,
    };
    if on_backing && typing {
        return typing_key(key);
    }
    match key {
        Key::Char('q') | Key::Char('Q') => Command::Quit,
        Key::Tab => Command::NextTab,
        _ => match tab {
            AppTab::Groove => groove_key(key),
            AppTab::Tuner => tuner_key(mode, key),
            AppTab::Backing => backing_key(key),
        },
    }
}

/// Quit ends the main loop; every other command lets it go on.
pub fn input_action(command: Command) -> (a: InputAction)
    ensures
        (a == InputAction::Quit) == (command == Command::Quit),
{
    match command {
        Command::Quit => InputAction::Quit,
        _ => InputAction::Continue,
    }
}

} // verus!
