use groove_tui::app::AppTab;
use groove_tui::input::{input_action, key_command, Command, InputAction, Key};
use groove_tui::tuner::TuningMode;

fn on(tab: AppTab, key: Key) -> Command {
    key_command(tab, TuningMode::Auto, false, key)
}

#[test]
fn quit_and_tab_work_everywhere() {
    for tab in [AppTab::Groove, AppTab::Tuner, AppTab::Backing] {
        assert_eq!(on(tab, Key::Char('q')), Command::Quit);
        assert_eq!(on(tab, Key::Char('Q')), Command::Quit);
        assert_eq!(on(tab, Key::Tab), Command::NextTab);
        assert_eq!(on(tab, Key::Other), Command::Nothing);
    }
}

#[test]
fn groove_keys() {
    assert_eq!(on(AppTab::Groove, Key::Char(' ')), Command::TogglePlay);
    assert_eq!(on(AppTab::Groove, Key::Up), Command::IncreaseBpm);
    assert_eq!(on(AppTab::Groove, Key::Down), Command::DecreaseBpm);
    assert_eq!(on(AppTab::Groove, Key::Left), Command::PrevRoot);
    assert_eq!(on(AppTab::Groove, Key::Right), Command::NextRoot);
    assert_eq!(on(AppTab::Groove, Key::Char(',')), Command::SelectMinor);
    assert_eq!(on(AppTab::Groove, Key::Char('.')), Command::SelectMajor);
    assert_eq!(on(AppTab::Groove, Key::Char('g')), Command::PrevGenre);
    assert_eq!(on(AppTab::Groove, Key::Char('H')), Command::NextGenre);
    assert_eq!(on(AppTab::Groove, Key::Char('x')), Command::Nothing);
}

#[test]
fn tuner_keys() {
    assert_eq!(on(AppTab::Tuner, Key::Char(' ')), Command::ToggleCapture);
    assert_eq!(on(AppTab::Tuner, Key::Left), Command::PrevDevice);
    assert_eq!(on(AppTab::Tuner, Key::Right), Command::NextDevice);
    assert_eq!(on(AppTab::Tuner, Key::Up), Command::IncreaseGain);
    assert_eq!(on(AppTab::Tuner, Key::Down), Command::DecreaseGain);
    assert_eq!(on(AppTab::Tuner, Key::Char('M')), Command::ToggleTuningMode);
}

#[test]
fn string_keys_only_in_manual_mode() {
    assert_eq!(on(AppTab::Tuner, Key::Char('a')), Command::Nothing);
    assert_eq!(on(AppTab::Tuner, Key::Char('d')), Command::Nothing);
    let manual = |k| key_command(AppTab::Tuner, TuningMode::Manual, false, k);
    assert_eq!(manual(Key::Char('a')), Command::PrevString);
    assert_eq!(manual(Key::Char('D')), Command::NextString);
}

#[test]
fn backing_keys() {
    assert_eq!(on(AppTab::Backing, Key::Char('/')), Command::BeginSearchEdit);
    assert_eq!(on(AppTab::Backing, Key::Enter), Command::SubmitSearch);
    assert_eq!(on(AppTab::Backing, Key::Esc), Command::CancelSearchEdit);
    assert_eq!(on(AppTab::Backing, Key::Up), Command::PrevResult);
    assert_eq!(on(AppTab::Backing, Key::Down), Command::NextResult);
    assert_eq!(on(AppTab::Backing, Key::Char(' ')), Command::ToggleSelected);
    assert_eq!(on(AppTab::Backing, Key::Char('f')), Command::ToggleFavorite);
    assert_eq!(on(AppTab::Backing, Key::Char('V')), Command::ToggleLibraryView);
    assert_eq!(on(AppTab::Backing, Key::Char('s')), Command::StopTrack);
}

#[test]
fn typing_keys_go_into_the_query() {
    let typing = |k| key_command(AppTab::Backing, TuningMode::Auto, true, k);
    assert_eq!(typing(Key::Char('q')), Command::TypeChar('q'));
    assert_eq!(typing(Key::Char(' ')), Command::TypeChar(' '));
    assert_eq!(typing(Key::Backspace), Command::EraseChar);
    assert_eq!(typing(Key::Enter), Command::SubmitSearch);
    assert_eq!(typing(Key::Esc), Command::CancelSearchEdit);
    assert_eq!(typing(Key::Tab), Command::NextTab);
    assert_eq!(typing(Key::Up), Command::Nothing);
    assert_eq!(key_command(AppTab::Groove, TuningMode::Auto, true, Key::Char('q')), Command::Quit);
}

#[test]
fn only_quit_ends_the_loop() {
    assert_eq!(input_action(Command::Quit), InputAction::Quit);
    assert_eq!(input_action(Command::NextTab), InputAction::Continue);
    assert_eq!(input_action(Command::TypeChar('q')), InputAction::Continue);
}
