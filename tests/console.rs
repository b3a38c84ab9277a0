use uauauiua::binding::{binding_key, check_shape, BindingError};
use uauauiua::keys::{key_action, trigger_for, Key, KeyAction, Mode};
use uauauiua::player::{Player, PlayerAction, PlayerState, SinkCommand};
use uauauiua::CHANNEL_NUM;

#[test]
fn trigger_keys_fold_to_lower_case() {
    assert_eq!(trigger_for('A'), 'a');
    assert_eq!(trigger_for('Z'), 'z');
    assert_eq!(trigger_for('q'), 'q');
    assert_eq!(trigger_for('1'), '1');
    assert_eq!(trigger_for('['), '[');
}

#[test]
fn jam_keys_fire_and_hold_triggers() {
    assert_eq!(
        key_action(Mode::Jam, Key::Char('A'), true, false, false, true),
        KeyAction::Trigger { key: 'a', hold: true }
    );
    assert_eq!(
        key_action(Mode::Jam, Key::Char('b'), false, false, false, true),
        KeyAction::Trigger { key: 'b', hold: false }
    );
    assert_eq!(
        key_action(Mode::Jam, Key::Other, false, false, false, true),
        KeyAction::Unbound
    );
}

#[test]
fn record_keys_start_then_stop() {
    assert_eq!(
        key_action(Mode::Jam, Key::Enter, false, false, false, true),
        KeyAction::StartMainRecording
    );
    assert_eq!(
        key_action(Mode::Jam, Key::Enter, false, true, false, true),
        KeyAction::StopMainRecording
    );
    assert_eq!(
        key_action(Mode::Jam, Key::Char('\\'), false, false, false, true),
        KeyAction::StartSecondaryRecording
    );
    assert_eq!(
        key_action(Mode::Jam, Key::Char('\\'), false, false, true, true),
        KeyAction::StopSecondaryRecording
    );
    assert_eq!(
        key_action(Mode::Loading, Key::Enter, false, true, false, true),
        KeyAction::StartMainRecording
    );
}

#[test]
fn control_keys_in_jam_mode() {
    let act = |k| key_action(Mode::Jam, k, false, false, false, true);
    assert_eq!(act(Key::Tab), KeyAction::Reload);
    assert_eq!(act(Key::Home), KeyAction::ReinitAudio);
    assert_eq!(act(Key::Backspace), KeyAction::ClearStack);
    assert_eq!(act(Key::Esc), KeyAction::Exit);
    assert_eq!(act(Key::End), KeyAction::StopPlayback);
}

#[test]
fn naming_prompt_keys() {
    for mode in [Mode::SaveMain, Mode::SaveSecondary] {
        assert_eq!(
            key_action(mode, Key::Esc, false, false, false, false),
            KeyAction::DiscardRecording
        );
        assert_eq!(key_action(mode, Key::Enter, false, false, false, true), KeyAction::Ignore);
        assert_eq!(
            key_action(mode, Key::Enter, false, false, false, false),
            KeyAction::SaveRecording
        );
        assert_eq!(
            key_action(mode, Key::Char('\\'), false, false, true, false),
            KeyAction::TypeChar('\\')
        );
        assert_eq!(
            key_action(mode, Key::Char('X'), true, false, false, false),
            KeyAction::TypeChar('X')
        );
        assert_eq!(
            key_action(mode, Key::Backspace, false, false, false, false),
            KeyAction::DeleteChar
        );
        assert_eq!(key_action(mode, Key::Tab, false, false, false, false), KeyAction::Reload);
    }
}

#[test]
fn binding_keys_are_single_lowercase_letters() {
    assert_eq!(binding_key("a"), Ok('a'));
    assert_eq!(binding_key("z"), Ok('z'));
    assert_eq!(binding_key("A"), Err(BindingError::NotLowercase('A')));
    assert_eq!(binding_key("é"), Err(BindingError::NotLowercase('é')));
    assert_eq!(binding_key(""), Err(BindingError::NotOneCharacter));
    assert_eq!(binding_key("ab"), Err(BindingError::NotOneCharacter));
}

#[test]
fn bound_arrays_need_frames_by_channels() {
    let ch = CHANNEL_NUM as usize;
    assert_eq!(check_shape(&[100, ch]), Ok(()));
    assert_eq!(check_shape(&[0, ch]), Ok(()));
    assert_eq!(check_shape(&[100]), Err(BindingError::BadShape));
    assert_eq!(check_shape(&[100, ch + 1]), Err(BindingError::BadShape));
    assert_eq!(check_shape(&[2, ch, 1]), Err(BindingError::BadShape));
}

#[test]
fn player_stop_pauses_and_clears() {
    let mut p = Player::new();
    assert_eq!(p.state(), PlayerState::Stopped);
    assert_eq!(p.handle_action(PlayerAction::Play), vec![SinkCommand::Play]);
    assert_eq!(p.state(), PlayerState::Stopped);
    assert_eq!(
        p.handle_action(PlayerAction::Stop),
        vec![SinkCommand::Pause, SinkCommand::Clear]
    );
    assert_eq!(p.state(), PlayerState::Stopped);
}
