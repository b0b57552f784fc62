use music_player::error::PlaybackError;
use music_player::input::{command_for_key, Command, Key};
use music_player::selection::{step_backward, step_forward};
use music_player::state::PlaybackState;

#[test]
fn keys_map_to_commands() {
    assert_eq!(command_for_key(Key::Char('q')), Some(Command::Quit));
    assert_eq!(command_for_key(Key::Char(' ')), Some(Command::TogglePause));
    assert_eq!(command_for_key(Key::Right), Some(Command::Advance));
    assert_eq!(command_for_key(Key::Left), Some(Command::Retreat));
    assert_eq!(command_for_key(Key::Enter), Some(Command::Confirm));
}

#[test]
fn other_keys_map_to_nothing() {
    assert_eq!(command_for_key(Key::Char('Q')), None);
    assert_eq!(command_for_key(Key::Char('x')), None);
    assert_eq!(command_for_key(Key::Other), None);
}

#[test]
fn step_forward_wraps() {
    assert_eq!(step_forward(None, 3), Some(0));
    assert_eq!(step_forward(Some(0), 3), Some(1));
    assert_eq!(step_forward(Some(2), 3), Some(0));
    assert_eq!(step_forward(None, 0), None);
    assert_eq!(step_forward(Some(usize::MAX - 1), usize::MAX), Some(0));
}

#[test]
fn step_backward_wraps() {
    assert_eq!(step_backward(None, 3), Some(0));
    assert_eq!(step_backward(Some(0), 3), Some(2));
    assert_eq!(step_backward(Some(2), 3), Some(1));
    assert_eq!(step_backward(None, 0), None);
    assert_eq!(step_backward(Some(usize::MAX - 1), usize::MAX), Some(usize::MAX - 2));
}

#[test]
fn toggle_swaps_playing_and_paused() {
    assert_eq!(PlaybackState::Playing.toggle(), PlaybackState::Paused);
    assert_eq!(PlaybackState::Paused.toggle(), PlaybackState::Playing);
    assert_eq!(PlaybackState::Stopped.toggle(), PlaybackState::Stopped);
    for s in [PlaybackState::Stopped, PlaybackState::Playing, PlaybackState::Paused] {
        assert_eq!(s.toggle().toggle(), s);
    }
}

#[test]
fn labels_name_the_states() {
    assert_eq!(PlaybackState::Stopped.label(), "Stopped");
    assert_eq!(PlaybackState::Playing.label(), "Playing");
    assert_eq!(PlaybackState::Paused.label(), "Paused");
}

#[test]
fn errors_describe_themselves() {
    assert_eq!(PlaybackError::Device.describe(), "audio device unavailable");
    assert_eq!(PlaybackError::Decode.describe(), "track could not be decoded");
}
