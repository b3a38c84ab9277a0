use uauauiua::buffer::SampleBuffer;
use uauauiua::controller::new_mixer;
use uauauiua::error::{ChannelClosed, FormatMismatch, InstrumentError};
use uauauiua::instrument::{check_format, Instrument};
use uauauiua::mixer::{Mixer, MixerCommand};
use uauauiua::{CHANNEL_NUM, FULL_SCALE};

const RATE: u32 = 44100;
const HALF: i32 = FULL_SCALE / 2;
const QUARTER: i32 = FULL_SCALE / 4;

fn mono(samples: Vec<i32>) -> SampleBuffer {
    SampleBuffer::new(1, RATE, samples)
}

fn stereo(samples: Vec<i32>) -> SampleBuffer {
    SampleBuffer::new(CHANNEL_NUM, RATE, samples)
}

fn pull(mixer: &mut Mixer, n: usize) -> Vec<i32> {
    (0..n).map(|_| mixer.next().expect("mixer stream ended")).collect()
}

#[test]
fn one_shot_plays_once_then_goes() {
    let (mut controller, mut mixer) = new_mixer(false, false);
    controller.add(mono(vec![HALF; 4])).unwrap();
    assert_eq!(pull(&mut mixer, 4), vec![HALF; 4]);
    assert_eq!(mixer.active_regular_voices(), 0);
    assert_eq!(mixer.next(), Some(0));
    assert_eq!(mixer.active_regular_voices(), 0);
}

#[test]
fn held_voice_loops_until_toggled_off() {
    let (mut controller, mut mixer) = new_mixer(false, false);
    let b = mono(vec![QUARTER, QUARTER]);
    controller.toggle_hold('b', b.clone()).unwrap();
    assert_eq!(pull(&mut mixer, 5), vec![QUARTER; 5]);
    assert!(controller.held_sources().contains(&'b'));
    controller.toggle_hold('b', b).unwrap();
    assert!(!controller.held_sources().contains(&'b'));
    assert_eq!(pull(&mut mixer, 3), vec![0, 0, 0]);
    assert_eq!(mixer.active_held_voices(), 0);
}

#[test]
fn held_voice_loops_its_whole_pattern() {
    let (mut controller, mut mixer) = new_mixer(false, false);
    controller.toggle_hold('c', mono(vec![1, 2, 3])).unwrap();
    assert_eq!(pull(&mut mixer, 7), vec![1, 2, 3, 1, 2, 3, 1]);
}

#[test]
fn one_shots_added_together_end_with_the_longest() {
    let (mut controller, mut mixer) = new_mixer(false, false);
    for len in [3usize, 5, 2] {
        controller.add(mono(vec![1; len])).unwrap();
    }
    let mut counts = Vec::new();
    for _ in 0..6 {
        mixer.next().unwrap();
        counts.push(mixer.active_regular_voices());
    }
    assert_eq!(counts, vec![3, 2, 1, 1, 0, 0]);
}

#[test]
fn one_shots_sum_while_they_overlap() {
    let (mut controller, mut mixer) = new_mixer(false, false);
    controller.add(mono(vec![10, 20, 30])).unwrap();
    controller.add(mono(vec![1, 2])).unwrap();
    assert_eq!(pull(&mut mixer, 4), vec![11, 22, 30, 0]);
}

#[test]
fn empty_one_shot_is_purged_at_once() {
    let (mut controller, mut mixer) = new_mixer(false, false);
    controller.add(mono(vec![])).unwrap();
    assert_eq!(mixer.next(), Some(0));
    assert_eq!(mixer.active_regular_voices(), 0);
}

#[test]
fn toggle_hold_twice_restores_membership() {
    let (mut controller, _mixer) = new_mixer(false, false);
    let b = mono(vec![1]);
    controller.toggle_hold('x', b.clone()).unwrap();
    let before: Vec<char> = controller.held_sources().iter().copied().collect();
    controller.toggle_hold('y', b.clone()).unwrap();
    controller.toggle_hold('y', b.clone()).unwrap();
    let after: Vec<char> = controller.held_sources().iter().copied().collect();
    assert_eq!(before, after);
    controller.toggle_hold('x', b.clone()).unwrap();
    controller.toggle_hold('x', b).unwrap();
    assert!(controller.held_sources().contains(&'x'));
    assert_eq!(controller.held_sources().len(), 1);
}

#[test]
fn toggle_release_keeps_order_of_other_keys() {
    let (mut controller, _mixer) = new_mixer(false, false);
    for k in ['a', 'b', 'c'] {
        controller.toggle_hold(k, mono(vec![1])).unwrap();
    }
    controller.toggle_hold('b', mono(vec![1])).unwrap();
    let keys: Vec<char> = controller.held_sources().iter().copied().collect();
    assert_eq!(keys, vec!['a', 'c']);
}

#[test]
fn full_scale_voices_clamp_to_full_scale() {
    let (mut controller, mut mixer) = new_mixer(false, false);
    controller.add(mono(vec![FULL_SCALE; 2])).unwrap();
    controller.add(mono(vec![FULL_SCALE; 2])).unwrap();
    controller.toggle_hold('h', mono(vec![FULL_SCALE])).unwrap();
    assert_eq!(pull(&mut mixer, 3), vec![FULL_SCALE, FULL_SCALE, FULL_SCALE]);
}

#[test]
fn negative_sum_clamps_to_minus_full_scale() {
    let (mut controller, mut mixer) = new_mixer(false, false);
    controller.add(mono(vec![-FULL_SCALE, -HALF])).unwrap();
    controller.add(mono(vec![-FULL_SCALE, -QUARTER])).unwrap();
    assert_eq!(pull(&mut mixer, 2), vec![-FULL_SCALE, -HALF - QUARTER]);
}

#[test]
fn extreme_samples_do_not_overflow() {
    let (mut controller, mut mixer) = new_mixer(false, false);
    for _ in 0..4 {
        controller.add(mono(vec![i32::MAX])).unwrap();
        controller.add(mono(vec![i32::MIN, i32::MIN])).unwrap();
    }
    assert_eq!(pull(&mut mixer, 2), vec![-4, -FULL_SCALE]);
}

#[test]
fn stop_playback_silences_everything() {
    let (mut controller, mut mixer) = new_mixer(false, false);
    controller.add(mono(vec![HALF; 10])).unwrap();
    controller.toggle_hold('h', mono(vec![QUARTER])).unwrap();
    assert_eq!(pull(&mut mixer, 2), vec![HALF + QUARTER; 2]);
    controller.stop_playback().unwrap();
    assert!(controller.held_sources().is_empty());
    assert_eq!(mixer.next(), Some(0));
    assert_eq!(mixer.active_regular_voices(), 0);
    assert_eq!(mixer.active_held_voices(), 0);
}

#[test]
fn stop_playback_keeps_recording_silence() {
    let (mut controller, mut mixer) = new_mixer(false, false);
    controller.start_main_recording().unwrap();
    controller.add(mono(vec![HALF; 10])).unwrap();
    assert_eq!(pull(&mut mixer, 1), vec![HALF]);
    controller.stop_playback().unwrap();
    assert_eq!(pull(&mut mixer, 2), vec![0, 0]);
    assert!(controller.is_recording_main());
    assert_eq!(controller.stop_main_recording().unwrap(), vec![HALF, 0, 0]);
}

#[test]
fn recording_round_trip_returns_every_sample_in_order() {
    let (mut controller, mut mixer) = new_mixer(false, false);
    controller.add(mono(vec![1, 2, 3, 4, 5])).unwrap();
    controller.toggle_hold('r', mono(vec![100, 200])).unwrap();
    controller.start_main_recording().unwrap();
    let pulled = pull(&mut mixer, 5);
    assert_eq!(pulled, vec![101, 202, 103, 204, 105]);
    let recorded = controller.stop_main_recording().unwrap();
    assert_eq!(recorded, pulled);
    assert!(!controller.is_recording_main());
    assert_eq!(pull(&mut mixer, 1), vec![200]);
    assert_eq!(controller.get_main_recording(), Vec::<i32>::new());
}

#[test]
fn secondary_recording_is_independent() {
    let (mut controller, mut mixer) = new_mixer(false, false);
    controller.add(mono(vec![7, 8, 9])).unwrap();
    controller.start_secondary_recording().unwrap();
    assert!(controller.is_recording_secondary());
    assert!(!controller.is_recording_main());
    pull(&mut mixer, 2);
    controller.start_main_recording().unwrap();
    pull(&mut mixer, 1);
    assert_eq!(controller.stop_secondary_recording().unwrap(), vec![7, 8, 9]);
    assert_eq!(controller.stop_main_recording().unwrap(), vec![9]);
}

#[test]
fn recording_flags_given_at_construction() {
    let (mut controller, mut mixer) = new_mixer(true, false);
    assert!(controller.is_recording_main());
    pull(&mut mixer, 2);
    assert_eq!(controller.get_main_recording(), vec![0, 0]);
}

#[test]
fn commands_applied_directly_to_the_mixer() {
    let (_controller, mut mixer) = new_mixer(false, false);
    mixer.apply_command(MixerCommand::Source(mono(vec![5, 6])));
    mixer.apply_command(MixerCommand::ToggleHold('k', mono(vec![1])));
    assert_eq!(mixer.render(), 6);
    mixer.apply_command(MixerCommand::ToggleHold('k', mono(vec![1])));
    assert_eq!(mixer.render(), 6);
    mixer.apply_command(MixerCommand::StopPlayback);
    assert_eq!(mixer.render(), 0);
}

#[test]
fn commands_fail_once_the_mixer_is_gone() {
    let (mut controller, mixer) = new_mixer(false, false);
    drop(mixer);
    assert_eq!(controller.add(mono(vec![1])), Err(ChannelClosed));
    assert_eq!(controller.toggle_hold('a', mono(vec![1])), Err(ChannelClosed));
    assert!(controller.held_sources().is_empty());
    assert_eq!(controller.start_main_recording(), Err(ChannelClosed));
    assert!(!controller.is_recording_main());
    assert_eq!(controller.stop_playback(), Err(ChannelClosed));
    assert_eq!(controller.stop_main_recording(), Err(ChannelClosed));
}

#[test]
fn mixer_stream_ends_when_an_active_tap_is_gone() {
    let (mut controller, mut mixer) = new_mixer(false, false);
    controller.start_main_recording().unwrap();
    assert_eq!(mixer.next(), Some(0));
    drop(controller);
    assert_eq!(mixer.next(), None);
}

#[test]
fn format_check_names_expected_and_actual() {
    assert_eq!(check_format(&stereo(vec![0, 0]), RATE), Ok(()));
    assert_eq!(
        check_format(&mono(vec![0]), RATE),
        Err(FormatMismatch::Channels { expected: CHANNEL_NUM, actual: 1 })
    );
    assert_eq!(
        check_format(&SampleBuffer::new(CHANNEL_NUM, 48000, vec![]), RATE),
        Err(FormatMismatch::SampleRate { expected_rate: RATE, actual_rate: 48000 })
    );
    assert_eq!(
        check_format(&SampleBuffer::new(1, 48000, vec![]), RATE),
        Err(FormatMismatch::Channels { expected: CHANNEL_NUM, actual: 1 })
    );
}

#[test]
fn instrument_reports_unknown_trigger_and_bad_format() {
    let (mut instrument, _mixer) = Instrument::new();
    assert_eq!(
        instrument.add_to_mixer('q', None, false, RATE),
        Err(InstrumentError::UnknownTrigger('q'))
    );
    assert_eq!(
        instrument.add_to_mixer('q', Some(mono(vec![1, 2])), true, RATE),
        Err(InstrumentError::FormatMismatch(FormatMismatch::Channels {
            expected: CHANNEL_NUM,
            actual: 1
        }))
    );
    assert!(instrument.held_sources().is_empty());
}

#[test]
fn instrument_plays_and_holds_keys() {
    let (mut instrument, mut mixer) = Instrument::new();
    instrument.add_to_mixer('a', Some(stereo(vec![3, 4])), false, RATE).unwrap();
    instrument.add_to_mixer('h', Some(stereo(vec![10])), true, RATE).unwrap();
    assert!(instrument.held_sources().contains(&'h'));
    assert_eq!(pull(&mut mixer, 3), vec![13, 14, 10]);
    instrument.add_to_mixer('h', Some(stereo(vec![10])), true, RATE).unwrap();
    assert!(instrument.held_sources().is_empty());
    assert_eq!(pull(&mut mixer, 1), vec![0]);
}

#[test]
fn instrument_reports_closed_channel() {
    let (mut instrument, mixer) = Instrument::new();
    drop(mixer);
    assert_eq!(
        instrument.add_to_mixer('a', Some(stereo(vec![1])), false, RATE),
        Err(InstrumentError::ChannelClosed)
    );
    assert_eq!(instrument.start_main_recording(), Err(InstrumentError::ChannelClosed));
    assert_eq!(instrument.start_secondary_recording(), Err(InstrumentError::ChannelClosed));
    assert_eq!(instrument.stop_playback(), Err(InstrumentError::ChannelClosed));
    assert_eq!(
        instrument.stop_main_recording_and_playback(),
        Err(InstrumentError::ChannelClosed)
    );
}

#[test]
fn reinit_audio_salvages_recordings() {
    let (mut instrument, mut mixer) = Instrument::new();
    instrument.start_main_recording().unwrap();
    instrument.start_secondary_recording().unwrap();
    instrument.add_to_mixer('a', Some(stereo(vec![1, 2, 3, 4])), false, RATE).unwrap();
    instrument.add_to_mixer('h', Some(stereo(vec![50])), true, RATE).unwrap();
    assert_eq!(pull(&mut mixer, 2), vec![51, 52]);
    let mut mixer = instrument.reinit_audio();
    assert!(instrument.is_recording_main());
    assert!(instrument.is_recording_secondary());
    assert!(instrument.held_sources().is_empty());
    instrument.add_to_mixer('b', Some(stereo(vec![7])), false, RATE).unwrap();
    assert_eq!(pull(&mut mixer, 2), vec![7, 0]);
    let rest = instrument.stop_main_recording_and_playback().unwrap();
    assert_eq!(rest, vec![7, 0]);
    assert!(!instrument.is_recording_main());
    assert_eq!(instrument.save_main_recording(rest.clone(), ""), None);
    assert_eq!(instrument.save_main_recording(rest, "take"), Some(vec![51, 52, 7, 0]));
    assert_eq!(instrument.save_main_recording(vec![9], "again"), Some(vec![9]));
    let second = instrument.stop_secondary_recording_and_playback().unwrap();
    assert_eq!(second, vec![7, 0]);
    assert_eq!(instrument.save_secondary_recording(second, "loop"), Some(vec![51, 52, 7, 0]));
}

#[test]
fn sample_buffer_reports_its_format_and_samples() {
    let b = SampleBuffer::new(CHANNEL_NUM, RATE, vec![4, 5, 6]);
    assert_eq!(b.channels(), CHANNEL_NUM);
    assert_eq!(b.sample_rate(), RATE);
    assert_eq!(b.len(), 3);
    assert_eq!(b.sample(1), 5);
}

#[test]
fn mirror_matches_mixer_under_rapid_toggles() {
    let (mut controller, mut mixer) = new_mixer(false, false);
    let keys = ['a', 'b', 'c', 'a', 'a', 'd', 'b', 'c', 'c', 'a', 'd', 'e'];
    for (n, k) in keys.iter().enumerate() {
        controller.toggle_hold(*k, mono(vec![1; n + 1])).unwrap();
    }
    mixer.next().unwrap();
    let mut mirrored: Vec<char> = controller.held_sources().iter().copied().collect();
    let mut held = mixer.held_keys();
    mirrored.sort();
    held.sort();
    assert_eq!(mirrored, held);
    assert_eq!(held, vec!['c', 'e']);
    controller.stop_playback().unwrap();
    controller.toggle_hold('z', mono(vec![1])).unwrap();
    mixer.next().unwrap();
    assert_eq!(mixer.held_keys(), vec!['z']);
    assert_eq!(controller.held_sources().iter().copied().collect::<Vec<char>>(), vec!['z']);
}

#[test]
fn refused_triggers_send_nothing_to_the_mixer() {
    let (mut instrument, mut mixer) = Instrument::new();
    instrument.add_to_mixer('u', None, false, RATE).unwrap_err();
    instrument.add_to_mixer('m', Some(mono(vec![9, 9])), false, RATE).unwrap_err();
    instrument
        .add_to_mixer('r', Some(SampleBuffer::new(CHANNEL_NUM, 8000, vec![9])), true, RATE)
        .unwrap_err();
    assert_eq!(mixer.next(), Some(0));
    assert_eq!(mixer.active_regular_voices(), 0);
    assert_eq!(mixer.active_held_voices(), 0);
}
