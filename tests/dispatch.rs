use biome::message::{
    process_message, ChannelState, ControlMessage, Error, Level, MixerState, INITIAL_FILTER_FREQUENCY,
    INITIAL_FILTER_Q, INITIAL_RATE, INITIAL_VOLUME,
};
use biome::message_processor::{parse_control, ControlType, Error as ProcessorError, MessageProcessor};
use biome::midi::ControlEvent;

#[test]
fn new_mixer_has_initial_parameters() {
    let mixer = MixerState::new(2);
    assert_eq!(mixer.channel_count(), 2);
    assert!(!mixer.muted);
    let channel = mixer.get_channel(1).expect("channel");
    assert_eq!(channel.volume, Level { parts: INITIAL_VOLUME });
    assert_eq!(channel.filter_frequency, INITIAL_FILTER_FREQUENCY);
    assert_eq!(channel.filter_q, Level { parts: INITIAL_FILTER_Q });
    assert_eq!(channel.rate, Level { parts: INITIAL_RATE });
    assert!(mixer.get_channel(2).is_none());
}

#[test]
fn volume_for_missing_channel_fails_and_changes_nothing() {
    let mut mixer = MixerState::new(2);
    let before = mixer.channels.clone();
    let r = process_message(ControlMessage::SetChannelVolume(2, Level { parts: 5 }), &mut mixer);
    assert_eq!(r, Err(Error::MissingAudioChannel));
    assert_eq!(mixer.channels, before);
    assert!(!mixer.muted);
    let r = process_message(ControlMessage::SetChannelFilterFrequency(9, 100), &mut mixer);
    assert_eq!(r, Err(Error::MissingAudioChannel));
    assert_eq!(mixer.channels, before);
}

#[test]
fn parameters_are_applied_to_their_channel() {
    let mut mixer = MixerState::new(3);
    let level = Level { parts: 42 };
    assert_eq!(process_message(ControlMessage::SetChannelVolume(1, level), &mut mixer), Ok(()));
    assert_eq!(process_message(ControlMessage::SetChannelFilterFrequency(2, 400), &mut mixer), Ok(()));
    assert_eq!(process_message(ControlMessage::SetChannelFilterQ(0, level), &mut mixer), Ok(()));
    assert_eq!(process_message(ControlMessage::SetChannelRate(0, level), &mut mixer), Ok(()));
    let initial = ChannelState::initial();
    assert_eq!(mixer.channels[1], ChannelState { volume: level, ..initial });
    assert_eq!(mixer.channels[2], ChannelState { filter_frequency: 400, ..initial });
    assert_eq!(mixer.channels[0], ChannelState { filter_q: level, rate: level, ..initial });
}

#[test]
fn mute_all_and_sample_file() {
    let mut mixer = MixerState::new(1);
    assert_eq!(process_message(ControlMessage::SetChannelSampleFile(5, 3), &mut mixer), Ok(()));
    assert_eq!(mixer.channels, vec![ChannelState::initial()]);
    assert_eq!(process_message(ControlMessage::MuteAll, &mut mixer), Ok(()));
    assert!(mixer.muted);
    assert_eq!(mixer.channels, vec![ChannelState::initial()]);
}

#[test]
fn fixed_numbering_parses_controls() {
    assert_eq!(parse_control(10), Ok((0, ControlType::Volume)));
    assert_eq!(parse_control(21), Ok((1, ControlType::FilterFrequency)));
    assert_eq!(parse_control(32), Ok((2, ControlType::FilterQ)));
    assert_eq!(parse_control(13), Err(ProcessorError::MissingControlType));
    assert_eq!(parse_control(1), Err(ProcessorError::MissingAudioChannel));
    assert_eq!(parse_control(9), Err(ProcessorError::MissingControlType));
}

#[test]
fn fixed_numbering_applies_to_mixer() {
    let mut mixer = MixerState::new(2);
    let r = MessageProcessor::process_control_change(0, ControlEvent { control: 21, value: 10 }, &mut mixer);
    assert_eq!(r, Ok(()));
    assert_eq!(mixer.channels[1].filter_frequency, 100);
    let r = MessageProcessor::process_control_change(0, ControlEvent { control: 12, value: 127 }, &mut mixer);
    assert_eq!(r, Ok(()));
    assert_eq!(mixer.channels[0].filter_q, Level { parts: 12_700_000 });
    let before = mixer.channels.clone();
    let r = MessageProcessor::process_control_change(1, ControlEvent { control: 10, value: 1 }, &mut mixer);
    assert_eq!(r, Ok(()));
    assert_eq!(mixer.channels, before);
    let r = MessageProcessor::process_control_change(0, ControlEvent { control: 30, value: 1 }, &mut mixer);
    assert_eq!(r, Err(ProcessorError::MissingAudioChannel));
    assert_eq!(mixer.channels[0].volume, Level { parts: INITIAL_VOLUME });
}
