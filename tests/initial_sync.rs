use biome::message::{ControlMessage, Level};
use biome::midi::{init_values, midi_to_freq, midi_to_percent, Error};
use biome::settings::{ChannelSettings, ControlParam, MidiSettings, Settings};

fn settings(midi_channel: u8, midi: Vec<MidiSettings>) -> Settings {
    Settings {
        midi_channel,
        midi_device: "device".to_string(),
        channels: vec![ChannelSettings { sample_dir: "a".to_string() }],
        midi,
    }
}

#[test]
fn each_binding_is_echoed_and_dispatched_with_its_initial_value() {
    let s = settings(
        3,
        vec![
            MidiSettings { param: ControlParam::Volume, cc_id: 10, channel: 0, initial_value: 64 },
            MidiSettings { param: ControlParam::FilterFrequency, cc_id: 11, channel: 1, initial_value: 50 },
            MidiSettings { param: ControlParam::FilterQ, cc_id: 12, channel: 2, initial_value: 0 },
        ],
    );
    let steps = init_values(&s).expect("steps");
    assert_eq!(steps.len(), 3);
    assert_eq!(steps[0].echo, vec![0xB2, 10, 64]);
    assert_eq!(steps[0].message, ControlMessage::SetChannelVolume(0, midi_to_percent(64)));
    assert_eq!(steps[1].echo, vec![0xB2, 11, 50]);
    assert_eq!(steps[1].message, ControlMessage::SetChannelFilterFrequency(1, midi_to_freq(50)));
    assert_eq!(steps[1].message, ControlMessage::SetChannelFilterFrequency(1, 2500));
    assert_eq!(steps[2].echo, vec![0xB2, 12, 0]);
    assert_eq!(steps[2].message, ControlMessage::SetChannelFilterQ(2, Level { parts: 127 }));
}

#[test]
fn no_bindings_give_no_steps() {
    let steps = init_values(&settings(1, vec![])).expect("steps");
    assert!(steps.is_empty());
}

#[test]
fn invalid_midi_channel_fails_sync() {
    let s = settings(
        0,
        vec![MidiSettings { param: ControlParam::Rate, cc_id: 1, channel: 0, initial_value: 1 }],
    );
    assert!(matches!(init_values(&s), Err(Error::InvalidMidiChannel)));
    let s = settings(17, vec![]);
    assert!(matches!(init_values(&s), Err(Error::InvalidMidiChannel)));
}
