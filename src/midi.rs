//! MIDI control changes: value codecs, translation into control messages,
//! and the messages that bring the controller and the mixer to the
//! configured starting values.

use vstd::prelude::*;

use crate::message::{ControlMessage, Level};
use crate::sample_manager::{occurs_in, str_contains};
use crate::settings::{is_bound, is_first_binding, ControlParam, MidiSettings, Settings};

verus! {

/// The parts of a `Level` that one step of a MIDI value is worth:
/// `LEVEL_SCALE / 127`.
pub const PARTS_PER_STEP: u32 = 100_000;

/// The smallest level a MIDI value is decoded to, 0.00001 of `LEVEL_SCALE`.
pub const MIN_LEVEL_PARTS: u32 = 127;

/// The status byte of a control change on MIDI channel 0.
pub const CONTROL_CHANGE: u8 = 0xB0;

/// A control change as received: which control, and its new value.
#[derive(Clone, Copy, Debug, PartialEq, Eq, Structural)]
pub struct ControlEvent {
    pub control: u8,
    pub value: u8,
}

/// Why a control change was not translated.
#[derive(Clone, Copy, Debug, PartialEq, Eq, Structural)]
pub enum Error {
    /// The configured MIDI channel is not one of the sixteen.
    InvalidMidiChannel,
    /// No binding is configured for the control.
    MissingControlType,
}

/// A MIDI value read as a fraction of 127, raised to 0.00001 where it is
/// smaller.
pub open spec fn unit_interval(raw: u8) -> Level {
    let parts = raw * PARTS_PER_STEP;
    if parts < MIN_LEVEL_PARTS {
        Level { parts: MIN_LEVEL_PARTS }
    } else {
        Level { parts: parts as u32 }
    }
}

/// A MIDI value read as a frequency in hertz: its square, and 1 for 0.
pub open spec fn frequency(raw: u8) -> u32 {
    if raw < 1 {
        1
    } else {
        (raw * raw) as u32
    }
}

/// The message that sets `param` of `channel` from MIDI value `value`.
pub open spec fn message_for(param: ControlParam, channel: usize, value: u8) -> ControlMessage {
    match param {
        ControlParam::FilterFrequency => ControlMessage::SetChannelFilterFrequency(
            channel,
            frequency(value),
        ),
        ControlParam::FilterQ => ControlMessage::SetChannelFilterQ(channel, unit_interval(value)),
        ControlParam::Rate => ControlMessage::SetChannelRate(channel, unit_interval(value)),
        ControlParam::Volume => ControlMessage::SetChannelVolume(channel, unit_interval(value)),
    }
}

/// The binding that a control change of control `cc_id` resolves to: the
/// first one for that control.
pub open spec fn binding_for(midi: Seq<MidiSettings>, cc_id: u8) -> Option<MidiSettings> {
    if exists|i: int| is_first_binding(midi, cc_id, i) {
        Some(midi[choose|i: int| is_first_binding(midi, cc_id, i)])
    } else {
        None
    }
}

/// The message that a control change resolves to under `settings`.
pub open spec fn translation(settings: Settings, control: u8, value: u8) -> Result<
    ControlMessage,
    Error,
> {
    match binding_for(settings.midi@, control) {
        Some(b) => Ok(message_for(b.param, b.channel as usize, value)),
        None => Err(Error::MissingControlType),
    }
}

/// What a control change received on zero-based MIDI channel `channel`
/// translates to: nothing on another channel than the configured one.
pub open spec fn translated_input(settings: Settings, channel: u8, event: ControlEvent) -> Result<
    Option<ControlMessage>,
    Error,
> {
    if settings.spec_midi_channel() == Some(channel) {
        match translation(settings, event.control, event.value) {
            Ok(msg) => Ok(Some(msg)),
            Err(e) => Err(e),
        }
    } else {
        Ok(None)
    }
}

/// The raw bytes of a control change of `control` to `value` on
/// zero-based MIDI channel `channel`.
pub open spec fn control_change_bytes(channel: u8, control: u8, value: u8) -> Seq<u8> {
    seq![(CONTROL_CHANGE + channel) as u8, control, value]
}

/// The first binding for a control is the only first one.
pub proof fn lemma_first_binding_unique(midi: Seq<MidiSettings>, cc_id: u8, i: int, j: int)
    requires
        is_first_binding(midi, cc_id, i),
        is_first_binding(midi, cc_id, j),
    ensures
        i == j,
{
    if i < j {
        assert(midi[i].cc_id == cc_id);
    } else if j < i {
        assert(midi[j].cc_id == cc_id);
    }
}

/// Where `i` is the first binding for a control, that binding is the one
/// the control resolves to.
pub proof fn lemma_binding_for_first(midi: Seq<MidiSettings>, cc_id: u8, i: int)
    requires
        is_first_binding(midi, cc_id, i),
    ensures
        binding_for(midi, cc_id) == Some(midi[i]),
{
    let j = choose|j: int| is_first_binding(midi, cc_id, j);
    lemma_first_binding_unique(midi, cc_id, i, j);
}

/// In a validated table each binding is the one its own control resolves
/// to.
pub proof fn lemma_validated_binding(settings: Settings, i: int)
    requires
        settings.wf(),
        0 <= i < settings.midi@.len(),
    ensures
        binding_for(settings.midi@, settings.midi@[i].cc_id) == Some(settings.midi@[i]),
{
    let midi = settings.midi@;
    assert forall|j: int| 0 <= j < i implies midi[j].cc_id != midi[i].cc_id by {
        assert(settings.cc_ids()[j] == midi[j].cc_id);
        assert(settings.cc_ids()[i] == midi[i].cc_id);
    }
    lemma_binding_for_first(midi, midi[i].cc_id, i);
}

/// Decodes a MIDI value into the unit interval: `raw / 127`, raised to
/// 0.00001 where it is smaller.
pub fn midi_to_percent(midi_value: u8) -> (r: Level)
    ensures
        r == unit_interval(midi_value),
{
    let parts = midi_value as u32 * PARTS_PER_STEP;
    if parts < MIN_LEVEL_PARTS {
        return Level { parts: MIN_LEVEL_PARTS };
    }
    Level { parts }
}

/// Decodes a MIDI value into a filter frequency in hertz: the square of the
/// value, and 1 for 0.
pub fn midi_to_freq(midi_value: u8) -> (r: u32)
    ensures
        r == frequency(midi_value),
{
    let value = midi_value as u32;
    if value < 1 {
        return 1;
    }
    assert(value * value <= 255 * 255) by (nonlinear_arith)
        requires
            value <= 255,
    ;
    value * value
}

/// Decoding a MIDI value into the unit interval keeps its order.
pub proof fn lemma_percent_monotonic(a: u8, b: u8)
    requires
        a <= b,
    ensures
        unit_interval(a).parts <= unit_interval(b).parts,
{
}

/// Decoding a MIDI value into a frequency is strictly increasing from 1 on.
pub proof fn lemma_freq_strictly_increasing(a: u8, b: u8)
    requires
        1 <= a < b,
    ensures
        frequency(a) < frequency(b),
{
    assert(a * a < b * b) by (nonlinear_arith)
        requires
            1 <= a < b,
    ;
    assert(b * b <= 255 * 255) by (nonlinear_arith)
        requires
            b <= 255,
    ;
}

/// The message that the control change `event` stands for: the first
/// binding for its control selects the channel and the parameter, and the
/// parameter's codec decodes the value.
pub fn parse_control_event(event: ControlEvent, settings: &Settings) -> (r: Result<
    ControlMessage,
    Error,
>)
    ensures
        r == translation(*settings, event.control, event.value),
        r is Err <==> !is_bound(settings.midi@, event.control),
{
    let found = settings.channel_and_param_from_midi_event(event.control);
    let (audio_channel, control_type) = match found {
        Some(pair) => pair,
        None => {
            proof {
                if exists|i: int| is_first_binding(settings.midi@, event.control, i) {
                    let i = choose|i: int| is_first_binding(settings.midi@, event.control, i);
                    assert(settings.midi@[i].cc_id == event.control);
                }
            }
            return Err(Error::MissingControlType);
        },
    };
    proof {
        let i = choose|i: int|
            is_first_binding(settings.midi@, event.control, i) && audio_channel
                == settings.midi@[i].channel && *control_type == settings.midi@[i].param;
        lemma_binding_for_first(settings.midi@, event.control, i);
    }

    match control_type {
        ControlParam::FilterFrequency => Ok(
            ControlMessage::SetChannelFilterFrequency(audio_channel, midi_to_freq(event.value)),
        ),
        ControlParam::FilterQ => Ok(
            ControlMessage::SetChannelFilterQ(audio_channel, midi_to_percent(event.value)),
        ),
        ControlParam::Rate => Ok(
            ControlMessage::SetChannelRate(audio_channel, midi_to_percent(event.value)),
        ),
        ControlParam::Volume => Ok(
            ControlMessage::SetChannelVolume(audio_channel, midi_to_percent(event.value)),
        ),
    }
}

/// Translates a control change received on zero-based MIDI channel
/// `channel`. One on another channel than the configured one is ignored;
/// one for a control without a binding fails.
pub fn translate_midi(channel: u8, event: ControlEvent, settings: &Settings) -> (r: Result<
    Option<ControlMessage>,
    Error,
>)
    ensures
        r == translated_input(*settings, channel, event),
        settings.spec_midi_channel() != Some(channel) ==> r == Ok::<Option<ControlMessage>, Error>(
            None,
        ),
{
    match settings.midi_channel() {
        Some(configured) => {
            if configured != channel {
                return Ok(None);
            }
        },
        None => {
            return Ok(None);
        },
    }
    match parse_control_event(event, settings) {
        Ok(msg) => Ok(Some(msg)),
        Err(e) => Err(e),
    }
}

/// The status byte that opens a system-exclusive message.
pub const SYSEX: u8 = 0xF0;

/// The zero-based channel and the event of the control change that the
/// raw MIDI bytes `data` hold, if they hold one.
pub open spec fn decoded_control_change(data: Seq<u8>) -> Option<(u8, ControlEvent)> {
    if data.len() >= 3 && CONTROL_CHANGE <= data[0] < CONTROL_CHANGE + 16 {
        Some(((data[0] - CONTROL_CHANGE) as u8, ControlEvent { control: data[1], value: data[2] }))
    } else {
        None
    }
}

/// Relies on `midi_control::MidiMessage::from(&[u8])`: three or more bytes
/// whose status byte is 0xB0 to 0xBF decode into a control change on the
/// channel of the status byte's low four bits, with the next two bytes as
/// control and value; any other bytes decode into another message. A
/// system-exclusive message is left out: its decoding may panic.
#[verifier::external_body]
fn decode_control_change(data: &[u8]) -> (r: Option<(u8, ControlEvent)>)
    requires
        !(data@.len() >= 3 && data@[0] == SYSEX),
    ensures
        r == decoded_control_change(data@),
{
    match midi_control::MidiMessage::from(data) {
        midi_control::MidiMessage::ControlChange(channel, event) => Some(
            (channel as u8, ControlEvent { control: event.control, value: event.value }),
        ),
        _ => None,
    }
}

/// Relies on `midi_control::control_change` and on
/// `From<MidiMessage> for Vec<u8>`: the control change encodes as its
/// status byte 0xB0 with the channel in the low four bits, then control and
/// value.
#[verifier::external_body]
fn encode_control_change(channel: u8, control: u8, value: u8) -> (r: Vec<u8>)
    requires
        channel < 16,
    ensures
        r@ == control_change_bytes(channel, control, value),
{
    midi_control::control_change(midi_control::Channel::from(channel), control, value).into()
}

/// Translates the raw bytes of one received MIDI message: a control change
/// as `translate_midi` does; any other message is ignored.
pub fn handle_midi_input(data: &[u8], settings: &Settings) -> (r: Result<Option<ControlMessage>, Error>)
    ensures
        r == match decoded_control_change(data@) {
            Some((channel, event)) => translated_input(*settings, channel, event),
            None => Ok(None),
        },
{
    if data.len() >= 3 && data[0] == SYSEX {
        return Ok(None);
    }
    match decode_control_change(data) {
        Some((channel, event)) => translate_midi(channel, event, settings),
        None => Ok(None),
    }
}

/// Whether a port whose name reads `name`, `None` where it could not be
/// read, is the configured device's.
pub open spec fn port_matches(name: Option<String>, device: Seq<char>) -> bool {
    match name {
        Some(n) => occurs_in(n@, device),
        None => false,
    }
}

/// The first of the ports named `names` whose name holds `device`; a port
/// whose name could not be read is passed over.
pub fn find_port_index(names: &Vec<Option<String>>, device: &str) -> (r: Option<usize>)
    ensures
        r matches Some(i) ==> {
            &&& i < names@.len()
            &&& port_matches(names@[i as int], device@)
            &&& forall|j: int| 0 <= j < i ==> !port_matches(#[trigger] names@[j], device@)
        },
        r is None ==> forall|j: int| 0 <= j < names@.len() ==> !port_matches(#[trigger] names@[j], device@),
{
    let mut i: usize = 0;
    while i < names.len()
        invariant
            i <= names@.len(),
            forall|j: int| 0 <= j < i ==> !port_matches(#[trigger] names@[j], device@),
        decreases names@.len() - i,
    {
        match &names[i] {
            Some(name) => {
                if str_contains(name.as_str(), device) {
                    return Some(i);
                }
            },
            None => {},
        }
        i += 1;
    }
    None
}

/// What brings one binding to its starting value: the control change to
/// echo to the controller, and the message for the mixer.
#[derive(Clone, Debug)]
pub struct InitStep {
    pub echo: Vec<u8>,
    pub message: ControlMessage,
}

/// For each binding, in configuration order, the control change that
/// echoes its initial value to the controller on the configured channel,
/// and the message that the same control change translates to. Fails when
/// the configured MIDI channel is not one of the sixteen.
pub fn init_values(settings: &Settings) -> (r: Result<Vec<InitStep>, Error>)
    ensures
        settings.spec_midi_channel() is None ==> r == Err::<Vec<InitStep>, Error>(
            Error::InvalidMidiChannel,
        ),
        settings.spec_midi_channel() matches Some(channel) ==> (r matches Ok(steps) && {
            &&& steps@.len() == settings.midi@.len()
            &&& forall|i: int|
                0 <= i < steps@.len() ==> {
                    let binding = #[trigger] settings.midi@[i];
                    &&& steps@[i].echo@ == control_change_bytes(
                        channel,
                        binding.cc_id,
                        binding.initial_value,
                    )
                    &&& translation(*settings, binding.cc_id, binding.initial_value) == Ok::<
                        ControlMessage,
                        Error,
                    >(steps@[i].message)
                }
        }),
        settings.wf() ==> (r matches Ok(steps) ==> forall|i: int|
            0 <= i < steps@.len() ==> {
                let binding = #[trigger] settings.midi@[i];
                steps@[i].message == message_for(
                    binding.param,
                    binding.channel as usize,
                    binding.initial_value,
                )
            }),
{
    let channel = match settings.midi_channel() {
        Some(channel) => channel,
        None => {
            return Err(Error::InvalidMidiChannel);
        },
    };
    let values = settings.midi_initial_values();
    let mut steps: Vec<InitStep> = Vec::new();
    let mut i: usize = 0;
    while i < values.len()
        invariant
            settings.spec_midi_channel() == Some(channel),
            channel < 16,
            i <= values@.len(),
            values@.len() == settings.midi@.len(),
            forall|k: int|
                0 <= k < values@.len() ==> values@[k] == (
                    settings.midi@[k].cc_id,
                    settings.midi@[k].initial_value,
                ),
            steps@.len() == i,
            forall|k: int|
                0 <= k < i ==> {
                    let binding = #[trigger] settings.midi@[k];
                    &&& steps@[k].echo@ == control_change_bytes(
                        channel,
                        binding.cc_id,
                        binding.initial_value,
                    )
                    &&& translation(*settings, binding.cc_id, binding.initial_value) == Ok::<
                        ControlMessage,
                        Error,
                    >(steps@[k].message)
                },
        decreases values@.len() - i,
    {
        let (control, value) = values[i];
        let echo = encode_control_change(channel, control, value);
        let event = ControlEvent { control, value };
        assert(settings.midi@[i as int].cc_id == control);
        let message = match parse_control_event(event, settings) {
            Ok(message) => message,
            Err(e) => {
                return Err(e);
            },
        };
        steps.push(InitStep { echo, message });
        i += 1;
    }
    proof {
        if settings.wf() {
            assert forall|k: int| 0 <= k < steps@.len() implies {
                let binding = #[trigger] settings.midi@[k];
                steps@[k].message == message_for(
                    binding.param,
                    binding.channel as usize,
                    binding.initial_value,
                )
            } by {
                lemma_validated_binding(*settings, k);
            }
        }
    }
    Ok(steps)
}

} // verus!
