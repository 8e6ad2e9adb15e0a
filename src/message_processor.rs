//! A fixed control numbering, applied straight to the mixer: control
//! `10 * (c + 1) + k` drives parameter `k` of channel `c`, where `k` is 0
//! for volume, 1 for filter frequency and 2 for filter Q.

use vstd::prelude::*;

use crate::message::{process_message, ControlMessage, Error as MixerError, MixerState};
use crate::midi::{midi_to_freq, midi_to_percent, unit_interval, frequency, ControlEvent};

verus! {

/// The zero-based MIDI channel that controls are read from.
pub const MIDI_CHANNEL: u8 = 0;

/// The parameter a control of the fixed numbering drives.
#[derive(Clone, Copy, Debug, PartialEq, Eq, Structural)]
pub enum ControlType {
    Volume,
    FilterFrequency,
    FilterQ,
}

/// Why a control change was not applied.
#[derive(Clone, Copy, Debug, PartialEq, Eq, Structural)]
pub enum Error {
    MissingAudioChannel,
    MissingControlType,
}

/// Applies control changes of the fixed numbering to a mixer.
pub struct MessageProcessor;

/// The channel and the parameter that `control` stands for in the fixed
/// numbering.
pub open spec fn control_target(control: u8) -> Result<(usize, ControlType), Error> {
    let kind = control % 10;
    if kind > 2 {
        Err(Error::MissingControlType)
    } else if control < 10 {
        Err(Error::MissingAudioChannel)
    } else {
        let channel = (control / 10 - 1) as usize;
        if kind == 0 {
            Ok((channel, ControlType::Volume))
        } else if kind == 1 {
            Ok((channel, ControlType::FilterFrequency))
        } else {
            Ok((channel, ControlType::FilterQ))
        }
    }
}

/// The message that sets parameter `control_type` of `channel` from MIDI
/// value `value`.
pub open spec fn control_message(channel: usize, control_type: ControlType, value: u8) -> ControlMessage {
    match control_type {
        ControlType::Volume => ControlMessage::SetChannelVolume(channel, unit_interval(value)),
        ControlType::FilterFrequency => ControlMessage::SetChannelFilterFrequency(
            channel,
            frequency(value),
        ),
        ControlType::FilterQ => ControlMessage::SetChannelFilterQ(channel, unit_interval(value)),
    }
}

/// The channel and the parameter that `control` stands for. A control
/// below 10 stands for no channel.
pub fn parse_control(control: u8) -> (r: Result<(usize, ControlType), Error>)
    ensures
        r == control_target(control),
{
    let control_type = control % 10;
    if control_type > 2 {
        return Err(Error::MissingControlType);
    }
    if control < 10 {
        return Err(Error::MissingAudioChannel);
    }
    let channel = (control / 10 - 1) as usize;

    match control_type {
        0 => Ok((channel, ControlType::Volume)),
        1 => Ok((channel, ControlType::FilterFrequency)),
        _ => Ok((channel, ControlType::FilterQ)),
    }
}

/// The message that sets `control_type` of `channel` to the decoded
/// `midi_value`.
pub fn set_control_value(channel: usize, control_type: ControlType, midi_value: u8) -> (r:
    ControlMessage)
    ensures
        r == control_message(channel, control_type, midi_value),
{
    match control_type {
        ControlType::Volume => ControlMessage::SetChannelVolume(channel, midi_to_percent(midi_value)),
        ControlType::FilterFrequency => ControlMessage::SetChannelFilterFrequency(
            channel,
            midi_to_freq(midi_value),
        ),
        ControlType::FilterQ => ControlMessage::SetChannelFilterQ(
            channel,
            midi_to_percent(midi_value),
        ),
    }
}

impl MessageProcessor {
    /// Applies a control change received on zero-based MIDI channel
    /// `midi_channel` to the mixer. A change on another channel than
    /// `MIDI_CHANNEL` is ignored: it succeeds and changes nothing. One for a
    /// control outside the numbering or for a channel the mixer does not
    /// have fails and changes nothing.
    pub fn process_control_change(
        midi_channel: u8,
        event: ControlEvent,
        mixer: &mut MixerState,
    ) -> (r: Result<(), Error>)
        ensures
            midi_channel != MIDI_CHANNEL ==> {
                &&& r == Ok::<(), Error>(())
                &&& final(mixer).channels@ == old(mixer).channels@
                &&& final(mixer).muted == old(mixer).muted
            },
            midi_channel == MIDI_CHANNEL ==> match control_target(event.control) {
                Err(e) => r == Err::<(), Error>(e),
                Ok((channel, control_type)) => if channel < old(mixer).channels@.len() {
                    let msg = control_message(channel, control_type, event.value);
                    &&& r == Ok::<(), Error>(())
                    &&& final(mixer).channels@ == old(mixer).channels_after(msg)
                    &&& final(mixer).muted == old(mixer).muted
                } else {
                    r == Err::<(), Error>(Error::MissingAudioChannel)
                },
            },
            r is Err ==> final(mixer).channels@ == old(mixer).channels@ && final(mixer).muted == old(
                mixer,
            ).muted,
    {
        if midi_channel != MIDI_CHANNEL {
            return Ok(());
        }

        let (channel_index, control_type) = parse_control(event.control)?;
        let msg = set_control_value(channel_index, control_type, event.value);
        match process_message(msg, mixer) {
            Ok(()) => Ok(()),
            Err(MixerError::MissingAudioChannel) => Err(Error::MissingAudioChannel),
        }
    }
}

} // verus!
