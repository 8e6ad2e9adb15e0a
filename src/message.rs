//! Control messages, and their dispatch onto the mixer's parameters.

use vstd::prelude::*;

verus! {

/// The denominator of a `Level`: a level of `parts` stands for
/// `parts / LEVEL_SCALE`.
pub const LEVEL_SCALE: u32 = 12_700_000;

/// A value of the unit interval, held exactly as `parts / LEVEL_SCALE`.
#[derive(Clone, Copy, Debug, PartialEq, Eq, Structural)]
pub struct Level {
    pub parts: u32,
}

/// The index of an audio channel.
pub type AudioChannel = usize;

/// One resolved intent, addressed to the mixer or to one of its channels.
#[derive(Clone, Copy, Debug, PartialEq, Eq, Structural)]
pub enum ControlMessage {
    MuteAll,
    /// A filter cutoff in hertz.
    SetChannelFilterFrequency(AudioChannel, u32),
    SetChannelFilterQ(AudioChannel, Level),
    SetChannelRate(AudioChannel, Level),
    /// The index of a sample file in the channel's directory.
    SetChannelSampleFile(AudioChannel, usize),
    SetChannelVolume(AudioChannel, Level),
}

/// Why a message could not be applied.
#[derive(Clone, Copy, Debug, PartialEq, Eq, Structural)]
pub enum Error {
    /// The message names a channel the mixer does not have.
    MissingAudioChannel,
}

/// The parameters of one audio channel.
#[derive(Clone, Copy, Debug, PartialEq, Eq, Structural)]
pub struct ChannelState {
    pub volume: Level,
    /// The filter cutoff in hertz.
    pub filter_frequency: u32,
    pub filter_q: Level,
    pub rate: Level,
}

/// The parameters of every channel, and whether the master output is muted.
#[derive(Clone, Debug)]
pub struct MixerState {
    pub channels: Vec<ChannelState>,
    pub muted: bool,
}

/// The volume a channel starts at: silent.
pub const INITIAL_VOLUME: u32 = 0;

/// The filter cutoff a channel starts at, in hertz.
pub const INITIAL_FILTER_FREQUENCY: u32 = 1800;

/// The filter Q a channel starts at, 0.667 of `LEVEL_SCALE`.
pub const INITIAL_FILTER_Q: u32 = 8_470_900;

/// The playback rate a channel starts at: the sample's own.
pub const INITIAL_RATE: u32 = LEVEL_SCALE;

impl ControlMessage {
    /// The channel a message for a single channel's parameter addresses.
    pub open spec fn parameter_channel(self) -> Option<usize> {
        match self {
            ControlMessage::SetChannelFilterFrequency(c, _) => Some(c),
            ControlMessage::SetChannelFilterQ(c, _) => Some(c),
            ControlMessage::SetChannelRate(c, _) => Some(c),
            ControlMessage::SetChannelVolume(c, _) => Some(c),
            _ => None,
        }
    }
}

impl ChannelState {
    /// The parameters a channel starts with.
    pub open spec fn spec_initial() -> ChannelState {
        ChannelState {
            volume: Level { parts: INITIAL_VOLUME },
            filter_frequency: INITIAL_FILTER_FREQUENCY,
            filter_q: Level { parts: INITIAL_FILTER_Q },
            rate: Level { parts: INITIAL_RATE },
        }
    }

    /// The parameters after `msg`, a message for one of this channel's
    /// parameters, is applied.
    pub open spec fn after(self, msg: ControlMessage) -> ChannelState {
        match msg {
            ControlMessage::SetChannelFilterFrequency(_, f) => ChannelState {
                filter_frequency: f,
                ..self
            },
            ControlMessage::SetChannelFilterQ(_, q) => ChannelState { filter_q: q, ..self },
            ControlMessage::SetChannelRate(_, r) => ChannelState { rate: r, ..self },
            ControlMessage::SetChannelVolume(_, v) => ChannelState { volume: v, ..self },
            _ => self,
        }
    }

    pub fn initial() -> (r: ChannelState)
        ensures
            r == ChannelState::spec_initial(),
    {
        ChannelState {
            volume: Level { parts: INITIAL_VOLUME },
            filter_frequency: INITIAL_FILTER_FREQUENCY,
            filter_q: Level { parts: INITIAL_FILTER_Q },
            rate: Level { parts: INITIAL_RATE },
        }
    }
}

impl MixerState {
    /// Whether `msg` can be applied: it is not for a parameter of a channel
    /// that does not exist.
    pub open spec fn accepts(&self, msg: ControlMessage) -> bool {
        match msg.parameter_channel() {
            Some(c) => c < self.channels@.len(),
            None => true,
        }
    }

    /// The channel parameters after `msg` is applied, where it is accepted.
    pub open spec fn channels_after(&self, msg: ControlMessage) -> Seq<ChannelState> {
        match msg.parameter_channel() {
            Some(c) => self.channels@.update(c as int, self.channels@[c as int].after(msg)),
            None => self.channels@,
        }
    }

    /// Whether the output is muted after `msg` is applied.
    pub open spec fn muted_after(&self, msg: ControlMessage) -> bool {
        match msg {
            ControlMessage::MuteAll => true,
            _ => self.muted,
        }
    }

    /// A mixer of `channel_count` channels at their initial parameters,
    /// not muted.
    pub fn new(channel_count: usize) -> (r: MixerState)
        ensures
            r.channels@.len() == channel_count,
            forall|i: int| 0 <= i < channel_count ==> r.channels@[i] == ChannelState::spec_initial(),
            !r.muted,
    {
        let mut channels: Vec<ChannelState> = Vec::new();
        let mut i: usize = 0;
        while i < channel_count
            invariant
                i <= channel_count,
                channels@.len() == i,
                forall|k: int| 0 <= k < i ==> channels@[k] == ChannelState::spec_initial(),
            decreases channel_count - i,
        {
            channels.push(ChannelState::initial());
            i += 1;
        }
        MixerState { channels, muted: false }
    }

    pub fn channel_count(&self) -> (r: usize)
        ensures
            r == self.channels@.len(),
    {
        self.channels.len()
    }

    /// The parameters of channel `channel_index`, if it exists.
    pub fn get_channel(&self, channel_index: usize) -> (r: Option<&ChannelState>)
        ensures
            channel_index < self.channels@.len() ==> r == Some(&self.channels@[channel_index as int]),
            channel_index >= self.channels@.len() ==> r is None,
    {
        if channel_index < self.channels.len() {
            Some(&self.channels[channel_index])
        } else {
            None
        }
    }
}

/// Applies `msg` to the mixer's parameters. A message for a parameter of a
/// channel that does not exist fails and changes nothing. A sample-file
/// message changes no parameter: the file is resolved and loaded by the
/// caller.
pub fn process_message(msg: ControlMessage, mixer: &mut MixerState) -> (r: Result<(), Error>)
    ensures
        old(mixer).accepts(msg) ==> {
            &&& r == Ok::<(), Error>(())
            &&& final(mixer).channels@ == old(mixer).channels_after(msg)
            &&& final(mixer).muted == old(mixer).muted_after(msg)
        },
        !old(mixer).accepts(msg) ==> {
            &&& r == Err::<(), Error>(Error::MissingAudioChannel)
            &&& final(mixer).channels@ == old(mixer).channels@
            &&& final(mixer).muted == old(mixer).muted
        },
{
    match msg {
        ControlMessage::MuteAll => {
            mixer.muted = true;
        },
        ControlMessage::SetChannelFilterFrequency(channel_index, freq) => {
            if channel_index >= mixer.channels.len() {
                return Err(Error::MissingAudioChannel);
            }
            let mut channel = mixer.channels[channel_index];
            channel.filter_frequency = freq;
            mixer.channels.set(channel_index, channel);
        },
        ControlMessage::SetChannelFilterQ(channel_index, q) => {
            if channel_index >= mixer.channels.len() {
                return Err(Error::MissingAudioChannel);
            }
            let mut channel = mixer.channels[channel_index];
            channel.filter_q = q;
            mixer.channels.set(channel_index, channel);
        },
        ControlMessage::SetChannelRate(channel_index, rate) => {
            if channel_index >= mixer.channels.len() {
                return Err(Error::MissingAudioChannel);
            }
            let mut channel = mixer.channels[channel_index];
            channel.rate = rate;
            mixer.channels.set(channel_index, channel);
        },
        ControlMessage::SetChannelSampleFile(_, _) => {},
        ControlMessage::SetChannelVolume(channel_index, level) => {
            if channel_index >= mixer.channels.len() {
                return Err(Error::MissingAudioChannel);
            }
            let mut channel = mixer.channels[channel_index];
            channel.volume = level;
            mixer.channels.set(channel_index, channel);
        },
    }
    Ok(())
}

} // verus!
