//! The configuration document and its validation into a mapping table.

use std::collections::HashSet;

use vstd::prelude::*;

use crate::MAX_CHANNEL_COUNT;

verus! {

/// The logical parameter that a MIDI control drives.
#[derive(Clone, Copy, Debug, PartialEq, Eq, Structural)]
pub enum ControlParam {
    FilterFrequency,
    FilterQ,
    Rate,
    Volume,
}

/// One audio channel of the configuration.
#[derive(Clone, Debug)]
pub struct ChannelSettings {
    /// The directory whose sample files the channel plays.
    pub sample_dir: String,
}

/// One binding of a MIDI control to a channel parameter.
#[derive(Clone, Copy, Debug, PartialEq, Eq, Structural)]
pub struct MidiSettings {
    pub param: ControlParam,
    /// The control-change number of the physical control.
    pub cc_id: u8,
    /// The index of the audio channel the control drives.
    pub channel: u8,
    /// The value the control starts at, echoed to the controller on startup.
    pub initial_value: u8,
}

/// The whole configuration document; once validated, the mapping table.
#[derive(Clone, Debug)]
pub struct Settings {
    /// The MIDI channel the controller talks on, counted from 1.
    pub midi_channel: u8,
    /// A part of the name of the MIDI port to connect to.
    pub midi_device: String,
    pub channels: Vec<ChannelSettings>,
    pub midi: Vec<MidiSettings>,
}

/// Why a configuration was refused.
#[derive(Clone, Copy, Debug, PartialEq, Eq, Structural)]
pub enum Error {
    /// Two bindings share a control-change number.
    DuplicateCcIds,
    /// More channels than `MAX_CHANNEL_COUNT` are declared.
    TooManyChannels,
}

/// Whether some value occurs twice in `ids`.
pub open spec fn has_duplicates(ids: Seq<u8>) -> bool {
    exists|i: int, j: int| 0 <= i < j < ids.len() && ids[i] == ids[j]
}

/// Whether `i` is the first binding in `midi` for control `cc_id`.
pub open spec fn is_first_binding(midi: Seq<MidiSettings>, cc_id: u8, i: int) -> bool {
    &&& 0 <= i < midi.len()
    &&& midi[i].cc_id == cc_id
    &&& forall|j: int| 0 <= j < i ==> midi[j].cc_id != cc_id
}

/// Whether some binding in `midi` is for control `cc_id`.
pub open spec fn is_bound(midi: Seq<MidiSettings>, cc_id: u8) -> bool {
    exists|i: int| 0 <= i < midi.len() && midi[i].cc_id == cc_id
}

impl Settings {
    /// The control-change numbers of the bindings, in configuration order.
    pub open spec fn cc_ids(&self) -> Seq<u8> {
        self.midi@.map_values(|m: MidiSettings| m.cc_id)
    }

    /// The invariant of a validated mapping table.
    pub open spec fn wf(&self) -> bool {
        &&& !has_duplicates(self.cc_ids())
        &&& self.channels@.len() <= MAX_CHANNEL_COUNT
    }

    /// The zero-based MIDI channel, if `midi_channel` names one of the sixteen.
    pub open spec fn spec_midi_channel(&self) -> Option<u8> {
        if 1 <= self.midi_channel <= 16 {
            Some((self.midi_channel - 1) as u8)
        } else {
            None
        }
    }

    /// The sample directory of each channel, in configuration order.
    pub fn sample_dirs(&self) -> (r: Vec<&str>)
        ensures
            r@.len() == self.channels@.len(),
            forall|i: int| 0 <= i < r@.len() ==> r@[i]@ == self.channels@[i].sample_dir@,
    {
        let mut dirs: Vec<&str> = Vec::new();
        let mut i: usize = 0;
        while i < self.channels.len()
            invariant
                i <= self.channels@.len(),
                dirs@.len() == i,
                forall|k: int| 0 <= k < i ==> dirs@[k]@ == self.channels@[k].sample_dir@,
            decreases self.channels@.len() - i,
        {
            dirs.push(self.channels[i].sample_dir.as_str());
            i += 1;
        }
        dirs
    }

    /// The zero-based MIDI channel that `midi_channel` names, or `None` when
    /// it is outside 1 to 16.
    pub fn midi_channel(&self) -> (r: Option<u8>)
        ensures
            r == self.spec_midi_channel(),
    {
        if 1 <= self.midi_channel && self.midi_channel <= 16 {
            Some(self.midi_channel - 1)
        } else {
            None
        }
    }

    pub fn midi_device(&self) -> (r: &str)
        ensures
            r@ == self.midi_device@,
    {
        self.midi_device.as_str()
    }

    pub fn channel_count(&self) -> (r: usize)
        ensures
            r == self.channels@.len(),
    {
        self.channels.len()
    }

    /// The bindings, in configuration order.
    pub fn midi_settings(&self) -> (r: Vec<&MidiSettings>)
        ensures
            r@.len() == self.midi@.len(),
            forall|i: int| 0 <= i < r@.len() ==> *r@[i] == self.midi@[i],
    {
        let mut entries: Vec<&MidiSettings> = Vec::new();
        let mut i: usize = 0;
        while i < self.midi.len()
            invariant
                i <= self.midi@.len(),
                entries@.len() == i,
                forall|k: int| 0 <= k < i ==> *entries@[k] == self.midi@[k],
            decreases self.midi@.len() - i,
        {
            entries.push(&self.midi[i]);
            i += 1;
        }
        entries
    }

    /// The pair (control-change number, initial value) of each binding, in
    /// configuration order.
    pub fn midi_initial_values(&self) -> (r: Vec<(u8, u8)>)
        ensures
            r@.len() == self.midi@.len(),
            forall|i: int|
                0 <= i < r@.len() ==> r@[i] == (self.midi@[i].cc_id, self.midi@[i].initial_value),
    {
        let entries = self.midi_settings();
        let mut values: Vec<(u8, u8)> = Vec::new();
        let mut i: usize = 0;
        while i < entries.len()
            invariant
                i <= entries@.len(),
                entries@.len() == self.midi@.len(),
                forall|k: int| 0 <= k < entries@.len() ==> *entries@[k] == self.midi@[k],
                values@.len() == i,
                forall|k: int|
                    0 <= k < i ==> values@[k] == (self.midi@[k].cc_id, self.midi@[k].initial_value),
            decreases entries@.len() - i,
        {
            values.push((entries[i].cc_id, entries[i].initial_value));
            i += 1;
        }
        values
    }

    /// The audio channel and the parameter of the first binding for control
    /// `cc_id`, or `None` when the control is not bound.
    pub fn channel_and_param_from_midi_event(&self, cc_id: u8) -> (r: Option<(usize, &ControlParam)>)
        ensures
            r is Some <==> is_bound(self.midi@, cc_id),
            r matches Some((channel, param)) ==> exists|i: int|
                is_first_binding(self.midi@, cc_id, i) && channel == self.midi@[i].channel
                    && *param == self.midi@[i].param,
    {
        let mut i: usize = 0;
        while i < self.midi.len()
            invariant
                i <= self.midi@.len(),
                forall|j: int| 0 <= j < i ==> self.midi@[j].cc_id != cc_id,
            decreases self.midi@.len() - i,
        {
            let setting = &self.midi[i];
            if setting.cc_id == cc_id {
                assert(is_first_binding(self.midi@, cc_id, i as int));
                return Some((setting.channel as usize, &setting.param));
            }
            i += 1;
        }
        None
    }

    /// Builds the mapping table: refuses a configuration in which two
    /// bindings share a control-change number, then one with more than
    /// `MAX_CHANNEL_COUNT` channels.
    pub fn validate(self) -> (r: Result<Self, Error>)
        ensures
            has_duplicates(self.cc_ids()) ==> r == Err::<Settings, Error>(Error::DuplicateCcIds),
            !has_duplicates(self.cc_ids()) && self.channels@.len() > MAX_CHANNEL_COUNT ==> r
                == Err::<Settings, Error>(Error::TooManyChannels),
            self.wf() ==> r == Ok::<Settings, Error>(self),
            r matches Ok(table) ==> table.wf(),
    {
        let entries = self.midi_settings();
        let mut cc_ids: Vec<u8> = Vec::new();
        let mut i: usize = 0;
        while i < entries.len()
            invariant
                i <= entries@.len(),
                entries@.len() == self.midi@.len(),
                forall|k: int| 0 <= k < entries@.len() ==> *entries@[k] == self.midi@[k],
                cc_ids@ == self.cc_ids().take(i as int),
            decreases entries@.len() - i,
        {
            cc_ids.push(entries[i].cc_id);
            i += 1;
            assert(cc_ids@ =~= self.cc_ids().take(i as int));
        }
        assert(cc_ids@ =~= self.cc_ids());

        if has_dups(&cc_ids) {
            return Err(Error::DuplicateCcIds);
        }

        if self.channel_count() > MAX_CHANNEL_COUNT {
            return Err(Error::TooManyChannels);
        }

        Ok(self)
    }
}

/// Whether some value occurs twice in `ids`.
pub fn has_dups(ids: &Vec<u8>) -> (r: bool)
    ensures
        r == has_duplicates(ids@),
{
    broadcast use vstd::std_specs::hash::group_hash_axioms;

    let mut uniq: HashSet<u8> = HashSet::new();
    let mut i: usize = 0;
    while i < ids.len()
        invariant
            i <= ids@.len(),
            forall|x: u8| uniq@.contains(x) <==> exists|k: int| 0 <= k < i && ids@[k] == x,
            forall|a: int, b: int| 0 <= a < b < i ==> #[trigger] ids@[a] != #[trigger] ids@[b],
        decreases ids@.len() - i,
    {
        let id = ids[i];
        let ghost before = uniq@;
        if !uniq.insert(id) {
            let ghost k = choose|k: int| 0 <= k < i && ids@[k] == id;
            assert(0 <= k < i && ids@[k] == ids@[i as int]);
            return true;
        }
        assert forall|a: int| 0 <= a < i implies #[trigger] ids@[a] != id by {
            if ids@[a] == id {
                assert(before.contains(id));
            }
        }
        assert forall|x: u8| uniq@.contains(x) implies exists|k: int| 0 <= k < i + 1 && ids@[k] == x by {
            if x != id {
                assert(before.contains(x));
            } else {
                assert(ids@[i as int] == x);
            }
        }
        i += 1;
    }
    false
}

} // verus!
