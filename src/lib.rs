//! Control-surface mapping and dispatch for a multi-channel ambient sample
//! player: a validated mapping from MIDI controls to channel parameters,
//! value codecs, MIDI and grid event translation, the grid's selection state
//! and display, and dispatch of control messages onto the mixer's parameters.

use vstd::prelude::*;

pub mod grid;
pub mod message;
pub mod message_processor;
pub mod midi;
pub mod sample_manager;
pub mod settings;

verus! {

/// The largest number of audio channels a configuration may declare.
pub const MAX_CHANNEL_COUNT: usize = 4;

} // verus!
