//! The grid controller's selection state, its key handling and its display.

use vstd::prelude::*;

use crate::message::ControlMessage;
use crate::settings::Settings;
use crate::MAX_CHANNEL_COUNT;

verus! {

/// The width of the block of sample-select keys.
pub const SAMPLE_GRID_X: usize = 8;

/// The height of the block of sample-select keys.
pub const SAMPLE_GRID_Y: usize = 6;

/// The number of keys in the sample-select block.
pub const SAMPLE_GRID: usize = SAMPLE_GRID_X * SAMPLE_GRID_Y;

/// The row of channel-select keys.
pub const CHANNEL_ROW: usize = 7;

/// The number of keys in a row of one half of the grid.
pub const GRID_ROW_WIDTH: usize = 8;

/// The number of keys in one half of the grid.
pub const GRID_HALF_SIZE: usize = 64;

/// Where the channel-select row starts in the left half's brightness mask.
pub const CHANNEL_STRIP_OFFSET: usize = CHANNEL_ROW * GRID_ROW_WIDTH;

/// How many samples a channel offers to select, unless told otherwise.
pub const DEFAULT_SAMPLE_CAPACITY: usize = 20;

/// The brightness of a selected key.
pub const BRIGHTNESS_HIGH: u8 = 10;

/// The brightness of a key that can be selected.
pub const BRIGHTNESS_LOW: u8 = 5;

/// A request to the thread that drives the grid.
#[derive(Debug)]
pub enum GridMessage {
    /// Switch off every key.
    Clear,
}

/// The brightness of each key of the two halves of the grid, row by row.
#[derive(Clone, Debug)]
pub struct DisplayFrame {
    pub left: Vec<u8>,
    pub right: Vec<u8>,
}

/// Which channel is selected on the grid, and which sample of each channel.
#[derive(Clone, Debug)]
pub struct Grid {
    selected_sample_indexes: Vec<usize>,
    sample_capacities: Vec<usize>,
    selected_channel_index: usize,
}

impl Grid {
    /// The selected channel.
    pub closed spec fn selected_channel(&self) -> int {
        self.selected_channel_index as int
    }

    /// The selected sample of each channel.
    pub closed spec fn selected_samples(&self) -> Seq<usize> {
        self.selected_sample_indexes@
    }

    /// How many samples each channel offers to select.
    pub closed spec fn capacities(&self) -> Seq<usize> {
        self.sample_capacities@
    }

    pub open spec fn channel_total(&self) -> int {
        self.selected_samples().len() as int
    }

    pub open spec fn wf(&self) -> bool {
        &&& self.capacities().len() == self.channel_total()
        &&& self.channel_total() <= GRID_ROW_WIDTH
        &&& self.channel_total() > 0 ==> 0 <= self.selected_channel() < self.channel_total()
        &&& self.channel_total() == 0 ==> self.selected_channel() == 0
    }

    /// The sample that key (x, y) of the sample-select block stands for.
    pub open spec fn sample_at(x: int, y: int) -> int {
        x + SAMPLE_GRID_X * y
    }

    /// Whether sample `index` can be selected on the selected channel.
    pub open spec fn offers(&self, index: int) -> bool {
        self.channel_total() > 0 && index < self.capacities()[self.selected_channel()]
    }

    /// The brightness of cell `i` of the sample-select block.
    pub open spec fn sample_cell(&self, i: int) -> u8 {
        if self.offers(i) {
            if i == self.selected_samples()[self.selected_channel()] {
                BRIGHTNESS_HIGH
            } else {
                BRIGHTNESS_LOW
            }
        } else {
            0
        }
    }

    /// The brightness of cell `j` of the channel-select row.
    pub open spec fn channel_cell(&self, j: int) -> u8 {
        if j < self.channel_total() {
            if j == self.selected_channel() {
                BRIGHTNESS_HIGH
            } else {
                BRIGHTNESS_LOW
            }
        } else {
            0
        }
    }

    /// The brightness of cell `i` of the left half.
    pub open spec fn left_cell(&self, i: int) -> u8 {
        if i < SAMPLE_GRID {
            self.sample_cell(i)
        } else if i >= CHANNEL_STRIP_OFFSET {
            self.channel_cell(i - CHANNEL_STRIP_OFFSET)
        } else {
            0
        }
    }

    /// The selection state of a grid for the channels of `settings`: the
    /// first channel and the first sample of each are selected.
    pub fn new(settings: &Settings) -> (r: Grid)
        requires
            settings.channels@.len() <= MAX_CHANNEL_COUNT,
        ensures
            r.wf(),
            r.channel_total() == settings.channels@.len(),
            r.selected_channel() == 0,
            forall|i: int| 0 <= i < r.channel_total() ==> r.selected_samples()[i] == 0,
            forall|i: int| 0 <= i < r.channel_total() ==> r.capacities()[i] == DEFAULT_SAMPLE_CAPACITY,
    {
        let count = settings.channel_count();
        let mut capacities: Vec<usize> = Vec::new();
        let mut i: usize = 0;
        while i < count
            invariant
                i <= count,
                capacities@.len() == i,
                forall|k: int| 0 <= k < i ==> capacities@[k] == DEFAULT_SAMPLE_CAPACITY,
            decreases count - i,
        {
            capacities.push(DEFAULT_SAMPLE_CAPACITY);
            i += 1;
        }
        Grid::with_sample_capacities(capacities)
    }

    /// The selection state of a grid for channels that offer
    /// `sample_capacities` samples each: the first channel and the first
    /// sample of each are selected.
    pub fn with_sample_capacities(sample_capacities: Vec<usize>) -> (r: Grid)
        requires
            sample_capacities@.len() <= GRID_ROW_WIDTH,
        ensures
            r.wf(),
            r.capacities() == sample_capacities@,
            r.selected_channel() == 0,
            r.selected_samples().len() == sample_capacities@.len(),
            forall|i: int| 0 <= i < r.channel_total() ==> r.selected_samples()[i] == 0,
    {
        let mut selected_sample_indexes: Vec<usize> = Vec::new();
        let mut i: usize = 0;
        while i < sample_capacities.len()
            invariant
                i <= sample_capacities@.len(),
                selected_sample_indexes@.len() == i,
                forall|k: int| 0 <= k < i ==> selected_sample_indexes@[k] == 0,
            decreases sample_capacities@.len() - i,
        {
            selected_sample_indexes.push(0);
            i += 1;
        }
        Grid { selected_sample_indexes, sample_capacities, selected_channel_index: 0 }
    }

    pub fn channel_count(&self) -> (r: usize)
        ensures
            r == self.channel_total(),
    {
        self.selected_sample_indexes.len()
    }

    pub fn selected_channel_index(&self) -> (r: usize)
        ensures
            r == self.selected_channel(),
    {
        self.selected_channel_index
    }

    /// The selected sample of the selected channel.
    pub fn selected_sample(&self) -> (r: &usize)
        requires
            self.wf(),
            self.channel_total() > 0,
        ensures
            *r == self.selected_samples()[self.selected_channel()],
    {
        &self.selected_sample_indexes[self.selected_channel_index]
    }

    /// Records `selected_sample` as the selected sample of the selected
    /// channel.
    pub fn set_selected_sample(&mut self, selected_sample: usize)
        requires
            old(self).wf(),
            old(self).channel_total() > 0,
        ensures
            final(self).wf(),
            final(self).selected_samples() == old(self).selected_samples().update(
                old(self).selected_channel(),
                selected_sample,
            ),
            final(self).selected_channel() == old(self).selected_channel(),
            final(self).capacities() == old(self).capacities(),
    {
        self.selected_sample_indexes.set(self.selected_channel_index, selected_sample);
    }

    /// Handles a key press at `coords`. A key of the channel-select row
    /// that stands for a channel selects it. A key of the sample-select
    /// block that stands for a sample the selected channel offers selects
    /// that sample and asks for it to be played. Any other key is ignored.
    pub fn match_action(&mut self, coords: (usize, usize)) -> (r: Option<ControlMessage>)
        requires
            old(self).wf(),
        ensures
            final(self).wf(),
            final(self).capacities() == old(self).capacities(),
            ({
                let (x, y) = coords;
                let index = Grid::sample_at(x as int, y as int);
                if y == CHANNEL_ROW && x < old(self).channel_total() {
                    &&& r is None
                    &&& final(self).selected_channel() == x
                    &&& final(self).selected_samples() == old(self).selected_samples()
                } else if x < SAMPLE_GRID_X && y < SAMPLE_GRID_Y && old(self).offers(index) {
                    &&& r == Some(
                        ControlMessage::SetChannelSampleFile(
                            old(self).selected_channel() as usize,
                            index as usize,
                        ),
                    )
                    &&& final(self).selected_channel() == old(self).selected_channel()
                    &&& final(self).selected_samples() == old(self).selected_samples().update(
                        old(self).selected_channel(),
                        index as usize,
                    )
                } else {
                    &&& r is None
                    &&& final(self).selected_channel() == old(self).selected_channel()
                    &&& final(self).selected_samples() == old(self).selected_samples()
                }
            }),
    {
        let (x, y) = coords;
        if y == CHANNEL_ROW && x < self.selected_sample_indexes.len() {
            self.selected_channel_index = x;
            None
        } else if x < SAMPLE_GRID_X && y < SAMPLE_GRID_Y {
            let sample_file_index = x + SAMPLE_GRID_X * y;
            if self.selected_sample_indexes.len() == 0 {
                return None;
            }
            let sample_count = self.sample_capacities[self.selected_channel_index];
            if sample_file_index >= sample_count {
                return None;
            }
            self.set_selected_sample(sample_file_index);

            Some(ControlMessage::SetChannelSampleFile(self.selected_channel_index, sample_file_index))
        } else {
            None
        }
    }

    /// The brightness of each key of the channel-select row.
    pub fn map_channel_strip(&self) -> (r: Vec<u8>)
        requires
            self.wf(),
        ensures
            r@.len() == GRID_ROW_WIDTH,
            forall|j: int| 0 <= j < GRID_ROW_WIDTH ==> r@[j] == self.channel_cell(j),
    {
        let mut grid_mask: Vec<u8> = Vec::new();
        let mut index: usize = 0;
        while index < GRID_ROW_WIDTH
            invariant
                index <= GRID_ROW_WIDTH,
                grid_mask@.len() == index,
                forall|j: int| 0 <= j < index ==> grid_mask@[j] == self.channel_cell(j),
            decreases GRID_ROW_WIDTH - index,
        {
            if index >= self.selected_sample_indexes.len() {
                grid_mask.push(0);
            } else if self.selected_channel_index == index {
                grid_mask.push(BRIGHTNESS_HIGH);
            } else {
                grid_mask.push(BRIGHTNESS_LOW);
            }
            index += 1;
        }
        grid_mask
    }

    /// The brightness of each key of the sample-select block.
    pub fn map_sample_selector(&self) -> (r: Vec<u8>)
        requires
            self.wf(),
        ensures
            r@.len() == SAMPLE_GRID,
            forall|i: int| 0 <= i < SAMPLE_GRID ==> r@[i] == self.sample_cell(i),
    {
        let mut grid_mask: Vec<u8> = Vec::new();
        let mut sample_count: usize = 0;
        let mut selected_sample: usize = 0;
        if self.selected_sample_indexes.len() > 0 {
            sample_count = self.sample_capacities[self.selected_channel_index];
            selected_sample = *self.selected_sample();
        }
        let mut index: usize = 0;
        while index < SAMPLE_GRID
            invariant
                self.wf(),
                index <= SAMPLE_GRID,
                grid_mask@.len() == index,
                self.channel_total() > 0 ==> sample_count == self.capacities()[self.selected_channel()]
                    && selected_sample == self.selected_samples()[self.selected_channel()],
                self.channel_total() == 0 ==> sample_count == 0,
                forall|i: int| 0 <= i < index ==> grid_mask@[i] == self.sample_cell(i),
            decreases SAMPLE_GRID - index,
        {
            if index >= sample_count {
                grid_mask.push(0);
            } else if index == selected_sample {
                grid_mask.push(BRIGHTNESS_HIGH);
            } else {
                grid_mask.push(BRIGHTNESS_LOW);
            }
            index += 1;
        }
        grid_mask
    }

    /// The frame to display: the sample-select block and the
    /// channel-select row on the left half, the right half dark.
    pub fn redraw(&self) -> (r: DisplayFrame)
        requires
            self.wf(),
        ensures
            r.left@.len() == GRID_HALF_SIZE,
            r.right@.len() == GRID_HALF_SIZE,
            forall|i: int| 0 <= i < GRID_HALF_SIZE ==> r.left@[i] == self.left_cell(i),
            forall|i: int| 0 <= i < GRID_HALF_SIZE ==> r.right@[i] == 0,
    {
        let samples = self.map_sample_selector();
        let strip = self.map_channel_strip();
        let mut left: Vec<u8> = Vec::new();
        let mut right: Vec<u8> = Vec::new();
        let mut index: usize = 0;
        while index < GRID_HALF_SIZE
            invariant
                index <= GRID_HALF_SIZE,
                left@.len() == index,
                right@.len() == index,
                samples@.len() == SAMPLE_GRID,
                strip@.len() == GRID_ROW_WIDTH,
                forall|i: int| 0 <= i < SAMPLE_GRID ==> samples@[i] == self.sample_cell(i),
                forall|j: int| 0 <= j < GRID_ROW_WIDTH ==> strip@[j] == self.channel_cell(j),
                forall|i: int| 0 <= i < index ==> left@[i] == self.left_cell(i),
                forall|i: int| 0 <= i < index ==> right@[i] == 0,
            decreases GRID_HALF_SIZE - index,
        {
            if index < SAMPLE_GRID {
                left.push(samples[index]);
            } else if index >= CHANNEL_STRIP_OFFSET {
                left.push(strip[index - CHANNEL_STRIP_OFFSET]);
            } else {
                left.push(0);
            }
            right.push(0);
            index += 1;
        }
        DisplayFrame { left, right }
    }
}

} // verus!
