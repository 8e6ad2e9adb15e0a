use biome::grid::{
    Grid, BRIGHTNESS_HIGH, BRIGHTNESS_LOW, CHANNEL_STRIP_OFFSET, DEFAULT_SAMPLE_CAPACITY,
    GRID_HALF_SIZE,
};
use biome::message::ControlMessage;
use biome::settings::{ChannelSettings, Settings};

fn settings(channel_count: usize) -> Settings {
    Settings {
        midi_channel: 1,
        midi_device: "device".to_string(),
        channels: (0..channel_count)
            .map(|i| ChannelSettings { sample_dir: format!("dir{}", i) })
            .collect(),
        midi: vec![],
    }
}

#[test]
fn new_grid_selects_first_channel_and_sample() {
    let grid = Grid::new(&settings(3));
    assert_eq!(grid.channel_count(), 3);
    assert_eq!(grid.selected_channel_index(), 0);
    assert_eq!(*grid.selected_sample(), 0);
}

#[test]
fn channel_row_selects_channel() {
    let mut grid = Grid::new(&settings(4));
    assert_eq!(grid.match_action((3, 7)), None);
    assert_eq!(grid.selected_channel_index(), 3);
    let frame = grid.redraw();
    assert_eq!(frame.left[CHANNEL_STRIP_OFFSET + 3], BRIGHTNESS_HIGH);
    assert_eq!(frame.left[CHANNEL_STRIP_OFFSET], BRIGHTNESS_LOW);
    assert_eq!(frame.left[CHANNEL_STRIP_OFFSET + 1], BRIGHTNESS_LOW);
    assert_eq!(frame.left[CHANNEL_STRIP_OFFSET + 2], BRIGHTNESS_LOW);
    assert_eq!(frame.left[CHANNEL_STRIP_OFFSET + 4], 0);
}

#[test]
fn channel_row_beyond_channels_is_ignored() {
    let mut grid = Grid::new(&settings(2));
    assert_eq!(grid.match_action((2, 7)), None);
    assert_eq!(grid.selected_channel_index(), 0);
}

#[test]
fn sample_block_selects_sample() {
    let mut grid = Grid::new(&settings(2));
    grid.match_action((1, 7));
    assert_eq!(grid.match_action((2, 1)), Some(ControlMessage::SetChannelSampleFile(1, 10)));
    assert_eq!(*grid.selected_sample(), 10);
    grid.match_action((0, 7));
    assert_eq!(*grid.selected_sample(), 0);
}

#[test]
fn sample_beyond_capacity_is_ignored() {
    let mut grid = Grid::new(&settings(1));
    assert_eq!(grid.match_action((4, 2)), None);
    assert_eq!(*grid.selected_sample(), 0);
    assert_eq!(
        grid.match_action((3, 2)),
        Some(ControlMessage::SetChannelSampleFile(0, DEFAULT_SAMPLE_CAPACITY - 1))
    );

    let mut small = Grid::with_sample_capacities(vec![10, 11]);
    assert_eq!(small.match_action((2, 1)), None);
    small.match_action((1, 7));
    assert_eq!(small.match_action((2, 1)), Some(ControlMessage::SetChannelSampleFile(1, 10)));
}

#[test]
fn keys_outside_both_regions_are_ignored() {
    let mut grid = Grid::new(&settings(2));
    grid.match_action((1, 1));
    for coords in [(8, 0), (0, 6), (9, 7), (15, 15), (3, 6)] {
        assert_eq!(grid.match_action(coords), None);
        assert_eq!(grid.selected_channel_index(), 0);
        assert_eq!(*grid.selected_sample(), 9);
    }
}

#[test]
fn grid_without_channels_ignores_samples() {
    let mut grid = Grid::new(&settings(0));
    assert_eq!(grid.match_action((0, 0)), None);
    let frame = grid.redraw();
    assert!(frame.left.iter().all(|b| *b == 0));
}

#[test]
fn redraw_lights_samples_up_to_capacity() {
    let mut grid = Grid::new(&settings(2));
    grid.match_action((5, 0));
    let frame = grid.redraw();
    assert_eq!(frame.left.len(), GRID_HALF_SIZE);
    assert_eq!(frame.right, vec![0; GRID_HALF_SIZE]);
    for i in 0..DEFAULT_SAMPLE_CAPACITY {
        let expected = if i == 5 { BRIGHTNESS_HIGH } else { BRIGHTNESS_LOW };
        assert_eq!(frame.left[i], expected);
    }
    for i in DEFAULT_SAMPLE_CAPACITY..CHANNEL_STRIP_OFFSET {
        assert_eq!(frame.left[i], 0);
    }
    assert_eq!(frame.left[CHANNEL_STRIP_OFFSET], BRIGHTNESS_HIGH);
    assert_eq!(frame.left[CHANNEL_STRIP_OFFSET + 1], BRIGHTNESS_LOW);
    assert_eq!(grid.map_sample_selector(), frame.left[..48].to_vec());
    assert_eq!(grid.map_channel_strip(), frame.left[CHANNEL_STRIP_OFFSET..].to_vec());
}

#[test]
fn set_selected_sample_records_for_selected_channel() {
    let mut grid = Grid::new(&settings(3));
    grid.match_action((2, 7));
    grid.set_selected_sample(7);
    assert_eq!(*grid.selected_sample(), 7);
    grid.match_action((1, 7));
    assert_eq!(*grid.selected_sample(), 0);
}
