use mandelbrot::calculate::Params;
use mandelbrot::tables::{color_table, shade_table, BLUE, GREEN, RED, TABLE_SIZE};
use std::f64::consts::TAU;

fn channel(angle: f64) -> u8 {
    (angle.sin() * 128.0 + 128.0).clamp(0.0, 255.0) as u8
}

#[test]
fn tables_have_1024_entries() {
    assert_eq!(TABLE_SIZE, 1024);
    assert_eq!(color_table().len(), 1024);
    assert_eq!(shade_table().len(), 1024);
}

#[test]
fn first_entries_follow_the_formula() {
    assert_eq!(color_table()[0], [128, 244, 146, 255]);
    assert_eq!(shade_table()[0], [128, 128, 128, 255]);
    assert_eq!(color_table()[0], [channel(0.0), channel(2.0), channel(3.0), 255]);
    assert_eq!(shade_table()[0], [channel(0.0), channel(0.0), channel(0.0), 255]);
}

#[test]
fn color_table_follows_the_formula() {
    let table = color_table();
    for (i, entry) in table.iter().enumerate() {
        let hue = i as f64 / 1024.0;
        let expected = [
            channel(hue * 23.0 * TAU),
            channel(hue * 17.0 * TAU + 2.0),
            channel(hue * 17.0 * TAU + 3.0),
            255,
        ];
        assert_eq!(*entry, expected);
    }
}

#[test]
fn shade_table_follows_the_formula() {
    let table = shade_table();
    for (i, entry) in table.iter().enumerate() {
        let shade = channel(i as f64 / 1024.0 * 23.0 * TAU);
        assert_eq!(*entry, [shade, shade, shade, 255]);
    }
}

#[test]
fn shades_repeat_the_first_colour_channel() {
    let colors = color_table();
    let shades = shade_table();
    for i in 0..1024usize {
        assert_eq!(shades[i], [colors[i][0], colors[i][0], colors[i][0], 255]);
    }
}

#[test]
fn extremes_of_the_wave_are_clamped() {
    let colors = color_table();
    assert_eq!(colors[256][0], 0);
    assert_eq!(colors[768][0], 255);
    assert_eq!(colors[512][0], 128);
}

#[test]
fn every_entry_is_opaque() {
    for entry in color_table().iter() {
        assert_eq!(entry[3], 255);
    }
    for entry in shade_table().iter() {
        assert_eq!(entry[3], 255);
    }
}

#[test]
fn parameters_with_positive_fields_are_valid() {
    assert!(Params { max_iterations: 1, tile_width: 1, tile_height: 1 }.is_valid());
    assert!(Params { max_iterations: 100, tile_width: 256, tile_height: 256 }.is_valid());
}

#[test]
fn parameters_with_a_zero_field_are_not_valid() {
    assert!(!Params { max_iterations: 0, tile_width: 1, tile_height: 1 }.is_valid());
    assert!(!Params { max_iterations: 1, tile_width: 0, tile_height: 1 }.is_valid());
    assert!(!Params { max_iterations: 1, tile_width: 1, tile_height: 0 }.is_valid());
}

#[test]
fn parameters_whose_buffer_cannot_be_addressed_are_not_valid() {
    assert!(!Params { max_iterations: 1, tile_width: usize::MAX, tile_height: 2 }.is_valid());
    assert!(!Params { max_iterations: 1, tile_width: usize::MAX / 4 + 1, tile_height: 1 }.is_valid());
    assert!(!Params { max_iterations: 1, tile_width: usize::MAX / 2, tile_height: 1 }.is_valid());
    assert!(Params { max_iterations: 1, tile_width: usize::MAX / 4, tile_height: 1 }.is_valid());
}

#[test]
fn tables_are_made_of_the_three_waves() {
    let colors = color_table();
    let shades = shade_table();
    for i in 0..1024usize {
        assert_eq!(colors[i], [RED[i], GREEN[i], BLUE[i], 255]);
        assert_eq!(shades[i], [RED[i], RED[i], RED[i], 255]);
    }
}

#[test]
fn waves_follow_their_formulas() {
    for i in 0..1024usize {
        let hue = i as f64 / 1024.0;
        assert_eq!(RED[i], channel(hue * 23.0 * TAU));
        assert_eq!(GREEN[i], channel(hue * 17.0 * TAU + 2.0));
        assert_eq!(BLUE[i], channel(hue * 17.0 * TAU + 3.0));
    }
}

#[test]
fn samples_are_truncated_and_clamped() {
    // 132.77 is cut off to 132; the peak of 256 is held at 255.
    assert_eq!(color_table()[1], [146, 238, 132, 255]);
    assert_eq!(shade_table()[1], [146, 146, 146, 255]);
    assert_eq!(color_table()[768], [255, 181, 254, 255]);
    assert_eq!(shade_table()[768], [255, 255, 255, 255]);
    assert_eq!(color_table()[256], [0, 74, 1, 255]);
    assert_eq!(shade_table()[256], [0, 0, 0, 255]);
    assert_eq!(color_table()[2], [163, 230, 119, 255]);
}
