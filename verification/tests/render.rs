use mandelbrot::calculate::calculate_mandelbrot;
use mandelbrot::calculate::escape::get_escape_iteration;
use mandelbrot::calculate::pixels::get_black_pixels;
use mandelbrot::calculate::Params;
use mandelbrot::tables::{color_table, shade_table};
use num::complex::Complex;
use std::cell::Cell;

struct View {
    canvas_width: usize,
    canvas_height: usize,
    max_iterations: usize,
    tile_left: f64,
    tile_top: f64,
    mid_x: f64,
    mid_y: f64,
    scale: f64,
    ratio: f64,
    power: i32,
}

fn classic(canvas: usize, max_iterations: usize) -> View {
    View {
        canvas_width: canvas,
        canvas_height: canvas,
        max_iterations,
        tile_left: 0.0,
        tile_top: 0.0,
        mid_x: -0.5,
        mid_y: 0.0,
        scale: 1.0,
        ratio: 1.0,
        power: 2,
    }
}

fn escape_at(x: usize, y: usize, view: &View) -> usize {
    let absolute_x = view.tile_left + (x as f64);
    let absolute_y = view.tile_top + (y as f64);
    let cx = view.mid_x + view.ratio * (absolute_x / view.canvas_width as f64 - 0.5) * 3.0 * view.scale;
    let cy = view.mid_y - (absolute_y / view.canvas_height as f64 - 0.5) * 3.0 * view.scale;
    let c = Complex::new(cx, cy);
    let power = view.power;
    get_escape_iteration(
        Complex::new(0.0, 0.0),
        view.max_iterations,
        &|z: Complex<f64>| z.powi(power) + c,
        &|z: &Complex<f64>| z.norm_sqr() < 4.0,
    )
}

fn render(tile_width: usize, tile_height: usize, grayscale: bool, view: &View) -> Vec<u8> {
    calculate_mandelbrot(tile_width, tile_height, view.max_iterations, grayscale, |x: usize, y: usize| {
        escape_at(x, y, view)
    })
}

#[test]
fn classic_view_is_black_at_its_centre() {
    let view = classic(100, 100);
    assert_eq!(escape_at(50, 50, &view), 100);
    let pixels = render(100, 100, false, &view);
    assert_eq!(pixels.len(), 100 * 100 * 4);
    let at = (50 * 100 + 50) * 4;
    assert_eq!(pixels[at..at + 4], [0, 0, 0, 255]);
}

#[test]
fn classic_view_is_coloured_at_its_corner() {
    let view = classic(100, 100);
    assert_eq!(escape_at(0, 0, &view), 1);
    let pixels = render(100, 100, false, &view);
    assert_eq!(pixels[0..4], color_table()[1]);
    let shades = render(100, 100, true, &view);
    assert_eq!(shades[0..4], shade_table()[1]);
}

#[test]
fn pixel_at_point_two_has_the_colour_of_one_iteration() {
    // Column 5 of a canvas of 6 columns lies at 2.0 when the view is centred at 1.0.
    let mut view = classic(6, 100);
    view.mid_x = 1.0;
    assert_eq!(escape_at(5, 3, &view), 1);
    let pixels = render(6, 6, false, &view);
    let at = (3 * 6 + 5) * 4;
    assert_eq!(pixels[at..at + 4], color_table()[1]);
}

#[test]
fn every_pixel_of_the_classic_view_has_the_colour_of_its_count() {
    let view = classic(40, 60);
    let colors = color_table();
    let pixels = render(40, 40, false, &view);
    for y in 0..40usize {
        for x in 0..40usize {
            let count = escape_at(x, y, &view);
            let expected = if count >= 60 { [0, 0, 0, 255] } else { colors[count] };
            let at = (y * 40 + x) * 4;
            assert_eq!(pixels[at..at + 4], expected);
        }
    }
}

#[test]
fn grayscale_selects_the_shade_table() {
    let field = |x: usize, y: usize| (x + 3 * y) % 7;
    let colors = color_table();
    let shades = shade_table();
    let in_color = calculate_mandelbrot(3, 3, 6, false, field);
    let in_gray = calculate_mandelbrot(3, 3, 6, true, field);
    for y in 0..3usize {
        for x in 0..3usize {
            let count = field(x, y);
            let at = (y * 3 + x) * 4;
            if count >= 6 {
                assert_eq!(in_color[at..at + 4], [0, 0, 0, 255]);
                assert_eq!(in_gray[at..at + 4], [0, 0, 0, 255]);
            } else {
                assert_eq!(in_color[at..at + 4], colors[count]);
                assert_eq!(in_gray[at..at + 4], shades[count]);
            }
        }
    }
}

#[test]
fn output_has_four_bytes_per_pixel() {
    for (width, height) in [(1usize, 1usize), (1, 9), (9, 1), (4, 7), (16, 16)] {
        let escaping = calculate_mandelbrot(width, height, 10, false, |x: usize, y: usize| (x + y) % 10);
        assert_eq!(escaping.len(), width * height * 4);
        let uniform = calculate_mandelbrot(width, height, 10, true, |_x: usize, _y: usize| 10usize);
        assert_eq!(uniform.len(), width * height * 4);
    }
}

#[test]
fn same_request_gives_the_same_bytes() {
    let view = classic(64, 200);
    let first = render(64, 64, false, &view);
    let second = render(64, 64, false, &view);
    assert_eq!(first, second);
    let gray_first = render(64, 64, true, &view);
    let gray_second = render(64, 64, true, &view);
    assert_eq!(gray_first, gray_second);
    assert_ne!(first, gray_first);
}

#[test]
fn tile_with_black_border_is_black() {
    let params = Params { max_iterations: 10, tile_width: 5, tile_height: 4 };
    let pixels = calculate_mandelbrot(5, 4, 10, false, |_x: usize, _y: usize| 10usize);
    assert_eq!(pixels, get_black_pixels(&params));
}

#[test]
fn tile_with_black_border_hides_an_escape_inside() {
    let params = Params { max_iterations: 10, tile_width: 5, tile_height: 4 };
    let pixels = calculate_mandelbrot(5, 4, 10, false, |x: usize, y: usize| {
        if x == 2 && y == 2 { 0usize } else { 10usize }
    });
    assert_eq!(pixels, get_black_pixels(&params));
}

#[test]
fn tile_with_black_border_is_not_evaluated_inside() {
    let interior_calls = Cell::new(0usize);
    let calls = Cell::new(0usize);
    let pixels = calculate_mandelbrot(6, 5, 10, false, |x: usize, y: usize| {
        calls.set(calls.get() + 1);
        if x > 0 && x < 5 && y > 0 && y < 4 {
            interior_calls.set(interior_calls.get() + 1);
        }
        10usize
    });
    assert_eq!(pixels.len(), 6 * 5 * 4);
    assert_eq!(interior_calls.get(), 0);
    assert_eq!(calls.get(), 6 + 6 + 5 + 5);
}

#[test]
fn deep_interior_of_the_set_renders_black() {
    // A small tile around -0.1 lies inside the main cardioid.
    let mut view = classic(1000, 50);
    view.mid_x = -0.1;
    view.tile_left = 495.0;
    view.tile_top = 495.0;
    let pixels = render(10, 10, false, &view);
    assert_eq!(pixels, get_black_pixels(&Params { max_iterations: 50, tile_width: 10, tile_height: 10 }));
}

#[test]
fn tile_with_an_escape_on_its_border_is_rendered_in_full() {
    let colors = color_table();
    let pixels = calculate_mandelbrot(3, 3, 10, false, |x: usize, y: usize| {
        if x == 2 && y == 1 { 4usize } else if x == 1 && y == 1 { 6usize } else { 10usize }
    });
    let mut expected = Vec::new();
    for index in 0..9usize {
        let color = if index == 5 { colors[4] } else if index == 4 { colors[6] } else { [0, 0, 0, 255] };
        expected.extend_from_slice(&color);
    }
    assert_eq!(pixels, expected);
}

#[test]
fn two_adjacent_tiles_show_what_one_tile_shows() {
    let whole_view = classic(48, 80);
    let whole = render(48, 48, false, &whole_view);
    let left = render(20, 48, false, &whole_view);
    let mut right_view = classic(48, 80);
    right_view.tile_left = 20.0;
    let right = render(28, 48, false, &right_view);
    for y in 0..48usize {
        for x in 0..48usize {
            let at = (y * 48 + x) * 4;
            if x < 20 {
                let part = (y * 20 + x) * 4;
                assert_eq!(whole[at..at + 4], left[part..part + 4]);
            } else {
                let part = (y * 28 + (x - 20)) * 4;
                assert_eq!(whole[at..at + 4], right[part..part + 4]);
            }
        }
    }
}

#[test]
fn cut_through_a_hidden_escape_shows_it() {
    // The border of the whole tile is black, an escape sits inside at (1, 1);
    // the left half has that pixel on its right column.
    let field = |x: usize, y: usize| if x == 1 && y == 1 { 0usize } else { 10usize };
    let whole = calculate_mandelbrot(4, 3, 10, false, field);
    let left = calculate_mandelbrot(2, 3, 10, false, field);
    let at_whole = (1 * 4 + 1) * 4;
    let at_left = (1 * 2 + 1) * 4;
    assert_eq!(whole[at_whole..at_whole + 4], [0, 0, 0, 255]);
    assert_eq!(left[at_left..at_left + 4], color_table()[0]);
}

#[test]
fn bound_above_the_table_size_uses_the_last_entry() {
    let colors = color_table();
    let pixels = calculate_mandelbrot(2, 1, 3000, false, |x: usize, _y: usize| if x == 0 { 2000usize } else { 1023usize });
    assert_eq!(pixels[0..4], colors[1023]);
    assert_eq!(pixels[4..8], colors[1023]);
    let low = calculate_mandelbrot(2, 1, 3000, false, |x: usize, _y: usize| if x == 0 { 1022usize } else { 3000usize });
    assert_eq!(low[0..4], colors[1022]);
    assert_eq!(low[4..8], [0, 0, 0, 255]);
}

#[test]
fn every_pixel_is_opaque_and_gray_pixels_have_equal_channels() {
    let view = classic(32, 90);
    let in_color = render(32, 32, false, &view);
    let in_gray = render(32, 32, true, &view);
    assert_eq!(in_color.len(), in_gray.len());
    for pixel in 0..32 * 32usize {
        assert_eq!(in_color[4 * pixel + 3], 255);
        assert_eq!(in_gray[4 * pixel + 3], 255);
        assert_eq!(in_gray[4 * pixel], in_gray[4 * pixel + 1]);
        assert_eq!(in_gray[4 * pixel + 1], in_gray[4 * pixel + 2]);
        assert_eq!(in_gray[4 * pixel], in_color[4 * pixel]);
    }
}

#[test]
fn single_pixel_at_point_two_has_the_second_table_entry() {
    let view = View {
        canvas_width: 100,
        canvas_height: 100,
        max_iterations: 100,
        tile_left: 50.0,
        tile_top: 50.0,
        mid_x: 2.0,
        mid_y: 0.0,
        scale: 1.0,
        ratio: 1.0,
        power: 2,
    };
    assert_eq!(render(1, 1, true, &view), vec![146, 146, 146, 255]);
    assert_eq!(render(1, 1, false, &view), vec![146, 238, 132, 255]);
}

#[test]
fn right_half_of_the_classic_view_matches_the_whole() {
    let whole = render(100, 100, false, &classic(100, 100));
    let mut right_view = classic(100, 100);
    right_view.tile_left = 50.0;
    let right = render(50, 100, false, &right_view);
    for y in 0..100usize {
        for x in 0..50usize {
            let part = (y * 50 + x) * 4;
            let at = (y * 100 + 50 + x) * 4;
            assert_eq!(right[part..part + 4], whole[at..at + 4]);
        }
    }
    assert_eq!(right[0..4], [163, 230, 119, 255]);
    assert_eq!(right[10000..10004], [0, 0, 0, 255]);
}
