use mandelbrot::calculate::escape::get_escape_iteration;
use num::complex::Complex;

fn escape_of(c: Complex<f64>, power: i32, max_iterations: usize) -> usize {
    get_escape_iteration(
        Complex::new(0.0, 0.0),
        max_iterations,
        &|z: Complex<f64>| z.powi(power) + c,
        &|z: &Complex<f64>| z.norm_sqr() < 4.0,
    )
}

fn coordinate(
    x: usize,
    y: usize,
    canvas: (usize, usize),
    tile_origin: (f64, f64),
    mid: (f64, f64),
    scale: f64,
    ratio: f64,
) -> Complex<f64> {
    let absolute_x = tile_origin.0 + (x as f64);
    let absolute_y = tile_origin.1 + (y as f64);
    let cx = mid.0 + ratio * (absolute_x / canvas.0 as f64 - 0.5) * 3.0 * scale;
    let cy = mid.1 - (absolute_y / canvas.1 as f64 - 0.5) * 3.0 * scale;
    Complex::new(cx, cy)
}

#[test]
fn point_two_escapes_after_one_iteration() {
    assert_eq!(escape_of(Complex::new(2.0, 0.0), 2, 100), 1);
    assert_eq!(escape_of(Complex::new(2.0, 0.0), 2, 1), 1);
}

#[test]
fn centre_of_classic_view_never_escapes() {
    let c = coordinate(50, 50, (100, 100), (0.0, 0.0), (-0.5, 0.0), 1.0, 1.0);
    assert_eq!(c, Complex::new(-0.5, 0.0));
    assert_eq!(escape_of(c, 2, 100), 100);
}

#[test]
fn corner_of_classic_view_escapes_at_once() {
    let c = coordinate(0, 0, (100, 100), (0.0, 0.0), (-0.5, 0.0), 1.0, 1.0);
    assert_eq!(c, Complex::new(-2.0, 1.5));
    assert_eq!(escape_of(c, 2, 100), 1);
}

#[test]
fn known_counts_of_the_quadratic_map() {
    // 0 -> 1 -> 2: |2|^2 = 4 ends the run after two steps.
    assert_eq!(escape_of(Complex::new(1.0, 0.0), 2, 100), 2);
    // 0 -> 0.5 -> 0.75 -> 1.0625 -> 1.62890625 -> 3.1533...: five steps.
    assert_eq!(escape_of(Complex::new(0.5, 0.0), 2, 100), 5);
    // 0 -> -2 -> 2: one step reaches the boundary of the region.
    assert_eq!(escape_of(Complex::new(-2.0, 0.0), 2, 100), 1);
    // 0 -> i -> -1 + i -> -i -> -1 + i: the orbit is periodic.
    assert_eq!(escape_of(Complex::new(0.0, 1.0), 2, 57), 57);
}

#[test]
fn higher_powers_follow_their_own_orbits() {
    // 0 -> 1 -> 2 with the cubic map as well.
    assert_eq!(escape_of(Complex::new(1.0, 0.0), 3, 100), 2);
    // 0 -> -1 -> -2 with the cubic map, while the quadratic orbit 0 -> -1 -> 0 is periodic.
    assert_eq!(escape_of(Complex::new(-1.0, 0.0), 3, 100), 2);
    assert_eq!(escape_of(Complex::new(-1.0, 0.0), 2, 100), 100);
}

#[test]
fn count_never_exceeds_the_bound() {
    for max_iterations in 0..20usize {
        assert_eq!(escape_of(Complex::new(0.0, 0.0), 2, max_iterations), max_iterations);
        assert!(escape_of(Complex::new(0.5, 0.0), 2, max_iterations) <= max_iterations);
    }
    assert_eq!(escape_of(Complex::new(0.5, 0.0), 2, 3), 3);
    assert_eq!(escape_of(Complex::new(0.5, 0.0), 2, 5), 5);
    assert_eq!(escape_of(Complex::new(0.5, 0.0), 2, 6), 5);
}

#[test]
fn origin_outside_the_region_gives_zero() {
    let count = get_escape_iteration(7u32, 10, &|z: u32| z + 1, &|z: &u32| *z < 3);
    assert_eq!(count, 0);
}

#[test]
fn integer_orbit_is_counted_step_by_step() {
    assert_eq!(get_escape_iteration(0u32, 10, &|z: u32| z + 1, &|z: &u32| *z < 3), 3);
    assert_eq!(get_escape_iteration(0u32, 2, &|z: u32| z + 1, &|z: &u32| *z < 3), 2);
    assert_eq!(get_escape_iteration(0u32, 3, &|z: u32| z + 1, &|z: &u32| *z < 3), 3);
    assert_eq!(get_escape_iteration(0u32, 0, &|z: u32| z + 1, &|z: &u32| *z < 3), 0);
}

#[test]
fn region_is_not_tested_once_the_bound_is_reached() {
    let tests = std::cell::Cell::new(0usize);
    let steps = std::cell::Cell::new(0usize);
    let count = get_escape_iteration(
        0u32,
        4,
        &|z: u32| {
            steps.set(steps.get() + 1);
            z + 1
        },
        &|_z: &u32| {
            tests.set(tests.get() + 1);
            true
        },
    );
    assert_eq!(count, 4);
    assert_eq!(steps.get(), 4);
    assert_eq!(tests.get(), 4);
}

#[test]
fn same_orbit_gives_same_count() {
    let c = Complex::new(0.3, 0.5);
    assert_eq!(escape_of(c, 2, 500), escape_of(c, 2, 500));
}
