//! The tile renderer: parameters of a tile, the meaning of an evaluator, and
//! the render that joins the border scan with the per-pixel colouring.

use vstd::prelude::*;
use crate::calculate::perimeter::{
    border_seen_black, border_seen_escaping, is_perimeter_all_black, on_perimeter, perimeter_all_black,
};
use crate::calculate::pixels::{
    black_pixels, colors_returned_counts, get_black_pixels, get_pixels, lemma_colors_of_count,
    lemma_pixel_of_black, lemma_pixel_of_tile, lemma_row_in_tile,
    opaque_black, pixel_at, pixel_color, tile_pixels,
};
use crate::tables::{color_table, shade_table, table_entries};

pub mod escape;
pub mod perimeter;
pub mod pixels;
pub mod tiling;

verus! {

/// Geometry of one tile and the bound on the iteration count.
#[derive(Clone, Copy, Debug)]
pub struct Params {
    pub max_iterations: usize,
    pub tile_width: usize,
    pub tile_height: usize,
}

impl Params {
    /// All dimensions and the iteration bound are strictly positive, and the
    /// pixel buffer of the tile has a length that fits in `usize`.
    pub open spec fn wf(&self) -> bool {
        &&& self.max_iterations > 0
        &&& self.tile_width > 0
        &&& self.tile_height > 0
        &&& self.tile_width * self.tile_height * 4 <= usize::MAX
    }

    /// Tells whether the parameters are well formed.
    pub fn is_valid(&self) -> (valid: bool)
        ensures
            valid == self.wf(),
    {
        if self.max_iterations == 0 || self.tile_width == 0 || self.tile_height == 0 {
            return false;
        }
        match self.tile_width.checked_mul(self.tile_height) {
            Some(count) => count.checked_mul(4).is_some(),
            None => {
                assert(self.tile_width * self.tile_height * 4 > usize::MAX) by (nonlinear_arith)
                    requires
                        self.tile_width * self.tile_height > usize::MAX,
                ;
                false
            },
        }
    }

    /// Number of pixels in the tile.
    pub open spec fn pixel_count(&self) -> int {
        self.tile_width * self.tile_height
    }

    /// Column of the pixel with the given row-major index.
    pub open spec fn column(&self, index: int) -> usize {
        (index % (self.tile_width as int)) as usize
    }

    /// Row of the pixel with the given row-major index.
    pub open spec fn row(&self, index: int) -> usize {
        (index / (self.tile_width as int)) as usize
    }

    /// `(x, y)` is a tile-local pixel position.
    pub open spec fn contains(&self, x: usize, y: usize) -> bool {
        x < self.tile_width && y < self.tile_height
    }
}

/// The parameters of a tile of `tile_width` by `tile_height` pixels whose
/// orbits are followed for at most `max_iterations` steps.
pub open spec fn tile(tile_width: usize, tile_height: usize, max_iterations: usize) -> Params {
    Params { max_iterations, tile_width, tile_height }
}

/// The evaluator may be called on every pixel of the tile.
pub open spec fn accepts_tile<F: Fn(usize, usize) -> usize>(evaluator: F, params: Params) -> bool {
    forall|x: usize, y: usize| #[trigger]
        params.contains(x, y) ==> call_requires(evaluator, (x, y))
}

/// Whatever the evaluator returns for a pixel of the tile is the value of
/// `field` there: on the tile, the evaluator computes `field`.
pub open spec fn computes<F: Fn(usize, usize) -> usize>(
    evaluator: F,
    field: spec_fn(usize, usize) -> usize,
    params: Params,
) -> bool {
    forall|x: usize, y: usize, r: usize|
        params.contains(x, y) && #[trigger] call_ensures(evaluator, (x, y), r) ==> r == field(x, y)
}

/// `pixels` is a render of the tile from counts that the evaluator returns:
/// all black, with a border on which the evaluator returns no escaping count,
/// or the colours of such counts for every pixel, with a border on which the
/// evaluator returns an escaping one.
pub open spec fn renders<F: Fn(usize, usize) -> usize>(
    evaluator: F,
    params: Params,
    grayscale: bool,
    pixels: Seq<u8>,
) -> bool {
    ||| border_seen_black(evaluator, params) && pixels == black_pixels(params)
    ||| border_seen_escaping(evaluator, params) && colors_returned_counts(
        evaluator,
        params,
        table_entries(grayscale),
        pixels,
    )
}

/// The pixel buffer that a render of the tile gives: all black where the
/// border of the tile is non-escaping, else the colour of every pixel.
pub open spec fn rendered(params: Params, grayscale: bool, field: spec_fn(usize, usize) -> usize) -> Seq<u8> {
    if perimeter_all_black(params, field) {
        black_pixels(params)
    } else {
        tile_pixels(params, table_entries(grayscale), field)
    }
}

/// Renders one tile. The border of the tile is evaluated first; where no
/// pixel of it escapes, the tile is taken to be uniform and comes out black
/// without another evaluation. Otherwise every pixel is evaluated and
/// coloured from the luminance-only table if `grayscale` is set, from the
/// hue-cycling table if not.
pub fn calculate_mandelbrot<F: Fn(usize, usize) -> usize>(
    tile_width: usize,
    tile_height: usize,
    max_iterations: usize,
    grayscale: bool,
    evaluator: F,
) -> (pixels: Vec<u8>)
    requires
        tile(tile_width, tile_height, max_iterations).wf(),
        accepts_tile(evaluator, tile(tile_width, tile_height, max_iterations)),
    ensures
        pixels@.len() == tile_width * tile_height * 4,
        renders(evaluator, tile(tile_width, tile_height, max_iterations), grayscale, pixels@),
        forall|field: spec_fn(usize, usize) -> usize| #[trigger]
            computes(evaluator, field, tile(tile_width, tile_height, max_iterations)) ==> pixels@ == rendered(
                tile(tile_width, tile_height, max_iterations),
                grayscale,
                field,
            ),
        forall|field: spec_fn(usize, usize) -> usize| #[trigger]
            computes(evaluator, field, tile(tile_width, tile_height, max_iterations)) && perimeter_all_black(
                tile(tile_width, tile_height, max_iterations),
                field,
            ) ==> pixels@ == black_pixels(tile(tile_width, tile_height, max_iterations)),
{
    let params = Params { max_iterations, tile_width, tile_height };
    if is_perimeter_all_black(&params, &evaluator) {
        return get_black_pixels(&params);
    }
    if grayscale {
        let table = shade_table();
        get_pixels(&params, &table, &evaluator)
    } else {
        let table = color_table();
        get_pixels(&params, &table, &evaluator)
    }
}

/// Two fields that agree on the pixels of the tile.
pub open spec fn agree_on_tile(
    first: spec_fn(usize, usize) -> usize,
    second: spec_fn(usize, usize) -> usize,
    params: Params,
) -> bool {
    forall|x: usize, y: usize| #[trigger] params.contains(x, y) ==> first(x, y) == second(x, y)
}

/// A render is determined by the parameters and by the escape-iteration
/// counts of the pixels of the tile: with the same parameters, two fields
/// that agree on the tile give the same bytes.
pub proof fn lemma_render_deterministic(
    params: Params,
    grayscale: bool,
    first: spec_fn(usize, usize) -> usize,
    second: spec_fn(usize, usize) -> usize,
)
    requires
        params.wf(),
        agree_on_tile(first, second, params),
    ensures
        rendered(params, grayscale, first) == rendered(params, grayscale, second),
{
    assert(perimeter_all_black(params, first) == perimeter_all_black(params, second)) by {
        assert forall|x: usize, y: usize| #[trigger] on_perimeter(params, x, y) implies first(x, y)
            == second(x, y) by {
            assert(params.contains(x, y));
        }
    }
    let table = table_entries(grayscale);
    let one = tile_pixels(params, table, first);
    let other = tile_pixels(params, table, second);
    assert forall|i: int| 0 <= i < one.len() implies one[i] == other[i] by {
        lemma_row_in_tile(i / 4, params.tile_width as int, params.tile_height as int);
        assert(params.contains(params.column(i / 4), params.row(i / 4)));
    }
    assert(one =~= other);
}

/// Every render has four bytes for each pixel of the tile.
pub proof fn lemma_render_length(params: Params, grayscale: bool, field: spec_fn(usize, usize) -> usize)
    requires
        params.wf(),
    ensures
        rendered(params, grayscale, field).len() == params.tile_width * params.tile_height * 4,
{
}

/// A tile whose border is non-escaping is rendered all black, whatever the
/// counts of the pixels inside it.
pub proof fn lemma_uniform_tile_is_black(params: Params, grayscale: bool, field: spec_fn(usize, usize) -> usize)
    requires
        perimeter_all_black(params, field),
    ensures
        rendered(params, grayscale, field) == black_pixels(params),
{
}

/// Every pixel of a render is fully opaque, and a pixel of a grayscale render
/// has the same value on its three colour channels.
pub proof fn lemma_rendered_channels(
    params: Params,
    grayscale: bool,
    field: spec_fn(usize, usize) -> usize,
    pixel: int,
)
    requires
        params.wf(),
        0 <= pixel < params.tile_width * params.tile_height,
    ensures
        rendered(params, grayscale, field)[4 * pixel + 3] == 255,
        grayscale ==> rendered(params, grayscale, field)[4 * pixel] == rendered(params, grayscale, field)[4
            * pixel + 1],
        grayscale ==> rendered(params, grayscale, field)[4 * pixel + 1] == rendered(
            params,
            grayscale,
            field,
        )[4 * pixel + 2],
{
    lemma_colors_of_count(field(params.column(pixel), params.row(pixel)), params.max_iterations);
    assert((4 * pixel) / 4 == pixel && (4 * pixel) % 4 == 0);
    assert((4 * pixel + 1) / 4 == pixel && (4 * pixel + 1) % 4 == 1);
    assert((4 * pixel + 2) / 4 == pixel && (4 * pixel + 2) % 4 == 2);
    assert((4 * pixel + 3) / 4 == pixel && (4 * pixel + 3) % 4 == 3);
}

/// Whatever counts the evaluator returned, every pixel of a render is fully
/// opaque, and a pixel of a grayscale render has the same value on its three
/// colour channels.
pub proof fn lemma_renders_channels<F: Fn(usize, usize) -> usize>(
    evaluator: F,
    params: Params,
    grayscale: bool,
    pixels: Seq<u8>,
    pixel: int,
)
    requires
        params.wf(),
        renders(evaluator, params, grayscale, pixels),
        0 <= pixel < params.tile_width * params.tile_height,
    ensures
        pixels[4 * pixel + 3] == 255,
        grayscale ==> pixels[4 * pixel] == pixels[4 * pixel + 1] && pixels[4 * pixel + 1] == pixels[4 * pixel
            + 2],
{
    let x = params.column(pixel);
    let y = params.row(pixel);
    lemma_row_in_tile(pixel, params.tile_width as int, params.tile_height as int);
    vstd::arithmetic::div_mod::lemma_fundamental_div_mod(pixel, params.tile_width as int);
    assert(y * params.tile_width + x == pixel) by (nonlinear_arith)
        requires
            pixel == params.tile_width * (pixel / (params.tile_width as int)) + pixel % (
            params.tile_width as int),
            y == pixel / (params.tile_width as int),
            x == pixel % (params.tile_width as int),
    ;
    assert(params.contains(x, y));
    assert((4 * pixel) % 4 == 0 && (4 * pixel + 1) % 4 == 1 && (4 * pixel + 2) % 4 == 2 && (4 * pixel + 3) % 4
        == 3);
    if pixels == black_pixels(params) {
    } else {
        let r = choose|r: usize| #[trigger]
            call_ensures(evaluator, (x, y), r) && pixel_at(pixels, params, x, y) == pixel_color(
                r,
                params.max_iterations,
                table_entries(grayscale),
            )@;
        lemma_colors_of_count(r, params.max_iterations);
        let shown = pixel_at(pixels, params, x, y);
        assert(shown[0] == pixels[4 * pixel] && shown[1] == pixels[4 * pixel + 1] && shown[2] == pixels[4
            * pixel + 2] && shown[3] == pixels[4 * pixel + 3]);
    }
}

/// A grayscale render has on the first channel of every pixel the value
/// that the render in colour has there.
pub proof fn lemma_grayscale_is_first_channel(params: Params, field: spec_fn(usize, usize) -> usize, pixel: int)
    requires
        params.wf(),
        0 <= pixel < params.tile_width * params.tile_height,
    ensures
        rendered(params, true, field).len() == rendered(params, false, field).len(),
        rendered(params, true, field)[4 * pixel] == rendered(params, false, field)[4 * pixel],
{
    lemma_colors_of_count(field(params.column(pixel), params.row(pixel)), params.max_iterations);
    assert((4 * pixel) / 4 == pixel && (4 * pixel) % 4 == 0);
}

/// The pixel at `(x, y)` of a render: opaque black where the border of the
/// tile is non-escaping, else the colour of the count at `(x, y)`.
pub proof fn lemma_rendered_pixel(
    params: Params,
    grayscale: bool,
    field: spec_fn(usize, usize) -> usize,
    x: usize,
    y: usize,
)
    requires
        params.wf(),
        params.contains(x, y),
    ensures
        pixel_at(rendered(params, grayscale, field), params, x, y) == if perimeter_all_black(
            params,
            field,
        ) {
            opaque_black()@
        } else {
            pixel_color(field(x, y), params.max_iterations, table_entries(grayscale))@
        },
{
    lemma_pixel_of_black(params, x, y);
    lemma_pixel_of_tile(params, table_entries(grayscale), field, x, y);
}

} // verus!
