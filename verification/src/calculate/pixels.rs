//! Colour mapping and the layout of the pixel buffer.

use vstd::prelude::*;
use crate::calculate::{accepts_tile, computes, Params};
use crate::tables::{color_entries, shade_entries, TABLE_SIZE};

verus! {

/// Colour of a pixel whose orbit never left the bounded region.
pub open spec fn opaque_black() -> [u8; 4] {
    [0u8, 0u8, 0u8, 255u8]
}

/// Colour of a pixel with the given escape-iteration count: opaque black once
/// the count reaches `max_iterations`, else the table entry of that count. A
/// count past the end of the table takes the last entry.
pub open spec fn pixel_color(escape_iteration: usize, max_iterations: usize, table: Seq<[u8; 4]>) -> [u8; 4] {
    if escape_iteration >= max_iterations {
        opaque_black()
    } else if escape_iteration < table.len() {
        table[escape_iteration as int]
    } else {
        table[table.len() - 1]
    }
}

/// The pixel buffer of a tile: four bytes per pixel, rows from top to bottom,
/// each row from left to right.
pub open spec fn tile_pixels(
    params: Params,
    table: Seq<[u8; 4]>,
    field: spec_fn(usize, usize) -> usize,
) -> Seq<u8> {
    Seq::new(
        (params.pixel_count() * 4) as nat,
        |i: int|
            pixel_color(field(params.column(i / 4), params.row(i / 4)), params.max_iterations, table)[i % 4],
    )
}

/// The pixel buffer of a tile on which every pixel is opaque black.
pub open spec fn black_pixels(params: Params) -> Seq<u8> {
    Seq::new((params.pixel_count() * 4) as nat, |i: int| opaque_black()[i % 4])
}

/// The four bytes of the pixel at `(x, y)` in the pixel buffer of a tile.
pub open spec fn pixel_at(pixels: Seq<u8>, params: Params, x: usize, y: usize) -> Seq<u8> {
    pixels.subrange((y * params.tile_width + x) * 4, (y * params.tile_width + x) * 4 + 4)
}

/// `pixels` has four bytes for each pixel of the tile, and each pixel has the
/// colour of a count that the evaluator returns for it.
pub open spec fn colors_returned_counts<F: Fn(usize, usize) -> usize>(
    evaluator: F,
    params: Params,
    table: Seq<[u8; 4]>,
    pixels: Seq<u8>,
) -> bool {
    &&& pixels.len() == params.pixel_count() * 4
    &&& forall|x: usize, y: usize| #[trigger]
        params.contains(x, y) ==> exists|r: usize| #[trigger]
            call_ensures(evaluator, (x, y), r) && pixel_at(pixels, params, x, y) == pixel_color(
                r,
                params.max_iterations,
                table,
            )@
}

/// Maps an escape-iteration count to its colour.
pub fn color_of(escape_iteration: usize, max_iterations: usize, table: &[[u8; 4]; 1024]) -> (color: [u8; 4])
    ensures
        color == pixel_color(escape_iteration, max_iterations, table@),
{
    if escape_iteration >= max_iterations {
        [0, 0, 0, 255]
    } else if escape_iteration < TABLE_SIZE {
        table[escape_iteration]
    } else {
        table[TABLE_SIZE - 1]
    }
}

/// Renders every pixel of the tile: for each pixel, in row-major order, the
/// colour of the escape-iteration count that the evaluator gives for it.
pub fn get_pixels<F: Fn(usize, usize) -> usize>(
    params: &Params,
    table: &[[u8; 4]; 1024],
    evaluator: &F,
) -> (pixels: Vec<u8>)
    requires
        params.wf(),
        accepts_tile(*evaluator, *params),
    ensures
        pixels@.len() == params.tile_width * params.tile_height * 4,
        colors_returned_counts(*evaluator, *params, table@, pixels@),
        forall|field: spec_fn(usize, usize) -> usize| #[trigger]
            computes(*evaluator, field, *params) ==> pixels@ == tile_pixels(*params, table@, field),
{
    let width = params.tile_width;
    let height = params.tile_height;
    assert(width * height <= width * height * 4) by (nonlinear_arith)
        requires
            width * height >= 0,
    ;
    let count = width * height;
    let mut pixels: Vec<u8> = Vec::new();
    let ghost mut seen: Seq<usize> = Seq::empty();
    let mut index: usize = 0;
    while index < count
        invariant
            params.wf(),
            accepts_tile(*evaluator, *params),
            width == params.tile_width,
            height == params.tile_height,
            count == width * height,
            index <= count,
            seen.len() == index,
            pixels@.len() == index * 4,
            forall|k: int|
                0 <= k < index ==> call_ensures(
                    *evaluator,
                    (params.column(k), params.row(k)),
                    #[trigger] seen[k],
                ),
            forall|i: int|
                0 <= i < index * 4 ==> #[trigger] pixels@[i] == pixel_color(
                    seen[i / 4],
                    params.max_iterations,
                    table@,
                )[i % 4],
        decreases count - index,
    {
        let x = index % width;
        let y = index / width;
        proof {
            lemma_row_in_tile(index as int, width as int, height as int);
            assert(params.contains(x, y));
        }
        let escape_iteration = evaluator(x, y);
        let color = color_of(escape_iteration, params.max_iterations, table);
        proof {
            seen = seen.push(escape_iteration);
        }
        pixels.push(color[0]);
        pixels.push(color[1]);
        pixels.push(color[2]);
        pixels.push(color[3]);
        index += 1;
    }
    proof {
        assert forall|field: spec_fn(usize, usize) -> usize| #[trigger]
            computes(*evaluator, field, *params) implies pixels@ == tile_pixels(*params, table@, field) by {
            let wanted = tile_pixels(*params, table@, field);
            assert forall|i: int| 0 <= i < pixels@.len() implies pixels@[i] == wanted[i] by {
                let k = i / 4;
                lemma_row_in_tile(k, width as int, height as int);
                assert(params.contains(params.column(k), params.row(k)));
                assert(call_ensures(*evaluator, (params.column(k), params.row(k)), seen[k]));
            }
            assert(pixels@ =~= wanted);
        }
        assert forall|x: usize, y: usize| #[trigger] params.contains(x, y) implies exists|r: usize| #[trigger]
            call_ensures(*evaluator, (x, y), r) && pixel_at(pixels@, *params, x, y) == pixel_color(
                r,
                params.max_iterations,
                table@,
            )@ by {
            lemma_index_in_tile(x as int, y as int, width as int, height as int);
            let k = y * width + x;
            assert(params.column(k) == x && params.row(k) == y);
            let pixel = pixel_at(pixels@, *params, x, y);
            let color = pixel_color(seen[k], params.max_iterations, table@);
            assert(pixel.len() == 4);
            assert forall|j: int| 0 <= j < 4 implies pixel[j] == color@[j] by {
                assert((k * 4 + j) / 4 == k);
                assert((k * 4 + j) % 4 == j);
                assert(pixel[j] == pixels@[k * 4 + j]);
            }
            assert(pixel =~= color@);
            assert(call_ensures(*evaluator, (x, y), seen[k]));
        }
    }
    pixels
}

/// Fills the pixel buffer of a tile with opaque black.
pub fn get_black_pixels(params: &Params) -> (pixels: Vec<u8>)
    requires
        params.wf(),
    ensures
        pixels@ == black_pixels(*params),
{
    assert(params.tile_width * params.tile_height <= params.tile_width * params.tile_height * 4)
        by (nonlinear_arith)
        requires
            params.tile_width * params.tile_height >= 0,
    ;
    let count = params.tile_width * params.tile_height;
    let mut pixels: Vec<u8> = Vec::new();
    let mut index: usize = 0;
    while index < count
        invariant
            count == params.tile_width * params.tile_height,
            count * 4 <= usize::MAX,
            index <= count,
            pixels@.len() == index * 4,
            forall|i: int| 0 <= i < index * 4 ==> #[trigger] pixels@[i] == opaque_black()[i % 4],
        decreases count - index,
    {
        pixels.push(0);
        pixels.push(0);
        pixels.push(0);
        pixels.push(255);
        index += 1;
    }
    assert(pixels@ =~= black_pixels(*params));
    pixels
}

/// A pixel index below `width * height` lies in a row below `height`, at a
/// column below `width`.
pub proof fn lemma_row_in_tile(index: int, width: int, height: int)
    requires
        0 <= index < width * height,
        width > 0,
    ensures
        0 <= index % width < width,
        0 <= index / width < height,
{
    vstd::arithmetic::div_mod::lemma_fundamental_div_mod(index, width);
    vstd::arithmetic::div_mod::lemma_mod_bound(index, width);
    assert(index / width < height) by (nonlinear_arith)
        requires
            index == width * (index / width) + index % width,
            0 <= index % width,
            index < width * height,
            width > 0,
    ;
    assert(0 <= index / width) by (nonlinear_arith)
        requires
            index == width * (index / width) + index % width,
            index % width < width,
            0 <= index,
            width > 0,
    ;
}

/// The bytes of the pixel at `(x, y)` start at offset `(y * tile_width + x) * 4`
/// of the rendered tile and are the colour of the count that `field` has
/// there.
pub proof fn lemma_pixel_of_tile(
    params: Params,
    table: Seq<[u8; 4]>,
    field: spec_fn(usize, usize) -> usize,
    x: usize,
    y: usize,
)
    requires
        params.wf(),
        params.contains(x, y),
    ensures
        pixel_at(tile_pixels(params, table, field), params, x, y) == pixel_color(
            field(x, y),
            params.max_iterations,
            table,
        )@,
{
    let width = params.tile_width as int;
    let index = y * width + x;
    lemma_index_in_tile(x as int, y as int, width, params.tile_height as int);
    let pixel = pixel_at(tile_pixels(params, table, field), params, x, y);
    let color = pixel_color(field(x, y), params.max_iterations, table);
    assert(pixel.len() == 4);
    assert forall|j: int| 0 <= j < 4 implies pixel[j] == color@[j] by {
        assert((index * 4 + j) / 4 == index);
        assert((index * 4 + j) % 4 == j);
        assert(pixel[j] == tile_pixels(params, table, field)[index * 4 + j]);
    }
    assert(pixel =~= color@);
}

/// Every pixel of an all-black tile is opaque black.
pub proof fn lemma_pixel_of_black(params: Params, x: usize, y: usize)
    requires
        params.wf(),
        params.contains(x, y),
    ensures
        pixel_at(black_pixels(params), params, x, y) == opaque_black()@,
{
    let width = params.tile_width as int;
    let index = y * width + x;
    lemma_index_in_tile(x as int, y as int, width, params.tile_height as int);
    let pixel = pixel_at(black_pixels(params), params, x, y);
    assert(pixel.len() == 4);
    assert forall|j: int| 0 <= j < 4 implies pixel[j] == opaque_black()@[j] by {
        assert((index * 4 + j) % 4 == j);
        assert(pixel[j] == black_pixels(params)[index * 4 + j]);
    }
    assert(pixel =~= opaque_black()@);
}

/// Whatever the count, its colour is fully opaque in either table, and its
/// colour in the luminance-only table repeats on all three colour channels
/// the first channel of its colour in the hue-cycling table.
pub proof fn lemma_colors_of_count(escape_iteration: usize, max_iterations: usize)
    ensures
        pixel_color(escape_iteration, max_iterations, color_entries())[3] == 255,
        pixel_color(escape_iteration, max_iterations, shade_entries())[3] == 255,
        pixel_color(escape_iteration, max_iterations, shade_entries())[0] == pixel_color(
            escape_iteration,
            max_iterations,
            color_entries(),
        )[0],
        pixel_color(escape_iteration, max_iterations, shade_entries())[1] == pixel_color(
            escape_iteration,
            max_iterations,
            color_entries(),
        )[0],
        pixel_color(escape_iteration, max_iterations, shade_entries())[2] == pixel_color(
            escape_iteration,
            max_iterations,
            color_entries(),
        )[0],
{
}

/// The pixel in row `y` at column `x` has the index `y * width + x`, which is
/// below `width * height`; the row and the column are found again from it by
/// division.
pub proof fn lemma_index_in_tile(x: int, y: int, width: int, height: int)
    requires
        0 <= x < width,
        0 <= y < height,
    ensures
        0 <= y * width + x < width * height,
        (y * width + x) / width == y,
        (y * width + x) % width == x,
{
    vstd::arithmetic::div_mod::lemma_fundamental_div_mod_converse(y * width + x, width, y, x);
    assert(y * width + x < width * height) by (nonlinear_arith)
        requires
            0 <= x < width,
            0 <= y < height,
    ;
    assert(0 <= y * width) by (nonlinear_arith)
        requires
            0 <= y,
            0 < width,
    ;
}

} // verus!
