//! How the pixels of a tile relate to the pixels of a tile that contains it.

use vstd::prelude::*;
use crate::calculate::{rendered, lemma_rendered_pixel, Params};
use crate::calculate::perimeter::perimeter_all_black;
use crate::calculate::pixels::{lemma_pixel_of_tile, opaque_black, pixel_at, pixel_color, tile_pixels};
use crate::tables::table_entries;

verus! {

/// `part` is a tile inside `whole` with its origin at column `left` and row
/// `top` of `whole`, rendered with the same bound on the iteration count.
pub open spec fn part_of(part: Params, whole: Params, left: usize, top: usize) -> bool {
    &&& part.max_iterations == whole.max_iterations
    &&& left + part.tile_width <= whole.tile_width
    &&& top + part.tile_height <= whole.tile_height
}

/// `part_field` is `whole_field` as seen from a tile with its origin at
/// `(left, top)`: both give the same count at the same place.
pub open spec fn seen_from(
    part_field: spec_fn(usize, usize) -> usize,
    whole_field: spec_fn(usize, usize) -> usize,
    part: Params,
    left: usize,
    top: usize,
) -> bool {
    forall|x: usize, y: usize| #[trigger]
        part.contains(x, y) ==> part_field(x, y) == whole_field((left + x) as usize, (top + y) as usize)
}

/// The left one of the two tiles into which the column `split` cuts `whole`.
pub open spec fn left_part(whole: Params, split: usize) -> Params {
    Params { tile_width: split, ..whole }
}

/// The right one of the two tiles into which the column `split` cuts `whole`.
pub open spec fn right_part(whole: Params, split: usize) -> Params {
    Params { tile_width: (whole.tile_width - split) as usize, ..whole }
}

/// Both tiles of a cut are well formed and lie inside the tile that was cut.
pub proof fn lemma_parts_of_split(whole: Params, split: usize)
    requires
        whole.wf(),
        0 < split < whole.tile_width,
    ensures
        left_part(whole, split).wf(),
        right_part(whole, split).wf(),
        part_of(left_part(whole, split), whole, 0, 0),
        part_of(right_part(whole, split), whole, split, 0),
{
    let height = whole.tile_height as int;
    assert(split * height * 4 <= whole.tile_width * height * 4) by (nonlinear_arith)
        requires
            0 < split < whole.tile_width,
            0 < height,
    ;
    assert((whole.tile_width - split) * height * 4 <= whole.tile_width * height * 4) by (nonlinear_arith)
        requires
            0 < split < whole.tile_width,
            0 < height,
    ;
}

/// Rendered pixel by pixel, a tile inside another shows at each of its
/// pixels the colour that the other shows at the same place.
pub proof fn lemma_part_shows_same_pixels(
    part: Params,
    whole: Params,
    left: usize,
    top: usize,
    table: Seq<[u8; 4]>,
    part_field: spec_fn(usize, usize) -> usize,
    whole_field: spec_fn(usize, usize) -> usize,
    x: usize,
    y: usize,
)
    requires
        part.wf(),
        whole.wf(),
        part_of(part, whole, left, top),
        seen_from(part_field, whole_field, part, left, top),
        part.contains(x, y),
    ensures
        pixel_at(tile_pixels(part, table, part_field), part, x, y) == pixel_at(
            tile_pixels(whole, table, whole_field),
            whole,
            (left + x) as usize,
            (top + y) as usize,
        ),
{
    lemma_pixel_of_tile(part, table, part_field, x, y);
    lemma_pixel_of_tile(whole, table, whole_field, (left + x) as usize, (top + y) as usize);
}

/// Rendered pixel by pixel, a tile and the two tiles into which a column
/// cuts it show the same colour at every place.
pub proof fn lemma_split_shows_same_pixels(
    whole: Params,
    split: usize,
    table: Seq<[u8; 4]>,
    whole_field: spec_fn(usize, usize) -> usize,
    left_field: spec_fn(usize, usize) -> usize,
    right_field: spec_fn(usize, usize) -> usize,
    x: usize,
    y: usize,
)
    requires
        whole.wf(),
        0 < split < whole.tile_width,
        seen_from(left_field, whole_field, left_part(whole, split), 0, 0),
        seen_from(right_field, whole_field, right_part(whole, split), split, 0),
        whole.contains(x, y),
    ensures
        x < split ==> pixel_at(tile_pixels(left_part(whole, split), table, left_field), left_part(whole, split), x, y)
            == pixel_at(tile_pixels(whole, table, whole_field), whole, x, y),
        x >= split ==> pixel_at(
            tile_pixels(right_part(whole, split), table, right_field),
            right_part(whole, split),
            (x - split) as usize,
            y,
        ) == pixel_at(tile_pixels(whole, table, whole_field), whole, x, y),
{
    lemma_parts_of_split(whole, split);
    if x < split {
        lemma_part_shows_same_pixels(left_part(whole, split), whole, 0, 0, table, left_field, whole_field, x, y);
    } else {
        lemma_part_shows_same_pixels(
            right_part(whole, split),
            whole,
            split,
            0,
            table,
            right_field,
            whole_field,
            (x - split) as usize,
            y,
        );
    }
}

/// A render of a tile inside another shows at a pixel the colour that the
/// render of the other shows at the same place, provided that both renders
/// took the same decision on their borders or that the pixel is opaque black
/// when coloured by its count. Where the decisions differ, one render shows
/// black and the other the colour of the count.
pub proof fn lemma_part_renders_same_pixel(
    part: Params,
    whole: Params,
    left: usize,
    top: usize,
    grayscale: bool,
    part_field: spec_fn(usize, usize) -> usize,
    whole_field: spec_fn(usize, usize) -> usize,
    x: usize,
    y: usize,
)
    requires
        part.wf(),
        whole.wf(),
        part_of(part, whole, left, top),
        seen_from(part_field, whole_field, part, left, top),
        part.contains(x, y),
        perimeter_all_black(part, part_field) == perimeter_all_black(whole, whole_field) || pixel_color(
            part_field(x, y),
            part.max_iterations,
            table_entries(grayscale),
        )@ == opaque_black()@,
    ensures
        pixel_at(rendered(part, grayscale, part_field), part, x, y) == pixel_at(
            rendered(whole, grayscale, whole_field),
            whole,
            (left + x) as usize,
            (top + y) as usize,
        ),
{
    lemma_rendered_pixel(part, grayscale, part_field, x, y);
    lemma_rendered_pixel(whole, grayscale, whole_field, (left + x) as usize, (top + y) as usize);
}

/// A render of a tile and the renders of the two tiles into which a column
/// cuts it show the same colour at a place, provided that the render of the
/// part that holds the place took the same decision on its border as the
/// render of the whole tile, or that the pixel there is opaque black when
/// coloured by its count.
pub proof fn lemma_split_renders_same_pixel(
    whole: Params,
    split: usize,
    grayscale: bool,
    whole_field: spec_fn(usize, usize) -> usize,
    left_field: spec_fn(usize, usize) -> usize,
    right_field: spec_fn(usize, usize) -> usize,
    x: usize,
    y: usize,
)
    requires
        whole.wf(),
        0 < split < whole.tile_width,
        seen_from(left_field, whole_field, left_part(whole, split), 0, 0),
        seen_from(right_field, whole_field, right_part(whole, split), split, 0),
        whole.contains(x, y),
        pixel_color(whole_field(x, y), whole.max_iterations, table_entries(grayscale))@ == opaque_black()@
            || perimeter_all_black(whole, whole_field) == if x < split {
            perimeter_all_black(left_part(whole, split), left_field)
        } else {
            perimeter_all_black(right_part(whole, split), right_field)
        },
    ensures
        x < split ==> pixel_at(
            rendered(left_part(whole, split), grayscale, left_field),
            left_part(whole, split),
            x,
            y,
        ) == pixel_at(rendered(whole, grayscale, whole_field), whole, x, y),
        x >= split ==> pixel_at(
            rendered(right_part(whole, split), grayscale, right_field),
            right_part(whole, split),
            (x - split) as usize,
            y,
        ) == pixel_at(rendered(whole, grayscale, whole_field), whole, x, y),
{
    lemma_parts_of_split(whole, split);
    if x < split {
        let part = left_part(whole, split);
        assert(part.contains(x, y));
        lemma_part_renders_same_pixel(part, whole, 0, 0, grayscale, left_field, whole_field, x, y);
    } else {
        let part = right_part(whole, split);
        let column = (x - split) as usize;
        assert(part.contains(column, y));
        lemma_part_renders_same_pixel(part, whole, split, 0, grayscale, right_field, whole_field, column, y);
    }
}

} // verus!
