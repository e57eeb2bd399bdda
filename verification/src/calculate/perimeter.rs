//! Border scan: decides from the border of a tile alone whether the tile is
//! taken to be uniformly non-escaping.

use vstd::prelude::*;
use crate::calculate::Params;
use crate::calculate::accepts_tile;
use crate::calculate::computes;

verus! {

/// `(x, y)` lies in the rectangle of pixels from `(start_x, start_y)` to
/// `(end_x, end_y)`, both corners included.
pub open spec fn in_span(x: usize, y: usize, start_x: usize, start_y: usize, end_x: usize, end_y: usize) -> bool {
    start_x <= x <= end_x && start_y <= y <= end_y
}

/// No pixel of the rectangle escapes before `max_iterations`.
pub open spec fn span_all_black(
    field: spec_fn(usize, usize) -> usize,
    max_iterations: usize,
    start_x: usize,
    start_y: usize,
    end_x: usize,
    end_y: usize,
) -> bool {
    forall|x: usize, y: usize| #[trigger]
        in_span(x, y, start_x, start_y, end_x, end_y) ==> field(x, y) >= max_iterations
}

/// For every pixel of the rectangle the evaluator returns a count that does
/// not escape before `max_iterations`.
pub open spec fn span_seen_black<F: Fn(usize, usize) -> usize>(
    evaluator: F,
    max_iterations: usize,
    start_x: usize,
    start_y: usize,
    end_x: usize,
    end_y: usize,
) -> bool {
    forall|x: usize, y: usize| #[trigger]
        in_span(x, y, start_x, start_y, end_x, end_y) ==> exists|r: usize| #[trigger]
            call_ensures(evaluator, (x, y), r) && r >= max_iterations
}

/// For some pixel of the rectangle the evaluator returns a count that
/// escapes before `max_iterations`.
pub open spec fn span_seen_escaping<F: Fn(usize, usize) -> usize>(
    evaluator: F,
    max_iterations: usize,
    start_x: usize,
    start_y: usize,
    end_x: usize,
    end_y: usize,
) -> bool {
    exists|x: usize, y: usize, r: usize|
        in_span(x, y, start_x, start_y, end_x, end_y) && #[trigger] call_ensures(evaluator, (x, y), r) && r
            < max_iterations
}

/// `(x, y)` is a pixel of the tile on its top or bottom row or on its left or
/// right column.
pub open spec fn on_perimeter(params: Params, x: usize, y: usize) -> bool {
    &&& params.contains(x, y)
    &&& (x == 0 || y == 0 || x == params.tile_width - 1 || y == params.tile_height - 1)
}

/// No pixel on the border of the tile escapes before `max_iterations`.
pub open spec fn perimeter_all_black(params: Params, field: spec_fn(usize, usize) -> usize) -> bool {
    forall|x: usize, y: usize| #[trigger]
        on_perimeter(params, x, y) ==> field(x, y) >= params.max_iterations
}

/// For every pixel on the border of the tile the evaluator returns a count
/// that does not escape before `max_iterations`.
pub open spec fn border_seen_black<F: Fn(usize, usize) -> usize>(evaluator: F, params: Params) -> bool {
    forall|x: usize, y: usize| #[trigger]
        on_perimeter(params, x, y) ==> exists|r: usize| #[trigger]
            call_ensures(evaluator, (x, y), r) && r >= params.max_iterations
}

/// For some pixel on the border of the tile the evaluator returns a count
/// that escapes before `max_iterations`.
pub open spec fn border_seen_escaping<F: Fn(usize, usize) -> usize>(evaluator: F, params: Params) -> bool {
    exists|x: usize, y: usize, r: usize|
        on_perimeter(params, x, y) && #[trigger] call_ensures(evaluator, (x, y), r) && r
            < params.max_iterations
}

/// Where no count on the border exceeds `max_iterations`, the border is
/// non-escaping exactly when every count on it equals `max_iterations`.
pub proof fn lemma_black_border_is_at_bound(params: Params, field: spec_fn(usize, usize) -> usize)
    requires
        forall|x: usize, y: usize| #[trigger]
            on_perimeter(params, x, y) ==> field(x, y) <= params.max_iterations,
    ensures
        perimeter_all_black(params, field) <==> forall|x: usize, y: usize| #[trigger]
            on_perimeter(params, x, y) ==> field(x, y) == params.max_iterations,
{
}

/// Scans a rectangle of pixels column by column and stops at the first pixel
/// that escapes before `max_iterations`.
pub fn check_edge<F: Fn(usize, usize) -> usize>(
    params: &Params,
    evaluator: &F,
    start_x: usize,
    start_y: usize,
    end_x: usize,
    end_y: usize,
) -> (all_black: bool)
    requires
        accepts_tile(*evaluator, *params),
        end_x < params.tile_width,
        end_y < params.tile_height,
    ensures
        all_black ==> span_seen_black(*evaluator, params.max_iterations, start_x, start_y, end_x, end_y),
        !all_black ==> span_seen_escaping(*evaluator, params.max_iterations, start_x, start_y, end_x, end_y),
        forall|field: spec_fn(usize, usize) -> usize| #[trigger]
            computes(*evaluator, field, *params) ==> all_black == span_all_black(
                field,
                params.max_iterations,
                start_x,
                start_y,
                end_x,
                end_y,
            ),
{
    let ghost mut seen: Map<(usize, usize), usize> = Map::empty();
    let mut x: usize = start_x;
    while x <= end_x
        invariant
            accepts_tile(*evaluator, *params),
            end_x < params.tile_width,
            end_y < params.tile_height,
            start_x <= x,
            forall|a: usize, b: usize| #[trigger]
                in_span(a, b, start_x, start_y, end_x, end_y) && a < x ==> seen.contains_key((a, b))
                    && call_ensures(*evaluator, (a, b), seen[(a, b)]) && seen[(a, b)]
                    >= params.max_iterations,
        decreases end_x + 1 - x,
    {
        let mut y: usize = start_y;
        while y <= end_y
            invariant
                accepts_tile(*evaluator, *params),
                end_x < params.tile_width,
                end_y < params.tile_height,
                start_x <= x <= end_x,
                start_y <= y,
                forall|a: usize, b: usize| #[trigger]
                    in_span(a, b, start_x, start_y, end_x, end_y) && (a < x || (a == x && b < y))
                        ==> seen.contains_key((a, b)) && call_ensures(
                        *evaluator,
                        (a, b),
                        seen[(a, b)],
                    ) && seen[(a, b)] >= params.max_iterations,
            decreases end_y + 1 - y,
        {
            assert(params.contains(x, y));
            let escape_iteration = evaluator(x, y);
            if escape_iteration < params.max_iterations {
                proof {
                    assert forall|field: spec_fn(usize, usize) -> usize| #[trigger]
                        computes(*evaluator, field, *params) implies !span_all_black(
                        field,
                        params.max_iterations,
                        start_x,
                        start_y,
                        end_x,
                        end_y,
                    ) by {
                        assert(in_span(x, y, start_x, start_y, end_x, end_y));
                        assert(field(x, y) == escape_iteration);
                    }
                    assert(in_span(x, y, start_x, start_y, end_x, end_y) && call_ensures(
                        *evaluator,
                        (x, y),
                        escape_iteration,
                    ) && escape_iteration < params.max_iterations);
                }
                return false;
            }
            proof {
                seen = seen.insert((x, y), escape_iteration);
            }
            y += 1;
        }
        x += 1;
    }
    proof {
        assert forall|field: spec_fn(usize, usize) -> usize| #[trigger]
            computes(*evaluator, field, *params) implies span_all_black(
            field,
            params.max_iterations,
            start_x,
            start_y,
            end_x,
            end_y,
        ) by {
            assert forall|a: usize, b: usize| #[trigger]
                in_span(a, b, start_x, start_y, end_x, end_y) implies field(a, b)
                >= params.max_iterations by {
                assert(params.contains(a, b));
                assert(call_ensures(*evaluator, (a, b), seen[(a, b)]));
            }
        }
        assert forall|a: usize, b: usize| #[trigger]
            in_span(a, b, start_x, start_y, end_x, end_y) implies exists|r: usize| #[trigger]
            call_ensures(*evaluator, (a, b), r) && r >= params.max_iterations by {
            assert(call_ensures(*evaluator, (a, b), seen[(a, b)]) && seen[(a, b)] >= params.max_iterations);
        }
    }
    true
}

/// Tells whether the whole border of the tile is non-escaping: the top row,
/// the bottom row, the left column and the right column are scanned in that
/// order, and the scan ends at the first pixel that escapes.
pub fn is_perimeter_all_black<F: Fn(usize, usize) -> usize>(params: &Params, evaluator: &F) -> (all_black: bool)
    requires
        params.wf(),
        accepts_tile(*evaluator, *params),
    ensures
        all_black ==> border_seen_black(*evaluator, *params),
        !all_black ==> border_seen_escaping(*evaluator, *params),
        forall|field: spec_fn(usize, usize) -> usize| #[trigger]
            computes(*evaluator, field, *params) ==> all_black == perimeter_all_black(*params, field),
{
    let right = params.tile_width - 1;
    let bottom = params.tile_height - 1;
    let all_black = check_edge(params, evaluator, 0, 0, right, 0) && check_edge(
        params,
        evaluator,
        0,
        bottom,
        right,
        bottom,
    ) && check_edge(params, evaluator, 0, 0, 0, bottom) && check_edge(
        params,
        evaluator,
        right,
        0,
        right,
        bottom,
    );
    proof {
        assert forall|field: spec_fn(usize, usize) -> usize| #[trigger]
            computes(*evaluator, field, *params) implies all_black == perimeter_all_black(
            *params,
            field,
        ) by {
            lemma_perimeter_is_four_edges(*params, field);
        }
        lemma_border_seen_on_four_edges(*evaluator, *params);
    }
    all_black
}

/// What the evaluator returns on the four edges is what it returns on the
/// border.
pub proof fn lemma_border_seen_on_four_edges<F: Fn(usize, usize) -> usize>(evaluator: F, params: Params)
    requires
        params.wf(),
    ensures
        ({
            let right = (params.tile_width - 1) as usize;
            let bottom = (params.tile_height - 1) as usize;
            let max = params.max_iterations;
            &&& span_seen_black(evaluator, max, 0, 0, right, 0) && span_seen_black(
                evaluator,
                max,
                0,
                bottom,
                right,
                bottom,
            ) && span_seen_black(evaluator, max, 0, 0, 0, bottom) && span_seen_black(
                evaluator,
                max,
                right,
                0,
                right,
                bottom,
            ) ==> border_seen_black(evaluator, params)
            &&& span_seen_escaping(evaluator, max, 0, 0, right, 0) || span_seen_escaping(
                evaluator,
                max,
                0,
                bottom,
                right,
                bottom,
            ) || span_seen_escaping(evaluator, max, 0, 0, 0, bottom) || span_seen_escaping(
                evaluator,
                max,
                right,
                0,
                right,
                bottom,
            ) ==> border_seen_escaping(evaluator, params)
        }),
{
    let right = (params.tile_width - 1) as usize;
    let bottom = (params.tile_height - 1) as usize;
    let max = params.max_iterations;
    if span_seen_black(evaluator, max, 0, 0, right, 0) && span_seen_black(evaluator, max, 0, bottom, right, bottom)
        && span_seen_black(evaluator, max, 0, 0, 0, bottom) && span_seen_black(
        evaluator,
        max,
        right,
        0,
        right,
        bottom,
    ) {
        assert forall|x: usize, y: usize| #[trigger] on_perimeter(params, x, y) implies exists|r: usize| #[trigger]
            call_ensures(evaluator, (x, y), r) && r >= max by {
            if y == 0 {
                assert(in_span(x, y, 0, 0, right, 0));
            } else if y == bottom {
                assert(in_span(x, y, 0, bottom, right, bottom));
            } else if x == 0 {
                assert(in_span(x, y, 0, 0, 0, bottom));
            } else {
                assert(in_span(x, y, right, 0, right, bottom));
            }
        }
    }
    if span_seen_escaping(evaluator, max, 0, 0, right, 0) {
        let (x, y, r) = choose|x: usize, y: usize, r: usize|
            in_span(x, y, 0, 0, right, 0) && #[trigger] call_ensures(evaluator, (x, y), r) && r < max;
        assert(on_perimeter(params, x, y));
    }
    if span_seen_escaping(evaluator, max, 0, bottom, right, bottom) {
        let (x, y, r) = choose|x: usize, y: usize, r: usize|
            in_span(x, y, 0, bottom, right, bottom) && #[trigger] call_ensures(evaluator, (x, y), r) && r < max;
        assert(on_perimeter(params, x, y));
    }
    if span_seen_escaping(evaluator, max, 0, 0, 0, bottom) {
        let (x, y, r) = choose|x: usize, y: usize, r: usize|
            in_span(x, y, 0, 0, 0, bottom) && #[trigger] call_ensures(evaluator, (x, y), r) && r < max;
        assert(on_perimeter(params, x, y));
    }
    if span_seen_escaping(evaluator, max, right, 0, right, bottom) {
        let (x, y, r) = choose|x: usize, y: usize, r: usize|
            in_span(x, y, right, 0, right, bottom) && #[trigger] call_ensures(evaluator, (x, y), r) && r < max;
        assert(on_perimeter(params, x, y));
    }
}

/// The border is non-escaping exactly when its four edges are.
pub proof fn lemma_perimeter_is_four_edges(params: Params, field: spec_fn(usize, usize) -> usize)
    requires
        params.wf(),
    ensures
        perimeter_all_black(params, field) <==> {
            let right = (params.tile_width - 1) as usize;
            let bottom = (params.tile_height - 1) as usize;
            let max = params.max_iterations;
            &&& span_all_black(field, max, 0, 0, right, 0)
            &&& span_all_black(field, max, 0, bottom, right, bottom)
            &&& span_all_black(field, max, 0, 0, 0, bottom)
            &&& span_all_black(field, max, right, 0, right, bottom)
        },
{
    let right = (params.tile_width - 1) as usize;
    let bottom = (params.tile_height - 1) as usize;
    let max = params.max_iterations;
    if perimeter_all_black(params, field) {
        assert forall|x: usize, y: usize| #[trigger] in_span(x, y, 0, 0, right, 0) implies field(x, y)
            >= max by {
            assert(on_perimeter(params, x, y));
        }
        assert forall|x: usize, y: usize| #[trigger]
            in_span(x, y, 0, bottom, right, bottom) implies field(x, y) >= max by {
            assert(on_perimeter(params, x, y));
        }
        assert forall|x: usize, y: usize| #[trigger] in_span(x, y, 0, 0, 0, bottom) implies field(x, y)
            >= max by {
            assert(on_perimeter(params, x, y));
        }
        assert forall|x: usize, y: usize| #[trigger]
            in_span(x, y, right, 0, right, bottom) implies field(x, y) >= max by {
            assert(on_perimeter(params, x, y));
        }
    }
    if span_all_black(field, max, 0, 0, right, 0) && span_all_black(field, max, 0, bottom, right, bottom)
        && span_all_black(field, max, 0, 0, 0, bottom) && span_all_black(
        field,
        max,
        right,
        0,
        right,
        bottom,
    ) {
        assert forall|x: usize, y: usize| #[trigger] on_perimeter(params, x, y) implies field(x, y)
            >= max by {
            if y == 0 {
                assert(in_span(x, y, 0, 0, right, 0));
            } else if y == bottom {
                assert(in_span(x, y, 0, bottom, right, bottom));
            } else if x == 0 {
                assert(in_span(x, y, 0, 0, 0, bottom));
            } else {
                assert(in_span(x, y, right, 0, right, bottom));
            }
        }
    }
}

} // verus!
