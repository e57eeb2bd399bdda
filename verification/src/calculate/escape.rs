//! Escape-time iteration over an orbit in any number type.

use vstd::prelude::*;

verus! {

/// Whatever `step` returns for a point is the value of `next` there.
pub open spec fn step_computes<Z, S: Fn(Z) -> Z>(step: S, next: spec_fn(Z) -> Z) -> bool {
    forall|z: Z, r: Z| #[trigger] call_ensures(step, (z,), r) ==> r == next(z)
}

/// Whatever `bounded` returns for a point is the value of `inside` there.
pub open spec fn test_computes<Z, B: Fn(&Z) -> bool>(bounded: B, inside: spec_fn(Z) -> bool) -> bool {
    forall|z: &Z, r: bool| #[trigger] call_ensures(bounded, (z,), r) ==> r == inside(*z)
}

/// The point reached from `origin` after `n` applications of `next`.
pub open spec fn orbit<Z>(next: spec_fn(Z) -> Z, origin: Z, n: nat) -> Z
    decreases n,
{
    if n == 0 {
        origin
    } else {
        next(orbit(next, origin, (n - 1) as nat))
    }
}

/// `n` is the escape-iteration count of the orbit: the orbit stays inside
/// the bounded region for its first `n` points, and either `n` is the bound
/// on the count or the point after those is outside.
pub open spec fn escapes_at<Z>(
    next: spec_fn(Z) -> Z,
    inside: spec_fn(Z) -> bool,
    origin: Z,
    max_iterations: usize,
    n: usize,
) -> bool {
    &&& n <= max_iterations
    &&& forall|k: nat| k < n ==> inside(#[trigger] orbit(next, origin, k))
    &&& n < max_iterations ==> !inside(orbit(next, origin, n as nat))
}

/// `trace` records a run of `len` iterations from `origin`: each point but
/// the last was found inside the bounded region and then moved by `step` to
/// the point after it.
spec fn follows<Z, S: Fn(Z) -> Z, B: Fn(&Z) -> bool>(
    step: S,
    bounded: B,
    origin: Z,
    trace: Seq<Z>,
    len: nat,
) -> bool {
    &&& trace.len() == len + 1
    &&& trace[0] == origin
    &&& forall|k: int|
        0 <= k < len ==> call_ensures(bounded, (&#[trigger] trace[k],), true) && call_ensures(
            step,
            (trace[k],),
            trace[k + 1],
        )
}

/// Counts the iterations of an orbit until it leaves the bounded region, up
/// to `max_iterations`: `step` moves a point to the next one and `bounded`
/// tells whether a point is still inside.
pub fn get_escape_iteration<Z, S: Fn(Z) -> Z, B: Fn(&Z) -> bool>(
    origin: Z,
    max_iterations: usize,
    step: &S,
    bounded: &B,
) -> (escape_iteration: usize)
    requires
        forall|z: Z| call_requires(*step, (z,)),
        forall|z: &Z| call_requires(*bounded, (z,)),
    ensures
        escape_iteration <= max_iterations,
        forall|next: spec_fn(Z) -> Z, inside: spec_fn(Z) -> bool|
            #![trigger step_computes(*step, next), test_computes(*bounded, inside)]
            step_computes(*step, next) && test_computes(*bounded, inside) ==> escapes_at(
                next,
                inside,
                origin,
                max_iterations,
                escape_iteration,
            ),
{
    let ghost mut trace: Seq<Z> = seq![origin];
    let mut z = origin;
    let mut count: usize = 0;
    while count < max_iterations
        invariant
            forall|z: Z| call_requires(*step, (z,)),
            forall|z: &Z| call_requires(*bounded, (z,)),
            count <= max_iterations,
            follows(*step, *bounded, origin, trace, count as nat),
            z == trace[count as int],
        decreases max_iterations - count,
    {
        if !bounded(&z) {
            proof {
                assert forall|next: spec_fn(Z) -> Z, inside: spec_fn(Z) -> bool|
                    #![trigger step_computes(*step, next), test_computes(*bounded, inside)]
                    step_computes(*step, next) && test_computes(*bounded, inside) implies escapes_at(
                    next,
                    inside,
                    origin,
                    max_iterations,
                    count,
                ) by {
                    lemma_trace_is_orbit(*step, *bounded, next, inside, origin, trace, count as nat);
                    assert(call_ensures(*bounded, (&z,), false));
                    assert(z == orbit(next, origin, count as nat));
                }
            }
            return count;
        }
        assert(call_ensures(*bounded, (&z,), true));
        let ghost before = z;
        z = step(z);
        proof {
            assert(call_ensures(*step, (before,), z));
            trace = trace.push(z);
        }
        count += 1;
    }
    proof {
        assert forall|next: spec_fn(Z) -> Z, inside: spec_fn(Z) -> bool|
            #![trigger step_computes(*step, next), test_computes(*bounded, inside)]
            step_computes(*step, next) && test_computes(*bounded, inside) implies escapes_at(
            next,
            inside,
            origin,
            max_iterations,
            count,
        ) by {
            lemma_trace_is_orbit(*step, *bounded, next, inside, origin, trace, count as nat);
        }
    }
    count
}

/// A recorded run walks along the orbit, and all of its points but the last
/// are inside the bounded region.
proof fn lemma_trace_is_orbit<Z, S: Fn(Z) -> Z, B: Fn(&Z) -> bool>(
    step: S,
    bounded: B,
    next: spec_fn(Z) -> Z,
    inside: spec_fn(Z) -> bool,
    origin: Z,
    trace: Seq<Z>,
    len: nat,
)
    requires
        follows(step, bounded, origin, trace, len),
        step_computes(step, next),
        test_computes(bounded, inside),
    ensures
        forall|k: nat| k <= len ==> trace[k as int] == #[trigger] orbit(next, origin, k),
        forall|k: nat| k < len ==> inside(#[trigger] orbit(next, origin, k)),
    decreases len,
{
    if len > 0 {
        let last = (len - 1) as nat;
        let shorter = trace.subrange(0, len as int);
        assert(shorter.len() == len);
        assert forall|k: int| 0 <= k < len implies shorter[k] == trace[k] by {}
        assert(follows(step, bounded, origin, shorter, last)) by {
            assert forall|k: int| 0 <= k < last implies call_ensures(
                bounded,
                (&#[trigger] shorter[k],),
                true,
            ) && call_ensures(step, (shorter[k],), shorter[k + 1]) by {
                assert(call_ensures(bounded, (&trace[k],), true));
                assert(shorter[k + 1] == trace[k + 1]);
            }
        }
        lemma_trace_is_orbit(step, bounded, next, inside, origin, shorter, last);
        assert(trace[last as int] == orbit(next, origin, last));
        assert(call_ensures(bounded, (&trace[last as int],), true));
        assert(call_ensures(step, (trace[last as int],), trace[last as int + 1]));
        assert(orbit(next, origin, len) == next(orbit(next, origin, last)));
        assert forall|k: nat| k <= len implies trace[k as int] == #[trigger] orbit(next, origin, k) by {
            if k < len {
                assert(shorter[k as int] == trace[k as int]);
            }
        }
        assert forall|k: nat| k < len implies inside(#[trigger] orbit(next, origin, k)) by {
            if k == last {
                assert(inside(trace[last as int]));
            }
        }
    }
}

/// An orbit has one escape-iteration count.
pub proof fn lemma_escape_iteration_unique<Z>(
    next: spec_fn(Z) -> Z,
    inside: spec_fn(Z) -> bool,
    origin: Z,
    max_iterations: usize,
    first: usize,
    second: usize,
)
    requires
        escapes_at(next, inside, origin, max_iterations, first),
        escapes_at(next, inside, origin, max_iterations, second),
    ensures
        first == second,
{
    if first < second {
        assert(inside(orbit(next, origin, first as nat)));
    }
    if second < first {
        assert(inside(orbit(next, origin, second as nat)));
    }
}

} // verus!
