//! What holds of the interactive point set, whatever the random points and
//! whatever the pointer does.

use crate::algebra::{
    lemma_div_difference, lemma_mul_distributes, lemma_mul_monotone, lemma_mul_signs,
};
use crate::error::PlaygroundError;
use crate::pointer::PointerTracker;
use crate::points::{first_marked, scatter, scattered, PointSetState, Selection};
use crate::viewport::Frame;
use crate::viewport_laws::lemma_user_position_fitted;
use vstd::prelude::*;

verus! {

/// The first request that succeeds answers with as many points as were
/// asked for, or as many as were given if that is more, and the given
/// points come first, unchanged and in order.
pub proof fn lemma_first_request_keeps_seed(
    before: PointSetState,
    frame: Frame,
    pointer: PointerTracker,
    n: nat,
    seed: Seq<(real, real)>,
    after: PointSetState,
    points: Seq<(real, real)>,
)
    requires
        !before.installed,
        before.request(frame, pointer, n, seed, after, Ok(points)),
    ensures
        points.len() == if n > seed.len() {
            n
        } else {
            seed.len()
        },
        forall|i: int| 0 <= i < seed.len() ==> points[i] == seed[i],
        after.installed,
{
    assert forall|i: int| 0 <= i < seed.len() implies points[i] == seed[i] by {
        assert(points.take(seed.len() as int)[i] == points[i]);
    }
}

/// Installation happens once: a request to an installed set never changes
/// the number of points, whatever it asks for.
pub proof fn lemma_installed_set_keeps_length(
    before: PointSetState,
    frame: Frame,
    pointer: PointerTracker,
    n: nat,
    seed: Seq<(real, real)>,
    after: PointSetState,
    outcome: Result<Seq<(real, real)>, PlaygroundError>,
)
    requires
        before.wf(),
        before.installed,
        before.request(frame, pointer, n, seed, after, outcome),
    ensures
        after.installed,
        after.points.len() == before.points.len(),
{
}

/// While nothing is selected, a request to an installed set always
/// succeeds, changes nothing and answers with the list as it stands. So
/// two requests in a row, with no drag between them, give equal lists.
pub proof fn lemma_idle_requests_agree(
    first: PointSetState,
    frame1: Frame,
    pointer1: PointerTracker,
    n1: nat,
    seed1: Seq<(real, real)>,
    between: PointSetState,
    points1: Seq<(real, real)>,
    frame2: Frame,
    pointer2: PointerTracker,
    n2: nat,
    seed2: Seq<(real, real)>,
    last: PointSetState,
    outcome2: Result<Seq<(real, real)>, PlaygroundError>,
)
    requires
        first.request(frame1, pointer1, n1, seed1, between, Ok(points1)),
        between.selection is None,
        between.request(frame2, pointer2, n2, seed2, last, outcome2),
    ensures
        outcome2 == Ok::<Seq<(real, real)>, PlaygroundError>(points1),
        last == between,
{
}

/// A request during a drag moves the selected point and no other: every
/// other point of the answer is where the list had it before, and the list
/// is as long as before.
pub proof fn lemma_drag_moves_one_point(
    before: PointSetState,
    frame: Frame,
    pointer: PointerTracker,
    n: nat,
    seed: Seq<(real, real)>,
    after: PointSetState,
    points: Seq<(real, real)>,
    sel: Selection,
)
    requires
        before.wf(),
        before.selection == Some(sel),
        before.request(frame, pointer, n, seed, after, Ok(points)),
    ensures
        points.len() == before.points.len(),
        forall|j: int| 0 <= j < points.len() && j != sel.index ==> points[j] == before.points[j],
        points[sel.index as int] == (
            before.points[sel.index as int].0 + PointSetState::drag_delta(frame, sel, pointer).0,
            before.points[sel.index as int].1 + PointSetState::drag_delta(frame, sel, pointer).1,
        ),
        after.selection == Some(
            Selection { index: sel.index, anchor_x: pointer.x, anchor_y: pointer.y },
        ),
{
}

/// Under a fitted viewport of scale `s`, a drag moves the point by the
/// displacement of the pointer in backing pixels divided by `s`: to the
/// right with the pointer, and up when the pointer goes up the surface.
pub proof fn lemma_drag_delta_fitted(frame: Frame, s: real, sel: Selection, pointer: PointerTracker)
    requires
        s != 0real,
        frame.matrix == frame.fitted_matrix(s),
    ensures
        PointSetState::drag_delta(frame, sel, pointer) == (
            (pointer.x - sel.anchor_x) as real * frame.pixel_ratio / s,
            (sel.anchor_y - pointer.y) as real * frame.pixel_ratio / s,
        ),
{
    let dpr = frame.pixel_ratio;
    let wide = frame.width as real / 2real;
    let high = frame.height as real / 2real;
    let px = pointer.x as real;
    let py = pointer.y as real;
    let ax = sel.anchor_x as real;
    let ay = sel.anchor_y as real;
    lemma_user_position_fitted(frame, s, pointer.x as int, pointer.y as int);
    lemma_user_position_fitted(frame, s, sel.anchor_x as int, sel.anchor_y as int);
    lemma_div_difference(px * dpr - wide, ax * dpr - wide, s);
    lemma_div_difference(high - py * dpr, high - ay * dpr, s);
    lemma_mul_distributes(dpr, px, ax);
    lemma_mul_distributes(dpr, ay, py);
}

/// A press changes the selection at most: the points stay where they are.
pub proof fn lemma_press_keeps_points(
    before: PointSetState,
    frame: Frame,
    pointer: PointerTracker,
    after: PointSetState,
)
    requires
        before.selects(frame, pointer, after),
    ensures
        after.points == before.points,
{
}

/// A press decided from marks agrees with a press decided by the hit test,
/// as long as the marks are what the hit test says of each point.
pub proof fn lemma_marks_of_the_hit_test(
    before: PointSetState,
    frame: Frame,
    pointer: PointerTracker,
    hits: Seq<bool>,
    after: PointSetState,
)
    requires
        hits.len() == before.points.len(),
        forall|i: int|
            0 <= i < hits.len() ==> #[trigger] hits[i] == frame.hits(
                before.points[i],
                pointer.x as int,
                pointer.y as int,
            ),
        before.picks(hits, pointer, after),
    ensures
        before.selects(frame, pointer, after),
{
    let marks = before.marks(hits);
    assert(marks =~= hits);
    if before.no_hit(frame, pointer) {
        assert forall|j: int| 0 <= j < marks.len() implies !#[trigger] marks[j] by {
            assert(!frame.hits(before.points[j], pointer.x as int, pointer.y as int));
        }
    }
    assert forall|i: int| #[trigger] before.first_hit(frame, pointer, i) implies after.selection
        == Some(Selection { index: i as usize, anchor_x: pointer.x, anchor_y: pointer.y }) by {
        assert(marks[i]);
        assert forall|j: int| 0 <= j < i implies !#[trigger] marks[j] by {
            assert(!frame.hits(before.points[j], pointer.x as int, pointer.y as int));
        }
        assert(first_marked(marks, i));
    }
}

/// The absolute value of a real number.
pub open spec fn magnitude(x: real) -> real {
    if x < 0real {
        -x
    } else {
        x
    }
}

/// A scattered coordinate stays within two fifths of the window's extent
/// on either side of the origin.
proof fn lemma_scatter_bound(u: real, extent: real)
    requires
        0real <= u < 1real,
    ensures
        magnitude((u - 1real / 2real) * (4real / 5real) * extent) <= 2real / 5real * magnitude(
            extent,
        ),
{
    let t = (u - 1real / 2real) * (4real / 5real);
    let m = 2real / 5real;
    let e = magnitude(extent);
    assert(-m <= t <= m);
    // |t * extent| is t * e or -(t * e), and both are at most m * e.
    lemma_mul_monotone(t, m, e);
    lemma_mul_monotone(-m, t, e);
    lemma_mul_signs(m, e);
    lemma_mul_signs(t, extent);
}

/// Every random point of an installed set lies in the middle of the window:
/// within two fifths of its width and of its height from the origin.
pub proof fn lemma_scattered_within_window(window: (real, real), p: (real, real))
    requires
        scattered(window, p),
    ensures
        magnitude(p.0) <= 2real / 5real * magnitude(window.0),
        magnitude(p.1) <= 2real / 5real * magnitude(window.1),
{
    let (u, v) = choose|u: real, v: real|
        0real <= u < 1real && 0real <= v < 1real && #[trigger] scatter(window, u, v) == p;
    lemma_scatter_bound(u, window.0);
    lemma_scatter_bound(v, window.1);
}

} // verus!
