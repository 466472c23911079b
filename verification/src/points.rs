//! The interactive point set: a list of points that the user can drag.
//!
//! The first request for points installs the set: the caller's points
//! first, then random ones scattered over the middle of the window until
//! there are enough. From then on the list keeps its length and order; a
//! press on a marker selects its point, and every later request moves the
//! selected point by as much as the pointer has moved since the request
//! before.

use crate::error::PlaygroundError;
use crate::geometry::shifted;
use crate::hit::hit_test;
use crate::point::{clone_points, coords, UserPoint};
use crate::pointer::{upd_mouse, upd_touch, MouseInput, PointerTracker, TouchInput};
use crate::random::unit_sample;
use crate::rational::Rational;
use crate::viewport::{get_viewport, inv_canvas_position, Frame, Viewport};
use vstd::prelude::*;

verus! {

/// Which point is being dragged, and where the pointer was when the drag
/// was last accounted for, in CSS pixels.
#[derive(Debug, Clone, Copy, PartialEq, Eq, Structural)]
pub struct Selection {
    pub index: usize,
    pub anchor_x: i32,
    pub anchor_y: i32,
}

/// Where a random sample `(u, v)` of the unit square lands in a window:
/// in its middle, within four fifths of its width and height.
pub open spec fn scatter(window: (real, real), u: real, v: real) -> (real, real) {
    (
        (u - 1real / 2real) * (4real / 5real) * window.0,
        (v - 1real / 2real) * (4real / 5real) * window.1,
    )
}

/// Whether `p` is where some sample of the half-open unit square lands.
pub open spec fn scattered(window: (real, real), p: (real, real)) -> bool {
    exists|u: real, v: real|
        0real <= u < 1real && 0real <= v < 1real && #[trigger] scatter(window, u, v) == p
}

/// Whether `i` is the first index that `marks` marks.
pub open spec fn first_marked(marks: Seq<bool>, i: int) -> bool {
    &&& 0 <= i < marks.len()
    &&& marks[i]
    &&& forall|j: int| 0 <= j < i ==> !#[trigger] marks[j]
}

/// The mathematical content of a [`PointSet`].
pub struct PointSetState {
    /// The managed points, in order.
    pub points: Seq<(real, real)>,
    /// The drag in progress, if any.
    pub selection: Option<Selection>,
    /// Whether the set has been installed.
    pub installed: bool,
}

impl PointSetState {
    /// What holds of every point set: a selection names a point of the
    /// list, and before installation there is neither point nor selection.
    pub open spec fn wf(self) -> bool {
        &&& self.selection matches Some(sel) ==> sel.index < self.points.len()
        &&& !self.installed ==> self.points.len() == 0 && self.selection is None
    }

    /// The state before anything was asked of the set.
    pub open spec fn fresh() -> PointSetState {
        PointSetState { points: Seq::empty(), selection: None, installed: false }
    }

    /// How installation with `n` points wanted and `seed` given leads to
    /// `after`: the seed comes first and in order, random points fill up to
    /// `n`, and nothing is selected.
    pub open spec fn installs(
        self,
        frame: Frame,
        n: nat,
        seed: Seq<(real, real)>,
        after: PointSetState,
    ) -> bool {
        &&& after.installed
        &&& after.selection is None
        &&& after.points.len() == if n > seed.len() {
            n
        } else {
            seed.len()
        }
        &&& after.points.take(seed.len() as int) == seed
        &&& forall|i: int|
            seed.len() <= i < after.points.len() ==> scattered(
                frame.window(),
                #[trigger] after.points[i],
            )
    }

    /// By how much the selected point moves: from where the anchor lies in
    /// user space to where the pointer lies.
    pub open spec fn drag_delta(frame: Frame, sel: Selection, pointer: PointerTracker) -> (
        real,
        real,
    ) {
        let from = frame.user_position(sel.anchor_x as int, sel.anchor_y as int);
        let to = frame.user_position(pointer.x as int, pointer.y as int);
        (to.0 - from.0, to.1 - from.1)
    }

    /// The state after the pending drag is applied: the selected point has
    /// moved with the pointer and the anchor has caught up; without a
    /// selection nothing changes.
    pub open spec fn dragged(self, frame: Frame, pointer: PointerTracker) -> PointSetState {
        match self.selection {
            None => self,
            Some(sel) => {
                let delta = Self::drag_delta(frame, sel, pointer);
                let was = self.points[sel.index as int];
                PointSetState {
                    points: self.points.update(
                        sel.index as int,
                        (was.0 + delta.0, was.1 + delta.1),
                    ),
                    selection: Some(
                        Selection { index: sel.index, anchor_x: pointer.x, anchor_y: pointer.y },
                    ),
                    installed: self.installed,
                }
            },
        }
    }

    /// Why a request for points fails, if it does: installation needs the
    /// size of the window to scatter random points, and a drag needs the
    /// inverse of the transform.
    pub open spec fn refusal(self, frame: Frame, n: nat, seed_len: nat) -> Option<
        PlaygroundError,
    > {
        if !self.installed {
            if n > seed_len && frame.matrix.a == 0real {
                Some(PlaygroundError::ZeroScale)
            } else {
                None
            }
        } else if self.selection is Some && !frame.matrix.invertible() {
            Some(PlaygroundError::SingularTransform)
        } else {
            None
        }
    }

    /// How a request for `n` points, with `seed` given, leads from this
    /// state to `after` and to its outcome.
    pub open spec fn request(
        self,
        frame: Frame,
        pointer: PointerTracker,
        n: nat,
        seed: Seq<(real, real)>,
        after: PointSetState,
        outcome: Result<Seq<(real, real)>, PlaygroundError>,
    ) -> bool {
        match outcome {
            Ok(points) => {
                &&& self.refusal(frame, n, seed.len()) is None
                &&& points == after.points
                &&& if self.installed {
                    after == self.dragged(frame, pointer)
                } else {
                    self.installs(frame, n, seed, after)
                }
            },
            Err(e) => self.refusal(frame, n, seed.len()) == Some(e) && after == self,
        }
    }

    /// The first point, in order, whose marker the pointer is on.
    pub open spec fn first_hit(self, frame: Frame, pointer: PointerTracker, i: int) -> bool {
        &&& 0 <= i < self.points.len()
        &&& frame.hits(self.points[i], pointer.x as int, pointer.y as int)
        &&& forall|j: int|
            0 <= j < i ==> !frame.hits(
                #[trigger] self.points[j],
                pointer.x as int,
                pointer.y as int,
            )
    }

    /// Whether the pointer is on no marker at all.
    pub open spec fn no_hit(self, frame: Frame, pointer: PointerTracker) -> bool {
        forall|j: int|
            0 <= j < self.points.len() ==> !frame.hits(
                #[trigger] self.points[j],
                pointer.x as int,
                pointer.y as int,
            )
    }

    /// The marks that count for this set: one for each point, as far as
    /// there are marks.
    pub open spec fn marks(self, hits: Seq<bool>) -> Seq<bool> {
        hits.take(
            if hits.len() < self.points.len() {
                hits.len() as int
            } else {
                self.points.len() as int
            },
        )
    }

    /// How a press leads to `after` when `hits` says, point by point, which
    /// markers the pointer is on: the first point marked becomes the
    /// selection, anchored at the pointer; where none is marked nothing
    /// changes.
    pub open spec fn picks(
        self,
        hits: Seq<bool>,
        pointer: PointerTracker,
        after: PointSetState,
    ) -> bool {
        let marks = self.marks(hits);
        &&& after.points == self.points
        &&& after.installed == self.installed
        &&& (forall|j: int| 0 <= j < marks.len() ==> !#[trigger] marks[j]) ==> after.selection
            == self.selection
        &&& forall|i: int| #[trigger]
            first_marked(marks, i) ==> after.selection == Some(
                Selection { index: i as usize, anchor_x: pointer.x, anchor_y: pointer.y },
            )
    }

    /// How a press at the pointer position leads to `after`: the first
    /// point hit becomes the selection, anchored at the pointer; a press on
    /// no marker changes nothing.
    pub open spec fn selects(
        self,
        frame: Frame,
        pointer: PointerTracker,
        after: PointSetState,
    ) -> bool {
        &&& after.points == self.points
        &&& after.installed == self.installed
        &&& self.no_hit(frame, pointer) ==> after.selection == self.selection
        &&& forall|i: int| #[trigger]
            self.first_hit(frame, pointer, i) ==> after.selection == Some(
                Selection { index: i as usize, anchor_x: pointer.x, anchor_y: pointer.y },
            )
    }
}

/// The managed point set.
pub struct PointSet {
    points: Vec<UserPoint>,
    selection: Option<Selection>,
    installed: bool,
}

impl View for PointSet {
    type V = PointSetState;

    closed spec fn view(&self) -> PointSetState {
        PointSetState {
            points: coords(self.points@),
            selection: self.selection,
            installed: self.installed,
        }
    }
}

impl PointSet {
    #[verifier::type_invariant]
    spec fn well_formed(self) -> bool {
        self@.wf()
    }

    /// A set that has not been installed yet.
    pub fn new() -> (set: PointSet)
        ensures
            set@ == PointSetState::fresh(),
    {
        let set = PointSet { points: Vec::new(), selection: None, installed: false };
        assert(set@.points =~= Seq::empty());
        set
    }

    /// Whether the set has been installed.
    pub fn is_installed(&self) -> (b: bool)
        ensures
            b == self@.installed,
    {
        self.installed
    }

    /// The drag in progress, if any.
    pub fn selection(&self) -> (sel: Option<Selection>)
        ensures
            sel == self@.selection,
            self@.wf(),
    {
        proof {
            use_type_invariant(self);
        }
        self.selection
    }

    /// The number of managed points.
    pub fn len(&self) -> (n: usize)
        ensures
            n == self@.points.len(),
    {
        self.points.len()
    }

    /// A copy of the managed points as they stand, with no drag applied.
    pub fn snapshot(&self) -> (points: Vec<UserPoint>)
        ensures
            coords(points@) == self@.points,
    {
        clone_points(&self.points)
    }
}

/// The point where the sample `(u, v)` of the unit square lands in a window
/// of `vw` by `vh` user units.
pub fn scatter_point(vw: &Rational, vh: &Rational, u: &Rational, v: &Rational) -> (p: UserPoint)
    ensures
        p@ == scatter((vw@, vh@), u@, v@),
{
    let half = Rational::new(1, 2);
    let spread = Rational::new(4, 5);
    let x = u.minus(&half).times(&spread).times(vw);
    let y = v.minus(&half).times(&spread).times(vh);
    UserPoint { x, y }
}

/// The managed points, `n` of them at least. See [`with_points_from`].
pub fn get_points(set: &mut PointSet, pointer: &PointerTracker, view: &Viewport, n: usize) -> (r:
    Result<Vec<UserPoint>, PlaygroundError>)
    ensures
        final(set)@.wf(),
        old(set)@.request(
            view@,
            *pointer,
            n as nat,
            Seq::empty(),
            final(set)@,
            match r {
                Ok(points) => Ok(coords(points@)),
                Err(e) => Err(e),
            },
        ),
{
    with_points(set, pointer, view, n)
}

/// The managed points, `n` of them at least. See [`with_points_from`].
pub fn with_points(set: &mut PointSet, pointer: &PointerTracker, view: &Viewport, n: usize) -> (r:
    Result<Vec<UserPoint>, PlaygroundError>)
    ensures
        final(set)@.wf(),
        old(set)@.request(
            view@,
            *pointer,
            n as nat,
            Seq::empty(),
            final(set)@,
            match r {
                Ok(points) => Ok(coords(points@)),
                Err(e) => Err(e),
            },
        ),
{
    let seed: Vec<UserPoint> = Vec::new();
    assert(coords(seed@) =~= Seq::empty());
    with_points_from(set, pointer, view, n, seed)
}

/// Asks for the managed points.
///
/// The first request installs the set from `seed` and as many random points
/// as `n` asks for beyond it. Every later request applies the pending drag,
/// if a point is selected. Either way the answer is a copy of the list as
/// it then stands. A request that fails changes nothing.
pub fn with_points_from(
    set: &mut PointSet,
    pointer: &PointerTracker,
    view: &Viewport,
    n: usize,
    seed: Vec<UserPoint>,
) -> (r: Result<Vec<UserPoint>, PlaygroundError>)
    ensures
        final(set)@.wf(),
        old(set)@.request(
            view@,
            *pointer,
            n as nat,
            coords(seed@),
            final(set)@,
            match r {
                Ok(points) => Ok(coords(points@)),
                Err(e) => Err(e),
            },
        ),
{
    proof {
        use_type_invariant(&*set);
    }
    if !set.installed {
        let ghost given = coords(seed@);
        let mut points = seed;
        if points.len() < n {
            let (vw, vh) = match get_viewport(view) {
                Ok(window) => window,
                Err(e) => {
                    return Err(e);
                },
            };
            while points.len() < n
                invariant
                    given.len() <= points.len() <= n,
                    coords(points@).take(given.len() as int) == given,
                    (vw@, vh@) == view@.window(),
                    forall|i: int|
                        given.len() <= i < points.len() ==> scattered(
                            view@.window(),
                            #[trigger] coords(points@)[i],
                        ),
                decreases n - points.len(),
            {
                let u = unit_sample();
                let v = unit_sample();
                let p = scatter_point(&vw, &vh, &u, &v);
                let ghost before = coords(points@);
                points.push(p);
                proof {
                    assert(coords(points@) =~= before.push(p@));
                    assert(coords(points@).take(given.len() as int) =~= before.take(
                        given.len() as int,
                    ));
                    assert(scatter(view@.window(), u@, v@) == p@);
                }
            }
        } else {
            assert(coords(points@).take(given.len() as int) =~= given);
        }
        let copy = clone_points(&points);
        *set = PointSet { points, selection: None, installed: true };
        return Ok(copy);
    }
    match set.selection {
        None => Ok(clone_points(&set.points)),
        Some(sel) => {
            let from = match inv_canvas_position(view, sel.anchor_x, sel.anchor_y) {
                Ok(p) => p,
                Err(e) => {
                    return Err(e);
                },
            };
            let to = match inv_canvas_position(view, pointer.x, pointer.y) {
                Ok(p) => p,
                Err(e) => {
                    return Err(e);
                },
            };
            let dx = to.x.minus(&from.x);
            let dy = to.y.minus(&from.y);
            let moved = shifted(&set.points[sel.index], &dx, &dy);
            let ghost before = coords(set.points@);
            set.points[sel.index] = moved;
            assert(coords(set.points@) =~= before.update(sel.index as int, moved@));
            set.selection = Some(
                Selection { index: sel.index, anchor_x: pointer.x, anchor_y: pointer.y },
            );
            Ok(clone_points(&set.points))
        },
    }
}

/// A press at the pointer position: the first point whose marker is hit
/// becomes the selection.
pub fn handle_select(set: &mut PointSet, pointer: &PointerTracker, view: &Viewport)
    ensures
        final(set)@.wf(),
        old(set)@.selects(view@, *pointer, final(set)@),
{
    proof {
        use_type_invariant(&*set);
    }
    let mut i: usize = 0;
    while i < set.points.len()
        invariant
            i <= set.points.len(),
            *set == *old(set),
            set@.wf(),
            forall|j: int|
                0 <= j < i ==> !view@.hits(
                    #[trigger] set@.points[j],
                    pointer.x as int,
                    pointer.y as int,
                ),
        decreases set.points.len() - i,
    {
        if hit_test(view, &set.points[i], pointer.x, pointer.y) {
            set.selection = Some(Selection { index: i, anchor_x: pointer.x, anchor_y: pointer.y });
            proof {
                assert(old(set)@.first_hit(view@, *pointer, i as int));
                assert forall|k: int| #[trigger]
                    old(set)@.first_hit(view@, *pointer, k) implies k == i by {
                    if k < i {
                        assert(!view@.hits(
                            old(set)@.points[k],
                            pointer.x as int,
                            pointer.y as int,
                        ));
                    } else if k > i {
                        assert(view@.hits(
                            old(set)@.points[i as int],
                            pointer.x as int,
                            pointer.y as int,
                        ));
                    }
                }
            }
            return ;
        }
        i += 1;
    }
    proof {
        assert(old(set)@.no_hit(view@, *pointer));
        assert forall|k: int| #[trigger] old(set)@.first_hit(view@, *pointer, k) implies false by {
            assert(!view@.hits(old(set)@.points[k], pointer.x as int, pointer.y as int));
        }
    }
}

/// A press at the pointer position, for a host that has asked its drawing
/// surface which markers the pointer is on: `hits` holds the answer for
/// each point of the list, in order. The first point marked becomes the
/// selection.
pub fn handle_hits(set: &mut PointSet, pointer: &PointerTracker, hits: &Vec<bool>)
    ensures
        final(set)@.wf(),
        old(set)@.picks(hits@, *pointer, final(set)@),
{
    proof {
        use_type_invariant(&*set);
    }
    let ghost marks = set@.marks(hits@);
    let mut i: usize = 0;
    while i < set.points.len() && i < hits.len()
        invariant
            i <= set.points.len(),
            i <= hits.len(),
            *set == *old(set),
            set@.wf(),
            marks == set@.marks(hits@),
            forall|j: int| 0 <= j < i ==> !#[trigger] marks[j],
        decreases set.points.len() - i,
    {
        if hits[i] {
            set.selection = Some(Selection { index: i, anchor_x: pointer.x, anchor_y: pointer.y });
            proof {
                assert(marks[i as int]);
                assert forall|k: int| #[trigger] first_marked(marks, k) implies k == i by {
                    if k < i {
                        assert(!marks[k]);
                    } else if k > i {
                        assert(marks[i as int]);
                    }
                }
            }
            return ;
        }
        i += 1;
    }
    proof {
        assert forall|k: int| #[trigger] first_marked(marks, k) implies false by {
            assert(!marks[k]);
        }
    }
}

/// A mouse button went down: the pointer is where the event says, and a
/// marker under it is selected.
pub fn handle_mousedown(
    set: &mut PointSet,
    pointer: &mut PointerTracker,
    view: &Viewport,
    event: &MouseInput,
)
    ensures
        final(pointer)@ == (event.offset_x as int, event.offset_y as int),
        final(set)@.wf(),
        old(set)@.selects(view@, *final(pointer), final(set)@),
{
    upd_mouse(pointer, event);
    handle_select(set, pointer, view);
}

/// A finger came down: the pointer is where the first finger is, and a
/// marker under it is selected.
pub fn handle_touchstart(
    set: &mut PointSet,
    pointer: &mut PointerTracker,
    view: &Viewport,
    event: &TouchInput,
)
    requires
        event.touches@.len() > 0,
    ensures
        final(pointer)@ == (
            event.touches@[0].client_x as int,
            event.touches@[0].client_y as int,
        ),
        final(set)@.wf(),
        old(set)@.selects(view@, *final(pointer), final(set)@),
{
    upd_touch(pointer, event);
    handle_select(set, pointer, view);
}

/// The button or the finger went up: the drag is over.
pub fn handle_release(set: &mut PointSet)
    ensures
        final(set)@ == (PointSetState { selection: None, ..old(set)@ }),
        final(set)@.wf(),
{
    proof {
        use_type_invariant(&*set);
    }
    set.selection = None;
}

/// A finger moved. The answer says whether the host must keep the event
/// from scrolling the page: it must while a point is being dragged.
pub fn handle_touchmove(set: &PointSet) -> (prevent_default: bool)
    ensures
        prevent_default == set@.selection is Some,
{
    set.selection.is_some()
}

} // verus!
