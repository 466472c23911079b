//! The interactive polygon: a simple polygon kept over the managed points.
//!
//! The polygon itself belongs to `rgeometry`, which builds it from the
//! points by two-opt moves and repairs it after the points have moved. What
//! this module states of those routines is taken on trust from their source.

use crate::error::{PlaygroundError, PolygonError};
use crate::point::{coords, UserPoint};
use crate::pointer::PointerTracker;
use crate::points::{with_points, PointSet, PointSetState};
use crate::rational::Rational;
use crate::viewport::{Frame, Viewport};
use num::BigRational;
use rgeometry::algorithms::polygonization::{resolve_self_intersections, two_opt_moves};
use rgeometry::data::{Point, Polygon};
use vstd::prelude::*;

verus! {

/// `rgeometry::data::Polygon`. Its fields are private; what it holds is
/// named by [`polygon_vertices`], [`polygon_boundary`], [`polygon_rings`]
/// and [`polygon_proper`].
#[verifier::external_type_specification]
#[verifier::external_body]
#[verifier::reject_recursive_types(T)]
pub struct ExPolygon<T>(Polygon<T>);

/// `rgeometry::Error`, a plain list of failures, read variant by variant.
#[verifier::external_type_specification]
pub struct ExGeometryError(rgeometry::Error);

/// The vertices that a polygon stores, in the order of `Polygon::iter`.
pub uninterp spec fn polygon_vertices(p: Polygon<BigRational>) -> Seq<(real, real)>;

/// The boundary of a polygon: the indices of its vertices in the order in
/// which `Polygon::iter_boundary` walks them.
pub uninterp spec fn polygon_boundary(p: Polygon<BigRational>) -> Seq<int>;

/// The number of rings of a polygon: one for the boundary and one for each
/// hole.
pub uninterp spec fn polygon_rings(p: Polygon<BigRational>) -> nat;

/// Whether every coordinate that a polygon holds is a ratio with a positive
/// denominator, as the arithmetic of `num` wants it.
pub uninterp spec fn polygon_proper(p: Polygon<BigRational>) -> bool;

/// Twice the signed area of the triangle `p`, `q`, `r`: zero where the three
/// points lie on one line.
pub open spec fn turn(p: (real, real), q: (real, real), r: (real, real)) -> real {
    (q.0 - p.0) * (r.1 - p.1) - (q.1 - p.1) * (r.0 - p.0)
}

/// Whether all the points lie on one line.
pub open spec fn on_one_line(points: Seq<(real, real)>) -> bool {
    forall|i: int, j: int, k: int|
        #![trigger points[i], points[j], points[k]]
        0 <= i < points.len() && 0 <= j < points.len() && 0 <= k < points.len() ==> turn(
            points[i],
            points[j],
            points[k],
        ) == 0real
}

/// The point a part `t` of the way from `a` to `b`.
pub open spec fn along(a: (real, real), b: (real, real), t: real) -> (real, real) {
    (a.0 + t * (b.0 - a.0), a.1 + t * (b.1 - a.1))
}

/// Whether `p` comes before `q` in the order of points: further left, or
/// lower where neither is further left.
pub open spec fn before(p: (real, real), q: (real, real)) -> bool {
    p.0 < q.0 || (p.0 == q.0 && p.1 < q.1)
}

/// The mathematical content of a [`SimplePolygon`].
pub struct Outline {
    /// The vertices, in the order in which they were given.
    pub vertices: Seq<(real, real)>,
    /// The order in which the boundary visits the vertices.
    pub boundary: Seq<int>,
}

impl Outline {
    /// There are at least three vertices, and the boundary visits every
    /// one of them exactly once.
    pub open spec fn wf(self) -> bool {
        &&& self.vertices.len() >= 3
        &&& self.boundary.len() == self.vertices.len()
        &&& self.boundary.no_duplicates()
        &&& forall|i: int|
            0 <= i < self.boundary.len() ==> 0 <= #[trigger] self.boundary[i]
                < self.vertices.len()
    }

    /// The vertices in boundary order.
    pub open spec fn path(self) -> Seq<(real, real)> {
        Seq::new(self.boundary.len(), |i: int| self.vertices[self.boundary[i]])
    }

    /// The corner at which the edge `i` of the boundary starts. The edge
    /// after the last starts at the first corner again.
    pub open spec fn corner(self, i: int) -> (real, real) {
        self.path()[i % (self.boundary.len() as int)]
    }

    /// The edge that follows the edge `i` on the way round.
    pub open spec fn following(self, i: int) -> int {
        if i + 1 == self.boundary.len() {
            0
        } else {
            i + 1
        }
    }

    /// Whether the edges `i` and `j` have a point in common: the point a
    /// part `s` of the way along the one, and `t` along the other.
    pub open spec fn edges_meet(self, i: int, j: int, s: real, t: real) -> bool {
        &&& 0real <= s <= 1real
        &&& 0real <= t <= 1real
        &&& along(self.corner(i), self.corner(i + 1), s) == along(
            self.corner(j),
            self.corner(j + 1),
            t,
        )
    }

    /// The boundary is simple: two of its edges have no point in common but
    /// the corner at which the one ends and the next begins.
    pub open spec fn simple(self) -> bool {
        forall|i: int, j: int, s: real, t: real|
            0 <= i < self.boundary.len() && 0 <= j < self.boundary.len() && i != j
                && #[trigger] self.edges_meet(i, j, s, t) ==> (j == self.following(i) && s
                == 1real && t == 0real) || (i == self.following(j) && s == 0real && t == 1real)
    }

    /// Whether the corner `i` is the first in the order of points.
    pub open spec fn foremost(self, i: int) -> bool {
        &&& 0 <= i < self.boundary.len()
        &&& forall|j: int|
            0 <= j < self.boundary.len() ==> !before(#[trigger] self.corner(j), self.corner(i))
    }

    /// The boundary runs counter-clockwise: it turns left at its foremost
    /// corner.
    pub open spec fn counter_clockwise(self) -> bool {
        exists|i: int| #[trigger]
            self.foremost(i) && turn(self.corner(i - 1), self.corner(i), self.corner(i + 1))
                > 0real
    }

    /// The boundary is that of a simple polygon, walked counter-clockwise.
    pub open spec fn settled(self) -> bool {
        self.simple() && self.counter_clockwise()
    }
}

/// What a polygon holds, in the terms of this library.
pub open spec fn polygon_outline(p: Polygon<BigRational>) -> Outline {
    Outline { vertices: polygon_vertices(p), boundary: polygon_boundary(p) }
}

/// `Polygon::clone`.
#[verifier::external_body]
fn polygon_clone(p: &Polygon<BigRational>) -> (r: Polygon<BigRational>)
    ensures
        polygon_vertices(r) == polygon_vertices(*p),
        polygon_boundary(r) == polygon_boundary(*p),
        polygon_rings(r) == polygon_rings(*p),
        polygon_proper(r) == polygon_proper(*p),
{
    p.clone()
}

/// `Polygon::iter`, counted: the number of vertices.
#[verifier::external_body]
fn polygon_vertex_count(p: &Polygon<BigRational>) -> (n: usize)
    ensures
        n == polygon_vertices(*p).len(),
{
    p.iter().count()
}

/// `Polygon::iter_boundary`: the vertices in boundary order. The walk wants
/// a boundary that is not empty.
#[verifier::external_body]
fn polygon_boundary_points(p: &Polygon<BigRational>) -> (points: Vec<UserPoint>)
    requires
        polygon_rings(*p) == 1,
        polygon_proper(*p),
        polygon_outline(*p).wf(),
    ensures
        coords(points@) == polygon_outline(*p).path(),
{
    let convert = |v: &Point<BigRational, 2>| UserPoint {
        x: Rational::from_proper(v.array[0].clone()),
        y: Rational::from_proper(v.array[1].clone()),
    };
    p.iter_boundary().map(|cursor| convert(cursor.point())).collect()
}

/// `Polygon::iter_mut`, taken to the vertex `i`, which is overwritten with
/// a point of this library. The boundary keeps its order.
#[verifier::external_body]
fn polygon_set_vertex(p: &mut Polygon<BigRational>, i: usize, vertex: &UserPoint)
    requires
        i < polygon_vertices(*old(p)).len(),
    ensures
        polygon_vertices(*final(p)) == polygon_vertices(*old(p)).update(i as int, vertex@),
        polygon_boundary(*final(p)) == polygon_boundary(*old(p)),
        polygon_rings(*final(p)) == polygon_rings(*old(p)),
        polygon_proper(*old(p)) ==> polygon_proper(*final(p)),
{
    if let Some(slot) = p.iter_mut().nth(i) {
        *slot = Point::new([vertex.x.as_big().clone(), vertex.y.as_big().clone()]);
    }
}

/// `resolve_self_intersections` with the thread-local generator: the
/// boundary is reordered at random until it is simple, then turned
/// counter-clockwise, and still visits every vertex once. A boundary that
/// is simple and counter-clockwise already is left as it is. The vertices
/// stay as they are. The routine wants a polygon of one ring and ratios it
/// can reckon with; it is given distinct vertices only. It gives up on
/// nothing but a polygon without area, and always on vertices that all lie
/// on one line.
#[verifier::external_body]
fn polygon_repair(p: &mut Polygon<BigRational>) -> (r: Result<(), rgeometry::Error>)
    requires
        polygon_rings(*old(p)) == 1,
        polygon_proper(*old(p)),
        polygon_outline(*old(p)).wf(),
        polygon_vertices(*old(p)).no_duplicates(),
    ensures
        polygon_vertices(*final(p)) == polygon_vertices(*old(p)),
        polygon_rings(*final(p)) == 1,
        polygon_proper(*final(p)),
        polygon_outline(*final(p)).wf(),
        r matches Err(e) ==> e is CoLinearViolation,
        r is Ok ==> !on_one_line(polygon_vertices(*final(p))),
        r is Ok ==> polygon_outline(*final(p)).settled(),
        polygon_outline(*old(p)).settled() ==> r is Ok && polygon_boundary(*final(p))
            == polygon_boundary(*old(p)),
{
    resolve_self_intersections(p, &mut rand::rng())
}

/// `two_opt_moves` with the thread-local generator: a polygon of one ring
/// over the given points, which become its vertices in the order given,
/// with a boundary found at random that is simple and runs
/// counter-clockwise. It refuses points that occur twice, then fewer than
/// three points, then a polygon without area, which points that all lie on
/// one line always give.
#[verifier::external_body]
fn polygon_two_opt(points: &Vec<UserPoint>) -> (r: Result<Polygon<BigRational>, rgeometry::Error>)
    ensures
        match r {
            Ok(p) => {
                &&& polygon_vertices(p) == coords(points@)
                &&& polygon_rings(p) == 1
                &&& polygon_proper(p)
                &&& polygon_outline(p).wf()
                &&& polygon_outline(p).settled()
                &&& coords(points@).no_duplicates()
                &&& !on_one_line(coords(points@))
            },
            Err(e) => {
                &&& e is DuplicatePoints || e is InsufficientVertices || e is CoLinearViolation
                &&& e is DuplicatePoints <==> !coords(points@).no_duplicates()
                &&& e is InsufficientVertices <==> coords(points@).no_duplicates() && points@.len()
                    < 3
            },
        },
{
    let vertices =
        points.iter().map(|v| Point::new([v.x.as_big().clone(), v.y.as_big().clone()])).collect();
    two_opt_moves(vertices, &mut rand::rng())
}

/// A polygon without holes, as `rgeometry` keeps it.
pub struct SimplePolygon {
    inner: Polygon<BigRational>,
}

impl View for SimplePolygon {
    type V = Outline;

    closed spec fn view(&self) -> Outline {
        polygon_outline(self.inner)
    }
}

impl Clone for SimplePolygon {
    fn clone(&self) -> (r: SimplePolygon)
        ensures
            r@ == self@,
    {
        proof {
            use_type_invariant(self);
        }
        SimplePolygon { inner: polygon_clone(&self.inner) }
    }
}

impl SimplePolygon {
    #[verifier::type_invariant]
    spec fn one_ring(self) -> bool {
        &&& polygon_rings(self.inner) == 1
        &&& polygon_proper(self.inner)
        &&& polygon_outline(self.inner).wf()
    }

    /// Gives up the underlying polygon.
    pub fn into_polygon(self) -> (p: Polygon<BigRational>)
        ensures
            polygon_outline(p) == self@,
            polygon_rings(p) == 1,
            polygon_proper(p),
            self@.wf(),
    {
        proof {
            use_type_invariant(&self);
        }
        self.inner
    }

    /// The number of vertices.
    pub fn vertex_count(&self) -> (n: usize)
        ensures
            n == self@.vertices.len(),
            self@.wf(),
    {
        proof {
            use_type_invariant(self);
        }
        polygon_vertex_count(&self.inner)
    }

    /// The vertices in boundary order.
    pub fn boundary_points(&self) -> (points: Vec<UserPoint>)
        ensures
            coords(points@) == self@.path(),
            self@.wf(),
    {
        proof {
            use_type_invariant(self);
        }
        polygon_boundary_points(&self.inner)
    }
}

/// The library's name for a failure of `rgeometry`.
pub fn error_kind(e: rgeometry::Error) -> (kind: PolygonError)
    ensures
        kind == (match e {
            rgeometry::Error::InsufficientVertices => PolygonError::InsufficientVertices,
            rgeometry::Error::SelfIntersections => PolygonError::SelfIntersections,
            rgeometry::Error::DuplicatePoints => PolygonError::DuplicatePoints,
            rgeometry::Error::ConvexViolation => PolygonError::ConvexViolation,
            rgeometry::Error::ClockWiseViolation => PolygonError::ClockWiseViolation,
            rgeometry::Error::CoLinearViolation => PolygonError::CoLinearViolation,
        }),
{
    match e {
        rgeometry::Error::InsufficientVertices => PolygonError::InsufficientVertices,
        rgeometry::Error::SelfIntersections => PolygonError::SelfIntersections,
        rgeometry::Error::DuplicatePoints => PolygonError::DuplicatePoints,
        rgeometry::Error::ConvexViolation => PolygonError::ConvexViolation,
        rgeometry::Error::ClockWiseViolation => PolygonError::ClockWiseViolation,
        rgeometry::Error::CoLinearViolation => PolygonError::CoLinearViolation,
    }
}

/// Whether some point occurs twice in the list.
pub fn has_duplicates(points: &Vec<UserPoint>) -> (found: bool)
    ensures
        found == !coords(points@).no_duplicates(),
{
    let mut j: usize = 0;
    while j < points.len()
        invariant
            j <= points.len(),
            forall|a: int, b: int|
                0 <= a < b < j ==> coords(points@)[a] != coords(points@)[b],
        decreases points.len() - j,
    {
        let mut i: usize = 0;
        while i < j
            invariant
                i <= j < points.len(),
                forall|a: int| 0 <= a < i ==> coords(points@)[a] != coords(points@)[j as int],
            decreases j - i,
        {
            if points[i].x.same(&points[j].x) && points[i].y.same(&points[j].y) {
                assert(coords(points@)[i as int] == coords(points@)[j as int]);
                return true;
            }
            i += 1;
        }
        j += 1;
    }
    assert forall|a: int, b: int|
        0 <= a < coords(points@).len() && 0 <= b < coords(points@).len() && a != b implies coords(
        points@,
    )[a] != coords(points@)[b] by {
        if a < b {
            assert(coords(points@)[a] != coords(points@)[b]);
        } else {
            assert(coords(points@)[b] != coords(points@)[a]);
        }
    }
    false
}

/// The polygon kept between requests, if one has been built.
pub struct PolygonCache {
    polygon: Option<SimplePolygon>,
}

impl View for PolygonCache {
    type V = Option<Outline>;

    closed spec fn view(&self) -> Option<Outline> {
        match self.polygon {
            Some(polygon) => Some(polygon@),
            None => None,
        }
    }
}

impl PolygonCache {
    /// An empty cache.
    pub fn new() -> (cache: PolygonCache)
        ensures
            cache@ is None,
    {
        PolygonCache { polygon: None }
    }
}

/// Whether a kept polygon can take the given number of points as its
/// vertices.
pub open spec fn reusable(kept: Option<Outline>, n: nat) -> bool {
    kept matches Some(outline) && outline.vertices.len() == n
}

/// Whether the kept polygon is in order for the given points as it
/// stands: they are its vertices, and its boundary is settled.
pub open spec fn in_order(kept: Option<Outline>, points: Seq<(real, real)>) -> bool {
    kept matches Some(outline) && outline.vertices == points && outline.settled()
}

/// How bringing the kept polygon up to the given points leads to `after`
/// and to its outcome.
///
/// Points that occur twice are refused before anything changes. Otherwise
/// a kept polygon with as many vertices takes the points as its vertices,
/// index by index, and is repaired; where none is kept, one is built. A
/// kept polygon that is in order for the points comes back as it is. Of
/// any other boundary that comes out, found at random as it is, all that
/// holds is that it visits every vertex once, is simple and runs
/// counter-clockwise. Fewer than three points are refused, and so are
/// points that all lie on one line; whether any other points are refused as
/// having no area is for `rgeometry` to say. Where a kept polygon was taken
/// up, it is kept with the new vertices even if its repair fails.
pub open spec fn refreshes(
    kept: Option<Outline>,
    points: Seq<(real, real)>,
    after: Option<Outline>,
    outcome: Result<Outline, PolygonError>,
) -> bool {
    &&& points.no_duplicates() && in_order(kept, points) ==> outcome == Ok::<
        Outline,
        PolygonError,
    >(kept->Some_0)
    &&& match outcome {
        Ok(outline) => {
            &&& points.no_duplicates()
            &&& !on_one_line(points)
            &&& outline.vertices == points
            &&& outline.wf()
            &&& outline.settled()
            &&& after == Some(outline)
        },
        Err(kind) => {
            &&& kind == PolygonError::DuplicatePoints <==> !points.no_duplicates()
            &&& kind == PolygonError::InsufficientVertices <==> points.no_duplicates()
                && points.len() < 3
            &&& kind == PolygonError::DuplicatePoints || kind == PolygonError::InsufficientVertices
                || kind == PolygonError::CoLinearViolation
            &&& if points.no_duplicates() && reusable(kept, points.len()) {
                after matches Some(outline) && outline.vertices == points && outline.wf()
            } else {
                after == kept
            }
        },
    }
}

/// Brings the kept polygon up to the given points.
pub fn refresh_polygon(cache: &mut PolygonCache, points: &Vec<UserPoint>) -> (r: Result<
    SimplePolygon,
    PolygonError,
>)
    ensures
        refreshes(
            old(cache)@,
            coords(points@),
            final(cache)@,
            match r {
                Ok(polygon) => Ok(polygon@),
                Err(kind) => Err(kind),
            },
        ),
{
    if has_duplicates(points) {
        return Err(PolygonError::DuplicatePoints);
    }
    let mut kept: Option<Polygon<BigRational>> = None;
    if let Some(polygon) = &cache.polygon {
        proof {
            use_type_invariant(polygon);
        }
        if polygon_vertex_count(&polygon.inner) == points.len() {
            kept = Some(polygon_clone(&polygon.inner));
        }
    }
    let mut inner = match kept {
        Some(inner) => inner,
        None => {
            return match polygon_two_opt(points) {
                Ok(inner) => {
                    let polygon = SimplePolygon { inner };
                    cache.polygon = Some(polygon.clone());
                    Ok(polygon)
                },
                Err(e) => Err(error_kind(e)),
            };
        },
    };
    let ghost boundary = polygon_boundary(inner);
    let mut i: usize = 0;
    while i < points.len()
        invariant
            i <= points.len(),
            polygon_rings(inner) == 1,
            polygon_proper(inner),
            polygon_outline(inner).wf(),
            polygon_boundary(inner) == boundary,
            polygon_vertices(inner).len() == points.len(),
            forall|j: int| 0 <= j < i ==> polygon_vertices(inner)[j] == coords(points@)[j],
        decreases points.len() - i,
    {
        polygon_set_vertex(&mut inner, i, &points[i]);
        i += 1;
    }
    assert(polygon_vertices(inner) =~= coords(points@));
    let repaired = polygon_repair(&mut inner);
    let polygon = SimplePolygon { inner };
    cache.polygon = Some(polygon.clone());
    match repaired {
        Ok(()) => Ok(polygon),
        Err(e) => Err(error_kind(e)),
    }
}

/// How a request for the interactive polygon leads from the state of the
/// point set and the kept polygon to their states afterwards and to its
/// outcome: the points are asked for as [`with_points`] asks, and the kept
/// polygon is brought up to them. A request that the point set refuses
/// leaves the kept polygon alone.
pub open spec fn polygon_request(
    before: PointSetState,
    frame: Frame,
    pointer: PointerTracker,
    n: nat,
    kept: Option<Outline>,
    after: PointSetState,
    kept_after: Option<Outline>,
    outcome: Result<Outline, PlaygroundError>,
) -> bool {
    match outcome {
        Ok(outline) => {
            &&& before.request(frame, pointer, n, Seq::empty(), after, Ok(after.points))
            &&& refreshes(kept, after.points, kept_after, Ok(outline))
        },
        Err(PlaygroundError::Polygon(kind)) => {
            &&& before.request(frame, pointer, n, Seq::empty(), after, Ok(after.points))
            &&& refreshes(kept, after.points, kept_after, Err(kind))
        },
        Err(e) => {
            &&& before.request(frame, pointer, n, Seq::empty(), after, Err(e))
            &&& kept_after == kept
        },
    }
}

/// The interactive polygon over the managed points: asks for the points as
/// [`with_points`] does and brings the kept polygon up to them.
pub fn with_polygon(
    cache: &mut PolygonCache,
    set: &mut PointSet,
    pointer: &PointerTracker,
    view: &Viewport,
    n: usize,
) -> (r: Result<SimplePolygon, PlaygroundError>)
    ensures
        final(set)@.wf(),
        polygon_request(
            old(set)@,
            view@,
            *pointer,
            n as nat,
            old(cache)@,
            final(set)@,
            final(cache)@,
            match r {
                Ok(polygon) => Ok(polygon@),
                Err(e) => Err(e),
            },
        ),
{
    let points = match with_points(set, pointer, view, n) {
        Ok(points) => points,
        Err(e) => {
            return Err(e);
        },
    };
    match refresh_polygon(cache, &points) {
        Ok(polygon) => Ok(polygon),
        Err(kind) => Err(PlaygroundError::Polygon(kind)),
    }
}

/// A polygon that was built or repaired for some points is kept as it is
/// for as long as it is asked for with the same points: the same vertices
/// in the same boundary order.
pub proof fn lemma_kept_polygon_stays(
    kept: Option<Outline>,
    points: Seq<(real, real)>,
    between: Option<Outline>,
    outline: Outline,
    last: Option<Outline>,
    outcome: Result<Outline, PolygonError>,
)
    requires
        refreshes(kept, points, between, Ok(outline)),
        refreshes(between, points, last, outcome),
    ensures
        outcome == Ok::<Outline, PolygonError>(outline),
        last == between,
{
}

/// While nothing is selected, two requests for the interactive polygon in
/// a row give the same polygon: no point has moved, and a polygon that
/// needs no repair keeps its boundary.
pub proof fn lemma_idle_polygon_requests_agree(
    first: PointSetState,
    frame1: Frame,
    pointer1: PointerTracker,
    n1: nat,
    kept: Option<Outline>,
    between: PointSetState,
    kept_between: Option<Outline>,
    outline: Outline,
    frame2: Frame,
    pointer2: PointerTracker,
    n2: nat,
    last: PointSetState,
    kept_last: Option<Outline>,
    outcome: Result<Outline, PlaygroundError>,
)
    requires
        polygon_request(first, frame1, pointer1, n1, kept, between, kept_between, Ok(outline)),
        between.selection is None,
        polygon_request(between, frame2, pointer2, n2, kept_between, last, kept_last, outcome),
    ensures
        outcome == Ok::<Outline, PlaygroundError>(outline),
        last == between,
        kept_last == kept_between,
{
}

} // verus!
