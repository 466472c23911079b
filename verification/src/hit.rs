//! Hit testing: whether a pointer position falls on the marker of a point.
//!
//! The marker is the disc that the renderer draws for the point, filled and
//! then stroked, so its pick region is the fill together with the outline
//! at the current stroke width. The test is made in user space, on the
//! position taken back through the transform.

use crate::command::{Circle, Disc};
use crate::error::PlaygroundError;
use crate::point::UserPoint;
use crate::rational::Rational;
use crate::viewport::{from_pixels, inv_canvas_position, Frame, Viewport};
use vstd::prelude::*;

verus! {

/// The radius of a point marker, in CSS pixels.
pub const MARKER_RADIUS: u32 = 15;

/// The square of the distance between two points.
pub open spec fn distance_squared(p: (real, real), q: (real, real)) -> real {
    (q.0 - p.0) * (q.0 - p.0) + (q.1 - p.1) * (q.1 - p.1)
}

impl Circle {
    /// Whether `q` lies in the filled disc, rim included.
    pub open spec fn covers(self, q: (real, real)) -> bool {
        self.radius >= 0real && distance_squared(self.center, q) <= self.radius * self.radius
    }

    /// Whether `q` lies on the outline stroked `line_width` wide: within
    /// half that width of the rim, on either side.
    pub open spec fn outline_covers(self, line_width: real, q: (real, real)) -> bool {
        let outer = self.radius + line_width / 2real;
        let inner = self.radius - line_width / 2real;
        &&& self.radius >= 0real
        &&& line_width > 0real
        &&& distance_squared(self.center, q) <= outer * outer
        &&& (inner <= 0real || inner * inner <= distance_squared(self.center, q))
    }
}

impl Frame {
    /// The marker of the point `p`, `scale` times its usual size.
    pub open spec fn marker(self, p: (real, real), scale: real) -> Circle {
        Circle { center: p, radius: scale * self.pixel_length(MARKER_RADIUS as nat) }
    }

    /// Whether the pointer position `(x, y)` falls on the full-size marker
    /// of `p`, fill or outline. Nothing is hit where lengths cannot be
    /// measured or the transform cannot be undone.
    pub open spec fn hits(self, p: (real, real), x: int, y: int) -> bool {
        &&& self.measurable()
        &&& self.matrix.invertible()
        &&& {
            let q = self.user_position(x, y);
            let marker = self.marker(p, 1real);
            marker.covers(q) || marker.outline_covers(self.line_width, q)
        }
    }
}

impl Disc {
    /// The square of the distance from the centre to `q`.
    fn distance_squared_to(&self, q: &UserPoint) -> (d: Rational)
        ensures
            d@ == distance_squared(self@.center, q@),
    {
        let dx = q.x.minus(&self.center.x);
        let dy = q.y.minus(&self.center.y);
        dx.times(&dx).plus(&dy.times(&dy))
    }

    /// Whether `q` lies in the filled disc.
    pub fn contains(&self, q: &UserPoint) -> (inside: bool)
        ensures
            inside == self@.covers(q@),
    {
        let zero = Rational::from_int(0);
        if self.radius.less_than(&zero) {
            return false;
        }
        let d = self.distance_squared_to(q);
        !self.radius.times(&self.radius).less_than(&d)
    }

    /// Whether `q` lies on the outline stroked `line_width` wide.
    pub fn outline_contains(&self, line_width: &Rational, q: &UserPoint) -> (on: bool)
        ensures
            on == self@.outline_covers(line_width@, q@),
    {
        let zero = Rational::from_int(0);
        if self.radius.less_than(&zero) || !zero.less_than(line_width) {
            return false;
        }
        let half = line_width.over(&Rational::from_int(2));
        let outer = self.radius.plus(&half);
        let inner = self.radius.minus(&half);
        let d = self.distance_squared_to(q);
        if outer.times(&outer).less_than(&d) {
            return false;
        }
        !zero.less_than(&inner) || !d.less_than(&inner.times(&inner))
    }
}

/// The outline of the marker of `pt`, `scale` times its usual size.
pub fn point_path_2d(view: &Viewport, pt: &UserPoint, scale: &Rational) -> (r: Result<
    Disc,
    PlaygroundError,
>)
    ensures
        match r {
            Ok(disc) => view@.measurable() && disc@ == view@.marker(pt@, scale@),
            Err(e) => {
                if view@.matrix.a == 0real {
                    e == PlaygroundError::ZeroScale
                } else {
                    e == PlaygroundError::EmptySurface && (view@.width == 0 || view@.height == 0)
                }
            },
        },
{
    match from_pixels(view, MARKER_RADIUS) {
        Ok(length) => Ok(Disc { center: pt.clone(), radius: scale.times(&length) }),
        Err(e) => Err(e),
    }
}

/// The circle around the origin with a radius of `radius` CSS pixels.
pub fn circle(view: &Viewport, radius: u32) -> (r: Result<Disc, PlaygroundError>)
    ensures
        match r {
            Ok(disc) => view@.measurable() && disc@ == (Circle {
                center: (0real, 0real),
                radius: view@.pixel_length(radius as nat),
            }),
            Err(e) => {
                if view@.matrix.a == 0real {
                    e == PlaygroundError::ZeroScale
                } else {
                    e == PlaygroundError::EmptySurface && (view@.width == 0 || view@.height == 0)
                }
            },
        },
{
    match from_pixels(view, radius) {
        Ok(length) => Ok(Disc { center: UserPoint::from_ints(0, 0), radius: length }),
        Err(e) => Err(e),
    }
}

/// Whether the pointer position `(x, y)`, in CSS pixels, falls on the
/// marker of `pt`.
pub fn hit_test(view: &Viewport, pt: &UserPoint, x: i32, y: i32) -> (hit: bool)
    ensures
        hit == view@.hits(pt@, x as int, y as int),
{
    let one = Rational::from_int(1);
    let marker = match point_path_2d(view, pt, &one) {
        Ok(disc) => disc,
        Err(_) => {
            return false;
        },
    };
    let q = match inv_canvas_position(view, x, y) {
        Ok(q) => q,
        Err(_) => {
            return false;
        },
    };
    marker.contains(&q) || marker.outline_contains(&view.line_width, &q)
}

} // verus!
