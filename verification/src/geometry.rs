//! Moving a point by a vector, which is left to `rgeometry`.

use crate::point::UserPoint;
use crate::rational::{ratio_proper, ratio_value, Rational};
use num::BigRational;
use rgeometry::data::{Point, Vector};
use vstd::prelude::*;

verus! {

/// `&Point + &Vector`: the point `(px, py)` moved by the vector `(dx, dy)`,
/// which `rgeometry` computes coordinate by coordinate with the sum of
/// `num`.
#[verifier::external_body]
fn point_plus_vector(px: &BigRational, py: &BigRational, dx: &BigRational, dy: &BigRational) -> (q:
    (BigRational, BigRational))
    requires
        ratio_proper(*px),
        ratio_proper(*py),
        ratio_proper(*dx),
        ratio_proper(*dy),
    ensures
        ratio_proper(q.0),
        ratio_proper(q.1),
        ratio_value(q.0) == ratio_value(*px) + ratio_value(*dx),
        ratio_value(q.1) == ratio_value(*py) + ratio_value(*dy),
{
    let moved = &Point::new([px.clone(), py.clone()]) + &Vector([dx.clone(), dy.clone()]);
    let [x, y] = moved.array;
    (x, y)
}

/// The point `p` moved by `(dx, dy)`.
pub fn shifted(p: &UserPoint, dx: &Rational, dy: &Rational) -> (q: UserPoint)
    ensures
        q@ == (p@.0 + dx@, p@.1 + dy@),
{
    let (x, y) = point_plus_vector(p.x.as_big(), p.y.as_big(), dx.as_big(), dy.as_big());
    UserPoint { x: Rational::from_proper(x), y: Rational::from_proper(y) }
}

} // verus!
