//! Points of the user-space plane, with exact rational coordinates.

use crate::rational::Rational;
use vstd::prelude::*;

verus! {

/// A point of user space. Its view is the pair of real coordinates.
pub struct UserPoint {
    pub x: Rational,
    pub y: Rational,
}

impl View for UserPoint {
    type V = (real, real);

    open spec fn view(&self) -> (real, real) {
        (self.x@, self.y@)
    }
}

impl Clone for UserPoint {
    fn clone(&self) -> (r: UserPoint)
        ensures
            r@ == self@,
    {
        UserPoint { x: self.x.clone(), y: self.y.clone() }
    }
}

impl UserPoint {
    /// The point with the given coordinates.
    pub fn new(x: Rational, y: Rational) -> (p: UserPoint)
        ensures
            p@ == (x@, y@),
    {
        UserPoint { x, y }
    }

    /// The point with the given integer coordinates.
    pub fn from_ints(x: i64, y: i64) -> (p: UserPoint)
        ensures
            p@ == (x as real, y as real),
    {
        UserPoint { x: Rational::from_int(x), y: Rational::from_int(y) }
    }
}

/// The coordinates of a list of points, in order.
pub open spec fn coords(points: Seq<UserPoint>) -> Seq<(real, real)> {
    points.map_values(|p: UserPoint| p@)
}

/// A copy of a list of points, coordinate for coordinate.
pub fn clone_points(points: &Vec<UserPoint>) -> (copy: Vec<UserPoint>)
    ensures
        coords(copy@) == coords(points@),
{
    let mut copy: Vec<UserPoint> = Vec::new();
    let mut i: usize = 0;
    while i < points.len()
        invariant
            i <= points.len(),
            copy.len() == i,
            forall|j: int| 0 <= j < i ==> copy@[j]@ == points@[j]@,
        decreases points.len() - i,
    {
        copy.push(points[i].clone());
        i += 1;
    }
    assert(coords(copy@) =~= coords(points@));
    copy
}

} // verus!
