//! Affine transforms of the plane, in the six-number form that a 2D drawing
//! context keeps: `(x, y)` goes to `(a*x + c*y + e, b*x + d*y + f)`.

use crate::algebra::{
    lemma_cancel, lemma_clear_denominator, lemma_cramer_first, lemma_cramer_second,
    lemma_mul_assoc, lemma_mul_comm, lemma_mul_congruent, lemma_mul_distributes, lemma_quotient,
};
use crate::point::UserPoint;
use crate::rational::Rational;
use vstd::prelude::*;

verus! {

/// The mathematical content of a [`Transform`].
pub struct Matrix {
    pub a: real,
    pub b: real,
    pub c: real,
    pub d: real,
    pub e: real,
    pub f: real,
}

impl Matrix {
    /// The transform that moves nothing.
    pub open spec fn identity() -> Matrix {
        Matrix { a: 1real, b: 0real, c: 0real, d: 1real, e: 0real, f: 0real }
    }

    /// This transform applied after a scaling of the axes by `sx` and `sy`.
    pub open spec fn scaled(self, sx: real, sy: real) -> Matrix {
        Matrix {
            a: self.a * sx,
            b: self.b * sx,
            c: self.c * sy,
            d: self.d * sy,
            e: self.e,
            f: self.f,
        }
    }

    /// This transform applied after a shift by `(tx, ty)`.
    pub open spec fn translated(self, tx: real, ty: real) -> Matrix {
        Matrix {
            a: self.a,
            b: self.b,
            c: self.c,
            d: self.d,
            e: self.a * tx + self.c * ty + self.e,
            f: self.b * tx + self.d * ty + self.f,
        }
    }

    /// The determinant of the linear part.
    pub open spec fn det(self) -> real {
        self.a * self.d - self.b * self.c
    }

    /// Whether the transform can be undone.
    pub open spec fn invertible(self) -> bool {
        self.det() != 0real
    }

    /// The image of `p`.
    pub open spec fn apply(self, p: (real, real)) -> (real, real) {
        (self.a * p.0 + self.c * p.1 + self.e, self.b * p.0 + self.d * p.1 + self.f)
    }

    /// The point whose image is `q`, for an invertible transform.
    pub open spec fn unapply(self, q: (real, real)) -> (real, real) {
        (
            (self.d * (q.0 - self.e) - self.c * (q.1 - self.f)) / self.det(),
            (self.a * (q.1 - self.f) - self.b * (q.0 - self.e)) / self.det(),
        )
    }
}

/// An affine transform with exact rational entries.
pub struct Transform {
    pub a: Rational,
    pub b: Rational,
    pub c: Rational,
    pub d: Rational,
    pub e: Rational,
    pub f: Rational,
}

impl View for Transform {
    type V = Matrix;

    open spec fn view(&self) -> Matrix {
        Matrix { a: self.a@, b: self.b@, c: self.c@, d: self.d@, e: self.e@, f: self.f@ }
    }
}

impl Clone for Transform {
    fn clone(&self) -> (r: Transform)
        ensures
            r@ == self@,
    {
        Transform {
            a: self.a.clone(),
            b: self.b.clone(),
            c: self.c.clone(),
            d: self.d.clone(),
            e: self.e.clone(),
            f: self.f.clone(),
        }
    }
}

impl Transform {
    /// The transform that moves nothing.
    pub fn identity() -> (t: Transform)
        ensures
            t@ == Matrix::identity(),
    {
        Transform {
            a: Rational::from_int(1),
            b: Rational::from_int(0),
            c: Rational::from_int(0),
            d: Rational::from_int(1),
            e: Rational::from_int(0),
            f: Rational::from_int(0),
        }
    }

    /// This transform applied after a scaling of the axes.
    pub fn scale(&self, sx: &Rational, sy: &Rational) -> (t: Transform)
        ensures
            t@ == self@.scaled(sx@, sy@),
    {
        Transform {
            a: self.a.times(sx),
            b: self.b.times(sx),
            c: self.c.times(sy),
            d: self.d.times(sy),
            e: self.e.clone(),
            f: self.f.clone(),
        }
    }

    /// This transform applied after a shift.
    pub fn translate(&self, tx: &Rational, ty: &Rational) -> (t: Transform)
        ensures
            t@ == self@.translated(tx@, ty@),
    {
        let e = self.a.times(tx).plus(&self.c.times(ty)).plus(&self.e);
        let f = self.b.times(tx).plus(&self.d.times(ty)).plus(&self.f);
        Transform {
            a: self.a.clone(),
            b: self.b.clone(),
            c: self.c.clone(),
            d: self.d.clone(),
            e,
            f,
        }
    }

    /// The determinant of the linear part.
    pub fn determinant(&self) -> (det: Rational)
        ensures
            det@ == self@.det(),
    {
        self.a.times(&self.d).minus(&self.b.times(&self.c))
    }

    /// The image of a point.
    pub fn apply(&self, p: &UserPoint) -> (q: UserPoint)
        ensures
            q@ == self@.apply(p@),
    {
        let x = self.a.times(&p.x).plus(&self.c.times(&p.y)).plus(&self.e);
        let y = self.b.times(&p.x).plus(&self.d.times(&p.y)).plus(&self.f);
        UserPoint { x, y }
    }

    /// The point whose image is `(qx, qy)`, or `None` when the transform
    /// collapses the plane and so has no inverse.
    pub fn unapply(&self, qx: &Rational, qy: &Rational) -> (p: Option<UserPoint>)
        ensures
            p is Some <==> self@.invertible(),
            p matches Some(point) ==> point@ == self@.unapply((qx@, qy@)),
    {
        let det = self.determinant();
        if det.is_zero() {
            return None;
        }
        let dx = qx.minus(&self.e);
        let dy = qy.minus(&self.f);
        let x = self.d.times(&dx).minus(&self.c.times(&dy)).over(&det);
        let y = self.a.times(&dy).minus(&self.b.times(&dx)).over(&det);
        Some(UserPoint { x, y })
    }
}

/// Undoing an invertible transform and applying it again gives the point
/// back.
pub proof fn lemma_apply_unapply(m: Matrix, q: (real, real))
    requires
        m.invertible(),
    ensures
        m.apply(m.unapply(q)) == q,
{
    let det = m.det();
    let u = q.0 - m.e;
    let v = q.1 - m.f;
    let n1 = m.d * u - m.c * v;
    let n2 = m.a * v - m.b * u;
    let x = n1 / det;
    let y = n2 / det;
    assert(m.unapply(q) == (x, y));
    assert(m.a * x + m.c * y == u) by {
        lemma_clear_denominator(m.a, m.c, n1, n2, det);
        lemma_cramer_first(m.a, m.b, m.c, m.d, u, v);
        lemma_mul_comm(det, u);
        lemma_cancel(m.a * x + m.c * y, u, det);
    }
    assert(m.b * x + m.d * y == v) by {
        lemma_clear_denominator(m.b, m.d, n1, n2, det);
        lemma_cramer_second(m.a, m.b, m.c, m.d, u, v);
        lemma_mul_comm(det, v);
        lemma_cancel(m.b * x + m.d * y, v, det);
    }
}

/// Applying an invertible transform and undoing it gives the point back.
pub proof fn lemma_unapply_apply(m: Matrix, p: (real, real))
    requires
        m.invertible(),
    ensures
        m.unapply(m.apply(p)) == p,
{
    let det = m.det();
    let u = m.a * p.0 + m.c * p.1;
    let v = m.b * p.0 + m.d * p.1;
    let q = m.apply(p);
    assert(q.0 - m.e == u && q.1 - m.f == v);
    assert(p.0 * det == m.d * u - m.c * v) by {
        lemma_mul_distributes(m.d, m.a * p.0, m.c * p.1);
        lemma_mul_distributes(m.c, m.b * p.0, m.d * p.1);
        lemma_mul_assoc(m.d, m.a, p.0);
        lemma_mul_assoc(m.d, m.c, p.1);
        lemma_mul_assoc(m.c, m.b, p.0);
        lemma_mul_assoc(m.c, m.d, p.1);
        lemma_mul_comm(m.d, m.c);
        lemma_mul_congruent(p.1, m.d * m.c, m.c * m.d);
        lemma_mul_comm(m.d, m.a);
        lemma_mul_congruent(p.0, m.d * m.a, m.a * m.d);
        lemma_mul_comm(m.c, m.b);
        lemma_mul_congruent(p.0, m.c * m.b, m.b * m.c);
        lemma_mul_distributes(p.0, m.a * m.d, m.b * m.c);
    }
    assert(p.1 * det == m.a * v - m.b * u) by {
        lemma_mul_distributes(m.a, m.b * p.0, m.d * p.1);
        lemma_mul_distributes(m.b, m.a * p.0, m.c * p.1);
        lemma_mul_assoc(m.a, m.b, p.0);
        lemma_mul_assoc(m.a, m.d, p.1);
        lemma_mul_assoc(m.b, m.a, p.0);
        lemma_mul_assoc(m.b, m.c, p.1);
        lemma_mul_comm(m.a, m.b);
        lemma_mul_congruent(p.0, m.a * m.b, m.b * m.a);
        lemma_mul_distributes(p.1, m.a * m.d, m.b * m.c);
    }
    lemma_quotient(p.0, m.d * u - m.c * v, det);
    lemma_quotient(p.1, m.a * v - m.b * u, det);
}

} // verus!
