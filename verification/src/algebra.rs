//! Facts about real arithmetic that the solver needs spelled out, each small
//! enough to be settled on its own.

use vstd::prelude::*;

verus! {

/// Dividing and multiplying back by the same nonzero number changes nothing.
pub proof fn lemma_div_mul(a: real, b: real)
    by (nonlinear_arith)
    requires
        b != 0real,
    ensures
        (a / b) * b == a,
{
}

/// A nonzero factor can be cancelled from both sides of an equation.
pub proof fn lemma_cancel(x: real, y: real, c: real)
    by (nonlinear_arith)
    requires
        c != 0real,
        x * c == y * c,
    ensures
        x == y,
{
}

/// The quotient is the only number that multiplies back to the dividend.
pub proof fn lemma_quotient(q: real, a: real, b: real)
    requires
        b != 0real,
        q * b == a,
    ensures
        q == a / b,
{
    lemma_div_mul(a, b);
    lemma_cancel(q, a / b, b);
}

/// Multiplication commutes.
pub proof fn lemma_mul_comm(x: real, y: real)
    by (nonlinear_arith)
    ensures
        x * y == y * x,
{
}

/// Multiplication associates.
pub proof fn lemma_mul_assoc(x: real, y: real, z: real)
    by (nonlinear_arith)
    ensures
        x * (y * z) == (x * y) * z,
{
}

/// Multiplication distributes over sums and differences, on either side.
pub proof fn lemma_mul_distributes(x: real, y: real, z: real)
    by (nonlinear_arith)
    ensures
        x * (y + z) == x * y + x * z,
        x * (y - z) == x * y - x * z,
        (y + z) * x == y * x + z * x,
        (y - z) * x == y * x - z * x,
{
}

/// Equal numbers stay equal when both are multiplied by `k`, on either side.
pub proof fn lemma_mul_congruent(k: real, p: real, q: real)
    requires
        p == q,
    ensures
        k * p == k * q,
        p * k == q * k,
{
}

/// Signs can be moved out of a product.
pub proof fn lemma_mul_signs(x: real, y: real)
    by (nonlinear_arith)
    ensures
        (-x) * (-y) == x * y,
        (-x) * y == -(x * y),
        x * (-y) == -(x * y),
{
}

/// A product with a zero factor is zero.
pub proof fn lemma_mul_zero(x: real, y: real)
    by (nonlinear_arith)
    requires
        x == 0real || y == 0real,
    ensures
        x * y == 0real,
{
}

/// A product of nonzero factors is nonzero.
pub proof fn lemma_mul_nonzero(x: real, y: real)
    by (nonlinear_arith)
    requires
        x != 0real,
        y != 0real,
    ensures
        x * y != 0real,
{
}

/// The sign of a quotient of two positive numbers.
pub proof fn lemma_div_positive(x: real, y: real)
    by (nonlinear_arith)
    requires
        x > 0real,
        y > 0real,
    ensures
        x / y > 0real,
{
}

/// Multiplying by a number that is not negative keeps an order.
pub proof fn lemma_mul_monotone(x: real, y: real, k: real)
    by (nonlinear_arith)
    requires
        x <= y,
        k >= 0real,
    ensures
        x * k <= y * k,
{
}

/// Among numbers that are not negative, the larger has the larger square.
pub proof fn lemma_square_monotone(x: real, y: real)
    by (nonlinear_arith)
    requires
        0real <= x <= y,
    ensures
        x * x <= y * y,
{
}

/// Multiplying by a positive number keeps a strict order.
pub proof fn lemma_mul_strictly_monotone(x: real, y: real, k: real)
    by (nonlinear_arith)
    requires
        x < y,
        k > 0real,
    ensures
        x * k < y * k,
        k * x < k * y,
{
}

/// Quotients with a common divisor subtract by their dividends.
pub proof fn lemma_div_difference(a: real, b: real, c: real)
    requires
        c != 0real,
    ensures
        a / c - b / c == (a - b) / c,
{
    lemma_div_mul(a, c);
    lemma_div_mul(b, c);
    lemma_mul_distributes(c, a / c, b / c);
    lemma_quotient(a / c - b / c, a - b, c);
}

/// A divisor can be moved from one factor of a product to the other.
pub proof fn lemma_move_divisor(n: real, d: real, s: real)
    requires
        s != 0real,
    ensures
        n / s * d == n * (d / s),
{
    lemma_div_mul(n, s);
    lemma_div_mul(d, s);
    let left = n / s * d;
    let right = n * (d / s);
    assert(left * s == n * d) by {
        lemma_mul_assoc(n / s, d, s);
        lemma_mul_comm(d, s);
        lemma_mul_congruent(n / s, d * s, s * d);
        lemma_mul_assoc(n / s, s, d);
        lemma_mul_congruent(d, n / s * s, n);
    }
    assert(right * s == n * d) by {
        lemma_mul_assoc(n, d / s, s);
        lemma_mul_congruent(n, d / s * s, d);
    }
    lemma_quotient(left, n * d, s);
    lemma_quotient(right, n * d, s);
}

/// Dividing a quotient by its own dividend leaves the reciprocal of the
/// divisor.
pub proof fn lemma_div_by_dividend(w: real, a: real)
    requires
        w != 0real,
        a != 0real,
    ensures
        (w / a) / w == 1real / a,
{
    lemma_div_mul(w, a);
    lemma_div_mul(1real, a);
    let r = 1real / a;
    // r * w * a == w, so r * w == w / a.
    lemma_mul_assoc(r, w, a);
    lemma_mul_comm(w, a);
    lemma_mul_congruent(r, w * a, a * w);
    lemma_mul_assoc(r, a, w);
    lemma_mul_congruent(w, r * a, 1real);
    lemma_quotient(r * w, w, a);
    lemma_quotient(r, w / a, w);
}

/// The numerators of Cramer's rule, put back into the first equation of a
/// two-by-two system, give the determinant times the first right-hand side.
pub proof fn lemma_cramer_first(a: real, b: real, c: real, d: real, u: real, v: real)
    ensures
        a * (d * u - c * v) + c * (a * v - b * u) == (a * d - b * c) * u,
{
    lemma_mul_distributes(a, d * u, c * v);
    lemma_mul_distributes(c, a * v, b * u);
    lemma_mul_assoc(a, d, u);
    lemma_mul_assoc(a, c, v);
    lemma_mul_assoc(c, a, v);
    lemma_mul_assoc(c, b, u);
    lemma_mul_comm(c, a);
    lemma_mul_congruent(v, c * a, a * c);
    lemma_mul_comm(c, b);
    lemma_mul_congruent(u, c * b, b * c);
    lemma_mul_distributes(u, a * d, b * c);
}

/// The same for the second equation and the second right-hand side.
pub proof fn lemma_cramer_second(a: real, b: real, c: real, d: real, u: real, v: real)
    ensures
        b * (d * u - c * v) + d * (a * v - b * u) == (a * d - b * c) * v,
{
    lemma_mul_distributes(b, d * u, c * v);
    lemma_mul_distributes(d, a * v, b * u);
    lemma_mul_assoc(b, d, u);
    lemma_mul_assoc(b, c, v);
    lemma_mul_assoc(d, a, v);
    lemma_mul_assoc(d, b, u);
    lemma_mul_comm(d, a);
    lemma_mul_congruent(v, d * a, a * d);
    lemma_mul_comm(d, b);
    lemma_mul_congruent(u, d * b, b * d);
    lemma_mul_distributes(v, a * d, b * c);
}

/// A linear combination of two quotients with a common denominator, cleared
/// of that denominator.
pub proof fn lemma_clear_denominator(a: real, c: real, n1: real, n2: real, k: real)
    requires
        k != 0real,
    ensures
        (a * (n1 / k) + c * (n2 / k)) * k == a * n1 + c * n2,
{
    let x = n1 / k;
    let y = n2 / k;
    lemma_div_mul(n1, k);
    lemma_div_mul(n2, k);
    lemma_mul_distributes(k, a * x, c * y);
    lemma_mul_assoc(a, x, k);
    lemma_mul_assoc(c, y, k);
    lemma_mul_congruent(a, x * k, n1);
    lemma_mul_congruent(c, y * k, n2);
}

} // verus!
