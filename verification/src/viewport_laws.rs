//! What holds of the viewport arithmetic, for every surface and every
//! window.

use crate::algebra::{
    lemma_div_by_dividend, lemma_div_mul, lemma_div_positive, lemma_mul_assoc, lemma_mul_comm,
    lemma_mul_congruent, lemma_mul_nonzero, lemma_mul_signs, lemma_mul_strictly_monotone,
    lemma_mul_zero, lemma_quotient,
};
use crate::canvas::{lemma_run_four, CanvasState};
use crate::command::Op;
use crate::transform::{lemma_apply_unapply, Matrix};
use crate::viewport::Frame;
use vstd::prelude::*;

verus! {

impl Frame {
    /// The transform of a fitted viewport of scale `s`: the origin in the
    /// centre of the surface, x to the right and y up, `s` backing pixels to
    /// the user unit.
    pub open spec fn fitted_matrix(self, s: real) -> Matrix {
        Matrix {
            a: s,
            b: 0real,
            c: 0real,
            d: -s,
            e: self.width as real / 2real,
            f: self.height as real / 2real,
        }
    }
}

/// Installing a viewport leaves the context with the fitted transform,
/// whatever transform it had before, and touches nothing but the transform
/// and the stroke width. The stroke becomes two CSS pixels wide when that
/// width is positive.
pub proof fn lemma_viewport_installed(state: CanvasState, w: real, h: real)
    requires
        state.frame.fit_scale(w, h) != 0real,
    ensures
        ({
            let s = state.frame.fit_scale(w, h);
            let after = state.run(state.frame.viewport_ops(w, h));
            &&& after.frame.matrix == state.frame.fitted_matrix(s)
            &&& after.frame.width == state.frame.width
            &&& after.frame.height == state.frame.height
            &&& after.frame.pixel_ratio == state.frame.pixel_ratio
            &&& after.saved == state.saved
            &&& 2real / s * state.frame.pixel_ratio > 0real ==> after.frame.line_width == 2real
                / s * state.frame.pixel_ratio
        }),
{
    let frame = state.frame;
    let s = frame.fit_scale(w, h);
    let wide = frame.width as real;
    let high = frame.height as real;
    let o0 = Op::ResetTransform;
    let o1 = Op::Scale(s, -s);
    let o2 = Op::Translate(wide / s / 2real, -(high / s / 2real));
    let o3 = Op::SetLineWidth(2real / s * frame.pixel_ratio);
    lemma_run_four(state, o0, o1, o2, o3);
    let s1 = state.step(o0);
    let s2 = s1.step(o1);
    let s3 = s2.step(o2);
    let s4 = s3.step(o3);
    assert(state.run(frame.viewport_ops(w, h)) == s4);
    assert(s2.frame.matrix == Matrix {
        a: s,
        b: 0real,
        c: 0real,
        d: -s,
        e: 0real,
        f: 0real,
    });
    lemma_div_mul(wide, s);
    lemma_div_mul(high, s);
    assert(s * (wide / s / 2real) == wide / 2real) by {
        lemma_mul_assoc(s, wide / s, 1real / 2real);
    }
    assert((-s) * (-(high / s / 2real)) == high / 2real) by {
        lemma_mul_signs(s, high / s / 2real);
        lemma_mul_assoc(s, high / s, 1real / 2real);
    }
    assert(0real * (wide / s / 2real) == 0real);
    assert(0real * (-(high / s / 2real)) == 0real);
}

/// After a viewport of `w` by `h` user units is installed, the window read
/// back measures the surface divided by the fitted scale.
pub proof fn lemma_window_after_set_viewport(state: CanvasState, w: real, h: real)
    requires
        state.frame.fit_scale(w, h) != 0real,
    ensures
        ({
            let s = state.frame.fit_scale(w, h);
            let after = state.run(state.frame.viewport_ops(w, h));
            after.frame.window() == (
                state.frame.width as real / s,
                state.frame.height as real / s,
            )
        }),
{
    lemma_viewport_installed(state, w, h);
}

/// Under a fitted viewport the pointer position `(x, y)` lies at the
/// distance from the centre of the surface, in backing pixels, divided by
/// the scale, with the y axis turned upward.
pub proof fn lemma_user_position_fitted(frame: Frame, s: real, x: int, y: int)
    requires
        s != 0real,
        frame.matrix == frame.fitted_matrix(s),
    ensures
        frame.matrix.invertible(),
        frame.user_position(x, y) == (
            (x as real * frame.pixel_ratio - frame.width as real / 2real) / s,
            (frame.height as real / 2real - y as real * frame.pixel_ratio) / s,
        ),
{
    let m = frame.matrix;
    let q = frame.backing(x, y);
    let u = q.0 - m.e;
    let v = q.1 - m.f;
    let det = m.det();
    lemma_mul_nonzero(s, s);
    lemma_mul_zero(0real, 0real);
    assert(det == -(s * s)) by {
        lemma_mul_signs(s, s);
    }
    assert(m.c * v == 0real) by {
        lemma_mul_zero(m.c, v);
    }
    assert(m.b * u == 0real) by {
        lemma_mul_zero(m.b, u);
    }
    // First coordinate: ((-s) * u) / (-(s * s)) == u / s.
    lemma_div_mul(u, s);
    assert((u / s) * det == m.d * u - m.c * v) by {
        lemma_mul_assoc(u / s, s, s);
        lemma_mul_congruent(s, (u / s) * s, u);
        lemma_mul_signs(u / s, s * s);
        lemma_mul_signs(s, u);
        lemma_mul_comm(s, u);
    }
    lemma_quotient(u / s, m.d * u - m.c * v, det);
    // Second coordinate: (s * v) / (-(s * s)) == (-v) / s.
    lemma_div_mul(-v, s);
    assert(((-v) / s) * det == m.a * v - m.b * u) by {
        lemma_mul_assoc((-v) / s, s, s);
        lemma_mul_congruent(s, ((-v) / s) * s, -v);
        lemma_mul_signs((-v) / s, s * s);
        lemma_mul_signs(v, s);
        lemma_mul_comm(s, v);
    }
    lemma_quotient((-v) / s, m.a * v - m.b * u, det);
}

/// After a viewport is installed, the pointer position over the centre of
/// the surface is the origin of user space.
pub proof fn lemma_centre_is_origin(state: CanvasState, w: real, h: real, x: int, y: int)
    requires
        state.frame.fit_scale(w, h) != 0real,
        state.frame.backing(x, y) == (
            state.frame.width as real / 2real,
            state.frame.height as real / 2real,
        ),
    ensures
        state.run(state.frame.viewport_ops(w, h)).frame.user_position(x, y) == (0real, 0real),
{
    let s = state.frame.fit_scale(w, h);
    let after = state.run(state.frame.viewport_ops(w, h));
    lemma_viewport_installed(state, w, h);
    lemma_user_position_fitted(after.frame, s, x, y);
    lemma_quotient(0real, 0real, s);
}

/// After a viewport with a positive window is installed on a surface that
/// is not empty, every pointer position on the top edge lies above the
/// origin: y points up.
pub proof fn lemma_top_edge_is_up(state: CanvasState, w: real, h: real, x: int)
    requires
        w > 0real,
        h > 0real,
        state.frame.width > 0,
        state.frame.height > 0,
    ensures
        state.frame.fit_scale(w, h) > 0real,
        state.run(state.frame.viewport_ops(w, h)).frame.user_position(x, 0).1 > 0real,
{
    let s = state.frame.fit_scale(w, h);
    let after = state.run(state.frame.viewport_ops(w, h));
    lemma_div_positive(state.frame.width as real, w);
    lemma_div_positive(state.frame.height as real, h);
    lemma_viewport_installed(state, w, h);
    lemma_user_position_fitted(after.frame, s, x, 0);
    lemma_div_positive(state.frame.height as real / 2real, s);
}

/// Taking a pointer position to user space and back through the transform
/// gives the position in backing pixels.
pub proof fn lemma_position_round_trip(frame: Frame, x: int, y: int)
    requires
        frame.matrix.invertible(),
    ensures
        frame.matrix.apply(frame.user_position(x, y)) == frame.backing(x, y),
{
    lemma_apply_unapply(frame.matrix, frame.backing(x, y));
}

/// Where lengths can be measured, a backing pixel is the reciprocal of the
/// scale in user units, so `pixels` CSS pixels measure
/// `pixels * pixel_ratio / a`.
pub proof fn lemma_pixel_length_by_scale(frame: Frame, pixels: nat)
    requires
        frame.measurable(),
    ensures
        frame.unit_per_pixel() == 1real / frame.matrix.a,
        frame.pixel_length(pixels) == 1real / frame.matrix.a * pixels as real * frame.pixel_ratio,
{
    lemma_div_by_dividend(frame.width as real, frame.matrix.a);
    lemma_div_by_dividend(frame.height as real, frame.matrix.a);
}

/// No pixels have no length.
pub proof fn lemma_pixel_length_zero(frame: Frame)
    ensures
        frame.pixel_length(0) == 0real,
{
    lemma_mul_zero(frame.unit_per_pixel(), 0real);
    lemma_mul_zero(0real, frame.pixel_ratio);
}

/// Under a positive scale and a positive pixel ratio, more pixels are
/// strictly longer.
pub proof fn lemma_pixel_length_increasing(frame: Frame, fewer: nat, more: nat)
    requires
        frame.measurable(),
        frame.matrix.a > 0real,
        frame.pixel_ratio > 0real,
        fewer < more,
    ensures
        frame.pixel_length(fewer) < frame.pixel_length(more),
{
    let unit = frame.unit_per_pixel();
    lemma_pixel_length_by_scale(frame, fewer);
    lemma_div_positive(1real, frame.matrix.a);
    lemma_mul_strictly_monotone(fewer as real, more as real, unit);
    lemma_mul_strictly_monotone(unit * fewer as real, unit * more as real, frame.pixel_ratio);
}

} // verus!
