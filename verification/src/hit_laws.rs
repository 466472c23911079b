//! What the pick region of a marker comes to under a fitted viewport.

use crate::algebra::{
    lemma_div_positive, lemma_move_divisor, lemma_mul_congruent, lemma_square_monotone,
};
use crate::hit::distance_squared;
use crate::viewport::Frame;
use crate::viewport_laws::{lemma_pixel_length_by_scale, lemma_user_position_fitted};
use vstd::prelude::*;

verus! {

/// Under a fitted viewport of scale `s`, `pixels` CSS pixels measure
/// `pixels` times the length of one.
proof fn lemma_pixel_length_fitted(frame: Frame, s: real, pixels: nat)
    requires
        s != 0real,
        frame.matrix.a == s,
        frame.width > 0,
        frame.height > 0,
    ensures
        frame.pixel_length(pixels) == pixels as real * (frame.pixel_ratio / s),
{
    let dpr = frame.pixel_ratio;
    let n = pixels as real;
    lemma_pixel_length_by_scale(frame, pixels);
    lemma_move_divisor(1real, n, s);
    lemma_mul_congruent(dpr, 1real / s * n, n / s);
    lemma_move_divisor(n, dpr, s);
}

/// Under a fitted viewport with its own stroke width, two CSS pixels, the
/// pointer is on the marker of `p` exactly when it lies within sixteen CSS
/// pixels of `p`: the fifteen of the disc and half the stroke around it.
pub proof fn lemma_pick_region(frame: Frame, s: real, p: (real, real), x: int, y: int)
    requires
        s > 0real,
        frame.pixel_ratio > 0real,
        frame.width > 0,
        frame.height > 0,
        frame.matrix == frame.fitted_matrix(s),
        frame.line_width == 2real / s * frame.pixel_ratio,
    ensures
        frame.hits(p, x, y) <==> distance_squared(p, frame.user_position(x, y)) <= (16real * (
            frame.pixel_ratio / s)) * (16real * (frame.pixel_ratio / s)),
{
    let k = frame.pixel_ratio / s;
    let q = frame.user_position(x, y);
    let dist = distance_squared(p, q);
    let marker = frame.marker(p, 1real);
    lemma_user_position_fitted(frame, s, x, y);
    lemma_pixel_length_fitted(frame, s, 15);
    lemma_div_positive(frame.pixel_ratio, s);
    assert(marker.radius == 15real * k);
    assert(frame.line_width / 2real == k) by {
        lemma_move_divisor(2real, frame.pixel_ratio, s);
    }
    let outer = marker.radius + frame.line_width / 2real;
    let inner = marker.radius - frame.line_width / 2real;
    assert(outer == 16real * k);
    assert(inner == 14real * k);
    lemma_square_monotone(inner, marker.radius);
    lemma_square_monotone(marker.radius, outer);
}

} // verus!
