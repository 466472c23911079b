//! The viewport: how a drawing surface measured in backing pixels, y down
//! and origin in a corner, shows a window of user space, y up and origin in
//! the centre.

use crate::command::{ops, DrawCommand, Op};
use crate::error::PlaygroundError;
use crate::point::UserPoint;
use crate::rational::Rational;
use crate::transform::{Matrix, Transform};
use vstd::prelude::*;

verus! {

/// The mathematical content of a [`Viewport`].
pub struct Frame {
    /// Width of the surface in backing pixels.
    pub width: nat,
    /// Height of the surface in backing pixels.
    pub height: nat,
    /// Backing pixels per CSS pixel.
    pub pixel_ratio: real,
    /// The transform from user space to backing pixels.
    pub matrix: Matrix,
    /// The stroke width in user units.
    pub line_width: real,
}

/// What the playground reads from a drawing context: the size of its
/// surface, the device pixel ratio, the current transform and stroke width.
///
/// A host fills this in from the live context before each call, so that the
/// context stays the only owner of the transform.
pub struct Viewport {
    pub width: u32,
    pub height: u32,
    pub pixel_ratio: Rational,
    pub transform: Transform,
    pub line_width: Rational,
}

impl View for Viewport {
    type V = Frame;

    open spec fn view(&self) -> Frame {
        Frame {
            width: self.width as nat,
            height: self.height as nat,
            pixel_ratio: self.pixel_ratio@,
            matrix: self.transform@,
            line_width: self.line_width@,
        }
    }
}

impl Clone for Viewport {
    fn clone(&self) -> (r: Viewport)
        ensures
            r@ == self@,
    {
        Viewport {
            width: self.width,
            height: self.height,
            pixel_ratio: self.pixel_ratio.clone(),
            transform: self.transform.clone(),
            line_width: self.line_width.clone(),
        }
    }
}

impl Frame {
    /// The scale at which a window of `w` by `h` user units just fits into
    /// the surface with its aspect kept: the smaller of the two ratios.
    pub open spec fn fit_scale(self, w: real, h: real) -> real {
        let by_width = self.width as real / w;
        let by_height = self.height as real / h;
        if by_width < by_height {
            by_width
        } else {
            by_height
        }
    }

    /// The commands that install a window of `w` by `h` user units, centred
    /// on the origin with y pointing up, and a stroke two CSS pixels wide.
    pub open spec fn viewport_ops(self, w: real, h: real) -> Seq<Op> {
        let s = self.fit_scale(w, h);
        seq![
            Op::ResetTransform,
            Op::Scale(s, -s),
            Op::Translate(self.width as real / s / 2real, -(self.height as real / s / 2real)),
            Op::SetLineWidth(2real / s * self.pixel_ratio),
        ]
    }

    /// The size of the visible window in user units, for a nonzero scale.
    pub open spec fn window(self) -> (real, real) {
        (self.width as real / self.matrix.a, self.height as real / self.matrix.a)
    }

    /// The point of backing-pixel space that a pointer position in CSS
    /// pixels denotes.
    pub open spec fn backing(self, x: int, y: int) -> (real, real) {
        (x as real * self.pixel_ratio, y as real * self.pixel_ratio)
    }

    /// The point of user space under a pointer position, for an invertible
    /// transform.
    pub open spec fn user_position(self, x: int, y: int) -> (real, real) {
        self.matrix.unapply(self.backing(x, y))
    }

    /// User units per backing pixel: the smaller of the two ratios of window
    /// to surface.
    pub open spec fn unit_per_pixel(self) -> real {
        let by_width = self.window().0 / self.width as real;
        let by_height = self.window().1 / self.height as real;
        if by_width < by_height {
            by_width
        } else {
            by_height
        }
    }

    /// The length in user units of `pixels` CSS pixels.
    pub open spec fn pixel_length(self, pixels: nat) -> real {
        self.unit_per_pixel() * pixels as real * self.pixel_ratio
    }

    /// Whether lengths in pixels can be measured in user units: the scale
    /// is nonzero and the surface is not empty.
    pub open spec fn measurable(self) -> bool {
        self.matrix.a != 0real && self.width != 0 && self.height != 0
    }
}

/// Plans a viewport of `width` by `height` user units on the surface of
/// `view`: the commands to replay on the drawing context.
///
/// A zero width or height is refused, and so is a surface on which the
/// fitted scale would be zero.
pub fn set_viewport(view: &Viewport, width: &Rational, height: &Rational) -> (r: Result<
    Vec<DrawCommand>,
    PlaygroundError,
>)
    ensures
        match r {
            Ok(commands) => {
                &&& width@ != 0real
                &&& height@ != 0real
                &&& view@.fit_scale(width@, height@) != 0real
                &&& ops(commands@) == view@.viewport_ops(width@, height@)
            },
            Err(e) => {
                if width@ == 0real || height@ == 0real {
                    e == PlaygroundError::ZeroExtent
                } else {
                    e == PlaygroundError::ZeroScale && view@.fit_scale(width@, height@) == 0real
                }
            },
        },
{
    if width.is_zero() || height.is_zero() {
        return Err(PlaygroundError::ZeroExtent);
    }
    let surface_width = Rational::from_int(view.width as i64);
    let surface_height = Rational::from_int(view.height as i64);
    let by_width = surface_width.over(width);
    let by_height = surface_height.over(height);
    let scale = if by_width.less_than(&by_height) {
        by_width
    } else {
        by_height
    };
    if scale.is_zero() {
        return Err(PlaygroundError::ZeroScale);
    }
    let two = Rational::from_int(2);
    let shift_x = surface_width.over(&scale).over(&two);
    let shift_y = surface_height.over(&scale).over(&two).negated();
    let line_width = two.over(&scale).times(&view.pixel_ratio);
    let flipped = scale.negated();
    let mut commands: Vec<DrawCommand> = Vec::new();
    commands.push(DrawCommand::ResetTransform);
    commands.push(DrawCommand::Scale(scale, flipped));
    commands.push(DrawCommand::Translate(shift_x, shift_y));
    commands.push(DrawCommand::SetLineWidth(line_width));
    assert(ops(commands@) =~= view@.viewport_ops(width@, height@));
    Ok(commands)
}

/// The size of the visible window in user units.
pub fn get_viewport(view: &Viewport) -> (r: Result<(Rational, Rational), PlaygroundError>)
    ensures
        match r {
            Ok((w, h)) => view@.matrix.a != 0real && (w@, h@) == view@.window(),
            Err(e) => view@.matrix.a == 0real && e == PlaygroundError::ZeroScale,
        },
{
    if view.transform.a.is_zero() {
        return Err(PlaygroundError::ZeroScale);
    }
    let w = Rational::from_int(view.width as i64).over(&view.transform.a);
    let h = Rational::from_int(view.height as i64).over(&view.transform.a);
    Ok((w, h))
}

/// The point of user space under the pointer position `(x, y)`, given in
/// CSS pixels.
pub fn inv_canvas_position(view: &Viewport, x: i32, y: i32) -> (r: Result<
    UserPoint,
    PlaygroundError,
>)
    ensures
        match r {
            Ok(p) => view@.matrix.invertible() && p@ == view@.user_position(x as int, y as int),
            Err(e) => !view@.matrix.invertible() && e == PlaygroundError::SingularTransform,
        },
{
    let bx = Rational::from_int(x as i64).times(&view.pixel_ratio);
    let by = Rational::from_int(y as i64).times(&view.pixel_ratio);
    match view.transform.unapply(&bx, &by) {
        Some(p) => Ok(p),
        None => Err(PlaygroundError::SingularTransform),
    }
}

/// The length in user units of `pixels` CSS pixels.
pub fn from_pixels(view: &Viewport, pixels: u32) -> (r: Result<Rational, PlaygroundError>)
    ensures
        match r {
            Ok(length) => view@.measurable() && length@ == view@.pixel_length(pixels as nat),
            Err(e) => {
                if view@.matrix.a == 0real {
                    e == PlaygroundError::ZeroScale
                } else {
                    e == PlaygroundError::EmptySurface && (view@.width == 0 || view@.height == 0)
                }
            },
        },
{
    let (vw, vh) = match get_viewport(view) {
        Ok(window) => window,
        Err(e) => {
            return Err(e);
        },
    };
    if view.width == 0 || view.height == 0 {
        return Err(PlaygroundError::EmptySurface);
    }
    let by_width = vw.over(&Rational::from_int(view.width as i64));
    let by_height = vh.over(&Rational::from_int(view.height as i64));
    let unit = if by_width.less_than(&by_height) {
        by_width
    } else {
        by_height
    };
    Ok(unit.times(&Rational::from_int(pixels as i64)).times(&view.pixel_ratio))
}

} // verus!
