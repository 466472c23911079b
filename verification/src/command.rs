//! Drawing commands: what the renderer asks of a 2D drawing context, as
//! values that a host can replay on a real surface.

use crate::point::UserPoint;
use crate::rational::Rational;
use vstd::prelude::*;

verus! {

/// The fill colours of the point markers.
#[derive(Debug, Clone, Copy, PartialEq, Eq, Structural)]
pub enum Paint {
    Green,
    Grey,
}

impl Paint {
    /// The colour's name in CSS.
    pub fn css_name(self) -> (name: &'static str)
        ensures
            name@ == (match self {
                Paint::Green => "green"@,
                Paint::Grey => "grey"@,
            }),
    {
        match self {
            Paint::Green => "green",
            Paint::Grey => "grey",
        }
    }
}

/// A full circle in user space: the outline of a point marker.
pub struct Disc {
    pub center: UserPoint,
    pub radius: Rational,
}

/// The mathematical content of a [`Disc`].
pub struct Circle {
    pub center: (real, real),
    pub radius: real,
}

impl View for Disc {
    type V = Circle;

    open spec fn view(&self) -> Circle {
        Circle { center: self.center@, radius: self.radius@ }
    }
}

impl Clone for Disc {
    fn clone(&self) -> (r: Disc)
        ensures
            r@ == self@,
    {
        Disc { center: self.center.clone(), radius: self.radius.clone() }
    }
}

/// One request to the drawing context.
pub enum DrawCommand {
    /// Push the drawing state.
    Save,
    /// Pop the drawing state.
    Restore,
    /// Make the transform the identity.
    ResetTransform,
    /// Scale the axes of the current transform.
    Scale(Rational, Rational),
    /// Shift the origin of the current transform.
    Translate(Rational, Rational),
    /// Set the stroke width, in user units.
    SetLineWidth(Rational),
    /// Join stroked segments with round corners.
    SetLineJoinRound,
    /// Set the fill colour.
    SetFillStyle(Paint),
    /// Clear the rectangle of the given width and height at the origin.
    ClearRect(u32, u32),
    /// Start a new path.
    BeginPath,
    /// Start a subpath at a point.
    MoveTo(UserPoint),
    /// Extend the subpath by a segment to a point.
    LineTo(UserPoint),
    /// Close the subpath.
    ClosePath,
    /// Stroke the current path.
    Stroke,
    /// Fill a disc.
    FillDisc(Disc),
    /// Stroke the outline of a disc.
    StrokeDisc(Disc),
    /// Fill a text at the origin.
    FillText(String),
    /// Stroke a text at the origin.
    StrokeText(String),
}

/// The mathematical content of a [`DrawCommand`].
pub enum Op {
    Save,
    Restore,
    ResetTransform,
    Scale(real, real),
    Translate(real, real),
    SetLineWidth(real),
    SetLineJoinRound,
    SetFillStyle(Paint),
    ClearRect(nat, nat),
    BeginPath,
    MoveTo((real, real)),
    LineTo((real, real)),
    ClosePath,
    Stroke,
    FillDisc(Circle),
    StrokeDisc(Circle),
    FillText(Seq<char>),
    StrokeText(Seq<char>),
}

impl View for DrawCommand {
    type V = Op;

    open spec fn view(&self) -> Op {
        match self {
            DrawCommand::Save => Op::Save,
            DrawCommand::Restore => Op::Restore,
            DrawCommand::ResetTransform => Op::ResetTransform,
            DrawCommand::Scale(x, y) => Op::Scale(x@, y@),
            DrawCommand::Translate(x, y) => Op::Translate(x@, y@),
            DrawCommand::SetLineWidth(w) => Op::SetLineWidth(w@),
            DrawCommand::SetLineJoinRound => Op::SetLineJoinRound,
            DrawCommand::SetFillStyle(p) => Op::SetFillStyle(*p),
            DrawCommand::ClearRect(w, h) => Op::ClearRect(*w as nat, *h as nat),
            DrawCommand::BeginPath => Op::BeginPath,
            DrawCommand::MoveTo(p) => Op::MoveTo(p@),
            DrawCommand::LineTo(p) => Op::LineTo(p@),
            DrawCommand::ClosePath => Op::ClosePath,
            DrawCommand::Stroke => Op::Stroke,
            DrawCommand::FillDisc(d) => Op::FillDisc(d@),
            DrawCommand::StrokeDisc(d) => Op::StrokeDisc(d@),
            DrawCommand::FillText(s) => Op::FillText(s@),
            DrawCommand::StrokeText(s) => Op::StrokeText(s@),
        }
    }
}

/// The contents of a list of commands, in order.
pub open spec fn ops(commands: Seq<DrawCommand>) -> Seq<Op> {
    commands.map_values(|c: DrawCommand| c@)
}

} // verus!
