//! The renderer: what to ask of the drawing context to show a polyline, a
//! polygon, a point marker or a text. Nothing is drawn here; each function
//! answers with the commands for the host to replay, and all of them take
//! the viewport transform to be in force.

use crate::canvas::{
    lemma_run_concat, lemma_run_empty, lemma_run_four, lemma_run_push, lemma_unnested_keeps_saved,
    unnested, CanvasState,
};
use crate::command::{ops, Circle, DrawCommand, Op, Paint};
use crate::error::PlaygroundError;
use crate::hit::point_path_2d;
use crate::point::{coords, UserPoint};
use crate::polygon::SimplePolygon;
use crate::rational::Rational;
use crate::viewport::{from_pixels, Frame, Viewport};
use vstd::prelude::*;

verus! {

/// The path through the given points: a move to the first and a line to
/// each of the others.
pub open spec fn path_ops(points: Seq<(real, real)>) -> Seq<Op> {
    Seq::new(
        points.len(),
        |i: int|
            if i == 0 {
                Op::MoveTo(points[i])
            } else {
                Op::LineTo(points[i])
            },
    )
}

/// The commands that stroke an open line through the given points, with
/// round joins. No points, no commands.
pub open spec fn polyline_ops(points: Seq<(real, real)>) -> Seq<Op> {
    if points.len() == 0 {
        Seq::empty()
    } else {
        seq![Op::BeginPath, Op::SetLineJoinRound] + path_ops(points) + seq![Op::Stroke]
    }
}

/// The commands that stroke the closed line through the given points, with
/// round joins.
pub open spec fn polygon_ops(points: Seq<(real, real)>) -> Seq<Op> {
    seq![Op::BeginPath, Op::SetLineJoinRound] + path_ops(points) + seq![
        Op::ClosePath,
        Op::Stroke,
    ]
}

/// The commands that draw a marker: the fill colour, then the disc filled,
/// then its outline stroked.
pub open spec fn marker_ops(paint: Paint, disc: Circle) -> Seq<Op> {
    seq![Op::SetFillStyle(paint), Op::FillDisc(disc), Op::StrokeDisc(disc)]
}

/// The commands that carry out `inner` with the origin moved to `p`, and
/// put the drawing state back afterwards.
pub open spec fn at_point_ops(p: (real, real), inner: Seq<Op>) -> Seq<Op> {
    seq![Op::Save, Op::Translate(p.0, p.1)] + inner + seq![Op::Restore]
}

/// The commands that draw `text` at the origin upright and with one text
/// unit to the CSS pixel, whatever the viewport: the axes are scaled by the
/// length of a pixel, y turned back down, and the drawing state is put back
/// afterwards.
pub open spec fn text_ops(frame: Frame, text: Seq<char>, filled: bool) -> Seq<Op> {
    let unit = frame.pixel_length(1);
    seq![
        Op::Save,
        Op::Scale(unit, -unit),
        if filled {
            Op::FillText(text)
        } else {
            Op::StrokeText(text)
        },
        Op::Restore,
    ]
}

/// The commands that clear the whole surface, whatever the transform: the
/// transform is set aside, the surface rectangle cleared in backing pixels,
/// and the transform put back.
pub open spec fn clear_ops(frame: Frame) -> Seq<Op> {
    seq![Op::Save, Op::ResetTransform, Op::ClearRect(frame.width, frame.height), Op::Restore]
}

/// Appends the path through `points` to `commands`.
fn push_path(commands: &mut Vec<DrawCommand>, points: &Vec<UserPoint>)
    ensures
        ops(final(commands)@) == ops(old(commands)@) + path_ops(coords(points@)),
{
    let ghost before = ops(commands@);
    let mut i: usize = 0;
    while i < points.len()
        invariant
            i <= points.len(),
            ops(commands@) == before + path_ops(coords(points@)).take(i as int),
        decreases points.len() - i,
    {
        let ghost so_far = ops(commands@);
        if i == 0 {
            commands.push(DrawCommand::MoveTo(points[i].clone()));
        } else {
            commands.push(DrawCommand::LineTo(points[i].clone()));
        }
        assert(ops(commands@) =~= so_far.push(path_ops(coords(points@))[i as int]));
        assert(ops(commands@) =~= before + path_ops(coords(points@)).take(i as int + 1));
        i += 1;
    }
    assert(path_ops(coords(points@)).take(i as int) =~= path_ops(coords(points@)));
}

/// Strokes the closed line through the given points.
pub fn render_boundary(points: &Vec<UserPoint>) -> (commands: Vec<DrawCommand>)
    ensures
        ops(commands@) == polygon_ops(coords(points@)),
{
    let mut commands: Vec<DrawCommand> = Vec::new();
    commands.push(DrawCommand::BeginPath);
    commands.push(DrawCommand::SetLineJoinRound);
    assert(ops(commands@) =~= seq![Op::BeginPath, Op::SetLineJoinRound]);
    push_path(&mut commands, points);
    let ghost so_far = ops(commands@);
    commands.push(DrawCommand::ClosePath);
    commands.push(DrawCommand::Stroke);
    assert(ops(commands@) =~= so_far + seq![Op::ClosePath, Op::Stroke]);
    commands
}

/// Strokes the boundary of a polygon.
pub fn render_polygon(poly: &SimplePolygon) -> (commands: Vec<DrawCommand>)
    ensures
        ops(commands@) == polygon_ops(poly@.path()),
{
    let points = poly.boundary_points();
    render_boundary(&points)
}

/// Strokes the open line through the given points. Nothing is asked of the
/// context when there are no points.
pub fn render_line(pts: &Vec<UserPoint>) -> (commands: Vec<DrawCommand>)
    ensures
        ops(commands@) == polyline_ops(coords(pts@)),
{
    let mut commands: Vec<DrawCommand> = Vec::new();
    if pts.len() == 0 {
        assert(ops(commands@) =~= Seq::empty());
        return commands;
    }
    commands.push(DrawCommand::BeginPath);
    commands.push(DrawCommand::SetLineJoinRound);
    assert(ops(commands@) =~= seq![Op::BeginPath, Op::SetLineJoinRound]);
    push_path(&mut commands, pts);
    let ghost so_far = ops(commands@);
    commands.push(DrawCommand::Stroke);
    assert(ops(commands@) =~= so_far + seq![Op::Stroke]);
    commands
}

/// Draws the marker of a point that can be dragged: a green disc of the
/// full marker radius, filled and then stroked.
pub fn render_point(view: &Viewport, pt: &UserPoint) -> (r: Result<
    Vec<DrawCommand>,
    PlaygroundError,
>)
    ensures
        match r {
            Ok(commands) => view@.measurable() && ops(commands@) == marker_ops(
                Paint::Green,
                view@.marker(pt@, 1real),
            ),
            Err(e) => {
                if view@.matrix.a == 0real {
                    e == PlaygroundError::ZeroScale
                } else {
                    e == PlaygroundError::EmptySurface && (view@.width == 0 || view@.height == 0)
                }
            },
        },
{
    let disc = match point_path_2d(view, pt, &Rational::from_int(1)) {
        Ok(disc) => disc,
        Err(e) => {
            return Err(e);
        },
    };
    let mut commands: Vec<DrawCommand> = Vec::new();
    commands.push(DrawCommand::SetFillStyle(Paint::Green));
    commands.push(DrawCommand::FillDisc(disc.clone()));
    commands.push(DrawCommand::StrokeDisc(disc));
    assert(ops(commands@) =~= marker_ops(Paint::Green, view@.marker(pt@, 1real)));
    Ok(commands)
}

/// Draws the marker of a point that stays put: a grey disc of half the
/// marker radius, filled and then stroked.
pub fn render_fixed_point(view: &Viewport, pt: &UserPoint) -> (r: Result<
    Vec<DrawCommand>,
    PlaygroundError,
>)
    ensures
        match r {
            Ok(commands) => view@.measurable() && ops(commands@) == marker_ops(
                Paint::Grey,
                view@.marker(pt@, 1real / 2real),
            ),
            Err(e) => {
                if view@.matrix.a == 0real {
                    e == PlaygroundError::ZeroScale
                } else {
                    e == PlaygroundError::EmptySurface && (view@.width == 0 || view@.height == 0)
                }
            },
        },
{
    let disc = match point_path_2d(view, pt, &Rational::new(1, 2)) {
        Ok(disc) => disc,
        Err(e) => {
            return Err(e);
        },
    };
    let mut commands: Vec<DrawCommand> = Vec::new();
    commands.push(DrawCommand::SetFillStyle(Paint::Grey));
    commands.push(DrawCommand::FillDisc(disc.clone()));
    commands.push(DrawCommand::StrokeDisc(disc));
    assert(ops(commands@) =~= marker_ops(Paint::Grey, view@.marker(pt@, 1real / 2real)));
    Ok(commands)
}

/// Wraps `inner` so that it is carried out with the origin at `pt`.
pub fn at_point(pt: &UserPoint, inner: Vec<DrawCommand>) -> (commands: Vec<DrawCommand>)
    ensures
        ops(commands@) == at_point_ops(pt@, ops(inner@)),
{
    let mut commands: Vec<DrawCommand> = Vec::new();
    commands.push(DrawCommand::Save);
    commands.push(DrawCommand::Translate(pt.x.clone(), pt.y.clone()));
    let ghost head = ops(commands@);
    assert(head =~= seq![Op::Save, Op::Translate(pt@.0, pt@.1)]);
    let mut inner = inner;
    let ghost body = ops(inner@);
    commands.append(&mut inner);
    assert(ops(commands@) =~= head + body);
    commands.push(DrawCommand::Restore);
    assert(ops(commands@) =~= head + body + seq![Op::Restore]);
    commands
}

/// The commands around a text, filled or stroked.
fn text_commands(view: &Viewport, text: &str, filled: bool) -> (r: Result<
    Vec<DrawCommand>,
    PlaygroundError,
>)
    ensures
        match r {
            Ok(commands) => view@.measurable() && ops(commands@) == text_ops(
                view@,
                text@,
                filled,
            ),
            Err(e) => {
                if view@.matrix.a == 0real {
                    e == PlaygroundError::ZeroScale
                } else {
                    e == PlaygroundError::EmptySurface && (view@.width == 0 || view@.height == 0)
                }
            },
        },
{
    let unit = match from_pixels(view, 1) {
        Ok(unit) => unit,
        Err(e) => {
            return Err(e);
        },
    };
    let flipped = unit.negated();
    let mut commands: Vec<DrawCommand> = Vec::new();
    commands.push(DrawCommand::Save);
    commands.push(DrawCommand::Scale(unit, flipped));
    if filled {
        commands.push(DrawCommand::FillText(text.to_owned()));
    } else {
        commands.push(DrawCommand::StrokeText(text.to_owned()));
    }
    commands.push(DrawCommand::Restore);
    assert(ops(commands@) =~= text_ops(view@, text@, filled));
    Ok(commands)
}

/// Fills a text at the origin, upright and one text unit to the CSS pixel.
pub fn fill_text(view: &Viewport, text: &str) -> (r: Result<Vec<DrawCommand>, PlaygroundError>)
    ensures
        match r {
            Ok(commands) => view@.measurable() && ops(commands@) == text_ops(view@, text@, true),
            Err(e) => {
                if view@.matrix.a == 0real {
                    e == PlaygroundError::ZeroScale
                } else {
                    e == PlaygroundError::EmptySurface && (view@.width == 0 || view@.height == 0)
                }
            },
        },
{
    text_commands(view, text, true)
}

/// Strokes a text at the origin, upright and one text unit to the CSS
/// pixel.
pub fn stroke_text(view: &Viewport, text: &str) -> (r: Result<Vec<DrawCommand>, PlaygroundError>)
    ensures
        match r {
            Ok(commands) => view@.measurable() && ops(commands@) == text_ops(view@, text@, false),
            Err(e) => {
                if view@.matrix.a == 0real {
                    e == PlaygroundError::ZeroScale
                } else {
                    e == PlaygroundError::EmptySurface && (view@.width == 0 || view@.height == 0)
                }
            },
        },
{
    text_commands(view, text, false)
}

/// Clears the whole surface and leaves the transform as it was.
pub fn clear_screen(view: &Viewport) -> (commands: Vec<DrawCommand>)
    ensures
        ops(commands@) == clear_ops(view@),
{
    let mut commands: Vec<DrawCommand> = Vec::new();
    commands.push(DrawCommand::Save);
    commands.push(DrawCommand::ResetTransform);
    commands.push(DrawCommand::ClearRect(view.width, view.height));
    commands.push(DrawCommand::Restore);
    assert(ops(commands@) =~= clear_ops(view@));
    commands
}

/// Clearing the surface leaves the drawing context as it found it.
pub proof fn lemma_clear_keeps_state(state: CanvasState)
    ensures
        state.run(clear_ops(state.frame)) == state,
{
    lemma_run_four(
        state,
        Op::Save,
        Op::ResetTransform,
        Op::ClearRect(state.frame.width, state.frame.height),
        Op::Restore,
    );
    let saved = state.saved.push((state.frame.matrix, state.frame.line_width));
    assert(saved.drop_last() =~= state.saved);
}

/// Drawing a text leaves the drawing context as it found it.
pub proof fn lemma_text_keeps_state(state: CanvasState, text: Seq<char>, filled: bool)
    ensures
        state.run(text_ops(state.frame, text, filled)) == state,
{
    let unit = state.frame.pixel_length(1);
    lemma_run_four(
        state,
        Op::Save,
        Op::Scale(unit, -unit),
        if filled {
            Op::FillText(text)
        } else {
            Op::StrokeText(text)
        },
        Op::Restore,
    );
    let saved = state.saved.push((state.frame.matrix, state.frame.line_width));
    assert(saved.drop_last() =~= state.saved);
}

/// Drawing at a point leaves the drawing context as it found it, whatever
/// the commands carried out there do to the transform and the stroke, as
/// long as they neither save nor restore the drawing state themselves.
pub proof fn lemma_at_point_keeps_state(state: CanvasState, p: (real, real), inner: Seq<Op>)
    requires
        unnested(inner),
    ensures
        state.run(at_point_ops(p, inner)) == state,
{
    let none: Seq<Op> = Seq::empty();
    let head = seq![Op::Save, Op::Translate(p.0, p.1)];
    assert(head =~= none.push(Op::Save).push(Op::Translate(p.0, p.1)));
    lemma_run_empty(state);
    lemma_run_push(state, none, Op::Save);
    lemma_run_push(state, none.push(Op::Save), Op::Translate(p.0, p.1));
    let entered = state.run(head);
    let saved = state.saved.push((state.frame.matrix, state.frame.line_width));
    assert(entered.saved == saved);
    lemma_run_concat(state, head, inner);
    lemma_unnested_keeps_saved(entered, inner);
    let done = entered.run(inner);
    assert(at_point_ops(p, inner) =~= (head + inner).push(Op::Restore));
    lemma_run_push(state, head + inner, Op::Restore);
    assert(saved.drop_last() =~= state.saved);
    assert(saved.last() == (state.frame.matrix, state.frame.line_width));
}

} // verus!
