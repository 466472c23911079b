//! A model of the drawing context: how the commands of the renderer change
//! the transform and the stroke width. It lets the effect of a command list
//! be stated, and be computed without a browser.

use crate::command::{ops, DrawCommand, Op};
use crate::rational::Rational;
use crate::transform::{Matrix, Transform};
use crate::viewport::{Frame, Viewport};
use vstd::prelude::*;

verus! {

/// The mathematical content of a [`Canvas`]: the visible state and the
/// stack of saved states, oldest first.
pub struct CanvasState {
    pub frame: Frame,
    pub saved: Seq<(Matrix, real)>,
}

impl CanvasState {
    /// The state after one command. Commands that draw leave it as it is;
    /// a stroke width that is not positive is ignored, as is a restore with
    /// nothing saved.
    pub open spec fn step(self, op: Op) -> CanvasState {
        match op {
            Op::Save => CanvasState {
                saved: self.saved.push((self.frame.matrix, self.frame.line_width)),
                ..self
            },
            Op::Restore => if self.saved.len() == 0 {
                self
            } else {
                CanvasState {
                    frame: Frame {
                        matrix: self.saved.last().0,
                        line_width: self.saved.last().1,
                        ..self.frame
                    },
                    saved: self.saved.drop_last(),
                }
            },
            Op::ResetTransform => CanvasState {
                frame: Frame { matrix: Matrix::identity(), ..self.frame },
                ..self
            },
            Op::Scale(x, y) => CanvasState {
                frame: Frame { matrix: self.frame.matrix.scaled(x, y), ..self.frame },
                ..self
            },
            Op::Translate(x, y) => CanvasState {
                frame: Frame { matrix: self.frame.matrix.translated(x, y), ..self.frame },
                ..self
            },
            Op::SetLineWidth(w) => if w > 0real {
                CanvasState { frame: Frame { line_width: w, ..self.frame }, ..self }
            } else {
                self
            },
            _ => self,
        }
    }

    /// The state after a list of commands, replayed in order.
    pub open spec fn run(self, ops: Seq<Op>) -> CanvasState
        decreases ops.len(),
    {
        if ops.len() == 0 {
            self
        } else {
            self.run(ops.drop_last()).step(ops.last())
        }
    }
}

/// A drawing context without a surface: it keeps the state that the
/// playground reads back, and nothing else.
pub struct Canvas {
    pub view: Viewport,
    pub saved: Vec<(Transform, Rational)>,
}

/// The contents of a stack of saved states.
pub open spec fn saved_states(saved: Seq<(Transform, Rational)>) -> Seq<(Matrix, real)> {
    saved.map_values(|s: (Transform, Rational)| (s.0@, s.1@))
}

impl View for Canvas {
    type V = CanvasState;

    open spec fn view(&self) -> CanvasState {
        CanvasState { frame: self.view@, saved: saved_states(self.saved@) }
    }
}

impl Canvas {
    /// A fresh context on a surface of the given size: identity transform,
    /// a stroke one unit wide, nothing saved.
    pub fn new(width: u32, height: u32, pixel_ratio: Rational) -> (canvas: Canvas)
        ensures
            canvas@ == (CanvasState {
                frame: Frame {
                    width: width as nat,
                    height: height as nat,
                    pixel_ratio: pixel_ratio@,
                    matrix: Matrix::identity(),
                    line_width: 1real,
                },
                saved: Seq::empty(),
            }),
    {
        let canvas = Canvas {
            view: Viewport {
                width,
                height,
                pixel_ratio,
                transform: Transform::identity(),
                line_width: Rational::from_int(1),
            },
            saved: Vec::new(),
        };
        assert(canvas@.saved =~= Seq::empty());
        canvas
    }

    /// Carries out one command.
    pub fn apply(&mut self, command: &DrawCommand)
        ensures
            final(self)@ == old(self)@.step(command@),
    {
        match command {
            DrawCommand::Save => {
                let entry = (self.view.transform.clone(), self.view.line_width.clone());
                self.saved.push(entry);
                assert(self@.saved =~= old(self)@.saved.push(
                    (old(self)@.frame.matrix, old(self)@.frame.line_width),
                ));
            },
            DrawCommand::Restore => {
                match self.saved.pop() {
                    Some(entry) => {
                        let (transform, line_width) = entry;
                        self.view.transform = transform;
                        self.view.line_width = line_width;
                        assert(self@.saved =~= old(self)@.saved.drop_last());
                    },
                    None => {
                        assert(self@.saved =~= old(self)@.saved);
                    },
                }
            },
            DrawCommand::ResetTransform => {
                self.view.transform = Transform::identity();
            },
            DrawCommand::Scale(x, y) => {
                self.view.transform = self.view.transform.scale(x, y);
            },
            DrawCommand::Translate(x, y) => {
                self.view.transform = self.view.transform.translate(x, y);
            },
            DrawCommand::SetLineWidth(w) => {
                if Rational::from_int(0).less_than(w) {
                    self.view.line_width = w.clone();
                }
            },
            _ => {},
        }
    }

    /// Carries out a list of commands, in order.
    pub fn run(&mut self, commands: &Vec<DrawCommand>)
        ensures
            final(self)@ == old(self)@.run(ops(commands@)),
    {
        let mut i: usize = 0;
        while i < commands.len()
            invariant
                i <= commands.len(),
                self@ == old(self)@.run(ops(commands@).take(i as int)),
            decreases commands.len() - i,
        {
            self.apply(&commands[i]);
            proof {
                let done = ops(commands@).take(i as int + 1);
                assert(done.drop_last() =~= ops(commands@).take(i as int));
                assert(done.last() == commands@[i as int]@);
            }
            i += 1;
        }
        assert(ops(commands@).take(i as int) =~= ops(commands@));
    }
}

/// Replaying a list that ends in `op` is replaying the list before it and
/// then `op`.
pub proof fn lemma_run_push(state: CanvasState, ops: Seq<Op>, op: Op)
    ensures
        state.run(ops.push(op)) == state.run(ops).step(op),
{
    assert(ops.push(op).drop_last() =~= ops);
}

/// Replaying nothing changes nothing.
pub proof fn lemma_run_empty(state: CanvasState)
    ensures
        state.run(Seq::empty()) == state,
{
}

/// Replaying four commands is taking the four steps in turn.
pub proof fn lemma_run_four(state: CanvasState, o0: Op, o1: Op, o2: Op, o3: Op)
    ensures
        state.run(seq![o0, o1, o2, o3]) == state.step(o0).step(o1).step(o2).step(o3),
{
    let none: Seq<Op> = Seq::empty();
    assert(seq![o0, o1, o2, o3] =~= none.push(o0).push(o1).push(o2).push(o3));
    lemma_run_empty(state);
    lemma_run_push(state, none, o0);
    lemma_run_push(state, none.push(o0), o1);
    lemma_run_push(state, none.push(o0).push(o1), o2);
    lemma_run_push(state, none.push(o0).push(o1).push(o2), o3);
}

/// Replaying one list after another is replaying the two put together.
pub proof fn lemma_run_concat(state: CanvasState, first: Seq<Op>, second: Seq<Op>)
    ensures
        state.run(first + second) == state.run(first).run(second),
    decreases second.len(),
{
    if second.len() == 0 {
        assert(first + second =~= first);
    } else {
        lemma_run_concat(state, first, second.drop_last());
        assert((first + second).drop_last() =~= first + second.drop_last());
        assert((first + second).last() == second.last());
    }
}

/// Whether a list of commands neither saves nor restores the drawing
/// state.
pub open spec fn unnested(ops: Seq<Op>) -> bool {
    forall|i: int| 0 <= i < ops.len() ==> #[trigger] ops[i] != Op::Save && ops[i] != Op::Restore
}

/// Commands that neither save nor restore leave the saved states alone, and
/// no command changes the surface or its pixel ratio.
pub proof fn lemma_unnested_keeps_saved(state: CanvasState, ops: Seq<Op>)
    requires
        unnested(ops),
    ensures
        state.run(ops).saved == state.saved,
        state.run(ops).frame.width == state.frame.width,
        state.run(ops).frame.height == state.frame.height,
        state.run(ops).frame.pixel_ratio == state.frame.pixel_ratio,
    decreases ops.len(),
{
    if ops.len() > 0 {
        lemma_unnested_keeps_saved(state, ops.drop_last());
        assert(ops.last() == ops[ops.len() - 1]);
    }
}

} // verus!
