//! The verified core of an interactive geometry playground: exact-rational
//! viewport arithmetic, drawing-command generation, hit testing and the
//! drag state machine of a managed point set.
//!
//! Nothing here touches a browser. A host reads the state of its drawing
//! context into a [`viewport::Viewport`], asks this library what to do, and
//! replays the [`command::DrawCommand`]s that come back.

pub mod algebra;
pub mod canvas;
pub mod command;
pub mod error;
pub mod geometry;
pub mod hit;
pub mod hit_laws;
pub mod point;
pub mod pointer;
pub mod points;
pub mod points_laws;
pub mod polygon;
pub mod random;
pub mod rational;
pub mod render;
pub mod session;
pub mod timer;
pub mod transform;
pub mod viewport;
pub mod viewport_laws;

pub use crate::hit::{circle, hit_test, point_path_2d};
pub use crate::pointer::{
    absolute_mouse_position, get_mouse, mouse_position, set_mouse, upd_mouse, upd_touch,
};
pub use crate::points::{get_points, with_points, with_points_from};
pub use crate::polygon::with_polygon;
pub use crate::render::{
    at_point, clear_screen, fill_text, render_fixed_point, render_line, render_point,
    render_polygon, stroke_text,
};
pub use crate::viewport::{from_pixels, get_viewport, inv_canvas_position, set_viewport};
