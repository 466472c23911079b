//! What can go wrong.

use vstd::prelude::*;

verus! {

/// Why a set of points could not be made into a simple polygon.
#[derive(Debug, Clone, Copy, PartialEq, Eq, Structural)]
pub enum PolygonError {
    /// Fewer than three vertices.
    InsufficientVertices,
    /// Two edges cross.
    SelfIntersections,
    /// The same point occurs twice.
    DuplicatePoints,
    /// Two consecutive edges are colinear or turn clockwise.
    ConvexViolation,
    /// The boundary runs clockwise.
    ClockWiseViolation,
    /// The points lie on one line.
    CoLinearViolation,
}

/// Why an operation of the playground could not be carried out.
#[derive(Debug, Clone, Copy, PartialEq, Eq, Structural)]
pub enum PlaygroundError {
    /// The requested viewport has zero width or zero height.
    ZeroExtent,
    /// The scale of the transform is zero, so nothing can be measured in
    /// user units.
    ZeroScale,
    /// The drawing surface has zero width or zero height.
    EmptySurface,
    /// The transform collapses the plane and cannot be undone.
    SingularTransform,
    /// The polygon routines gave up.
    Polygon(PolygonError),
}

} // verus!
