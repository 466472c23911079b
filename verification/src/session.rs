//! A session: everything the playground remembers between calls, for a host
//! to keep in one place for the lifetime of the page.

use crate::pointer::PointerTracker;
use crate::points::{PointSet, PointSetState};
use crate::polygon::PolygonCache;
use vstd::prelude::*;

verus! {

/// The state of one playground.
pub struct Session {
    /// Where the pointer was last seen.
    pub pointer: PointerTracker,
    /// The managed points and the drag in progress.
    pub points: PointSet,
    /// The polygon kept over the managed points.
    pub polygon: PolygonCache,
}

impl Session {
    /// A session in which nothing has happened yet: the pointer in the
    /// corner, no points installed, no polygon built.
    pub fn new() -> (session: Session)
        ensures
            session.pointer@ == (0int, 0int),
            session.points@ == PointSetState::fresh(),
            session.polygon@ is None,
    {
        Session {
            pointer: PointerTracker::new(),
            points: PointSet::new(),
            polygon: PolygonCache::new(),
        }
    }
}

} // verus!
