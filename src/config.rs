use vstd::prelude::*;
use crate::planner::PlanError;

verus! {

/// A polygon ring needs at least three vertices to enclose an area.
pub open spec fn ring_ok<P>(ring: Seq<P>) -> bool {
    ring.len() >= 3
}

/// The workspace: an outer boundary ring and the obstacle rings inside it,
/// each an ordered list of vertices.
pub struct SpaceConf<P> {
    pub bounds: Vec<P>,
    pub obstacles: Vec<Vec<P>>,
}

impl<P> SpaceConf<P> {
    pub fn new(bounds: Vec<P>, obstacles: Vec<Vec<P>>) -> (r: SpaceConf<P>)
        ensures
            r.bounds@ == bounds@,
            r.obstacles@ == obstacles@,
    {
        SpaceConf { bounds, obstacles }
    }

    /// Every ring, the boundary and each obstacle, has enough vertices.
    pub open spec fn rings_ok(&self) -> bool {
        &&& ring_ok(self.bounds@)
        &&& forall|i: int| 0 <= i < self.obstacles@.len() ==> ring_ok(#[trigger] self.obstacles@[i]@)
    }

    /// Rejects a workspace with a degenerate ring before any search.
    pub fn check(&self) -> (r: Result<(), PlanError>)
        ensures
            r is Ok <==> self.rings_ok(),
            r is Err ==> r == Err::<(), PlanError>(PlanError::InvalidConfiguration),
    {
        if self.bounds.len() < 3 {
            return Err(PlanError::InvalidConfiguration);
        }
        let mut i: usize = 0;
        while i < self.obstacles.len()
            invariant
                i <= self.obstacles@.len(),
                ring_ok(self.bounds@),
                forall|j: int| 0 <= j < i ==> ring_ok(#[trigger] self.obstacles@[j]@),
            decreases self.obstacles@.len() - i,
        {
            if self.obstacles[i].len() < 3 {
                return Err(PlanError::InvalidConfiguration);
            }
            i = i + 1;
        }
        Ok(())
    }
}

/// The robot: its footprint's width along the heading and height across it,
/// and its maximum steering angle.
pub struct RobotConf<S> {
    pub width: S,
    pub height: S,
    pub max_steer: S,
}

impl<S> RobotConf<S> {
    pub fn new(width: S, height: S, max_steer: S) -> (r: RobotConf<S>)
        ensures
            r.width == width,
            r.height == height,
            r.max_steer == max_steer,
    {
        RobotConf { width, height, max_steer }
    }
}

} // verus!
