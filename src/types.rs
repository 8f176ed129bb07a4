use vstd::prelude::*;

verus! {

/// The largest window side, lane width or speed (in pixels) the simulation
/// accepts; it keeps every coordinate it computes well inside `i32`.
pub const DIM_LIMIT: i32 = 1_000_000;

/// A direction of travel. An entry direction names the way a vehicle moves
/// when it appears, an exit direction the way it moves when it leaves.
#[derive(Clone, Copy, Debug, PartialEq, Eq, Structural)]
pub enum Airt {
    Up,
    Down,
    Left,
    Right,
}

/// The three speed tiers, in pixels per tick.
#[derive(Clone, Copy, Debug, PartialEq, Eq, Structural)]
pub struct Speed {
    pub fast: i32,
    pub default: i32,
    pub slow: i32,
}

/// The geometry of one run: window size, its half-points, the lane width and
/// the speed tiers. The simulation only reads it.
#[derive(Clone, Copy, Debug, PartialEq, Eq, Structural)]
pub struct Dimensions {
    pub window_width: i32,
    pub window_height: i32,
    pub half_width: i32,
    pub half_height: i32,
    pub lane_width: i32,
    pub speed: Speed,
}

/// Whether travel in direction `d` runs along the vertical axis.
pub open spec fn is_vertical(d: Airt) -> bool {
    d == Airt::Up || d == Airt::Down
}

impl Dimensions {
    /// Lanes have a positive width, the slow and default tiers do not exceed
    /// the fast one, and every quantity lies within `DIM_LIMIT`.
    pub open spec fn wf(self) -> bool {
        &&& 0 < self.lane_width <= DIM_LIMIT
        &&& 0 <= self.window_width <= DIM_LIMIT
        &&& 0 <= self.window_height <= DIM_LIMIT
        &&& 0 <= self.half_width <= DIM_LIMIT
        &&& 0 <= self.half_height <= DIM_LIMIT
        &&& 0 <= self.speed.slow <= self.speed.fast
        &&& 0 <= self.speed.default <= self.speed.fast
        &&& self.speed.fast <= DIM_LIMIT
    }

    /// Whether these dimensions can drive the simulation.
    pub fn is_valid(&self) -> (r: bool)
        ensures
            r == self.wf(),
    {
        0 < self.lane_width && self.lane_width <= DIM_LIMIT && 0 <= self.window_width
            && self.window_width <= DIM_LIMIT && 0 <= self.window_height && self.window_height <= DIM_LIMIT
            && 0 <= self.half_width && self.half_width <= DIM_LIMIT && 0 <= self.half_height
            && self.half_height <= DIM_LIMIT && 0 <= self.speed.slow && self.speed.slow <= self.speed.fast
            && 0 <= self.speed.default && self.speed.default <= self.speed.fast && self.speed.fast <= DIM_LIMIT
    }
}

} // verus!
