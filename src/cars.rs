use vstd::prelude::*;

use crate::outside::random_below;
use crate::types::{is_vertical, Airt, Dimensions, Speed, DIM_LIMIT};

verus! {

/// Where a vehicle came from and where it will leave; fixed at spawn.
#[derive(Clone, Copy, Debug, PartialEq, Eq, Structural)]
pub struct Direction {
    pub start: Airt,
    pub end: Airt,
}

/// One vehicle. Its footprint is the square of side `lane_width` whose
/// top-left corner is `(x, y)`; angles are in whole degrees.
#[derive(Clone, Copy, Debug, PartialEq, Eq, Structural)]
pub struct Car {
    pub x: i32,
    pub y: i32,
    pub color_code: usize,
    pub direction: Direction,
    pub speed: i32,
    pub target_speed: i32,
    pub current_angle: i32,
    pub target_angle: i32,
    pub vertical: bool,
    pub gone: bool,
    pub index: usize,
    /// Clock reading (microseconds) at which the vehicle appeared.
    pub birthday: u64,
    pub in_turn: bool,
}

/// The heading, in degrees, of travel in direction `d`.
pub open spec fn heading(d: Airt) -> int {
    match d {
        Airt::Up => 0,
        Airt::Down => 180,
        Airt::Left => -90,
        Airt::Right => 90,
    }
}

/// A route either goes straight or turns onto the other axis.
pub open spec fn valid_route(r: Direction) -> bool {
    r.start == r.end || is_vertical(r.start) != is_vertical(r.end)
}

/// The exit direction that lane `lane` (0, 1 or 2) of entry `entry` leads to.
pub open spec fn lane_exit(entry: Airt, lane: int) -> Airt {
    match entry {
        Airt::Up => if lane == 0 { Airt::Left } else if lane == 1 { Airt::Up } else { Airt::Right },
        Airt::Down => if lane == 0 { Airt::Left } else if lane == 1 { Airt::Down } else { Airt::Right },
        Airt::Right => if lane == 0 { Airt::Up } else if lane == 1 { Airt::Right } else { Airt::Down },
        Airt::Left => if lane == 0 { Airt::Up } else if lane == 1 { Airt::Left } else { Airt::Down },
    }
}

/// The speed tier of lane `lane` of entry `entry`: the middle lane is always
/// fast, the other two take slow and default in an order set per entry.
pub open spec fn lane_speed(entry: Airt, lane: int, s: Speed) -> i32 {
    if lane == 1 {
        s.fast
    } else {
        match entry {
            Airt::Up | Airt::Right => if lane == 0 { s.default } else { s.slow },
            Airt::Down | Airt::Left => if lane == 0 { s.slow } else { s.default },
        }
    }
}

/// The top-left corner at which a vehicle of lane `lane` of entry `entry`
/// appears: on the edge it enters from, in the lane's place beside the
/// centre line.
pub open spec fn entry_point(entry: Airt, lane: int, d: Dimensions) -> (int, int) {
    let lw = d.lane_width as int;
    match entry {
        Airt::Up => (d.half_width + lane * lw, d.window_height - lw),
        Airt::Down => (d.half_width - (3 - lane) * lw, 0),
        Airt::Right => (0, d.half_height + lane * lw),
        Airt::Left => (d.window_width - lw, d.half_height - (3 - lane) * lw),
    }
}

/// The colour slot of the vehicles of entry `entry`.
pub open spec fn color_slot(entry: Airt) -> usize {
    match entry {
        Airt::Up => 0,
        Airt::Down => 1,
        Airt::Right => 2,
        Airt::Left => 3,
    }
}


/// The fixed acceleration step, in pixels per tick per tick.
pub const ACCELERATION: i32 = 1;

/// The fixed rotation rate, in degrees per tick.
pub const ROTATION_RATE: i32 = 8;

/// One acceleration step from `s` toward `t`.
pub open spec fn step_toward(s: int, t: int) -> int {
    if s < t {
        s + ACCELERATION
    } else if s > t {
        s - ACCELERATION
    } else {
        s
    }
}

/// One rotation step from heading `cur` toward heading `target` along the
/// shorter way round, brought back into [0, 360).
pub open spec fn eased_angle(cur: int, target: int) -> int {
    let diff = target - cur;
    let shortest = if diff > 180 {
        diff - 360
    } else if diff < -180 {
        diff + 360
    } else {
        diff
    };
    let turned = if shortest > ROTATION_RATE {
        cur + ROTATION_RATE
    } else if shortest < -ROTATION_RATE {
        cur - ROTATION_RATE
    } else {
        target
    };
    turned % 360
}

/// The coordinate at which a vehicle on route `start` to `end` leaves its
/// entry axis: a `y` for vertical entries, an `x` for horizontal ones.
pub open spec fn turn_line(start: Airt, end: Airt, d: Dimensions) -> int {
    let hw = d.half_width as int;
    let hh = d.half_height as int;
    let lw = d.lane_width as int;
    match start {
        Airt::Up => if end == Airt::Left { hh - lw } else { hh + 2 * lw },
        Airt::Down => if end == Airt::Left { hh - 3 * lw } else { hh },
        Airt::Left => if end == Airt::Up { hw + 2 * lw } else { hw - lw },
        Airt::Right => if end == Airt::Up { hw } else { hw - 3 * lw },
    }
}

/// Whether a vehicle travelling in direction `start` at `(x, y)` has reached
/// the coordinate `line` on its axis of travel.
pub open spec fn reached(start: Airt, x: int, y: int, line: int) -> bool {
    match start {
        Airt::Up => y <= line,
        Airt::Down => y >= line,
        Airt::Left => x <= line,
        Airt::Right => x >= line,
    }
}

/// The point `s` pixels from `(x, y)` in direction `dir`.
pub open spec fn travel(dir: Airt, x: int, y: int, s: int) -> (int, int) {
    match dir {
        Airt::Up => (x, y - s),
        Airt::Down => (x, y + s),
        Airt::Left => (x - s, y),
        Airt::Right => (x + s, y),
    }
}

/// Whether the footprint at `(x, y)` lies partly or wholly outside the window.
pub open spec fn out_of_bounds(x: int, y: int, d: Dimensions) -> bool {
    x < 0 || x + d.lane_width > d.window_width || y < 0 || y + d.lane_width > d.window_height
}

/// Whether the squares of side `lw` at `(ax, ay)` and `(bx, by)` share at
/// least one pixel.
pub open spec fn overlaps(ax: int, ay: int, bx: int, by: int, lw: int) -> bool {
    ax < bx + lw && ax + lw > bx && ay < by + lw && ay + lw > by
}

/// Whether a footprint at `(x, y)` would overlap an entry of `table` that
/// belongs to another vehicle than `index`.
pub open spec fn blocked(x: int, y: int, index: usize, table: Seq<(i32, i32, usize)>, lw: int) -> bool {
    exists|j: int|
        0 <= j < table.len() && table[j].2 != index && #[trigger] overlaps(x, y, table[j].0 as int, table[j].1 as int, lw)
}

/// The time from `birthday` to `now`, zero if the clock reads earlier.
pub open spec fn transit(now: u64, birthday: u64) -> u64 {
    if now >= birthday {
        (now - birthday) as u64
    } else {
        0
    }
}

impl Car {
    /// The vehicle that lane `lane` of entry `entry` produces at clock
    /// reading `now`, as the `index`-th of the collection.
    pub open spec fn spawned(entry: Airt, lane: int, index: usize, d: Dimensions, now: u64) -> Car {
        let p = entry_point(entry, lane, d);
        let speed = lane_speed(entry, lane, d.speed);
        Car {
            x: p.0 as i32,
            y: p.1 as i32,
            color_code: color_slot(entry),
            direction: Direction { start: entry, end: lane_exit(entry, lane) },
            speed,
            target_speed: speed,
            current_angle: heading(entry) as i32,
            target_angle: heading(entry) as i32,
            vertical: is_vertical(entry),
            gone: false,
            index,
            birthday: now,
            in_turn: false,
        }
    }


    /// The vehicle after one speed and one heading step.
    pub open spec fn eased(self) -> Car {
        Car {
            speed: step_toward(self.speed as int, self.target_speed as int) as i32,
            current_angle: eased_angle(self.current_angle as int, self.target_angle as int) as i32,
            ..self
        }
    }

    /// Whether the vehicle turns (or keeps turning) this tick: its route
    /// turns and it has reached the route's turn line.
    pub open spec fn turning(self, d: Dimensions) -> bool {
        self.direction.start != self.direction.end && reached(
            self.direction.start,
            self.x as int,
            self.y as int,
            turn_line(self.direction.start, self.direction.end, d),
        )
    }

    /// The vehicle's state after the integrator's step, its position aside:
    /// eased, and when turning set on the exit axis, with the exit heading as
    /// target from the first turning tick on.
    pub open spec fn steered(self, d: Dimensions) -> Car {
        let c = self.eased();
        if c.turning(d) {
            Car {
                vertical: is_vertical(c.direction.end),
                in_turn: true,
                target_angle: if c.in_turn { c.target_angle } else { heading(c.direction.end) as i32 },
                ..c
            }
        } else {
            c
        }
    }

    /// The position the vehicle tries to move to: straight ahead at its eased
    /// speed, or, from the turn line on, along the exit direction with the
    /// entry-axis coordinate held on the turn line.
    pub open spec fn candidate(self, d: Dimensions) -> (int, int) {
        let c = self.eased();
        let line = turn_line(c.direction.start, c.direction.end, d);
        if c.turning(d) {
            if is_vertical(c.direction.start) {
                travel(c.direction.end, c.x as int, line, c.speed as int)
            } else {
                travel(c.direction.end, line, c.y as int, c.speed as int)
            }
        } else {
            travel(c.direction.start, c.x as int, c.y as int, c.speed as int)
        }
    }

    /// Whether the vehicle's footprint has left the window.
    pub open spec fn exits(self, d: Dimensions) -> bool {
        out_of_bounds(self.x as int, self.y as int, d)
    }

    /// Whether the vehicle gives way this tick against `table`.
    pub open spec fn gives_way(self, table: Seq<(i32, i32, usize)>, d: Dimensions) -> bool {
        !self.exits(d) && blocked(
            self.candidate(d).0,
            self.candidate(d).1,
            self.index,
            table,
            d.lane_width as int,
        )
    }

    /// The vehicle after its tick against `table`: marked gone when it has
    /// left the window; else steered, and moved unless it gives way.
    pub open spec fn advanced(self, table: Seq<(i32, i32, usize)>, d: Dimensions) -> Car {
        if self.exits(d) {
            Car { gone: true, ..self }
        } else if self.gives_way(table, d) {
            self.steered(d)
        } else {
            Car { x: self.candidate(d).0 as i32, y: self.candidate(d).1 as i32, ..self.steered(d) }
        }
    }

    /// The position table after the vehicle's tick: its own entry holds its
    /// new position when it moved.
    pub open spec fn table_after(self, table: Seq<(i32, i32, usize)>, d: Dimensions) -> Seq<(i32, i32, usize)> {
        if self.exits(d) || self.gives_way(table, d) {
            table
        } else {
            table.update(
                self.index as int,
                (self.candidate(d).0 as i32, self.candidate(d).1 as i32, self.index),
            )
        }
    }

    /// Coordinates stay well inside `i32`, speeds are non-negative, the
    /// heading is in [-180, 360) and its target one of the four headings, and
    /// the route is one that the lane table can produce.
    pub open spec fn wf(self) -> bool {
        &&& -4 * DIM_LIMIT <= self.x <= 4 * DIM_LIMIT
        &&& -4 * DIM_LIMIT <= self.y <= 4 * DIM_LIMIT
        &&& 0 <= self.speed <= DIM_LIMIT
        &&& 0 <= self.target_speed <= DIM_LIMIT
        &&& -180 <= self.current_angle < 360
        &&& (self.target_angle == -90 || self.target_angle == 0 || self.target_angle == 90
            || self.target_angle == 180)
        &&& valid_route(self.direction)
        &&& self.color_code < 4
    }


    /// One acceleration step toward the target speed and one rotation step
    /// toward the target heading, the shorter way round.
    fn ease(&mut self)
        requires
            old(self).wf(),
        ensures
            *final(self) == old(self).eased(),
            final(self).wf(),
            0 <= final(self).current_angle < 360,
    {
        if self.speed < self.target_speed {
            self.speed = self.speed + ACCELERATION;
        } else if self.speed > self.target_speed {
            self.speed = self.speed - ACCELERATION;
        }

        let angle_diff = self.target_angle - self.current_angle;
        let shortest = if angle_diff > 180 {
            angle_diff - 360
        } else if angle_diff < -180 {
            angle_diff + 360
        } else {
            angle_diff
        };
        if shortest > ROTATION_RATE {
            self.current_angle = self.current_angle + ROTATION_RATE;
        } else if shortest < -ROTATION_RATE {
            self.current_angle = self.current_angle - ROTATION_RATE;
        } else {
            self.current_angle = self.target_angle;
        }
        if self.current_angle < 0 {
            self.current_angle = self.current_angle + 360;
        } else if self.current_angle >= 360 {
            self.current_angle = self.current_angle - 360;
        }
    }

    /// Advances speed and heading by one step and works out the position the
    /// vehicle tries to reach this tick, switching it onto its exit axis once
    /// it has reached its turn line.
    fn calculate_new_position(&mut self, dimensions: &Dimensions) -> (r: (i32, i32))
        requires
            old(self).wf(),
            dimensions.wf(),
            !old(self).exits(*dimensions),
        ensures
            *final(self) == old(self).steered(*dimensions),
            r.0 == old(self).candidate(*dimensions).0,
            r.1 == old(self).candidate(*dimensions).1,
            final(self).wf(),
            -4 * DIM_LIMIT <= r.0 <= 4 * DIM_LIMIT,
            -4 * DIM_LIMIT <= r.1 <= 4 * DIM_LIMIT,
    {
        self.ease();

        let hw = dimensions.half_width;
        let hh = dimensions.half_height;
        let lw = dimensions.lane_width;
        let mut new_x = self.x;
        let mut new_y = self.y;

        match self.direction.start {
            Airt::Up => match self.direction.end {
                Airt::Left => {
                    if self.y > hh - lw {
                        new_y = self.y - self.speed;
                    } else {
                        new_y = hh - lw;
                        self.vertical = false;
                        new_x = self.x - self.speed;
                        if !self.in_turn {
                            self.in_turn = true;
                            self.target_angle = -90;
                        }
                    }
                },
                Airt::Up => {
                    new_y = self.y - self.speed;
                },
                Airt::Right => {
                    if self.y > hh + 2 * lw {
                        new_y = self.y - self.speed;
                    } else {
                        new_y = hh + 2 * lw;
                        self.vertical = false;
                        new_x = self.x + self.speed;
                        if !self.in_turn {
                            self.in_turn = true;
                            self.target_angle = 90;
                        }
                    }
                },
                Airt::Down => unreached(),
            },
            Airt::Down => match self.direction.end {
                Airt::Left => {
                    if self.y < hh - 3 * lw {
                        new_y = self.y + self.speed;
                    } else {
                        new_y = hh - 3 * lw;
                        new_x = self.x - self.speed;
                        self.vertical = false;
                        if !self.in_turn {
                            self.in_turn = true;
                            self.target_angle = -90;
                        }
                    }
                },
                Airt::Down => {
                    new_y = self.y + self.speed;
                },
                Airt::Right => {
                    if self.y < hh {
                        new_y = self.y + self.speed;
                    } else {
                        new_y = hh;
                        new_x = self.x + self.speed;
                        self.vertical = false;
                        if !self.in_turn {
                            self.in_turn = true;
                            self.target_angle = 90;
                        }
                    }
                },
                Airt::Up => unreached(),
            },
            Airt::Left => match self.direction.end {
                Airt::Up => {
                    if self.x > hw + 2 * lw {
                        new_x = self.x - self.speed;
                    } else {
                        new_x = hw + 2 * lw;
                        self.vertical = true;
                        new_y = self.y - self.speed;
                        if !self.in_turn {
                            self.in_turn = true;
                            self.target_angle = 0;
                        }
                    }
                },
                Airt::Left => {
                    new_x = self.x - self.speed;
                },
                Airt::Down => {
                    if self.x > hw - lw {
                        new_x = self.x - self.speed;
                    } else {
                        new_x = hw - lw;
                        self.vertical = true;
                        new_y = self.y + self.speed;
                        if !self.in_turn {
                            self.in_turn = true;
                            self.target_angle = 180;
                        }
                    }
                },
                Airt::Right => unreached(),
            },
            Airt::Right => match self.direction.end {
                Airt::Up => {
                    if self.x < hw {
                        new_x = self.x + self.speed;
                    } else {
                        new_x = hw;
                        self.vertical = true;
                        new_y = self.y - self.speed;
                        if !self.in_turn {
                            self.in_turn = true;
                            self.target_angle = 0;
                        }
                    }
                },
                Airt::Right => {
                    new_x = self.x + self.speed;
                },
                Airt::Down => {
                    if self.x < hw - 3 * lw {
                        new_x = self.x + self.speed;
                    } else {
                        new_x = hw - 3 * lw;
                        self.vertical = true;
                        new_y = self.y + self.speed;
                        if !self.in_turn {
                            self.in_turn = true;
                            self.target_angle = 180;
                        }
                    }
                },
                Airt::Left => unreached(),
            },
        }

        (new_x, new_y)
    }

    /// Whether the footprint at `(new_x, new_y)` would overlap the entry of
    /// any other vehicle in the position table.
    fn will_collide(
        &self,
        new_x: i32,
        new_y: i32,
        prospective_positions: &Vec<(i32, i32, usize)>,
        dimensions: &Dimensions,
    ) -> (r: bool)
        ensures
            r == blocked(new_x as int, new_y as int, self.index, prospective_positions@, dimensions.lane_width as int),
    {
        let lw = dimensions.lane_width as i64;
        let nx = new_x as i64;
        let ny = new_y as i64;
        let n = prospective_positions.len();
        let mut i: usize = 0;
        while i < n
            invariant
                n == prospective_positions@.len(),
                i <= n,
                lw == dimensions.lane_width,
                nx == new_x,
                ny == new_y,
                forall|j: int|
                    0 <= j < i ==> !(prospective_positions@[j].2 != self.index && #[trigger] overlaps(
                        new_x as int,
                        new_y as int,
                        prospective_positions@[j].0 as int,
                        prospective_positions@[j].1 as int,
                        lw as int,
                    )),
            decreases n - i,
        {
            let other = prospective_positions[i];
            if other.2 != self.index {
                let ox = other.0 as i64;
                let oy = other.1 as i64;
                if nx < ox + lw && nx + lw > ox && ny < oy + lw && ny + lw > oy {
                    assert(overlaps(
                        new_x as int,
                        new_y as int,
                        prospective_positions@[i as int].0 as int,
                        prospective_positions@[i as int].1 as int,
                        lw as int,
                    ));
                    return true;
                }
            }
            i = i + 1;
        }
        false
    }

    /// One tick of this vehicle. A vehicle whose footprint has left the
    /// window is marked gone, counted and its transit time recorded. Any other
    /// steps its speed and heading and moves to its candidate position unless
    /// that would overlap another vehicle's entry in `prospective_positions`,
    /// in which case it stays put (gives way). Returns `false` exactly when it
    /// gave way.
    pub fn update(
        &mut self,
        prospective_positions: &mut Vec<(i32, i32, usize)>,
        cars_passed: &mut u64,
        max_time: &mut u64,
        min_time: &mut u64,
        dimensions: &Dimensions,
        now: u64,
    ) -> (r: bool)
        requires
            old(self).wf(),
            dimensions.wf(),
            old(self).index < old(prospective_positions)@.len(),
        ensures
            *final(self) == old(self).advanced(old(prospective_positions)@, *dimensions),
            final(prospective_positions)@ == old(self).table_after(old(prospective_positions)@, *dimensions),
            r == !old(self).gives_way(old(prospective_positions)@, *dimensions),
            final(self).wf(),
            old(self).exits(*dimensions) ==> {
                &&& *final(cars_passed) == old(cars_passed).saturating_add(1)
                &&& *final(max_time) == if *old(max_time) < transit(now, old(self).birthday) {
                    transit(now, old(self).birthday)
                } else {
                    *old(max_time)
                }
                &&& *final(min_time) == if *old(min_time) > transit(now, old(self).birthday) {
                    transit(now, old(self).birthday)
                } else {
                    *old(min_time)
                }
            },
            !old(self).exits(*dimensions) ==> {
                &&& *final(cars_passed) == *old(cars_passed)
                &&& *final(max_time) == *old(max_time)
                &&& *final(min_time) == *old(min_time)
            },
    {
        let lw = dimensions.lane_width;
        if self.x < 0 || self.x + lw > dimensions.window_width || self.y < 0
            || self.y + lw > dimensions.window_height {
            *cars_passed = cars_passed.saturating_add(1);
            self.gone = true;
            let elapsed = if now >= self.birthday {
                now - self.birthday
            } else {
                0
            };
            if *max_time < elapsed {
                *max_time = elapsed;
            }
            if *min_time > elapsed {
                *min_time = elapsed;
            }
            return true;
        }

        let (new_x, new_y) = self.calculate_new_position(dimensions);

        if self.will_collide(new_x, new_y, prospective_positions, dimensions) {
            return false;
        }

        prospective_positions.set(self.index, (new_x, new_y, self.index));

        self.x = new_x;
        self.y = new_y;

        true
    }

    /// The direction the vehicle travels in now: its entry direction while
    /// it runs along the entry axis, its exit direction once it has turned.
    pub fn get_current_direction(&self) -> (r: Airt)
        ensures
            r == if self.vertical == is_vertical(self.direction.start) {
                self.direction.start
            } else {
                self.direction.end
            },
    {
        let start_is_vertical = matches!(self.direction.start, Airt::Up | Airt::Down);
        if self.vertical == start_is_vertical {
            self.direction.start
        } else {
            self.direction.end
        }
    }

    /// The full lane table: for each entry and lane, the corner where the
    /// vehicle appears, where it leaves, and its speed.
    fn lane_plan(entry: Airt, lane: usize, d: &Dimensions) -> (r: (i32, i32, Airt, i32))
        requires
            d.wf(),
            lane < 3,
        ensures
            r.0 == entry_point(entry, lane as int, *d).0,
            r.1 == entry_point(entry, lane as int, *d).1,
            r.2 == lane_exit(entry, lane as int),
            r.3 == lane_speed(entry, lane as int, d.speed),
            -3 * DIM_LIMIT <= r.0 <= 3 * DIM_LIMIT,
            -3 * DIM_LIMIT <= r.1 <= 3 * DIM_LIMIT,
    {
        let lw = d.lane_width;
        proof {
            let l = lane as int;
            let w = lw as int;
            assert(l * w == if l == 0 { 0 } else if l == 1 { w } else { 2 * w }) by (nonlinear_arith)
                requires 0 <= l < 3;
            assert((3 - l) * w == if l == 0 { 3 * w } else if l == 1 { 2 * w } else { w }) by (nonlinear_arith)
                requires 0 <= l < 3;
        }
        match entry {
            Airt::Up => {
                let y = d.window_height - lw;
                match lane {
                    0 => (d.half_width, y, Airt::Left, d.speed.default),
                    1 => (d.half_width + lw, y, Airt::Up, d.speed.fast),
                    _ => (d.half_width + 2 * lw, y, Airt::Right, d.speed.slow),
                }
            },
            Airt::Down => {
                let y: i32 = 0;
                match lane {
                    0 => (d.half_width - 3 * lw, y, Airt::Left, d.speed.slow),
                    1 => (d.half_width - 2 * lw, y, Airt::Down, d.speed.fast),
                    _ => (d.half_width - lw, y, Airt::Right, d.speed.default),
                }
            },
            Airt::Right => {
                let x: i32 = 0;
                match lane {
                    0 => (x, d.half_height, Airt::Up, d.speed.default),
                    1 => (x, d.half_height + lw, Airt::Right, d.speed.fast),
                    _ => (x, d.half_height + 2 * lw, Airt::Down, d.speed.slow),
                }
            },
            Airt::Left => {
                let x = d.window_width - lw;
                match lane {
                    0 => (x, d.half_height - 3 * lw, Airt::Up, d.speed.slow),
                    1 => (x, d.half_height - 2 * lw, Airt::Left, d.speed.fast),
                    _ => (x, d.half_height - lw, Airt::Down, d.speed.default),
                }
            },
        }
    }

    /// A new vehicle in lane `lane` (0, 1 or 2) of entry `entry`.
    pub fn spawn_in_lane(entry: Airt, lane: usize, index: usize, dimensions: &Dimensions, now: u64) -> (r: Car)
        requires
            dimensions.wf(),
            lane < 3,
        ensures
            r == Car::spawned(entry, lane as int, index, *dimensions, now),
            r.wf(),
    {
        let (x, y, end, speed) = Car::lane_plan(entry, lane, dimensions);
        let (color_code, angle): (usize, i32) = match entry {
            Airt::Up => (0, 0),
            Airt::Down => (1, 180),
            Airt::Right => (2, 90),
            Airt::Left => (3, -90),
        };
        Car {
            x,
            y,
            color_code,
            direction: Direction { start: entry, end },
            speed,
            target_speed: speed,
            current_angle: angle,
            target_angle: angle,
            vertical: matches!(entry, Airt::Up | Airt::Down),
            gone: false,
            index,
            birthday: now,
            in_turn: false,
        }
    }

    /// A new vehicle from entry `entry` in a lane drawn at random.
    pub fn spawn(initial_direction: Airt, index: usize, dimensions: &Dimensions, now: u64) -> (r: Car)
        requires
            dimensions.wf(),
        ensures
            exists|lane: int| 0 <= lane < 3 && r == #[trigger] Car::spawned(initial_direction, lane, index, *dimensions, now),
            r.wf(),
    {
        let lane = random_below(3);
        Car::spawn_in_lane(initial_direction, lane, index, dimensions, now)
    }
}

} // verus!
