use vstd::prelude::*;

use crate::cars::{transit, Car};
use crate::outside::{clock_origin, micros_since, random_below};
use crate::types::{Airt, Dimensions, DIM_LIMIT};

verus! {

/// The live vehicles, in index order, and the run's statistics.
pub struct Traffic {
    pub cars: Vec<Car>,
    pub cars_passed: u64,
    pub give_ways: u64,
    /// Longest transit time seen, in microseconds.
    pub max_time: u64,
    /// Shortest transit time seen, in microseconds (`u64::MAX` before any).
    pub min_time: u64,
    pub max_velocity: i32,
    pub min_velocity: i32,
    pub close_calls: u64,
    /// Origin of the clock readings that vehicles are stamped with.
    pub epoch: std::time::Instant,
}

/// What a `Traffic` holds, as mathematical values.
pub struct TrafficState {
    pub cars: Seq<Car>,
    pub cars_passed: u64,
    pub give_ways: u64,
    pub max_time: u64,
    pub min_time: u64,
    pub max_velocity: i32,
    pub min_velocity: i32,
    pub close_calls: u64,
}

/// One entry of the position table: a vehicle's position and its index.
pub type Slot = (i32, i32, usize);

impl View for Traffic {
    type V = TrafficState;

    open spec fn view(&self) -> TrafficState {
        TrafficState {
            cars: self.cars@,
            cars_passed: self.cars_passed,
            give_ways: self.give_ways,
            max_time: self.max_time,
            min_time: self.min_time,
            max_velocity: self.max_velocity,
            min_velocity: self.min_velocity,
            close_calls: self.close_calls,
        }
    }
}

/// `a + k`, held at `u64::MAX`.
pub open spec fn saturated(a: u64, k: nat) -> u64 {
    if a + k > u64::MAX {
        u64::MAX
    } else {
        (a + k) as u64
    }
}

/// Whether the distance `d` between the stored positions of `a` and `b`
/// satisfies `lw < d < 1.5 * lw`, written over `d * d`.
pub open spec fn close(a: Car, b: Car, lw: int) -> bool {
    let dx = a.x - b.x;
    let dy = a.y - b.y;
    let sq = dx * dx + dy * dy;
    lw * lw < sq && 4 * sq < 9 * (lw * lw)
}

/// How many of the vehicles at indices `a + 1 .. m` are close to vehicle `a`.
pub open spec fn row_count(cars: Seq<Car>, a: int, m: int, lw: int) -> nat
    decreases m - a,
{
    if m <= a + 1 {
        0
    } else {
        row_count(cars, a, m - 1, lw) + if close(cars[a], cars[m - 1], lw) {
            1nat
        } else {
            0nat
        }
    }
}

/// How many close pairs `(a, b)`, `a < b`, have `a` below `k`.
pub open spec fn close_count(cars: Seq<Car>, k: int, lw: int) -> nat
    decreases k,
{
    if k <= 0 {
        0
    } else {
        close_count(cars, k - 1, lw) + row_count(cars, k - 1, cars.len() as int, lw)
    }
}

/// The position table at the start of a tick.
pub open spec fn snapshot(cars: Seq<Car>) -> Seq<Slot> {
    Seq::new(cars.len(), |i: int| (cars[i].x, cars[i].y, cars[i].index))
}

/// The vehicles of `cars` that are not gone, in order, each renumbered by its
/// place among them.
pub open spec fn pruned(cars: Seq<Car>) -> Seq<Car>
    decreases cars.len(),
{
    if cars.len() == 0 {
        Seq::empty()
    } else {
        let p = pruned(cars.drop_last());
        let c = cars.last();
        if c.gone {
            p
        } else {
            p.push(Car { index: p.len() as usize, ..c })
        }
    }
}

impl TrafficState {
    /// Every vehicle is well formed, live, and has its place as index.
    pub open spec fn wf(self) -> bool {
        forall|i: int|
            0 <= i < self.cars.len() ==> {
                &&& (#[trigger] self.cars[i]).wf()
                &&& self.cars[i].index == i
                &&& !self.cars[i].gone
            }
    }

    /// Vehicle `i`'s part of a tick against `table`: the speed extremes take
    /// its speed, it advances, and the counters record an exit or a give-way.
    pub open spec fn car_tick(self, table: Seq<Slot>, i: int, d: Dimensions, now: u64) -> (TrafficState, Seq<Slot>) {
        let c = self.cars[i];
        let e = transit(now, c.birthday);
        let exits = c.exits(d);
        (
            TrafficState {
                cars: self.cars.update(i, c.advanced(table, d)),
                cars_passed: if exits { saturated(self.cars_passed, 1) } else { self.cars_passed },
                give_ways: if c.gives_way(table, d) { saturated(self.give_ways, 1) } else { self.give_ways },
                max_time: if exits && self.max_time < e { e } else { self.max_time },
                min_time: if exits && self.min_time > e { e } else { self.min_time },
                max_velocity: if c.speed > self.max_velocity { c.speed } else { self.max_velocity },
                min_velocity: if c.speed < self.min_velocity { c.speed } else { self.min_velocity },
                close_calls: self.close_calls,
            },
            c.table_after(table, d),
        )
    }

    /// The first `k` vehicles' parts of a tick, in index order, each against
    /// the table its predecessors left: lower indices have priority.
    pub open spec fn cars_tick(self, table: Seq<Slot>, k: int, d: Dimensions, now: u64) -> (TrafficState, Seq<Slot>)
        decreases k,
    {
        if k <= 0 {
            (self, table)
        } else {
            let prev = self.cars_tick(table, k - 1, d, now);
            prev.0.car_tick(prev.1, k - 1, d, now)
        }
    }

    /// The state once the close-call scan has run.
    pub open spec fn scanned(self, d: Dimensions) -> TrafficState {
        TrafficState {
            close_calls: saturated(
                self.close_calls,
                close_count(self.cars, self.cars.len() as int, d.lane_width as int),
            ),
            ..self
        }
    }

    /// The vehicles after every one has taken its part of the tick, before
    /// the gone ones are removed.
    pub open spec fn moved(self, d: Dimensions, now: u64) -> TrafficState {
        self.scanned(d).cars_tick(snapshot(self.cars), self.cars.len() as int, d, now).0
    }

    /// One tick at clock reading `now`: scan for close calls, advance every
    /// vehicle in index order, drop the gone ones and renumber the rest.
    pub open spec fn tick(self, d: Dimensions, now: u64) -> TrafficState {
        let m = self.moved(d, now);
        TrafficState { cars: pruned(m.cars), ..m }
    }
}

impl Traffic {
    /// An empty intersection with all counters at their starting values.
    pub fn new() -> (r: Traffic)
        ensures
            r@.cars.len() == 0,
            r.cars_passed == 0,
            r.give_ways == 0,
            r.close_calls == 0,
            r.max_time == 0,
            r.min_time == u64::MAX,
            r.max_velocity == 0,
            r.min_velocity == i32::MAX,
            r@.wf(),
    {
        Traffic {
            cars: Vec::new(),
            cars_passed: 0,
            give_ways: 0,
            max_time: 0,
            min_time: u64::MAX,
            max_velocity: 0,
            min_velocity: i32::MAX,
            close_calls: 0,
            epoch: clock_origin(),
        }
    }

    /// One tick at the current clock reading; see `update_at`.
    pub fn update(&mut self, dimensions: &Dimensions)
        requires
            old(self)@.wf(),
            dimensions.wf(),
        ensures
            exists|now: u64| final(self)@ == old(self)@.tick(*dimensions, now),
            final(self)@.wf(),
            forall|i: int| 0 <= i < final(self)@.cars.len() ==> (#[trigger] final(self)@.cars[i]).index == i,
    {
        let now = micros_since(&self.epoch);
        self.update_at(dimensions, now);
    }

    /// Appends a vehicle from `initial_direction` in lane `lane` (0, 1 or
    /// 2), stamped with clock reading `now`.
    pub fn push_in_lane(&mut self, initial_direction: Airt, lane: usize, dimensions: &Dimensions, now: u64)
        requires
            old(self)@.wf(),
            dimensions.wf(),
            lane < 3,
        ensures
            final(self)@ == (TrafficState {
                cars: old(self)@.cars.push(
                    Car::spawned(initial_direction, lane as int, old(self)@.cars.len() as usize, *dimensions, now),
                ),
                ..old(self)@
            }),
            final(self)@.wf(),
            final(self).epoch == old(self).epoch,
    {
        let car = Car::spawn_in_lane(initial_direction, lane, self.cars.len(), dimensions, now);
        self.cars.push(car);
    }

    /// Appends a vehicle from `initial_direction` in a lane drawn at random,
    /// stamped with the current clock reading.
    pub fn push(&mut self, initial_direction: Airt, dimensions: &Dimensions)
        requires
            old(self)@.wf(),
            dimensions.wf(),
        ensures
            exists|lane: int, now: u64|
                0 <= lane < 3 && final(self)@ == (TrafficState {
                    cars: old(self)@.cars.push(
                        #[trigger] Car::spawned(initial_direction, lane, old(self)@.cars.len() as usize, *dimensions, now),
                    ),
                    ..old(self)@
                }),
            final(self)@.wf(),
    {
        let now = micros_since(&self.epoch);
        let index = self.cars.len();
        let car = Car::spawn(initial_direction, index, dimensions, now);
        let ghost lane = choose|lane: int|
            0 <= lane < 3 && car == #[trigger] Car::spawned(initial_direction, lane, index, *dimensions, now);
        self.cars.push(car);
        assert(self@ == (TrafficState {
            cars: old(self)@.cars.push(Car::spawned(initial_direction, lane, old(self)@.cars.len() as usize, *dimensions, now)),
            ..old(self)@
        }));
    }

    /// Appends a vehicle from an entry direction and a lane both drawn at
    /// random, stamped with the current clock reading.
    pub fn push_random(&mut self, dimensions: &Dimensions)
        requires
            old(self)@.wf(),
            dimensions.wf(),
        ensures
            exists|entry: Airt, lane: int, now: u64|
                0 <= lane < 3 && final(self)@ == (TrafficState {
                    cars: old(self)@.cars.push(
                        #[trigger] Car::spawned(entry, lane, old(self)@.cars.len() as usize, *dimensions, now),
                    ),
                    ..old(self)@
                }),
            final(self)@.wf(),
    {
        let random_direction = match random_below(4) {
            0 => Airt::Up,
            1 => Airt::Down,
            2 => Airt::Left,
            _ => Airt::Right,
        };
        let now = micros_since(&self.epoch);
        let index = self.cars.len();
        let car = Car::spawn(random_direction, index, dimensions, now);
        let ghost lane = choose|lane: int|
            0 <= lane < 3 && car == #[trigger] Car::spawned(random_direction, lane, index, *dimensions, now);
        self.cars.push(car);
        assert(self@ == (TrafficState {
            cars: old(self)@.cars.push(Car::spawned(random_direction, lane, old(self)@.cars.len() as usize, *dimensions, now)),
            ..old(self)@
        }));
    }

    /// One tick at clock reading `now` (microseconds since `epoch`): the
    /// close-call scan over the positions at the start of the tick, then each
    /// vehicle in index order against the shared position table, which it
    /// updates when it moves (lower indices have priority), then removal of
    /// the vehicles that left and renumbering of the rest.
    pub fn update_at(&mut self, dimensions: &Dimensions, now: u64)
        requires
            old(self)@.wf(),
            dimensions.wf(),
        ensures
            final(self)@ == old(self)@.tick(*dimensions, now),
            final(self)@.wf(),
            forall|i: int| 0 <= i < final(self)@.cars.len() ==> (#[trigger] final(self)@.cars[i]).index == i,
            final(self).epoch == old(self).epoch,
    {
        let n = self.cars.len();
        let mut prospective_positions: Vec<Slot> = Vec::new();
        let mut k: usize = 0;
        while k < n
            invariant
                n == self.cars@.len(),
                k <= n,
                prospective_positions@ == snapshot(self.cars@).subrange(0, k as int),
            decreases n - k,
        {
            let car = self.cars[k];
            prospective_positions.push((car.x, car.y, car.index));
            k = k + 1;
        }
        assert(prospective_positions@ == snapshot(self.cars@));

        self.check_close_calls(dimensions);

        let ghost start = self@;
        let ghost table0 = prospective_positions@;
        let mut i: usize = 0;
        while i < n
            invariant
                n == self.cars@.len(),
                n == start.cars.len(),
                i <= n,
                start.wf(),
                dimensions.wf(),
                prospective_positions@.len() == n,
                (self@, prospective_positions@) == start.cars_tick(table0, i as int, *dimensions, now),
                forall|j: int| i <= j < n ==> self.cars@[j] == start.cars[j],
                forall|j: int| 0 <= j < i ==> (#[trigger] self.cars@[j]).wf(),
                self.epoch == old(self).epoch,
            decreases n - i,
        {
            let mut car = self.cars[i];
            assert(car == start.cars[i as int]);
            if car.speed > self.max_velocity {
                self.max_velocity = car.speed;
            }
            if car.speed < self.min_velocity {
                self.min_velocity = car.speed;
            }
            if !car.update(
                &mut prospective_positions,
                &mut self.cars_passed,
                &mut self.max_time,
                &mut self.min_time,
                dimensions,
                now,
            ) {
                self.give_ways = self.give_ways.saturating_add(1);
            }
            self.cars.set(i, car);
            i = i + 1;
        }

        let ghost moved = self.cars@;
        let mut kept: Vec<Car> = Vec::new();
        let mut i: usize = 0;
        while i < n
            invariant
                n == self.cars@.len(),
                moved == self.cars@,
                i <= n,
                forall|j: int| 0 <= j < n ==> (#[trigger] moved[j]).wf(),
                kept@ == pruned(moved.subrange(0, i as int)),
                kept@.len() <= i,
                forall|j: int|
                    0 <= j < kept@.len() ==> {
                        &&& (#[trigger] kept@[j]).wf()
                        &&& kept@[j].index == j
                        &&& !kept@[j].gone
                    },
            decreases n - i,
        {
            let mut car = self.cars[i];
            assert(moved.subrange(0, i + 1).drop_last() == moved.subrange(0, i as int));
            if !car.gone {
                car.index = kept.len();
                kept.push(car);
            }
            i = i + 1;
        }
        assert(moved.subrange(0, n as int) == moved);
        self.cars = kept;
    }

    /// Counts the pairs of vehicles whose stored positions lie more than one
    /// and less than one and a half lane widths apart. It changes nothing
    /// else.
    fn check_close_calls(&mut self, dimensions: &Dimensions)
        requires
            old(self)@.wf(),
            dimensions.wf(),
        ensures
            final(self)@ == old(self)@.scanned(*dimensions),
            final(self).epoch == old(self).epoch,
    {
        let lw = dimensions.lane_width as i64;
        let n = self.cars.len();
        let ghost cars = self.cars@;
        let ghost lwi = lw as int;
        let mut i: usize = 0;
        while i < n
            invariant
                n == cars.len(),
                self@ == (TrafficState { close_calls: self.close_calls, ..old(self)@ }),
                self.cars@ == cars,
                self.epoch == old(self).epoch,
                old(self)@.wf(),
                cars == old(self)@.cars,
                0 < lw <= DIM_LIMIT,
                lwi == lw,
                lw == dimensions.lane_width,
                i <= n,
                self.close_calls == saturated(old(self).close_calls, close_count(cars, i as int, lwi)),
            decreases n - i,
        {
            let mut j: usize = i + 1;
            while j < n
                invariant
                    n == cars.len(),
                    self@ == (TrafficState { close_calls: self.close_calls, ..old(self)@ }),
                    self.cars@ == cars,
                    self.epoch == old(self).epoch,
                    old(self)@.wf(),
                    cars == old(self)@.cars,
                    0 < lw <= DIM_LIMIT,
                    lwi == lw,
                    i < n,
                    i + 1 <= j <= n,
                    self.close_calls == saturated(
                        old(self).close_calls,
                        close_count(cars, i as int, lwi) + row_count(cars, i as int, j as int, lwi),
                    ),
                decreases n - j,
            {
                let car1 = self.cars[i];
                let car2 = self.cars[j];
                assert(cars[i as int].wf() && cars[j as int].wf());
                let dx = car1.x as i64 - car2.x as i64;
                let dy = car1.y as i64 - car2.y as i64;
                assert(dx * dx <= 64 * DIM_LIMIT * DIM_LIMIT) by (nonlinear_arith)
                    requires -8 * DIM_LIMIT <= dx <= 8 * DIM_LIMIT;
                assert(dy * dy <= 64 * DIM_LIMIT * DIM_LIMIT) by (nonlinear_arith)
                    requires -8 * DIM_LIMIT <= dy <= 8 * DIM_LIMIT;
                assert(0 <= dx * dx && 0 <= dy * dy) by (nonlinear_arith);
                assert(lw * lw <= DIM_LIMIT * DIM_LIMIT) by (nonlinear_arith)
                    requires 0 < lw <= DIM_LIMIT;
                let sq = dx * dx + dy * dy;
                if lw * lw < sq && 4 * sq < 9 * (lw * lw) {
                    self.close_calls = self.close_calls.saturating_add(1);
                }
                j = j + 1;
            }
            i = i + 1;
        }
    }
}

} // verus!
