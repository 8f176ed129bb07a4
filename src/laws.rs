use vstd::prelude::*;

use crate::cars::{overlaps, transit, Car};
use crate::traffic::{close, close_count, pruned, row_count, saturated, snapshot, Slot, TrafficState};
use crate::types::{is_vertical, Airt, Dimensions};

verus! {

/// A vehicle's tick keeps it well formed and keeps its index, route,
/// colour and birth time.
pub proof fn lemma_advanced_wf(c: Car, table: Seq<Slot>, d: Dimensions)
    requires
        c.wf(),
        d.wf(),
    ensures
        c.advanced(table, d).wf(),
        c.advanced(table, d).index == c.index,
        c.advanced(table, d).direction == c.direction,
        c.advanced(table, d).birthday == c.birthday,
        c.advanced(table, d).color_code == c.color_code,
        c.advanced(table, d).gone == (c.gone || c.exits(d)),
{
}

/// The shape of a tick after its first `k` vehicles: lengths are kept, the
/// later vehicles are untouched, and the table holds every vehicle's current
/// position under its index.
pub proof fn lemma_cars_tick_shape(s: TrafficState, k: int, d: Dimensions, now: u64)
    requires
        s.wf(),
        d.wf(),
        0 <= k <= s.cars.len(),
    ensures
        ({
            let (t, tb) = s.cars_tick(snapshot(s.cars), k, d, now);
            &&& t.cars.len() == s.cars.len()
            &&& tb.len() == s.cars.len()
            &&& t.close_calls == s.close_calls
            &&& forall|j: int| k <= j < s.cars.len() ==> t.cars[j] == s.cars[j]
            &&& forall|j: int|
                0 <= j < s.cars.len() ==> tb[j] == (t.cars[j].x, t.cars[j].y, j as usize)
            &&& forall|j: int|
                0 <= j < s.cars.len() ==> {
                    &&& (#[trigger] t.cars[j]).wf()
                    &&& t.cars[j].index == j
                    &&& t.cars[j].direction == s.cars[j].direction
                    &&& t.cars[j].birthday == s.cars[j].birthday
                    &&& (holds_course(s.cars[j]) ==> holds_course(t.cars[j]))
                }
        }),
    decreases k,
{
    if k > 0 {
        lemma_cars_tick_shape(s, k - 1, d, now);
        let (p, ptb) = s.cars_tick(snapshot(s.cars), k - 1, d, now);
        lemma_advanced_wf(p.cars[k - 1], ptb, d);
    }
}

/// Whether vehicles `a` and `b` of `t` are both live and their footprints
/// overlap.
pub open spec fn clash(t: TrafficState, a: int, b: int, lw: int) -> bool {
    &&& !t.cars[a].gone
    &&& !t.cars[b].gone
    &&& overlaps(t.cars[a].x as int, t.cars[a].y as int, t.cars[b].x as int, t.cars[b].y as int, lw)
}

/// Whether vehicle `a` stands in `t` where it stood in `s`.
pub open spec fn stayed(s: TrafficState, t: TrafficState, a: int) -> bool {
    t.cars[a].x == s.cars[a].x && t.cars[a].y == s.cars[a].y
}

/// After the first `k` vehicles' parts of a tick, two live vehicles of which
/// one is among the first `k` overlap only if both stand where they stood.
proof fn lemma_no_new_overlap_upto(s: TrafficState, k: int, d: Dimensions, now: u64)
    requires
        s.wf(),
        d.wf(),
        0 <= k <= s.cars.len(),
    ensures
        forall|a: int, b: int|
            0 <= a < s.cars.len() && 0 <= b < s.cars.len() && a != b && (a < k || b < k) && #[trigger] clash(
                s.cars_tick(snapshot(s.cars), k, d, now).0,
                a,
                b,
                d.lane_width as int,
            ) ==> stayed(s, s.cars_tick(snapshot(s.cars), k, d, now).0, a) && stayed(
                s,
                s.cars_tick(snapshot(s.cars), k, d, now).0,
                b,
            ),
    decreases k,
{
    if k > 0 {
        let m = k - 1;
        let lw = d.lane_width as int;
        lemma_no_new_overlap_upto(s, m, d, now);
        lemma_cars_tick_shape(s, m, d, now);
        lemma_cars_tick_shape(s, k, d, now);
        let (p, ptb) = s.cars_tick(snapshot(s.cars), m, d, now);
        let t = s.cars_tick(snapshot(s.cars), k, d, now).0;
        let c = p.cars[m];
        assert(t.cars == p.cars.update(m, c.advanced(ptb, d)));
        assert forall|a: int, b: int|
            0 <= a < s.cars.len() && 0 <= b < s.cars.len() && a != b && (a < k || b < k) && #[trigger] clash(
                t,
                a,
                b,
                lw,
            ) implies stayed(s, t, a) && stayed(s, t, b) by {
            if a != m && b != m {
                assert(clash(p, a, b, lw));
            } else if !c.exits(d) && !c.gives_way(ptb, d) {
                let o = if a == m { b } else { a };
                assert(ptb[o] == (p.cars[o].x, p.cars[o].y, o as usize));
                assert(overlaps(
                    c.candidate(d).0,
                    c.candidate(d).1,
                    ptb[o].0 as int,
                    ptb[o].1 as int,
                    lw,
                ));
            } else if a == m {
                assert(clash(p, b, a, lw));
            } else {
                assert(clash(p, a, b, lw));
            }
        }
    }
}

/// A tick creates no overlap: two vehicles that are still live once every
/// vehicle has taken its part of the tick overlap only if neither moved, so
/// that they overlapped already at its start.
pub proof fn lemma_tick_creates_no_overlap(s: TrafficState, d: Dimensions, now: u64, a: int, b: int)
    requires
        s.wf(),
        d.wf(),
        0 <= a < s.cars.len(),
        0 <= b < s.cars.len(),
        a != b,
        clash(s.moved(d, now), a, b, d.lane_width as int),
    ensures
        stayed(s, s.moved(d, now), a),
        stayed(s, s.moved(d, now), b),
        overlaps(
            s.cars[a].x as int,
            s.cars[a].y as int,
            s.cars[b].x as int,
            s.cars[b].y as int,
            d.lane_width as int,
        ),
{
    let s0 = s.scanned(d);
    assert(snapshot(s0.cars) == snapshot(s.cars));
    lemma_no_new_overlap_upto(s0, s.cars.len() as int, d, now);
    assert(clash(s0.cars_tick(snapshot(s0.cars), s.cars.len() as int, d, now).0, a, b, d.lane_width as int));
}

/// The place in `cars` of the `i`-th vehicle that `pruned` keeps.
pub open spec fn kept_source(cars: Seq<Car>, i: int) -> int
    decreases cars.len(),
{
    if cars.len() == 0 {
        0
    } else if !cars.last().gone && i == pruned(cars.drop_last()).len() {
        cars.len() - 1
    } else {
        kept_source(cars.drop_last(), i)
    }
}

/// Each vehicle that `pruned` keeps is a live vehicle of `cars` renumbered,
/// and the kept ones come in their original order.
pub proof fn lemma_pruned_sources(cars: Seq<Car>)
    ensures
        pruned(cars).len() <= cars.len(),
        forall|i: int|
            0 <= i < pruned(cars).len() ==> {
                &&& 0 <= #[trigger] kept_source(cars, i) < cars.len()
                &&& !cars[kept_source(cars, i)].gone
                &&& pruned(cars)[i] == (Car { index: i as usize, ..cars[kept_source(cars, i)] })
            },
        forall|i: int, j: int|
            0 <= i < j < pruned(cars).len() ==> #[trigger] kept_source(cars, i) < #[trigger] kept_source(cars, j),
    decreases cars.len(),
{
    if cars.len() > 0 {
        let rest = cars.drop_last();
        lemma_pruned_sources(rest);
        assert forall|i: int| 0 <= i < pruned(rest).len() implies #[trigger] kept_source(cars, i) == kept_source(rest, i) by {
        }
    }
}

/// Every tick leaves each live vehicle well formed and numbered by its
/// place in the collection.
pub proof fn lemma_tick_keeps_indices(s: TrafficState, d: Dimensions, now: u64)
    requires
        s.wf(),
        d.wf(),
    ensures
        s.tick(d, now).wf(),
        forall|i: int| 0 <= i < s.tick(d, now).cars.len() ==> (#[trigger] s.tick(d, now).cars[i]).index == i,
{
    let s0 = s.scanned(d);
    lemma_cars_tick_shape(s0, s.cars.len() as int, d, now);
    let m = s.moved(d, now);
    lemma_pruned_sources(m.cars);
    assert forall|i: int| 0 <= i < s.tick(d, now).cars.len() implies {
        &&& (#[trigger] s.tick(d, now).cars[i]).wf()
        &&& s.tick(d, now).cars[i].index == i
        &&& !s.tick(d, now).cars[i].gone
    } by {
        assert(m.cars[kept_source(m.cars, i)].wf());
        assert(s.cars[i].index == i);
    }
}

/// A tick keeps vehicles apart: when no two footprints overlap at the start
/// of a tick, no two overlap at its end.
pub proof fn lemma_tick_keeps_apart(s: TrafficState, d: Dimensions, now: u64)
    requires
        s.wf(),
        d.wf(),
        forall|a: int, b: int|
            0 <= a < s.cars.len() && 0 <= b < s.cars.len() && a != b ==> !#[trigger] overlaps(
                s.cars[a].x as int,
                s.cars[a].y as int,
                s.cars[b].x as int,
                s.cars[b].y as int,
                d.lane_width as int,
            ),
    ensures
        forall|i: int, j: int|
            0 <= i < s.tick(d, now).cars.len() && 0 <= j < s.tick(d, now).cars.len() && i != j ==> !overlaps(
                #[trigger] s.tick(d, now).cars[i].x as int,
                s.tick(d, now).cars[i].y as int,
                #[trigger] s.tick(d, now).cars[j].x as int,
                s.tick(d, now).cars[j].y as int,
                d.lane_width as int,
            ),
{
    let s0 = s.scanned(d);
    lemma_cars_tick_shape(s0, s.cars.len() as int, d, now);
    let m = s.moved(d, now);
    let t = s.tick(d, now);
    lemma_pruned_sources(m.cars);
    assert forall|i: int, j: int| 0 <= i < t.cars.len() && 0 <= j < t.cars.len() && i != j implies !overlaps(
        #[trigger] t.cars[i].x as int,
        t.cars[i].y as int,
        #[trigger] t.cars[j].x as int,
        t.cars[j].y as int,
        d.lane_width as int,
    ) by {
        let a = kept_source(m.cars, i);
        let b = kept_source(m.cars, j);
        assert(a != b) by {
            if i < j {
                assert(kept_source(m.cars, i) < kept_source(m.cars, j));
            } else {
                assert(kept_source(m.cars, j) < kept_source(m.cars, i));
            }
        }
        if overlaps(t.cars[i].x as int, t.cars[i].y as int, t.cars[j].x as int, t.cars[j].y as int, d.lane_width as int) {
            lemma_tick_creates_no_overlap(s, d, now, a, b);
        }
    }
}

/// A vehicle on a straight route runs along its entry axis and has never
/// begun a turn.
pub open spec fn holds_course(c: Car) -> bool {
    c.direction.start == c.direction.end ==> c.vertical == is_vertical(c.direction.start) && !c.in_turn
}

/// A vehicle whose route goes straight never turns: its tick keeps its
/// orientation flag and leaves its turning flag as it was.
pub proof fn lemma_straight_route_never_turns(c: Car, table: Seq<Slot>, d: Dimensions)
    requires
        c.direction.start == c.direction.end,
    ensures
        c.advanced(table, d).vertical == c.vertical,
        c.advanced(table, d).in_turn == c.in_turn,
        holds_course(c) ==> holds_course(c.advanced(table, d)),
{
}

/// A vehicle spawned on a straight route starts on its entry axis and not
/// turning.
pub proof fn lemma_spawned_holds_course(entry: Airt, lane: int, index: usize, d: Dimensions, now: u64)
    ensures
        holds_course(Car::spawned(entry, lane, index, d, now)),
{
}

/// Ticks keep every straight-route vehicle on its entry axis and never mark
/// it as turning.
pub proof fn lemma_tick_holds_course(s: TrafficState, d: Dimensions, now: u64)
    requires
        s.wf(),
        d.wf(),
        forall|i: int| 0 <= i < s.cars.len() ==> holds_course(#[trigger] s.cars[i]),
    ensures
        forall|i: int| 0 <= i < s.tick(d, now).cars.len() ==> holds_course(#[trigger] s.tick(d, now).cars[i]),
{
    let s0 = s.scanned(d);
    lemma_cars_tick_shape(s0, s.cars.len() as int, d, now);
    let m = s.moved(d, now);
    lemma_pruned_sources(m.cars);
    assert forall|i: int| 0 <= i < s.tick(d, now).cars.len() implies holds_course(#[trigger] s.tick(d, now).cars[i]) by {
        let a = kept_source(m.cars, i);
        assert(holds_course(s0.cars[a]));
    }
}

/// Some vehicle at index `a + 1 .. m` is close to vehicle `a` when the row
/// count is positive.
proof fn lemma_row_witness(cars: Seq<Car>, a: int, m: int, lw: int)
    requires
        0 <= a,
        m <= cars.len(),
        row_count(cars, a, m, lw) > 0,
    ensures
        exists|j: int| a < j < m && #[trigger] close(cars[a], cars[j], lw),
    decreases m - a,
{
    if !close(cars[a], cars[m - 1], lw) {
        lemma_row_witness(cars, a, m - 1, lw);
    }
}

/// Some close pair has its first vehicle below `k` when the count is
/// positive.
proof fn lemma_count_witness(cars: Seq<Car>, k: int, lw: int)
    requires
        0 <= k <= cars.len(),
        close_count(cars, k, lw) > 0,
    ensures
        exists|i: int, j: int| 0 <= i < j < cars.len() && #[trigger] close(cars[i], cars[j], lw),
    decreases k,
{
    if close_count(cars, k - 1, lw) > 0 {
        lemma_count_witness(cars, k - 1, lw);
    } else {
        lemma_row_witness(cars, k - 1, cars.len() as int, lw);
    }
}

/// The row count grows with its end and counts a close vehicle below it.
proof fn lemma_row_counts(cars: Seq<Car>, a: int, j: int, m: int, lw: int)
    requires
        0 <= a < j < m <= cars.len(),
        close(cars[a], cars[j], lw),
    ensures
        row_count(cars, a, m, lw) >= 1,
    decreases m - j,
{
    if m - 1 > j {
        lemma_row_counts(cars, a, j, m - 1, lw);
    }
}

/// The count includes every close pair whose first vehicle lies below `k`.
proof fn lemma_count_counts(cars: Seq<Car>, i: int, j: int, k: int, lw: int)
    requires
        0 <= i < j < cars.len(),
        i < k <= cars.len(),
        close(cars[i], cars[j], lw),
    ensures
        close_count(cars, k, lw) >= 1,
    decreases k,
{
    if k - 1 > i {
        lemma_count_counts(cars, i, j, k - 1, lw);
    } else {
        lemma_row_counts(cars, i, j, cars.len() as int, lw);
    }
}

/// The close-call count never falls; it grows in a tick exactly when, at the
/// start of the tick, the positions of some two vehicles lie more than one
/// and less than one and a half lane widths apart (while it has room to
/// grow).
pub proof fn lemma_close_calls_need_near_pair(s: TrafficState, d: Dimensions, now: u64)
    requires
        s.wf(),
        d.wf(),
    ensures
        s.tick(d, now).close_calls >= s.close_calls,
        s.tick(d, now).close_calls > s.close_calls ==> exists|i: int, j: int|
            0 <= i < j < s.cars.len() && #[trigger] close(s.cars[i], s.cars[j], d.lane_width as int),
        (s.close_calls < u64::MAX && exists|i: int, j: int|
            0 <= i < j < s.cars.len() && #[trigger] close(s.cars[i], s.cars[j], d.lane_width as int))
            ==> s.tick(d, now).close_calls > s.close_calls,
{
    let s0 = s.scanned(d);
    let lw = d.lane_width as int;
    let n = s.cars.len() as int;
    lemma_cars_tick_shape(s0, n, d, now);
    assert(s.tick(d, now).close_calls == saturated(s.close_calls, close_count(s.cars, n, lw)));
    if s.tick(d, now).close_calls > s.close_calls {
        lemma_count_witness(s.cars, n, lw);
    }
    if exists|i: int, j: int| 0 <= i < j < s.cars.len() && #[trigger] close(s.cars[i], s.cars[j], lw) {
        let (i, j) = choose|i: int, j: int| 0 <= i < j < s.cars.len() && #[trigger] close(s.cars[i], s.cars[j], lw);
        lemma_count_counts(s.cars, i, j, n, lw);
    }
}

/// Through the first `k` vehicles of a tick the transit-time extremes only
/// widen, and each vehicle among them that had left the window has its
/// transit time within them.
proof fn lemma_times_upto(s: TrafficState, k: int, d: Dimensions, now: u64)
    requires
        s.wf(),
        d.wf(),
        0 <= k <= s.cars.len(),
    ensures
        s.cars_tick(snapshot(s.cars), k, d, now).0.max_time >= s.max_time,
        s.cars_tick(snapshot(s.cars), k, d, now).0.min_time <= s.min_time,
        forall|i: int|
            0 <= i < k && (#[trigger] s.cars[i]).exits(d) ==> {
                &&& s.cars_tick(snapshot(s.cars), k, d, now).0.max_time >= transit(now, s.cars[i].birthday)
                &&& s.cars_tick(snapshot(s.cars), k, d, now).0.min_time <= transit(now, s.cars[i].birthday)
            },
    decreases k,
{
    if k > 0 {
        lemma_times_upto(s, k - 1, d, now);
        lemma_cars_tick_shape(s, k - 1, d, now);
    }
}

/// A tick at which vehicle `i` has left the window records its transit time,
/// the clock reading less its birth reading, within the running extremes,
/// which only ever widen.
pub proof fn lemma_exit_records_transit(s: TrafficState, d: Dimensions, now: u64, i: int)
    requires
        s.wf(),
        d.wf(),
        0 <= i < s.cars.len(),
        s.cars[i].exits(d),
    ensures
        s.tick(d, now).max_time >= transit(now, s.cars[i].birthday),
        s.tick(d, now).min_time <= transit(now, s.cars[i].birthday),
        s.tick(d, now).max_time >= s.max_time,
        s.tick(d, now).min_time <= s.min_time,
{
    lemma_times_upto(s.scanned(d), s.cars.len() as int, d, now);
}

/// A lone vehicle that has left the window, on fresh statistics, is counted,
/// removed, and its transit time becomes both the longest and the shortest.
pub proof fn lemma_lone_exit_sets_both_extremes(s: TrafficState, d: Dimensions, now: u64)
    requires
        s.wf(),
        d.wf(),
        s.cars.len() == 1,
        s.cars[0].exits(d),
        s.max_time == 0,
        s.min_time == u64::MAX,
    ensures
        s.tick(d, now).max_time == transit(now, s.cars[0].birthday),
        s.tick(d, now).min_time == transit(now, s.cars[0].birthday),
        s.tick(d, now).cars_passed == saturated(s.cars_passed, 1),
        s.tick(d, now).cars.len() == 0,
{
    let s0 = s.scanned(d);
    let t = s0.cars_tick(snapshot(s0.cars), 1, d, now);
    assert(s0.cars_tick(snapshot(s0.cars), 0, d, now) == (s0, snapshot(s0.cars)));
    assert(t.0.cars.drop_last() =~= Seq::<Car>::empty());
    assert(pruned(t.0.cars.drop_last()).len() == 0);
    assert(t.0.cars.last().gone);
}

/// Whether vehicle `j` of `s` gives way in the tick at `now`: against the
/// table that the vehicles before it left.
pub open spec fn gave_way(s: TrafficState, d: Dimensions, now: u64, j: int) -> bool {
    s.cars[j].gives_way(s.scanned(d).cars_tick(snapshot(s.cars), j, d, now).1, d)
}

/// Once vehicle `i` has taken its part of a tick, the later vehicles leave
/// it as it is.
proof fn lemma_cars_tick_done(s: TrafficState, i: int, k: int, d: Dimensions, now: u64)
    requires
        s.wf(),
        d.wf(),
        0 <= i < k <= s.cars.len(),
    ensures
        s.cars_tick(snapshot(s.cars), k, d, now).0.cars[i] == s.cars[i].advanced(
            s.cars_tick(snapshot(s.cars), i, d, now).1,
            d,
        ),
    decreases k,
{
    lemma_cars_tick_shape(s, k - 1, d, now);
    if i < k - 1 {
        lemma_cars_tick_done(s, i, k - 1, d, now);
    }
}

/// Lower indices have priority: when the candidate moves of vehicles `i`
/// and `j > i` overlap and `i` moves, `j` gives way.
pub proof fn lemma_lower_index_priority(s: TrafficState, d: Dimensions, now: u64, i: int, j: int)
    requires
        s.wf(),
        d.wf(),
        0 <= i < j < s.cars.len(),
        !s.cars[i].exits(d),
        !s.cars[j].exits(d),
        overlaps(
            s.cars[j].candidate(d).0,
            s.cars[j].candidate(d).1,
            s.cars[i].candidate(d).0,
            s.cars[i].candidate(d).1,
            d.lane_width as int,
        ),
        !gave_way(s, d, now, i),
    ensures
        gave_way(s, d, now, j),
{
    let s0 = s.scanned(d);
    lemma_cars_tick_shape(s0, j, d, now);
    lemma_cars_tick_done(s0, i, j, d, now);
    let tb = s0.cars_tick(snapshot(s0.cars), j, d, now).1;
    assert(snapshot(s0.cars) == snapshot(s.cars));
    assert(tb[i] == (s.cars[i].candidate(d).0 as i32, s.cars[i].candidate(d).1 as i32, i as usize));
    assert(overlaps(
        s.cars[j].candidate(d).0,
        s.cars[j].candidate(d).1,
        tb[i].0 as int,
        tb[i].1 as int,
        d.lane_width as int,
    ));
}

} // verus!
