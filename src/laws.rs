use vstd::prelude::*;
use crate::car::{
    advanced, approaching, arbitrate, candidate, clear_of, congestion_sensitive, deadlocked,
    in_world, left_turners_inside, spawned, trigger_reached, turn_exit, turned_rect, Car,
    IntersectionState,
};
use crate::constants::{CONGESTION_THRESHOLD, LONG_EDGE, NUDGE, SHORT_EDGE};
use crate::lanes::{entry_heading_of, Behavior};
use crate::geometry::{dist_sq, lemma_overlaps_symmetric, overlaps, FRect, Vec2};
use crate::metrics::{trip_recorded, vehicle_recorded, Metrics};
use crate::sim::{
    advance, arbiter_stage, arrived, deadlock_count, deadlock_stage, elapsed_ms,
    lemma_nudged_times_keeps, move_stage, nudged_times, radar_stage, retire_metrics,
    spawn_allowed, speed_metrics, survivors, tick_metrics, tick_result, turn_stage,
};

verus! {

/// No two bodies of `s` overlap.
pub open spec fn separated(s: Seq<Car>) -> bool {
    forall|i: int, j: int|
        0 <= i < s.len() && 0 <= j < s.len() && i != j ==> !overlaps(
            #[trigger] s[i].car_rect,
            #[trigger] s[j].car_rect,
        )
}

/// No two vehicles of `s` share an id.
pub open spec fn ids_unique(s: Seq<Car>) -> bool {
    forall|i: int, j: int|
        0 <= i < s.len() && 0 <= j < s.len() && i != j ==> #[trigger] s[i].id != #[trigger] s[j].id
}

/// The vehicle at `i` takes its candidate body in the movement stage.
pub open spec fn commits(s: Seq<Car>, i: int) -> bool {
    !s[i].waiting_flag && in_world(candidate(s[i])) && clear_of(candidate(s[i]), s, s[i].id)
}

/// Movement never carries a body into another one that stands still: where
/// the bodies of `s` are apart and no two vehicles that both move would
/// take overlapping bodies, the bodies stay apart after the movement stage.
pub proof fn lemma_movement_keeps_bodies_apart(s: Seq<Car>, core: FRect)
    requires
        ids_unique(s),
        separated(s),
        forall|i: int, j: int|
            0 <= i < s.len() && 0 <= j < s.len() && i != j && #[trigger] commits(s, i)
                && #[trigger] commits(s, j) ==> !overlaps(candidate(s[i]), candidate(s[j])),
    ensures
        separated(move_stage(s, core)),
{
    let r = move_stage(s, core);
    assert forall|i: int, j: int|
        0 <= i < r.len() && 0 <= j < r.len() && i != j implies !overlaps(
        #[trigger] r[i].car_rect,
        #[trigger] r[j].car_rect,
    ) by {
        assert(s[i].id != s[j].id);
        assert(!overlaps(s[i].car_rect, s[j].car_rect));
        lemma_overlaps_symmetric(candidate(s[j]), s[i].car_rect);
        if commits(s, i) {
            assert(!overlaps(candidate(s[i]), s[j].car_rect));
        }
        if commits(s, j) {
            assert(!overlaps(candidate(s[j]), s[i].car_rect));
        }
    }
}

/// The vehicle at `i` takes its turned body in the turn stage.
pub open spec fn turn_commits(s: Seq<Car>, i: int) -> bool {
    turn_exit(s[i].behavior_code).is_some() && !s[i].has_turned && trigger_reached(s[i])
        && in_world(turned_rect(s[i])) && clear_of(turned_rect(s[i]), s, s[i].id)
}

/// A turn never carries a body into another one that stands still: where
/// the bodies of `s` are apart and no two vehicles that both turn would
/// take overlapping bodies, the bodies stay apart after the turn stage.
pub proof fn lemma_turns_keep_bodies_apart(s: Seq<Car>)
    requires
        ids_unique(s),
        separated(s),
        forall|i: int, j: int|
            0 <= i < s.len() && 0 <= j < s.len() && i != j && #[trigger] turn_commits(s, i)
                && #[trigger] turn_commits(s, j) ==> !overlaps(turned_rect(s[i]), turned_rect(s[j])),
    ensures
        separated(turn_stage(s)),
{
    let r = turn_stage(s);
    assert forall|i: int, j: int|
        0 <= i < r.len() && 0 <= j < r.len() && i != j implies !overlaps(
        #[trigger] r[i].car_rect,
        #[trigger] r[j].car_rect,
    ) by {
        assert(s[i].id != s[j].id);
        assert(!overlaps(s[i].car_rect, s[j].car_rect));
        lemma_overlaps_symmetric(turned_rect(s[j]), s[i].car_rect);
        if turn_commits(s, i) {
            assert(!overlaps(turned_rect(s[i]), s[j].car_rect));
        }
        if turn_commits(s, j) {
            assert(!overlaps(turned_rect(s[j]), s[i].car_rect));
        }
    }
}

/// Retirement keeps bodies apart: the survivors are vehicles of `s`, in
/// their order.
pub proof fn lemma_survivors_keep_bodies_apart(s: Seq<Car>)
    requires
        separated(s),
    ensures
        separated(survivors(s)),
    decreases s.len(),
{
    if s.len() > 0 {
        let p = s.drop_last();
        assert(separated(p)) by {
            assert forall|i: int, j: int|
                0 <= i < p.len() && 0 <= j < p.len() && i != j implies !overlaps(
                #[trigger] p[i].car_rect,
                #[trigger] p[j].car_rect,
            ) by {
                assert(p[i] == s[i] && p[j] == s[j]);
            }
        }
        lemma_survivors_keep_bodies_apart(p);
        lemma_survivors_from(p);
        let t = survivors(s);
        if !arrived(s.last()) {
            assert forall|i: int, j: int|
                0 <= i < t.len() && 0 <= j < t.len() && i != j implies !overlaps(
                #[trigger] t[i].car_rect,
                #[trigger] t[j].car_rect,
            ) by {
                let q = survivors(p);
                if i < q.len() && j < q.len() {
                    assert(t[i] == q[i] && t[j] == q[j]);
                } else if i < q.len() {
                    let a = choose|a: int| 0 <= a < p.len() && q[i] == p[a] && !arrived(p[a]);
                    assert(s[a] == p[a]);
                    assert(!overlaps(s[a].car_rect, s[s.len() - 1].car_rect));
                } else {
                    let a = choose|a: int| 0 <= a < p.len() && q[j] == p[a] && !arrived(p[a]);
                    assert(s[a] == p[a]);
                    assert(!overlaps(s[s.len() - 1].car_rect, s[a].car_rect));
                }
            }
        }
    }
}

/// With no deadlocked pair, the deadlock breaker leaves every vehicle as it is.
pub proof fn lemma_no_deadlock_no_nudge(s: Seq<Car>)
    requires
        forall|i: int, j: int|
            0 <= i < j < s.len() ==> !deadlocked(#[trigger] s[i], #[trigger] s[j]),
    ensures
        deadlock_stage(s) == s,
{
    assert forall|i: int| 0 <= i < s.len() implies #[trigger] deadlock_stage(s)[i] == s[i] by {
        lemma_no_deadlock_count(s, i, s.len() as int);
    }
    assert(deadlock_stage(s) =~= s);
}

proof fn lemma_no_deadlock_count(s: Seq<Car>, i: int, n: int)
    requires
        0 <= i < s.len(),
        n <= s.len(),
        forall|a: int, b: int|
            0 <= a < b < s.len() ==> !deadlocked(#[trigger] s[a], #[trigger] s[b]),
    ensures
        deadlock_count(s, i, n) == 0,
    decreases n - i,
{
    if n > i + 1 {
        lemma_no_deadlock_count(s, i, n - 1);
        assert(!deadlocked(s[i], s[n - 1]));
    }
}

/// Bodies never overlap across a tick, on the inputs where nothing moves a
/// body unchecked: no two vehicles that both turn, or both move, take
/// overlapping bodies in the same stage, and no pair is deadlocked when the
/// deadlock breaker runs, since its nudge is not tested against others.
pub proof fn lemma_tick_keeps_bodies_apart(s: Seq<Car>, core: FRect)
    requires
        ids_unique(s),
        separated(s),
        ({
            let b = radar_stage(arbiter_stage(s, core));
            forall|i: int, j: int|
                0 <= i < b.len() && 0 <= j < b.len() && i != j && #[trigger] turn_commits(b, i)
                    && #[trigger] turn_commits(b, j) ==> !overlaps(
                    turned_rect(b[i]),
                    turned_rect(b[j]),
                )
        }),
        ({
            let c = turn_stage(radar_stage(arbiter_stage(s, core)));
            forall|i: int, j: int|
                0 <= i < j < c.len() ==> !deadlocked(#[trigger] c[i], #[trigger] c[j])
        }),
        ({
            let c = turn_stage(radar_stage(arbiter_stage(s, core)));
            forall|i: int, j: int|
                0 <= i < c.len() && 0 <= j < c.len() && i != j && #[trigger] commits(c, i)
                    && #[trigger] commits(c, j) ==> !overlaps(candidate(c[i]), candidate(c[j]))
        }),
    ensures
        separated(tick_result(s, core)),
{
    let a = arbiter_stage(s, core);
    let b = radar_stage(a);
    let c = turn_stage(b);
    assert(ids_unique(b) && separated(b)) by {
        assert forall|i: int, j: int|
            0 <= i < b.len() && 0 <= j < b.len() && i != j implies #[trigger] b[i].id
            != #[trigger] b[j].id && !overlaps(b[i].car_rect, b[j].car_rect) by {
            assert(b[i].id == s[i].id && b[j].id == s[j].id);
            assert(b[i].car_rect == s[i].car_rect && b[j].car_rect == s[j].car_rect);
        }
    }
    lemma_turns_keep_bodies_apart(b);
    assert(ids_unique(c)) by {
        assert forall|i: int, j: int|
            0 <= i < c.len() && 0 <= j < c.len() && i != j implies #[trigger] c[i].id
            != #[trigger] c[j].id by {
            assert(c[i].id == b[i].id && c[j].id == b[j].id);
        }
    }
    lemma_no_deadlock_no_nudge(c);
    lemma_movement_keeps_bodies_apart(c, core);
    lemma_survivors_keep_bodies_apart(move_stage(c, core));
}

/// A spawn keeps bodies apart: a vehicle joins only where its body overlaps
/// none of the others.
pub proof fn lemma_spawn_keeps_bodies_apart(s: Seq<Car>, c: Car)
    requires
        separated(s),
        spawn_allowed(s, c.car_rect),
    ensures
        separated(s.push(c)),
{
    let t = s.push(c);
    assert forall|i: int, j: int|
        0 <= i < t.len() && 0 <= j < t.len() && i != j implies !overlaps(
        #[trigger] t[i].car_rect,
        #[trigger] t[j].car_rect,
    ) by {
        if i == s.len() {
            assert(!overlaps(c.car_rect, s[j].car_rect));
        } else if j == s.len() {
            assert(!overlaps(c.car_rect, s[i].car_rect));
            lemma_overlaps_symmetric(c.car_rect, s[i].car_rect);
        } else {
            assert(t[i] == s[i] && t[j] == s[j]);
        }
    }
}

/// A vehicle keeps its id and, once it has turned, its heading; its heading
/// changes only in the step where it turns.
pub open spec fn turns_at_most_once(a: Car, b: Car) -> bool {
    &&& b.id == a.id
    &&& a.has_turned ==> b.has_turned && b.current_direction == a.current_direction
    &&& b.current_direction != a.current_direction ==> !a.has_turned && b.has_turned
}

/// Every stage of a tick keeps the turn latch and the heading but the turn
/// stage, which sets the latch in the step that changes the heading: a
/// vehicle turns at most once in its lifetime.
pub proof fn lemma_advance_turns_at_most_once(s: Seq<Car>, core: FRect)
    ensures
        advance(s, core).len() == s.len(),
        forall|i: int| 0 <= i < s.len() ==> turns_at_most_once(s[i], #[trigger] advance(s, core)[i]),
{
    let a = arbiter_stage(s, core);
    let b = radar_stage(a);
    let c = turn_stage(b);
    let d = deadlock_stage(c);
    let e = advance(s, core);
    assert forall|i: int| 0 <= i < s.len() implies turns_at_most_once(s[i], #[trigger] e[i]) by {
        lemma_nudged_times_keeps(c[i], deadlock_count(c, i, c.len() as int));
        assert(d[i].id == c[i].id && d[i].has_turned == c[i].has_turned && d[i].current_direction
            == c[i].current_direction);
    }
}

/// The survivors of a retirement are vehicles of `s` that have not arrived.
pub proof fn lemma_survivors_from(s: Seq<Car>)
    ensures
        forall|k: int|
            0 <= k < survivors(s).len() ==> exists|i: int|
                0 <= i < s.len() && #[trigger] survivors(s)[k] == s[i] && !arrived(s[i]),
    decreases s.len(),
{
    if s.len() > 0 {
        let p = s.drop_last();
        lemma_survivors_from(p);
        assert forall|k: int| 0 <= k < survivors(s).len() implies exists|i: int|
            0 <= i < s.len() && #[trigger] survivors(s)[k] == s[i] && !arrived(s[i]) by {
            if k < survivors(p).len() {
                let i = choose|i: int| 0 <= i < p.len() && survivors(p)[k] == p[i] && !arrived(p[i]);
                assert(s[i] == p[i]);
            } else {
                assert(survivors(s)[k] == s[s.len() - 1]);
            }
        }
    }
}

/// Across a whole tick a vehicle turns at most once: every vehicle left
/// after the tick came from one before it, with the same id, and changed
/// its heading only where it turned in this tick.
pub proof fn lemma_tick_turns_at_most_once(s: Seq<Car>, core: FRect)
    ensures
        forall|k: int|
            0 <= k < tick_result(s, core).len() ==> exists|i: int|
                0 <= i < s.len() && turns_at_most_once(s[i], #[trigger] tick_result(s, core)[k]),
{
    let e = advance(s, core);
    lemma_advance_turns_at_most_once(s, core);
    lemma_survivors_from(e);
    assert forall|k: int| 0 <= k < tick_result(s, core).len() implies exists|i: int|
        0 <= i < s.len() && turns_at_most_once(s[i], #[trigger] tick_result(s, core)[k]) by {
        let i = choose|i: int| 0 <= i < e.len() && survivors(e)[k] == e[i] && !arrived(e[i]);
        assert(turns_at_most_once(s[i], e[i]));
    }
}

/// A spawn whose body coincides with the body of an active vehicle is
/// refused, so the active set keeps its size.
pub proof fn lemma_coinciding_spawn_refused(s: Seq<Car>, k: int, body: FRect)
    requires
        0 <= k < s.len(),
        s[k].car_rect == body,
        body.w > 0,
        body.h > 0,
    ensures
        !spawn_allowed(s, body),
{
    assert(overlaps(body, s[k].car_rect));
}

/// Two perpendicular vehicles, both stopped and past the approach: one pass
/// of the deadlock breaker moves the first back by exactly one nudge
/// against its heading, and leaves the second where it is.
pub proof fn lemma_deadlock_nudges_lower(s: Seq<Car>)
    requires
        s.len() == 2,
        deadlocked(s[0], s[1]),
        in_world(advanced(s[0].car_rect, s[0].current_direction, -NUDGE)),
    ensures
        deadlock_stage(s)[0] == (Car {
            car_rect: advanced(s[0].car_rect, s[0].current_direction, -NUDGE),
            ..s[0]
        }),
        deadlock_stage(s)[1] == s[1],
{
    assert(deadlock_count(s, 0, 1) == 0);
    assert(deadlock_count(s, 0, 2) == 1);
    assert(deadlock_count(s, 1, 2) == 0);
    assert(nudged_times(s[0], 0) == s[0]);
    assert(nudged_times(s[1], 0) == s[1]);
}

/// Congestion cap: a vehicle of a congestion-sensitive behavior that
/// approaches the core while three or more left turners are inside it holds.
pub proof fn lemma_congestion_cap(c: Car, s: Seq<Car>, core: FRect)
    requires
        congestion_sensitive(c.behavior_code),
        approaching(c, core),
        left_turners_inside(s, c.id, core) >= CONGESTION_THRESHOLD,
    ensures
        arbitrate(c, s, core).waiting_flag,
{
}

/// A vehicle whose body's top-left corner lies within 19 pixels of its
/// destination is removed by the next retirement.
pub proof fn lemma_arrival_retires(s: Seq<Car>, k: int)
    requires
        0 <= k < s.len(),
        dist_sq(Vec2 { x: s[k].car_rect.x, y: s[k].car_rect.y }, s[k].dest_point) <= 1900 * 1900,
    ensures
        arrived(s[k]),
        forall|j: int| 0 <= j < survivors(s).len() ==> #[trigger] survivors(s)[j] != s[k],
{
    lemma_survivors_from(s);
    assert forall|j: int| 0 <= j < survivors(s).len() implies #[trigger] survivors(s)[j] != s[k] by {
        let i = choose|i: int| 0 <= i < s.len() && survivors(s)[j] == s[i] && !arrived(s[i]);
    }
}

/// A retired vehicle reports a trip of its elapsed lifetime and counts as
/// a completed journey.
pub proof fn lemma_arrival_reports_trip(m: Metrics, c: Car, now_ms: u64)
    requires
        arrived(c),
    ensures
        retire_metrics(m, seq![c], now_ms, 1) == vehicle_recorded(
            trip_recorded(m, elapsed_ms(c, now_ms)),
        ),
{
    assert(retire_metrics(m, seq![c], now_ms, 0) == m);
}

/// A tick is a function of the vehicles, the core and the time: equal
/// inputs give equal vehicles and equal metrics.
pub proof fn lemma_tick_deterministic(
    s1: Seq<Car>,
    s2: Seq<Car>,
    core: FRect,
    m: Metrics,
    now_ms: u64,
)
    requires
        s1 == s2,
    ensures
        tick_result(s1, core) == tick_result(s2, core),
        tick_metrics(m, s1, core, now_ms) == tick_metrics(m, s2, core, now_ms),
{
}

/// The long edge of the body of `c` lies along its heading.
pub open spec fn oriented(c: Car) -> bool {
    if c.current_direction.horizontal() {
        c.car_rect.w == LONG_EDGE && c.car_rect.h == SHORT_EDGE
    } else {
        c.car_rect.w == SHORT_EDGE && c.car_rect.h == LONG_EDGE
    }
}

/// `c` heads the way its behavior calls for: along its entry side before
/// its turn, along the exit after it.
pub open spec fn on_course(c: Car) -> bool {
    if c.has_turned {
        turn_exit(c.behavior_code) == Some(c.current_direction)
    } else {
        c.current_direction == entry_heading_of(c.behavior_code)
    }
}

/// A vehicle spawned along the heading of its entry side is on course,
/// with its long edge along its heading.
pub proof fn lemma_spawn_on_course(id: u32, b: Behavior, base: i64, now_ms: u64)
    ensures
        oriented(spawned(id, b, entry_heading_of(b), base, now_ms)),
        on_course(spawned(id, b, entry_heading_of(b), base, now_ms)),
{
}

/// A tick keeps every vehicle on course with its long edge along its
/// heading: a turn swaps width and height as it changes the heading from
/// one axis to the other, and no other stage touches either.
pub proof fn lemma_advance_keeps_orientation(s: Seq<Car>, core: FRect)
    ensures
        forall|i: int|
            0 <= i < s.len() && oriented(s[i]) && on_course(s[i]) ==> oriented(
                #[trigger] advance(s, core)[i],
            ) && on_course(advance(s, core)[i]),
{
    let a = arbiter_stage(s, core);
    let b = radar_stage(a);
    let c = turn_stage(b);
    let d = deadlock_stage(c);
    let e = advance(s, core);
    assert forall|i: int| 0 <= i < s.len() && oriented(s[i]) && on_course(s[i]) implies oriented(
        #[trigger] e[i],
    ) && on_course(e[i]) by {
        assert(oriented(b[i]) && on_course(b[i]));
        assert(oriented(c[i]) && on_course(c[i]));
        lemma_nudged_times_keeps(c[i], deadlock_count(c, i, c.len() as int));
        assert(oriented(d[i]) && on_course(d[i]));
    }
}

pub open spec fn phase_rank(p: IntersectionState) -> int {
    match p {
        IntersectionState::Before => 0,
        IntersectionState::Inside => 1,
        IntersectionState::After => 2,
    }
}

/// The intersection phase of a vehicle only moves forward in a tick.
pub proof fn lemma_advance_phase_monotonic(s: Seq<Car>, core: FRect)
    ensures
        forall|i: int|
            0 <= i < s.len() ==> phase_rank(s[i].intersection_state) <= phase_rank(
                #[trigger] advance(s, core)[i].intersection_state,
            ),
{
    let a = arbiter_stage(s, core);
    let b = radar_stage(a);
    let c = turn_stage(b);
    let d = deadlock_stage(c);
    let e = advance(s, core);
    assert forall|i: int| 0 <= i < s.len() implies phase_rank(s[i].intersection_state)
        <= phase_rank(#[trigger] e[i].intersection_state) by {
        lemma_nudged_times_keeps(c[i], deadlock_count(c, i, c.len() as int));
        assert(d[i].intersection_state == s[i].intersection_state);
    }
}

/// Retirement keeps ids unique: the survivors are vehicles of `s`, in
/// their order.
pub proof fn lemma_survivors_keep_ids_unique(s: Seq<Car>)
    requires
        ids_unique(s),
    ensures
        ids_unique(survivors(s)),
    decreases s.len(),
{
    if s.len() > 0 {
        let p = s.drop_last();
        assert(ids_unique(p)) by {
            assert forall|i: int, j: int|
                0 <= i < p.len() && 0 <= j < p.len() && i != j implies #[trigger] p[i].id
                != #[trigger] p[j].id by {
                assert(p[i] == s[i] && p[j] == s[j]);
            }
        }
        lemma_survivors_keep_ids_unique(p);
        lemma_survivors_from(p);
        let t = survivors(s);
        if !arrived(s.last()) {
            assert forall|i: int, j: int|
                0 <= i < t.len() && 0 <= j < t.len() && i != j implies #[trigger] t[i].id
                != #[trigger] t[j].id by {
                let q = survivors(p);
                if i < q.len() && j < q.len() {
                    assert(t[i] == q[i] && t[j] == q[j]);
                } else if i < q.len() {
                    let a = choose|a: int| 0 <= a < p.len() && q[i] == p[a] && !arrived(p[a]);
                    assert(s[a] == p[a]);
                    assert(s[a].id != s[s.len() - 1].id);
                } else {
                    let a = choose|a: int| 0 <= a < p.len() && q[j] == p[a] && !arrived(p[a]);
                    assert(s[a] == p[a]);
                    assert(s[s.len() - 1].id != s[a].id);
                }
            }
        }
    }
}

/// A tick keeps the ids of the active vehicles unique.
pub proof fn lemma_tick_keeps_ids_unique(s: Seq<Car>, core: FRect)
    requires
        ids_unique(s),
    ensures
        ids_unique(tick_result(s, core)),
{
    let e = advance(s, core);
    lemma_advance_turns_at_most_once(s, core);
    assert(ids_unique(e)) by {
        assert forall|i: int, j: int|
            0 <= i < e.len() && 0 <= j < e.len() && i != j implies #[trigger] e[i].id
            != #[trigger] e[j].id by {
            assert(turns_at_most_once(s[i], e[i]) && turns_at_most_once(s[j], e[j]));
        }
    }
    lemma_survivors_keep_ids_unique(e);
}

/// A spawn whose id exceeds every active id keeps the ids unique.
pub proof fn lemma_spawn_keeps_ids_unique(s: Seq<Car>, c: Car)
    requires
        ids_unique(s),
        forall|k: int| 0 <= k < s.len() ==> #[trigger] s[k].id < c.id,
    ensures
        ids_unique(s.push(c)),
{
    let t = s.push(c);
    assert forall|i: int, j: int|
        0 <= i < t.len() && 0 <= j < t.len() && i != j implies #[trigger] t[i].id
        != #[trigger] t[j].id by {
        if i == s.len() {
            assert(s[j].id < c.id);
        } else if j == s.len() {
            assert(s[i].id < c.id);
        } else {
            assert(t[i] == s[i] && t[j] == s[j]);
        }
    }
}

/// Within a tick, a vehicle whose body's top-left corner ends the movement
/// stage within 19 pixels of its destination is retired: with unique ids,
/// no vehicle with its id is left after the tick.
pub proof fn lemma_tick_retires_arrivals(s: Seq<Car>, core: FRect, k: int)
    requires
        ids_unique(s),
        0 <= k < s.len(),
        dist_sq(
            Vec2 { x: advance(s, core)[k].car_rect.x, y: advance(s, core)[k].car_rect.y },
            advance(s, core)[k].dest_point,
        ) <= 1900 * 1900,
    ensures
        forall|j: int|
            0 <= j < tick_result(s, core).len() ==> #[trigger] tick_result(s, core)[j].id
                != s[k].id,
{
    let e = advance(s, core);
    lemma_advance_turns_at_most_once(s, core);
    lemma_survivors_from(e);
    assert(arrived(e[k]));
    assert forall|j: int| 0 <= j < tick_result(s, core).len() implies #[trigger] tick_result(
        s,
        core,
    )[j].id != s[k].id by {
        let i = choose|i: int| 0 <= i < e.len() && survivors(e)[j] == e[i] && !arrived(e[i]);
        assert(turns_at_most_once(s[i], e[i]) && turns_at_most_once(s[k], e[k]));
    }
}

/// How many of the first `n` vehicles of `s` have arrived.
pub open spec fn arrivals(s: Seq<Car>, n: int) -> nat
    decreases n,
{
    if n <= 0 {
        0
    } else {
        arrivals(s, n - 1) + if arrived(s[n - 1]) {
            1nat
        } else {
            0nat
        }
    }
}

/// `a + k`, held at the largest `u32`.
pub open spec fn sat_add(a: u32, k: nat) -> u32 {
    if a + k <= u32::MAX {
        (a + k) as u32
    } else {
        u32::MAX
    }
}

/// Retirement of the first `n` vehicles of `s` counts each arrival as a
/// completed journey and records each arrival's elapsed lifetime among the
/// trip durations; it touches nothing else.
pub proof fn lemma_retirement_records_trips(m: Metrics, s: Seq<Car>, now_ms: u64, n: int)
    requires
        0 <= n <= s.len(),
    ensures
        ({
            let r = retire_metrics(m, s, now_ms, n);
            &&& r.vehicle_count == sat_add(m.vehicle_count, arrivals(s, n))
            &&& r.min_intersection_pass_time <= m.min_intersection_pass_time
            &&& r.max_intersection_pass_time >= m.max_intersection_pass_time
            &&& forall|k: int|
                0 <= k < n && arrived(#[trigger] s[k]) ==> r.min_intersection_pass_time
                    <= elapsed_ms(s[k], now_ms) <= r.max_intersection_pass_time
            &&& r == (Metrics {
                vehicle_count: r.vehicle_count,
                min_intersection_pass_time: r.min_intersection_pass_time,
                max_intersection_pass_time: r.max_intersection_pass_time,
                ..m
            })
        }),
    decreases n,
{
    if n > 0 {
        lemma_retirement_records_trips(m, s, now_ms, n - 1);
    }
}

/// The speed and close-call records of a tick leave the journey count and
/// the trip durations as they are.
proof fn lemma_speed_metrics_keep_trips(m: Metrics, before: Seq<Car>, after: Seq<Car>, n: int)
    ensures
        speed_metrics(m, before, after, n).vehicle_count == m.vehicle_count,
        speed_metrics(m, before, after, n).min_intersection_pass_time
            == m.min_intersection_pass_time,
        speed_metrics(m, before, after, n).max_intersection_pass_time
            == m.max_intersection_pass_time,
    decreases n,
{
    if n > 0 {
        lemma_speed_metrics_keep_trips(m, before, after, n - 1);
    }
}

/// Over a whole tick, each vehicle retired counts once as a completed
/// journey, and its elapsed lifetime lies within the recorded extremes of
/// the trip durations.
pub proof fn lemma_tick_reports_trips(m: Metrics, s: Seq<Car>, core: FRect, now_ms: u64)
    ensures
        ({
            let e = advance(s, core);
            let r = tick_metrics(m, s, core, now_ms);
            &&& r.vehicle_count == sat_add(m.vehicle_count, arrivals(e, e.len() as int))
            &&& forall|k: int|
                0 <= k < e.len() && arrived(#[trigger] e[k]) ==> r.min_intersection_pass_time
                    <= elapsed_ms(e[k], now_ms) <= r.max_intersection_pass_time
        }),
{
    let a = arbiter_stage(s, core);
    let e = advance(s, core);
    let m1 = speed_metrics(m, a, radar_stage(a), s.len() as int);
    lemma_speed_metrics_keep_trips(m, a, radar_stage(a), s.len() as int);
    lemma_advance_turns_at_most_once(s, core);
    lemma_retirement_records_trips(m1, e, now_ms, e.len() as int);
}

} // verus!
