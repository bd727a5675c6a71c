use vstd::prelude::*;
use crate::car::{
    all_wf, arbitrate, body_at, check_perpendicular_and_move_back, deadlocked, move_step,
    nudged_back, spawned, turn_step, with_radar, with_speed, Car,
};
use crate::constants::{ARRIVAL_RADIUS, CAPACITY, LINE_SPACING, MAX_BASE_SPEED, MIN_BASE_SPEED};
use crate::geometry::{dist_sq, is_floor_sqrt, overlaps, FRect, Vec2};
use crate::lanes::{entry_heading_of, spawn_point_of, Behavior, Heading};
use crate::rng::random_below;
use crate::metrics::{
    close_call_recorded, increment_close_call_count, increment_spawn_count,
    increment_vehicle_count, spawn_recorded, speed_recorded, trip_recorded,
    update_intersection_time, update_vehicle_speed, vehicle_recorded, Metrics,
};

verus! {

// ---------------------------------------------------------------------------
// Stages of a tick, each against a snapshot taken when it starts
// ---------------------------------------------------------------------------

pub open spec fn arbiter_stage(s: Seq<Car>, core: FRect) -> Seq<Car> {
    Seq::new(s.len(), |i: int| arbitrate(s[i], s, core))
}

pub open spec fn radar_stage(s: Seq<Car>) -> Seq<Car> {
    Seq::new(s.len(), |i: int| with_speed(with_radar(s[i], s, i)))
}

pub open spec fn turn_stage(s: Seq<Car>) -> Seq<Car> {
    Seq::new(s.len(), |i: int| turn_step(s[i], s))
}

/// How many of the vehicles at `i + 1 .. n` are deadlocked with the one at `i`.
pub open spec fn deadlock_count(s: Seq<Car>, i: int, n: int) -> nat
    decreases n - i,
{
    if n <= i + 1 {
        0
    } else {
        deadlock_count(s, i, n - 1) + if deadlocked(s[i], s[n - 1]) {
            1nat
        } else {
            0nat
        }
    }
}

/// `c` nudged back `k` times.
pub open spec fn nudged_times(c: Car, k: nat) -> Car
    decreases k,
{
    if k == 0 {
        c
    } else {
        nudged_back(nudged_times(c, (k - 1) as nat))
    }
}

/// Every deadlocked pair nudges its lower-indexed vehicle back once.
pub open spec fn deadlock_stage(s: Seq<Car>) -> Seq<Car> {
    Seq::new(s.len(), |i: int| nudged_times(s[i], deadlock_count(s, i, s.len() as int)))
}

pub open spec fn move_stage(s: Seq<Car>, core: FRect) -> Seq<Car> {
    Seq::new(s.len(), |i: int| move_step(s[i], s, core))
}

/// All stages of a tick before retirement, in their order.
pub open spec fn advance(s: Seq<Car>, core: FRect) -> Seq<Car> {
    move_stage(deadlock_stage(turn_stage(radar_stage(arbiter_stage(s, core)))), core)
}

/// The top-left corner of the body of `c` lies within the arrival radius of
/// its destination.
pub open spec fn arrived(c: Car) -> bool {
    dist_sq(Vec2 { x: c.car_rect.x, y: c.car_rect.y }, c.dest_point) < ARRIVAL_RADIUS
        * ARRIVAL_RADIUS
}

/// The vehicles of `s` that have not arrived, in their order.
pub open spec fn survivors(s: Seq<Car>) -> Seq<Car>
    decreases s.len(),
{
    if s.len() == 0 {
        s
    } else if arrived(s.last()) {
        survivors(s.drop_last())
    } else {
        survivors(s.drop_last()).push(s.last())
    }
}

/// The active vehicles after one tick.
pub open spec fn tick_result(s: Seq<Car>, core: FRect) -> Seq<Car> {
    survivors(advance(s, core))
}

/// A vehicle that went from `prev` to `now` braked hard.
pub open spec fn close_call(prev: i64, now: i64) -> bool {
    (prev > 0 && now == 0) || prev > 2 * now
}

/// `m` after the speed changes of the first `n` vehicles, from `before` to
/// `after`, are recorded.
pub open spec fn speed_metrics(m: Metrics, before: Seq<Car>, after: Seq<Car>, n: int) -> Metrics
    decreases n,
{
    if n <= 0 {
        m
    } else {
        let m1 = speed_metrics(m, before, after, n - 1);
        let m2 = if close_call(before[n - 1].current_speed, after[n - 1].current_speed) {
            close_call_recorded(m1)
        } else {
            m1
        };
        speed_recorded(m2, after[n - 1].current_speed as u64)
    }
}

/// Milliseconds from the creation of `c` to `now_ms`; none before it.
pub open spec fn elapsed_ms(c: Car, now_ms: u64) -> u64 {
    if now_ms >= c.creation_ms {
        (now_ms - c.creation_ms) as u64
    } else {
        0
    }
}

/// `m` after the arrivals among the first `n` vehicles of `s` are recorded.
pub open spec fn retire_metrics(m: Metrics, s: Seq<Car>, now_ms: u64, n: int) -> Metrics
    decreases n,
{
    if n <= 0 {
        m
    } else {
        let m1 = retire_metrics(m, s, now_ms, n - 1);
        if arrived(s[n - 1]) {
            vehicle_recorded(trip_recorded(m1, elapsed_ms(s[n - 1], now_ms)))
        } else {
            m1
        }
    }
}

/// The metrics after one tick.
pub open spec fn tick_metrics(m: Metrics, s: Seq<Car>, core: FRect, now_ms: u64) -> Metrics {
    let a = arbiter_stage(s, core);
    let b = advance(s, core);
    retire_metrics(speed_metrics(m, a, radar_stage(a), s.len() as int), b, now_ms, s.len() as int)
}

/// The fixed central rectangle where cross traffic overlaps.
pub fn core_intersection() -> (r: FRect)
    ensures
        r == (FRect {
            x: (LINE_SPACING * 4) as i64,
            y: (LINE_SPACING * 4) as i64,
            w: (LINE_SPACING * 6) as i64,
            h: (LINE_SPACING * 6) as i64,
        }),
        r.bounded(),
{
    FRect::new(LINE_SPACING * 4, LINE_SPACING * 4, LINE_SPACING * 6, LINE_SPACING * 6)
}

fn arbiter_pass(cars: &Vec<Car>, core: &FRect) -> (r: Vec<Car>)
    requires
        all_wf(cars@),
        core.bounded(),
    ensures
        r@ == arbiter_stage(cars@, *core),
        all_wf(r@),
{
    let ghost s = cars@;
    let mut out: Vec<Car> = Vec::new();
    let mut i: usize = 0;
    while i < cars.len()
        invariant
            0 <= i <= cars.len(),
            s == cars@,
            all_wf(s),
            core.bounded(),
            out@ == arbiter_stage(s, *core).subrange(0, i as int),
            all_wf(out@),
        decreases cars.len() - i,
    {
        let mut c = cars[i];
        assert(s[i as int].wf());
        c.communicate_with_intersection(cars, core);
        out.push(c);
        assert(out@ =~= arbiter_stage(s, *core).subrange(0, i + 1));
        i = i + 1;
    }
    assert(out@ =~= arbiter_stage(s, *core));
    out
}

fn radar_pass(cars: &Vec<Car>, metrics: &mut Metrics) -> (r: Vec<Car>)
    requires
        all_wf(cars@),
    ensures
        r@ == radar_stage(cars@),
        all_wf(r@),
        *final(metrics) == speed_metrics(*old(metrics), cars@, radar_stage(cars@), cars@.len() as int),
{
    let ghost s = cars@;
    let ghost m0 = *metrics;
    let mut out: Vec<Car> = Vec::new();
    let mut i: usize = 0;
    while i < cars.len()
        invariant
            0 <= i <= cars.len(),
            s == cars@,
            all_wf(s),
            out@ == radar_stage(s).subrange(0, i as int),
            all_wf(out@),
            *metrics == speed_metrics(m0, s, radar_stage(s), i as int),
        decreases cars.len() - i,
    {
        let prev = cars[i].current_speed;
        let mut c = cars[i];
        assert(s[i as int].wf());
        c.update_radar(i, cars);
        c.adjust_current_speed();
        if (prev > 0 && c.current_speed == 0) || prev > c.current_speed * 2 {
            increment_close_call_count(metrics);
        }
        update_vehicle_speed(metrics, c.current_speed as u64);
        out.push(c);
        assert(out@ =~= radar_stage(s).subrange(0, i + 1));
        i = i + 1;
    }
    assert(out@ =~= radar_stage(s));
    out
}

fn turn_pass(cars: &Vec<Car>) -> (r: Vec<Car>)
    requires
        all_wf(cars@),
    ensures
        r@ == turn_stage(cars@),
        all_wf(r@),
{
    let ghost s = cars@;
    let mut out: Vec<Car> = Vec::new();
    let mut i: usize = 0;
    while i < cars.len()
        invariant
            0 <= i <= cars.len(),
            s == cars@,
            all_wf(s),
            out@ == turn_stage(s).subrange(0, i as int),
            all_wf(out@),
        decreases cars.len() - i,
    {
        let mut c = cars[i];
        assert(s[i as int].wf());
        c.turn_if_can(cars);
        out.push(c);
        assert(out@ =~= turn_stage(s).subrange(0, i + 1));
        i = i + 1;
    }
    assert(out@ =~= turn_stage(s));
    out
}

fn move_pass(cars: &Vec<Car>, core: &FRect) -> (r: Vec<Car>)
    requires
        all_wf(cars@),
        core.bounded(),
    ensures
        r@ == move_stage(cars@, *core),
        all_wf(r@),
{
    let ghost s = cars@;
    let mut out: Vec<Car> = Vec::new();
    let mut i: usize = 0;
    while i < cars.len()
        invariant
            0 <= i <= cars.len(),
            s == cars@,
            all_wf(s),
            core.bounded(),
            out@ == move_stage(s, *core).subrange(0, i as int),
            all_wf(out@),
        decreases cars.len() - i,
    {
        let mut c = cars[i];
        assert(s[i as int].wf());
        c.move_one_step_if_no_collide(cars, core);
        out.push(c);
        assert(out@ =~= move_stage(s, *core).subrange(0, i + 1));
        i = i + 1;
    }
    assert(out@ =~= move_stage(s, *core));
    out
}

/// Nudging back changes the body alone.
pub proof fn lemma_nudged_times_keeps(c: Car, k: nat)
    ensures
        nudged_times(c, k) == (Car { car_rect: nudged_times(c, k).car_rect, ..c }),
        nudged_times(c, k).car_rect.w == c.car_rect.w,
        nudged_times(c, k).car_rect.h == c.car_rect.h,
        c.wf() ==> nudged_times(c, k).wf(),
    decreases k,
{
    if k > 0 {
        lemma_nudged_times_keeps(c, (k - 1) as nat);
    }
}

fn deadlock_pass(cars: &mut Vec<Car>)
    requires
        all_wf(old(cars)@),
    ensures
        final(cars)@ == deadlock_stage(old(cars)@),
        all_wf(final(cars)@),
{
    let ghost s = cars@;
    let n = cars.len();
    let mut i: usize = 0;
    while i < n
        invariant
            n == s.len(),
            cars@.len() == n,
            0 <= i <= n,
            all_wf(cars@),
            forall|k: int| 0 <= k < i ==> cars@[k] == nudged_times(s[k], deadlock_count(s, k, n as int)),
            forall|k: int| i <= k < n ==> cars@[k] == s[k],
        decreases n - i,
    {
        let mut j: usize = i + 1;
        while j < n
            invariant
                n == s.len(),
                cars@.len() == n,
                0 <= i < n,
                i + 1 <= j <= n,
                all_wf(cars@),
                forall|k: int| 0 <= k < i ==> cars@[k] == nudged_times(s[k], deadlock_count(s, k, n as int)),
                forall|k: int| i < k < n ==> cars@[k] == s[k],
                cars@[i as int] == nudged_times(s[i as int], deadlock_count(s, i as int, j as int)),
            decreases n - j,
        {
            proof {
                lemma_nudged_times_keeps(s[i as int], deadlock_count(s, i as int, j as int));
            }
            check_perpendicular_and_move_back(cars, i, j);
            j = j + 1;
        }
        i = i + 1;
    }
    assert(cars@ =~= deadlock_stage(s));
}


// ---------------------------------------------------------------------------
// Retirement and the whole tick
// ---------------------------------------------------------------------------

/// The integer part of a distance is below `bound` exactly when the squared
/// distance is below `bound * bound`.
proof fn lemma_floor_sqrt_below(r: int, n: int, bound: int)
    requires
        is_floor_sqrt(r, n),
        bound >= 0,
    ensures
        (r < bound) == (n < bound * bound),
{
    if r < bound {
        assert((r + 1) * (r + 1) <= bound * bound) by (nonlinear_arith)
            requires
                0 <= r + 1 <= bound,
        ;
    } else {
        assert(bound * bound <= r * r) by (nonlinear_arith)
            requires
                0 <= bound <= r,
        ;
    }
}

impl Car {
    /// Whether the top-left corner of the body lies within the arrival
    /// radius of the destination.
    pub fn has_arrived(&self) -> (r: bool)
        requires
            self.wf(),
        ensures
            r == arrived(*self),
    {
        let corner = Vec2::new(self.car_rect.x, self.car_rect.y);
        let d = corner.distance(self.dest_point);
        proof {
            lemma_floor_sqrt_below(d as int, dist_sq(corner, self.dest_point), ARRIVAL_RADIUS as int);
        }
        d < ARRIVAL_RADIUS as u64
    }
}

/// Milliseconds from the creation of `c` to `now_ms`; none before it.
fn elapsed(c: &Car, now_ms: u64) -> (r: u64)
    ensures
        r == elapsed_ms(*c, now_ms),
{
    if now_ms >= c.creation_ms {
        now_ms - c.creation_ms
    } else {
        0
    }
}

fn retire_pass(cars: &Vec<Car>, now_ms: u64, metrics: &mut Metrics) -> (r: Vec<Car>)
    requires
        all_wf(cars@),
    ensures
        r@ == survivors(cars@),
        all_wf(r@),
        *final(metrics) == retire_metrics(*old(metrics), cars@, now_ms, cars@.len() as int),
{
    let ghost s = cars@;
    let ghost m0 = *metrics;
    let mut out: Vec<Car> = Vec::new();
    let mut k: usize = 0;
    while k < cars.len()
        invariant
            0 <= k <= cars.len(),
            s == cars@,
            all_wf(s),
            out@ == survivors(s.subrange(0, k as int)),
            all_wf(out@),
            *metrics == retire_metrics(m0, s, now_ms, k as int),
        decreases cars.len() - k,
    {
        let c = cars[k];
        assert(s[k as int].wf());
        assert(s.subrange(0, k + 1).drop_last() =~= s.subrange(0, k as int));
        if c.has_arrived() {
            update_intersection_time(metrics, elapsed(&c, now_ms));
            increment_vehicle_count(metrics);
        } else {
            out.push(c);
        }
        k = k + 1;
    }
    assert(s.subrange(0, s.len() as int) =~= s);
    out
}

/// Advances the simulation by one frame: arbitration, radar and speed,
/// turns, the deadlock breaker, movement, then retirement of the vehicles
/// that arrived. Speed samples, close calls and completed trips go to
/// `metrics`; `now_ms` is the time of the frame on the clock that stamped
/// the vehicles.
pub fn tick(cars: &mut Vec<Car>, core_intersection: &FRect, now_ms: u64, metrics: &mut Metrics)
    requires
        all_wf(old(cars)@),
        core_intersection.bounded(),
    ensures
        final(cars)@ == tick_result(old(cars)@, *core_intersection),
        all_wf(final(cars)@),
        forall|k: int|
            0 <= k < final(cars)@.len() ==> 0 <= #[trigger] final(cars)@[k].current_speed
                <= final(cars)@[k].randomized_initial_speed,
        *final(metrics) == tick_metrics(*old(metrics), old(cars)@, *core_intersection, now_ms),
{
    let arbitrated = arbiter_pass(cars, core_intersection);
    let sensed = radar_pass(&arbitrated, metrics);
    let mut turned = turn_pass(&sensed);
    deadlock_pass(&mut turned);
    let moved = move_pass(&turned, core_intersection);
    let remaining = retire_pass(&moved, now_ms, metrics);
    *cars = remaining;
    assert forall|k: int| 0 <= k < cars@.len() implies 0 <= #[trigger] cars@[k].current_speed
        <= cars@[k].randomized_initial_speed by {
        assert(cars@[k].wf());
    }
}

// ---------------------------------------------------------------------------
// Spawning
// ---------------------------------------------------------------------------

/// A vehicle with body `body` may join `s`: there is room, and the body
/// overlaps no body of `s`.
pub open spec fn spawn_allowed(s: Seq<Car>, body: FRect) -> bool {
    s.len() < CAPACITY && forall|k: int|
        0 <= k < s.len() ==> !overlaps(body, #[trigger] s[k].car_rect)
}

/// What a spawn of behavior `b` entering along `h` does: it succeeds
/// exactly where the new body may join `s`; then one vehicle with a base
/// speed in the drawn range is appended to `s` and the spawn is counted,
/// and otherwise nothing changes.
pub open spec fn spawn_outcome(
    s: Seq<Car>,
    t: Seq<Car>,
    m: Metrics,
    n: Metrics,
    r: bool,
    id: u32,
    b: Behavior,
    h: Heading,
    now_ms: u64,
) -> bool {
    &&& r == spawn_allowed(s, body_at(spawn_point_of(b), h))
    &&& r ==> t.len() == s.len() + 1 && t.drop_last() == s && MIN_BASE_SPEED
        <= t.last().randomized_initial_speed < MAX_BASE_SPEED && t.last() == spawned(
        id,
        b,
        h,
        t.last().randomized_initial_speed,
        now_ms,
    ) && n == spawn_recorded(m)
    &&& !r ==> t == s && n == m
}

impl Car {
    /// Adds `car` to `cars_ref` and counts the spawn if there is room and
    /// its body overlaps none of theirs; otherwise changes nothing.
    pub fn join(cars_ref: &mut Vec<Car>, car: Car, metrics: &mut Metrics) -> (r: bool)
        requires
            all_wf(old(cars_ref)@),
            car.wf(),
        ensures
            r == spawn_allowed(old(cars_ref)@, car.car_rect),
            r ==> final(cars_ref)@ == old(cars_ref)@.push(car) && *final(metrics)
                == spawn_recorded(*old(metrics)),
            !r ==> final(cars_ref)@ == old(cars_ref)@ && *final(metrics) == *old(metrics),
            all_wf(final(cars_ref)@),
    {
        if cars_ref.len() >= CAPACITY {
            return false;
        }
        let ghost s = cars_ref@;
        let mut k: usize = 0;
        while k < cars_ref.len()
            invariant
                0 <= k <= cars_ref.len(),
                s == cars_ref@,
                all_wf(s),
                car.wf(),
                forall|j: int| 0 <= j < k ==> !overlaps(car.car_rect, #[trigger] s[j].car_rect),
            decreases cars_ref.len() - k,
        {
            assert(s[k as int].wf());
            if car.car_rect.intersect(cars_ref[k].car_rect).is_some() {
                return false;
            }
            k = k + 1;
        }
        cars_ref.push(car);
        increment_spawn_count(metrics);
        assert forall|j: int| 0 <= j < cars_ref@.len() implies #[trigger] cars_ref@[j].wf() by {
            if j < s.len() {
                assert(s[j].wf());
            }
        }
        true
    }

    /// Creates a vehicle of behavior `randomized_behavior` entering along
    /// `initial_direction`, with a random base speed, and adds it where
    /// there is room and its body overlaps no other.
    pub fn spawn_if_can(
        cars_ref: &mut Vec<Car>,
        next_id: u32,
        randomized_behavior: Behavior,
        initial_direction: Heading,
        now_ms: u64,
        metrics: &mut Metrics,
    ) -> (r: bool)
        requires
            all_wf(old(cars_ref)@),
        ensures
            spawn_outcome(
                old(cars_ref)@,
                final(cars_ref)@,
                *old(metrics),
                *final(metrics),
                r,
                next_id,
                randomized_behavior,
                initial_direction,
                now_ms,
            ),
            all_wf(final(cars_ref)@),
    {
        let car = Car::new(next_id, randomized_behavior, initial_direction, now_ms);
        let r = Car::join(cars_ref, car, metrics);
        proof {
            if r {
                assert(final(cars_ref)@.drop_last() =~= old(cars_ref)@);
            }
        }
        r
    }
}

/// One of the three behaviors that enter along `direction`, drawn at random.
pub fn get_random_behavior_for_direction(direction: Heading) -> (r: Behavior)
    ensures
        entry_heading_of(r) == direction,
{
    let k = random_below(3);
    Behavior::entering(direction, k)
}

/// Spawns a vehicle of one of the twelve behaviors, drawn at random, entering
/// along the heading of its entry side.
pub fn spawn_random_car(cars: &mut Vec<Car>, next_id: u32, now_ms: u64, metrics: &mut Metrics) -> (r: bool)
    requires
        all_wf(old(cars)@),
    ensures
        exists|b: Behavior|
            spawn_outcome(
                old(cars)@,
                final(cars)@,
                *old(metrics),
                *final(metrics),
                r,
                next_id,
                b,
                entry_heading_of(b),
                now_ms,
            ),
        all_wf(final(cars)@),
{
    let k = random_below(12);
    let behavior = Behavior::at(k);
    let direction = behavior.entry_heading();
    Car::spawn_if_can(cars, next_id, behavior, direction, now_ms, metrics)
}

} // verus!
