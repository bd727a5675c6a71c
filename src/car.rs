use vstd::prelude::*;
use crate::constants::{
    CRAWL_GAP_HORIZONTAL, CRAWL_GAP_VERTICAL, LINE_SPACING, LONG_EDGE, MAX_BASE_SPEED,
    MAX_EXTENT, MIN_BASE_SPEED, NARROW_RADAR_WIDTH, NUDGE, OFFSET, RADAR_INSET, SHORT_EDGE, SLOW_GAP,
    SPEED_LIMIT, STOP_GAP, WORLD,
};
use crate::geometry::{overlaps, FRect, Vec2};
use crate::lanes::{dest_point_of, perpendicular, spawn_point_of, Behavior, Heading};
use crate::rng::random_below;

verus! {

/// The long and short edge of a body or of a sensing rectangle, and their
/// difference.
#[derive(Debug, Clone, Copy, PartialEq, Eq, Structural)]
pub struct Dimensions {
    pub long_edge: i64,
    pub short_edge: i64,
    pub delta_edge: i64,
}

/// Progress of a vehicle relative to the core intersection; it only moves
/// forward.
#[derive(Debug, Clone, Copy, PartialEq, Eq, Structural)]
pub enum IntersectionState {
    Before,
    Inside,
    After,
}

/// One vehicle of the simulation.
#[derive(Debug, Clone, Copy, PartialEq, Eq, Structural)]
pub struct Car {
    /// Unique identity, assigned in increasing order and never reused.
    pub id: u32,
    pub spawn_point: Vec2,
    /// Time of creation, in milliseconds of the caller's clock.
    pub creation_ms: u64,
    /// The body: the long edge lies along the direction of travel.
    pub car_rect: FRect,
    pub current_direction: Heading,
    pub current_speed: i64,
    /// The base speed drawn at spawn, the ceiling of `current_speed`.
    pub randomized_initial_speed: i64,
    /// The sensing rectangle cast ahead of the body.
    pub radar: FRect,
    /// Set once, when the vehicle turns.
    pub has_turned: bool,
    pub behavior_code: Behavior,
    /// Holds the vehicle in place for the current tick.
    pub waiting_flag: bool,
    pub car_size: Dimensions,
    pub radar_size: Dimensions,
    pub dest_point: Vec2,
    pub intersection_state: IntersectionState,
}

/// A body rectangle that lies on the simulated plane.
pub open spec fn in_world(r: FRect) -> bool {
    -WORLD <= r.x <= WORLD && -WORLD <= r.y <= WORLD && 0 <= r.w <= MAX_EXTENT && 0 <= r.h
        <= MAX_EXTENT
}

pub open spec fn point_in_world(p: Vec2) -> bool {
    -WORLD <= p.x <= WORLD && -WORLD <= p.y <= WORLD
}

/// The body of a vehicle at `p` travelling along `h`.
pub open spec fn body_at(p: Vec2, h: Heading) -> FRect {
    if h.horizontal() {
        FRect { x: p.x, y: p.y, w: LONG_EDGE, h: SHORT_EDGE }
    } else {
        FRect { x: p.x, y: p.y, w: SHORT_EDGE, h: LONG_EDGE }
    }
}

pub open spec fn standard_dimensions() -> Dimensions {
    Dimensions { long_edge: LONG_EDGE, short_edge: SHORT_EDGE, delta_edge: (LONG_EDGE - SHORT_EDGE) as i64 }
}

/// The vehicle that a spawn of behavior `b` and heading `h` creates.
pub open spec fn spawned(id: u32, b: Behavior, h: Heading, base: i64, now_ms: u64) -> Car {
    let p = spawn_point_of(b);
    Car {
        id,
        spawn_point: p,
        creation_ms: now_ms,
        car_rect: body_at(p, h),
        current_direction: h,
        current_speed: base,
        randomized_initial_speed: base,
        radar: FRect { x: (p.x - LONG_EDGE) as i64, y: p.y, w: LONG_EDGE, h: SHORT_EDGE },
        has_turned: false,
        behavior_code: b,
        waiting_flag: false,
        car_size: standard_dimensions(),
        radar_size: standard_dimensions(),
        dest_point: dest_point_of(b),
        intersection_state: IntersectionState::Before,
    }
}

impl Car {
    /// The ranges that keep every computation of a tick free of overflow;
    /// every tick keeps them.
    pub open spec fn wf(self) -> bool {
        &&& in_world(self.car_rect)
        &&& -2 * WORLD <= self.radar.x <= 2 * WORLD
        &&& -2 * WORLD <= self.radar.y <= 2 * WORLD
        &&& 0 <= self.radar.w <= MAX_EXTENT
        &&& 0 <= self.radar.h <= MAX_EXTENT
        &&& 0 <= self.current_speed <= self.randomized_initial_speed <= SPEED_LIMIT
        &&& 0 <= self.radar_size.long_edge <= MAX_EXTENT
        &&& 0 <= self.radar_size.short_edge <= MAX_EXTENT
        &&& point_in_world(self.dest_point)
    }

    /// A vehicle of behavior `randomized_behavior` entering along
    /// `initial_direction`, with the base speed `base_speed`.
    pub fn with_base_speed(
        id: u32,
        randomized_behavior: Behavior,
        initial_direction: Heading,
        base_speed: i64,
        now_ms: u64,
    ) -> (r: Car)
        requires
            0 <= base_speed <= SPEED_LIMIT,
        ensures
            r == spawned(id, randomized_behavior, initial_direction, base_speed, now_ms),
            r.wf(),
    {
        let p = randomized_behavior.spawn_point();
        let car_rect = if initial_direction.is_horizontal() {
            FRect::new(p.x, p.y, LONG_EDGE, SHORT_EDGE)
        } else {
            FRect::new(p.x, p.y, SHORT_EDGE, LONG_EDGE)
        };
        let dims = Dimensions {
            long_edge: LONG_EDGE,
            short_edge: SHORT_EDGE,
            delta_edge: LONG_EDGE - SHORT_EDGE,
        };
        Car {
            id,
            spawn_point: p,
            creation_ms: now_ms,
            car_rect,
            current_direction: initial_direction,
            current_speed: base_speed,
            randomized_initial_speed: base_speed,
            radar: FRect::new(p.x - LONG_EDGE, p.y, LONG_EDGE, SHORT_EDGE),
            has_turned: false,
            behavior_code: randomized_behavior,
            waiting_flag: false,
            car_size: dims,
            radar_size: dims,
            dest_point: randomized_behavior.dest_point(),
            intersection_state: IntersectionState::Before,
        }
    }

    /// A vehicle of behavior `randomized_behavior` entering along
    /// `initial_direction`, with a base speed drawn at random.
    pub fn new(id: u32, randomized_behavior: Behavior, initial_direction: Heading, now_ms: u64) -> (r: Car)
        ensures
            MIN_BASE_SPEED <= r.randomized_initial_speed < MAX_BASE_SPEED,
            r == spawned(id, randomized_behavior, initial_direction, r.randomized_initial_speed, now_ms),
            r.wf(),
    {
        let draw = random_below((MAX_BASE_SPEED - MIN_BASE_SPEED) as u64);
        let base = MIN_BASE_SPEED + draw as i64;
        Car::with_base_speed(id, randomized_behavior, initial_direction, base, now_ms)
    }
}


pub open spec fn all_wf(s: Seq<Car>) -> bool {
    forall|k: int| 0 <= k < s.len() ==> #[trigger] s[k].wf()
}

// ---------------------------------------------------------------------------
// Intersection arbiter
// ---------------------------------------------------------------------------

/// The body of `c` overlaps the core intersection.
pub open spec fn inside_core(c: Car, core: FRect) -> bool {
    overlaps(c.car_rect, core)
}

/// The sensing rectangle of `c` reaches the core while its body is still outside.
pub open spec fn approaching(c: Car, core: FRect) -> bool {
    overlaps(c.radar, core) && !overlaps(c.car_rect, core)
}

/// The behaviors counted by the congestion cap.
pub open spec fn left_turner(b: Behavior) -> bool {
    b == Behavior::LR || b == Behavior::UR || b == Behavior::DR
}

/// The behaviors that hold when the core is congested with left turners.
pub open spec fn congestion_sensitive(b: Behavior) -> bool {
    b == Behavior::LR || b == Behavior::UR || b == Behavior::DL
}

/// A vehicle of behavior `b` must hold while one of behavior `o` is inside:
/// each behavior holds for its own, and some also for a crossing one.
pub open spec fn blocks(b: Behavior, o: Behavior) -> bool {
    match b {
        Behavior::LR => o == Behavior::LR,
        Behavior::LU => o == Behavior::LU,
        Behavior::RD => o == Behavior::RD,
        Behavior::RL => o == Behavior::RL,
        Behavior::UR => o == Behavior::UR || o == Behavior::RL,
        Behavior::UD => o == Behavior::UD || o == Behavior::RL,
        Behavior::DL => o == Behavior::DL || o == Behavior::UR,
        Behavior::DU => o == Behavior::DU || o == Behavior::LR,
        _ => o == b,
    }
}

/// How many vehicles of `s` other than `id` are left turners inside the core.
pub open spec fn left_turners_inside(s: Seq<Car>, id: u32, core: FRect) -> nat
    decreases s.len(),
{
    if s.len() == 0 {
        0
    } else {
        left_turners_inside(s.drop_last(), id, core) + if s.last().id != id && inside_core(
            s.last(),
            core,
        ) && left_turner(s.last().behavior_code) {
            1nat
        } else {
            0nat
        }
    }
}

/// A vehicle of `s` other than `c` whose behavior blocks `c` is inside the core.
pub open spec fn conflict_inside(s: Seq<Car>, c: Car, core: FRect) -> bool {
    exists|k: int|
        0 <= k < s.len() && s[k].id != c.id && inside_core(s[k], core) && blocks(
            c.behavior_code,
            #[trigger] s[k].behavior_code,
        )
}

/// `c` must hold outside the core, given the other vehicles `s`.
pub open spec fn must_hold(c: Car, s: Seq<Car>, core: FRect) -> bool {
    (congestion_sensitive(c.behavior_code) && left_turners_inside(s, c.id, core)
        >= crate::constants::CONGESTION_THRESHOLD) || conflict_inside(s, c, core)
}

/// `c` after arbitration against the snapshot `s`.
pub open spec fn arbitrate(c: Car, s: Seq<Car>, core: FRect) -> Car {
    if approaching(c, core) {
        Car { waiting_flag: must_hold(c, s, core), ..c }
    } else {
        c
    }
}

impl Behavior {
    pub fn is_left_turner(&self) -> (r: bool)
        ensures
            r == left_turner(*self),
    {
        match self {
            Behavior::LR | Behavior::UR | Behavior::DR => true,
            _ => false,
        }
    }

    pub fn is_congestion_sensitive(&self) -> (r: bool)
        ensures
            r == congestion_sensitive(*self),
    {
        match self {
            Behavior::LR | Behavior::UR | Behavior::DL => true,
            _ => false,
        }
    }

    /// A vehicle of this behavior must hold while one of behavior `o` is inside.
    pub fn is_blocked_by(&self, o: Behavior) -> (r: bool)
        ensures
            r == blocks(*self, o),
    {
        match self {
            Behavior::LR => o == Behavior::LR,
            Behavior::LU => o == Behavior::LU,
            Behavior::RD => o == Behavior::RD,
            Behavior::RL => o == Behavior::RL,
            Behavior::UR => o == Behavior::UR || o == Behavior::RL,
            Behavior::UD => o == Behavior::UD || o == Behavior::RL,
            Behavior::DL => o == Behavior::DL || o == Behavior::UR,
            Behavior::DU => o == Behavior::DU || o == Behavior::LR,
            _ => o == *self,
        }
    }
}

impl Car {
    /// Arbitration: where this vehicle approaches the core intersection,
    /// `waiting_flag` becomes whether it must hold, given the other vehicles
    /// of `cars_ref` (all but those with its id).
    pub fn communicate_with_intersection(&mut self, cars_ref: &Vec<Car>, core_intersection: &FRect)
        requires
            old(self).wf(),
            all_wf(cars_ref@),
            core_intersection.bounded(),
        ensures
            *final(self) == arbitrate(*old(self), cars_ref@, *core_intersection),
    {
        let core = *core_intersection;
        let radar_in = self.radar.intersect(core).is_some();
        let body_in = self.car_rect.intersect(core).is_some();
        if !(radar_in && !body_in) {
            return;
        }
        let ghost s = cars_ref@;
        let mut left_turners: usize = 0;
        let mut conflict = false;
        let mut k: usize = 0;
        while k < cars_ref.len()
            invariant
                0 <= k <= cars_ref.len(),
                s == cars_ref@,
                all_wf(s),
                core.bounded(),
                left_turners <= k,
                left_turners == left_turners_inside(s.subrange(0, k as int), self.id, core),
                conflict == exists|j: int|
                    0 <= j < k && s[j].id != self.id && inside_core(s[j], core) && blocks(
                        self.behavior_code,
                        #[trigger] s[j].behavior_code,
                    ),
            decreases cars_ref.len() - k,
        {
            let other = cars_ref[k];
            assert(s[k as int].wf());
            assert(s.subrange(0, k + 1).drop_last() == s.subrange(0, k as int));
            if other.id != self.id && other.car_rect.intersect(core).is_some() {
                if other.behavior_code.is_left_turner() {
                    left_turners = left_turners + 1;
                }
                if self.behavior_code.is_blocked_by(other.behavior_code) {
                    conflict = true;
                }
            }
            k = k + 1;
        }
        assert(s.subrange(0, s.len() as int) == s);
        let congested = self.behavior_code.is_congestion_sensitive() && left_turners
            >= crate::constants::CONGESTION_THRESHOLD;
        self.waiting_flag = congested || conflict;
    }
}


// ---------------------------------------------------------------------------
// Radar and speed control
// ---------------------------------------------------------------------------

/// The sensing rectangle of `c` reaching `len` ahead of its leading edge.
pub open spec fn sensing_rect(c: Car, len: int) -> FRect {
    let r = c.car_rect;
    match c.current_direction {
        Heading::West => FRect {
            x: (r.x - len) as i64,
            y: r.y,
            w: len as i64,
            h: c.radar_size.short_edge,
        },
        Heading::East => FRect {
            x: (r.x + r.w) as i64,
            y: r.y,
            w: len as i64,
            h: c.radar_size.short_edge,
        },
        Heading::North => FRect {
            x: (r.x + RADAR_INSET) as i64,
            y: (r.y - len) as i64,
            w: NARROW_RADAR_WIDTH,
            h: len as i64,
        },
        Heading::South => FRect {
            x: (r.x + RADAR_INSET) as i64,
            y: (r.y + r.h) as i64,
            w: NARROW_RADAR_WIDTH,
            h: len as i64,
        },
    }
}

/// The uncast sensing rectangle of `c`, of the full length.
pub open spec fn cast_rect(c: Car) -> FRect {
    sensing_rect(c, c.radar_size.long_edge as int)
}

/// Distance from the leading edge of `c` to the near edge of `o`, ahead.
pub open spec fn gap_to(c: Car, o: FRect) -> int {
    let r = c.car_rect;
    match c.current_direction {
        Heading::West => r.x - (o.x + o.w),
        Heading::East => o.x - (r.x + r.w),
        Heading::North => r.y - (o.y + o.h),
        Heading::South => o.y - (r.y + r.h),
    }
}

/// The least gap from `c` to the bodies among the first `n` of `s`, but the
/// one at `index`, that overlap its uncast sensing rectangle; the full
/// length where none does.
pub open spec fn nearest_gap(c: Car, s: Seq<Car>, index: int, n: int) -> int
    decreases n,
{
    if n <= 0 {
        c.radar_size.long_edge as int
    } else {
        let g = nearest_gap(c, s, index, n - 1);
        let o = s[n - 1].car_rect;
        if n - 1 != index && overlaps(cast_rect(c), o) && gap_to(c, o) < g {
            gap_to(c, o)
        } else {
            g
        }
    }
}

/// The gap to the nearest obstruction ahead of `c`, between 0 and the full length.
pub open spec fn radar_gap(c: Car, s: Seq<Car>, index: int) -> int {
    let g = nearest_gap(c, s, index, s.len() as int);
    if g < 0 {
        0
    } else {
        g
    }
}

/// `c` with its sensing rectangle recomputed against the snapshot `s`, where
/// `c` stands at `index`.
pub open spec fn with_radar(c: Car, s: Seq<Car>, index: int) -> Car {
    Car { radar: sensing_rect(c, radar_gap(c, s, index)), ..c }
}

/// The length of the sensing rectangle along the heading.
pub open spec fn radar_length(c: Car) -> int {
    if c.current_direction.horizontal() {
        c.radar.w as int
    } else {
        c.radar.h as int
    }
}

/// Speed for a gap `gap` ahead, given the heading and the base speed.
pub open spec fn speed_for(h: Heading, gap: int, base: int) -> int {
    let crawl = if h.horizontal() {
        CRAWL_GAP_HORIZONTAL
    } else {
        CRAWL_GAP_VERTICAL
    };
    if gap <= STOP_GAP {
        0
    } else if gap <= crawl {
        base / 4
    } else if gap <= SLOW_GAP {
        base / 2
    } else {
        base
    }
}

/// `c` with the speed that its sensing rectangle calls for.
pub open spec fn with_speed(c: Car) -> Car {
    Car {
        current_speed: speed_for(
            c.current_direction,
            radar_length(c),
            c.randomized_initial_speed as int,
        ) as i64,
        ..c
    }
}

impl Car {
    /// Casts the sensing rectangle from the leading edge and clips it to the
    /// nearest body of `temp_cars` (but the one at `car_index`) that it
    /// overlaps.
    pub fn update_radar(&mut self, car_index: usize, temp_cars: &Vec<Car>)
        requires
            old(self).wf(),
            all_wf(temp_cars@),
        ensures
            *final(self) == with_radar(*old(self), temp_cars@, car_index as int),
            final(self).wf(),
    {
        let ghost s = temp_cars@;
        let ghost c0 = *self;
        let full = self.radar_size.long_edge;
        let cast = self.sensing(full);
        let mut g: i64 = full;
        let mut k: usize = 0;
        while k < temp_cars.len()
            invariant
                0 <= k <= temp_cars.len(),
                s == temp_cars@,
                all_wf(s),
                *self == c0,
                c0.wf(),
                full == c0.radar_size.long_edge,
                cast == cast_rect(c0),
                cast.bounded(),
                g == nearest_gap(c0, s, car_index as int, k as int),
                -4 * WORLD <= g <= full,
            decreases temp_cars.len() - k,
        {
            let o = temp_cars[k].car_rect;
            assert(s[k as int].wf());
            if k != car_index && cast.intersect(o).is_some() {
                let d = self.gap_ahead(o);
                if d < g {
                    g = d;
                }
            }
            k = k + 1;
        }
        let gap = if g < 0 {
            0
        } else {
            g
        };
        self.radar = self.sensing(gap);
    }

    /// The sensing rectangle reaching `len` ahead of the leading edge.
    fn sensing(&self, len: i64) -> (r: FRect)
        requires
            self.wf(),
            0 <= len <= MAX_EXTENT,
        ensures
            r == sensing_rect(*self, len as int),
            r.bounded(),
            -2 * WORLD <= r.x <= 2 * WORLD,
            -2 * WORLD <= r.y <= 2 * WORLD,
            0 <= r.w <= MAX_EXTENT,
            0 <= r.h <= MAX_EXTENT,
    {
        let r = self.car_rect;
        match self.current_direction {
            Heading::West => FRect::new(r.x - len, r.y, len, self.radar_size.short_edge),
            Heading::East => FRect::new(r.x + r.w, r.y, len, self.radar_size.short_edge),
            Heading::North => FRect::new(r.x + RADAR_INSET, r.y - len, NARROW_RADAR_WIDTH, len),
            Heading::South => FRect::new(r.x + RADAR_INSET, r.y + r.h, NARROW_RADAR_WIDTH, len),
        }
    }

    /// Distance from the leading edge to the near edge of `o`.
    fn gap_ahead(&self, o: FRect) -> (r: i64)
        requires
            self.wf(),
            in_world(o),
        ensures
            r == gap_to(*self, o),
            -4 * WORLD <= r <= 4 * WORLD,
    {
        let r = self.car_rect;
        match self.current_direction {
            Heading::West => r.x - (o.x + o.w),
            Heading::East => o.x - (r.x + r.w),
            Heading::North => r.y - (o.y + o.h),
            Heading::South => o.y - (r.y + r.h),
        }
    }

    /// Sets the speed from the length of the sensing rectangle: stopped,
    /// a quarter, half or all of the base speed.
    pub fn adjust_current_speed(&mut self)
        requires
            old(self).wf(),
        ensures
            *final(self) == with_speed(*old(self)),
            final(self).wf(),
            0 <= final(self).current_speed <= final(self).randomized_initial_speed,
    {
        let base = self.randomized_initial_speed;
        let (gap, crawl) = if self.current_direction.is_horizontal() {
            (self.radar.w, CRAWL_GAP_HORIZONTAL)
        } else {
            (self.radar.h, CRAWL_GAP_VERTICAL)
        };
        self.current_speed = if gap <= STOP_GAP {
            0
        } else if gap <= crawl {
            base / 4
        } else if gap <= SLOW_GAP {
            base / 2
        } else {
            base
        };
    }
}


// ---------------------------------------------------------------------------
// Turning
// ---------------------------------------------------------------------------

/// The heading after the turn of behavior `b`; none for straight behaviors.
pub open spec fn turn_exit(b: Behavior) -> Option<Heading> {
    match b {
        Behavior::RU | Behavior::LU => Some(Heading::North),
        Behavior::RD | Behavior::LD => Some(Heading::South),
        Behavior::UR | Behavior::DR => Some(Heading::East),
        Behavior::UL | Behavior::DL => Some(Heading::West),
        _ => None,
    }
}

/// The body of `c` has reached the trigger line of its turn.
pub open spec fn trigger_reached(c: Car) -> bool {
    let r = c.car_rect;
    match c.behavior_code {
        Behavior::RU => r.x <= LINE_SPACING * 9,
        Behavior::RD => r.x <= LINE_SPACING * 6 + OFFSET,
        Behavior::LU => r.x >= LINE_SPACING * 7 + OFFSET,
        Behavior::LD => r.x >= LINE_SPACING * 4 + OFFSET,
        Behavior::UR => r.y >= LINE_SPACING * 7 + OFFSET,
        Behavior::UL => r.y >= LINE_SPACING * 4 + OFFSET,
        Behavior::DR => r.y <= LINE_SPACING * 9 + OFFSET,
        Behavior::DL => r.y <= LINE_SPACING * 6 + OFFSET,
        _ => false,
    }
}

pub open spec fn abs_diff(a: int, b: int) -> int {
    if a >= b {
        a - b
    } else {
        b - a
    }
}

/// The body of `c` after its turn: snapped to the trigger line, with width
/// and height swapped.
pub open spec fn turned_rect(c: Car) -> FRect {
    let r = c.car_rect;
    let d = abs_diff(r.w as int, r.h as int);
    let (x, y) = match c.behavior_code {
        Behavior::RU => (LINE_SPACING * 9, r.y - d),
        Behavior::RD => (LINE_SPACING * 6 + OFFSET, r.y as int),
        Behavior::LU => (LINE_SPACING * 7 + OFFSET, r.y - d),
        Behavior::LD => (LINE_SPACING * 4 + OFFSET, r.y as int),
        Behavior::UR => (r.x as int, LINE_SPACING * 7 + OFFSET),
        Behavior::UL => (r.x - d, LINE_SPACING * 4 + OFFSET),
        Behavior::DR => (r.x as int, LINE_SPACING * 9 + OFFSET),
        Behavior::DL => (r.x - d, LINE_SPACING * 6 + OFFSET),
        _ => (r.x as int, r.y as int),
    };
    FRect { x: x as i64, y: y as i64, w: r.h, h: r.w }
}

/// No body of `s` but those with id `id` overlaps `r`.
pub open spec fn clear_of(r: FRect, s: Seq<Car>, id: u32) -> bool {
    forall|k: int| 0 <= k < s.len() && s[k].id != id ==> !overlaps(r, #[trigger] s[k].car_rect)
}

/// `c` after one step of its turn state machine against the snapshot `s`.
pub open spec fn turn_step(c: Car, s: Seq<Car>) -> Car {
    match turn_exit(c.behavior_code) {
        Some(exit) => if !c.has_turned && trigger_reached(c) {
            let t = turned_rect(c);
            if in_world(t) && clear_of(t, s, c.id) {
                Car {
                    car_rect: t,
                    waiting_flag: false,
                    current_direction: exit,
                    has_turned: true,
                    ..c
                }
            } else {
                Car { waiting_flag: true, ..c }
            }
        } else {
            c
        },
        None => c,
    }
}

impl Car {
    /// Whether `r` overlaps none of the bodies of `temp_cars` but those
    /// that carry this vehicle's id.
    fn is_clear(&self, r: FRect, temp_cars: &Vec<Car>) -> (b: bool)
        requires
            r.bounded(),
            all_wf(temp_cars@),
        ensures
            b == clear_of(r, temp_cars@, self.id),
    {
        let ghost s = temp_cars@;
        let mut k: usize = 0;
        while k < temp_cars.len()
            invariant
                0 <= k <= temp_cars.len(),
                s == temp_cars@,
                all_wf(s),
                r.bounded(),
                forall|j: int| 0 <= j < k && s[j].id != self.id ==> !overlaps(r, #[trigger] s[j].car_rect),
            decreases temp_cars.len() - k,
        {
            let other = temp_cars[k];
            assert(s[k as int].wf());
            if other.id != self.id && r.intersect(other.car_rect).is_some() {
                return false;
            }
            k = k + 1;
        }
        true
    }

    /// Turns where the behavior calls for a turn that has not happened yet and
    /// the body has reached the trigger line: the vehicle waits, and takes the
    /// turned body and the new heading if that body lies on the plane and no
    /// other body of `temp_cars` overlaps it.
    pub fn turn_if_can(&mut self, temp_cars: &Vec<Car>)
        requires
            old(self).wf(),
            all_wf(temp_cars@),
        ensures
            *final(self) == turn_step(*old(self), temp_cars@),
            final(self).wf(),
    {
        if self.has_turned {
            return;
        }
        let r = self.car_rect;
        let d = if r.w >= r.h {
            r.w - r.h
        } else {
            r.h - r.w
        };
        let (reached, x, y, exit) = match self.behavior_code {
            Behavior::RU => (r.x <= LINE_SPACING * 9, LINE_SPACING * 9, r.y - d, Heading::North),
            Behavior::RD => (
                r.x <= LINE_SPACING * 6 + OFFSET,
                LINE_SPACING * 6 + OFFSET,
                r.y,
                Heading::South,
            ),
            Behavior::LU => (
                r.x >= LINE_SPACING * 7 + OFFSET,
                LINE_SPACING * 7 + OFFSET,
                r.y - d,
                Heading::North,
            ),
            Behavior::LD => (
                r.x >= LINE_SPACING * 4 + OFFSET,
                LINE_SPACING * 4 + OFFSET,
                r.y,
                Heading::South,
            ),
            Behavior::UR => (
                r.y >= LINE_SPACING * 7 + OFFSET,
                r.x,
                LINE_SPACING * 7 + OFFSET,
                Heading::East,
            ),
            Behavior::UL => (
                r.y >= LINE_SPACING * 4 + OFFSET,
                r.x - d,
                LINE_SPACING * 4 + OFFSET,
                Heading::West,
            ),
            Behavior::DR => (
                r.y <= LINE_SPACING * 9 + OFFSET,
                r.x,
                LINE_SPACING * 9 + OFFSET,
                Heading::East,
            ),
            Behavior::DL => (
                r.y <= LINE_SPACING * 6 + OFFSET,
                r.x - d,
                LINE_SPACING * 6 + OFFSET,
                Heading::West,
            ),
            _ => {
                return;
            },
        };
        if !reached {
            return;
        }
        self.waiting_flag = true;
        let t = FRect::new(x, y, r.h, r.w);
        let on_plane = -WORLD <= x && x <= WORLD && -WORLD <= y && y <= WORLD;
        if on_plane && self.is_clear(t, temp_cars) {
            self.car_rect = t;
            self.waiting_flag = false;
            self.current_direction = exit;
            self.has_turned = true;
        }
    }
}

// ---------------------------------------------------------------------------
// Deadlock breaker
// ---------------------------------------------------------------------------

/// `r` moved by `d` along `h`.
pub open spec fn advanced(r: FRect, h: Heading, d: int) -> FRect {
    match h {
        Heading::West => FRect { x: (r.x - d) as i64, ..r },
        Heading::East => FRect { x: (r.x + d) as i64, ..r },
        Heading::North => FRect { y: (r.y - d) as i64, ..r },
        Heading::South => FRect { y: (r.y + d) as i64, ..r },
    }
}

/// Two perpendicular vehicles, both stopped and both past the approach.
pub open spec fn deadlocked(a: Car, b: Car) -> bool {
    perpendicular(a.current_direction, b.current_direction) && a.current_speed == 0
        && b.current_speed == 0 && a.intersection_state != IntersectionState::Before
        && b.intersection_state != IntersectionState::Before
}

/// `c` moved back one nudge against its heading, where that stays on the plane.
pub open spec fn nudged_back(c: Car) -> Car {
    let r = advanced(c.car_rect, c.current_direction, -NUDGE);
    if in_world(r) {
        Car { car_rect: r, ..c }
    } else {
        c
    }
}

impl Car {
    /// The body moved by `d` along the heading.
    fn shifted(&self, d: i64) -> (r: FRect)
        requires
            self.wf(),
            -SPEED_LIMIT <= d <= SPEED_LIMIT,
        ensures
            r == advanced(self.car_rect, self.current_direction, d as int),
            r.bounded(),
    {
        let r = self.car_rect;
        match self.current_direction {
            Heading::West => FRect { x: r.x - d, ..r },
            Heading::East => FRect { x: r.x + d, ..r },
            Heading::North => FRect { y: r.y - d, ..r },
            Heading::South => FRect { y: r.y + d, ..r },
        }
    }

    fn nudge_back(&mut self)
        requires
            old(self).wf(),
        ensures
            *final(self) == nudged_back(*old(self)),
            final(self).wf(),
    {
        let r = self.shifted(-NUDGE);
        if -WORLD <= r.x && r.x <= WORLD && -WORLD <= r.y && r.y <= WORLD {
            self.car_rect = r;
        }
    }
}

/// Where the vehicles at `i` and `j` are deadlocked, nudges the one with
/// the lower index back against its heading.
pub fn check_perpendicular_and_move_back(cars: &mut Vec<Car>, i: usize, j: usize)
    requires
        i < old(cars).len(),
        j < old(cars).len(),
        all_wf(old(cars)@),
    ensures
        deadlocked(old(cars)@[i as int], old(cars)@[j as int]) ==> final(cars)@ == old(cars)@.update(
            if i < j {
                i as int
            } else {
                j as int
            },
            nudged_back(old(cars)@[if i < j {
                i as int
            } else {
                j as int
            }]),
        ),
        !deadlocked(old(cars)@[i as int], old(cars)@[j as int]) ==> final(cars)@ == old(cars)@,
        all_wf(final(cars)@),
{
    let a = cars[i];
    let b = cars[j];
    let perpendicular = a.current_direction.is_horizontal() != b.current_direction.is_horizontal();
    let both_stopped = a.current_speed == 0 && b.current_speed == 0;
    let before_intersection = a.intersection_state == IntersectionState::Before
        || b.intersection_state == IntersectionState::Before;
    if perpendicular && both_stopped && !before_intersection {
        let lower = if i < j {
            i
        } else {
            j
        };
        let mut c = cars[lower];
        assert(old(cars)@[lower as int].wf());
        c.nudge_back();
        cars.set(lower, c);
        assert forall|k: int| 0 <= k < cars@.len() implies #[trigger] cars@[k].wf() by {
            if k != lower {
                assert(old(cars)@[k].wf());
            }
        }
    }
}

// ---------------------------------------------------------------------------
// Movement
// ---------------------------------------------------------------------------

/// The phase after a step that leaves the body inside the core or not.
pub open spec fn next_phase(p: IntersectionState, inside: bool) -> IntersectionState {
    match p {
        IntersectionState::Before => if inside {
            IntersectionState::Inside
        } else {
            IntersectionState::Before
        },
        IntersectionState::Inside => if inside {
            IntersectionState::Inside
        } else {
            IntersectionState::After
        },
        IntersectionState::After => IntersectionState::After,
    }
}

/// The body `c` would take after one step at its current speed.
pub open spec fn candidate(c: Car) -> FRect {
    advanced(c.car_rect, c.current_direction, c.current_speed as int)
}

/// `c` after one movement step against the snapshot `s`: a vehicle that is
/// not waiting takes its candidate body if that stays on the plane and
/// overlaps no other body of `s`; then, moved or not, its phase follows
/// whether the body it ends with overlaps the core.
pub open spec fn move_step(c: Car, s: Seq<Car>, core: FRect) -> Car {
    if c.waiting_flag {
        c
    } else {
        let t = candidate(c);
        let r = if in_world(t) && clear_of(t, s, c.id) {
            t
        } else {
            c.car_rect
        };
        Car { car_rect: r, intersection_state: next_phase(c.intersection_state, overlaps(r, core)), ..c }
    }
}

impl Car {
    /// Where this vehicle is not waiting: moves one step along the heading
    /// if the moved body overlaps no body of `temp_cars` but its own, and
    /// then, moved or not, advances the phase: inside while the body overlaps
    /// `intersection`, after once it has left it.
    pub fn move_one_step_if_no_collide(&mut self, temp_cars: &Vec<Car>, intersection: &FRect)
        requires
            old(self).wf(),
            all_wf(temp_cars@),
            intersection.bounded(),
        ensures
            *final(self) == move_step(*old(self), temp_cars@, *intersection),
            final(self).wf(),
    {
        if self.waiting_flag {
            return;
        }
        let t = self.shifted(self.current_speed);
        let on_plane = -WORLD <= t.x && t.x <= WORLD && -WORLD <= t.y && t.y <= WORLD;
        if on_plane && self.is_clear(t, temp_cars) {
            self.car_rect = t;
        }
        let inside = self.car_rect.intersect(*intersection).is_some();
        self.intersection_state = match self.intersection_state {
            IntersectionState::Before => if inside {
                IntersectionState::Inside
            } else {
                IntersectionState::Before
            },
            IntersectionState::Inside => if inside {
                IntersectionState::Inside
            } else {
                IntersectionState::After
            },
            IntersectionState::After => IntersectionState::After,
        };
    }
}

} // verus!
