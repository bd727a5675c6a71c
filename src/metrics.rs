use vstd::prelude::*;

verus! {

/// Aggregates that the simulation reports while it runs: counts, and the
/// extremes of the speeds (in hundredths of a pixel per tick) and of the trip
/// durations (in milliseconds) seen so far.
#[derive(Debug, Clone, Copy, PartialEq, Eq, Structural)]
pub struct Metrics {
    /// Vehicles that completed their journey.
    pub vehicle_count: u32,
    /// Vehicles accepted by a spawn.
    pub cars_spawned: u32,
    /// `u64::MAX` until a speed is recorded.
    pub min_vehicle_speed: u64,
    pub max_vehicle_speed: u64,
    /// `u64::MAX` until a trip is recorded.
    pub min_intersection_pass_time: u64,
    pub max_intersection_pass_time: u64,
    pub close_call_count: u32,
}

/// `n + 1`, held at the largest `u32`.
pub open spec fn sat_inc(n: u32) -> u32 {
    if n < u32::MAX {
        (n + 1) as u32
    } else {
        n
    }
}

pub open spec fn min_u64(a: u64, b: u64) -> u64 {
    if b < a {
        b
    } else {
        a
    }
}

pub open spec fn max_u64(a: u64, b: u64) -> u64 {
    if b > a {
        b
    } else {
        a
    }
}

/// `m` after a completed journey is counted.
pub open spec fn vehicle_recorded(m: Metrics) -> Metrics {
    Metrics { vehicle_count: sat_inc(m.vehicle_count), ..m }
}

/// `m` after a close call is counted.
pub open spec fn close_call_recorded(m: Metrics) -> Metrics {
    Metrics { close_call_count: sat_inc(m.close_call_count), ..m }
}

/// `m` after an accepted spawn is counted.
pub open spec fn spawn_recorded(m: Metrics) -> Metrics {
    Metrics { cars_spawned: sat_inc(m.cars_spawned), ..m }
}

/// `m` after a trip of `time` milliseconds is recorded.
pub open spec fn trip_recorded(m: Metrics, time: u64) -> Metrics {
    Metrics {
        min_intersection_pass_time: min_u64(m.min_intersection_pass_time, time),
        max_intersection_pass_time: max_u64(m.max_intersection_pass_time, time),
        ..m
    }
}

/// `m` after a speed sample is recorded.
pub open spec fn speed_recorded(m: Metrics, speed: u64) -> Metrics {
    Metrics {
        min_vehicle_speed: min_u64(m.min_vehicle_speed, speed),
        max_vehicle_speed: max_u64(m.max_vehicle_speed, speed),
        ..m
    }
}

impl Metrics {
    /// Nothing recorded yet.
    pub fn new() -> (r: Metrics)
        ensures
            r == (Metrics {
                vehicle_count: 0,
                cars_spawned: 0,
                min_vehicle_speed: u64::MAX,
                max_vehicle_speed: 0,
                min_intersection_pass_time: u64::MAX,
                max_intersection_pass_time: 0,
                close_call_count: 0,
            }),
    {
        Metrics {
            vehicle_count: 0,
            cars_spawned: 0,
            min_vehicle_speed: u64::MAX,
            max_vehicle_speed: 0,
            min_intersection_pass_time: u64::MAX,
            max_intersection_pass_time: 0,
            close_call_count: 0,
        }
    }
}

fn saturating_inc(n: u32) -> (r: u32)
    ensures
        r == sat_inc(n),
{
    if n < u32::MAX {
        n + 1
    } else {
        n
    }
}

/// Counts a completed journey.
pub fn increment_vehicle_count(metrics: &mut Metrics)
    ensures
        *final(metrics) == vehicle_recorded(*old(metrics)),
{
    metrics.vehicle_count = saturating_inc(metrics.vehicle_count);
}

/// Counts a close call: a vehicle that braked hard.
pub fn increment_close_call_count(metrics: &mut Metrics)
    ensures
        *final(metrics) == close_call_recorded(*old(metrics)),
{
    metrics.close_call_count = saturating_inc(metrics.close_call_count);
}

/// Records the duration of a completed trip, in milliseconds.
pub fn update_intersection_time(metrics: &mut Metrics, time: u64)
    ensures
        *final(metrics) == trip_recorded(*old(metrics), time),
{
    if time < metrics.min_intersection_pass_time {
        metrics.min_intersection_pass_time = time;
    }
    if time > metrics.max_intersection_pass_time {
        metrics.max_intersection_pass_time = time;
    }
}

/// Records a speed sample, in hundredths of a pixel per tick.
pub fn update_vehicle_speed(metrics: &mut Metrics, speed: u64)
    ensures
        *final(metrics) == speed_recorded(*old(metrics), speed),
{
    if speed < metrics.min_vehicle_speed {
        metrics.min_vehicle_speed = speed;
    }
    if speed > metrics.max_vehicle_speed {
        metrics.max_vehicle_speed = speed;
    }
}

/// Counts an accepted spawn.
pub fn increment_spawn_count(metrics: &mut Metrics)
    ensures
        *final(metrics) == spawn_recorded(*old(metrics)),
{
    metrics.cars_spawned = saturating_inc(metrics.cars_spawned);
}


// ---------------------------------------------------------------------------
// Summary text
// ---------------------------------------------------------------------------

pub open spec fn digit_char(d: nat) -> char {
    if d == 0 {
        '0'
    } else if d == 1 {
        '1'
    } else if d == 2 {
        '2'
    } else if d == 3 {
        '3'
    } else if d == 4 {
        '4'
    } else if d == 5 {
        '5'
    } else if d == 6 {
        '6'
    } else if d == 7 {
        '7'
    } else if d == 8 {
        '8'
    } else {
        '9'
    }
}

/// The decimal digits of `n`, without leading zeros.
pub open spec fn decimal(n: nat) -> Seq<char>
    decreases n,
{
    if n < 10 {
        seq![digit_char(n)]
    } else {
        decimal(n / 10) + seq![digit_char(n % 10)]
    }
}

/// `n` hundredths written with two decimals (`150` is `1.50`).
pub open spec fn fixed2(n: nat) -> Seq<char> {
    decimal(n / 100) + seq!['.', digit_char((n / 10) % 10), digit_char(n % 10)]
}

/// `ms` milliseconds written as seconds with two decimals and a unit.
pub open spec fn seconds2(ms: nat) -> Seq<char> {
    fixed2(ms / 10) + seq!['s']
}

/// The title of the summary.
pub open spec fn summary_title(m: Metrics) -> Seq<char> {
    if m.cars_spawned == 0 {
        "No Cars Were Spawned"@
    } else {
        "Simulation Stopped"@
    }
}

/// The lines of the summary.
pub open spec fn summary_lines(m: Metrics) -> Seq<Seq<char>> {
    let counts = seq![
        "Total Cars Spawned: "@ + decimal(m.cars_spawned as nat),
        "Cars Completed Journey: "@ + decimal(m.vehicle_count as nat),
    ];
    let speeds = if m.cars_spawned == 0 {
        Seq::empty()
    } else if m.max_vehicle_speed > 0 {
        seq![
            "Max Vehicle Velocity: "@ + fixed2(m.max_vehicle_speed as nat),
            "Min Vehicle Velocity: "@ + fixed2(m.min_vehicle_speed as nat),
        ]
    } else {
        seq!["Max Vehicle Velocity: None"@, "Min Vehicle Velocity: None"@]
    };
    let times = if m.vehicle_count > 0 {
        seq![
            "Max Time to Pass: "@ + seconds2(m.max_intersection_pass_time as nat),
            "Min Time to Pass: "@ + seconds2(m.min_intersection_pass_time as nat),
        ]
    } else {
        seq!["Max Time to Pass: No completions"@, "Min Time to Pass: No completions"@]
    };
    counts + speeds + times + seq!["Close Calls: "@ + decimal(m.close_call_count as nat)]
}

fn digit_str(d: u64) -> (r: &'static str)
    requires
        d < 10,
    ensures
        r@ == seq![digit_char(d as nat)],
{
    proof {
        reveal_strlit("0");
        reveal_strlit("1");
        reveal_strlit("2");
        reveal_strlit("3");
        reveal_strlit("4");
        reveal_strlit("5");
        reveal_strlit("6");
        reveal_strlit("7");
        reveal_strlit("8");
        reveal_strlit("9");
    }
    if d == 0 {
        "0"
    } else if d == 1 {
        "1"
    } else if d == 2 {
        "2"
    } else if d == 3 {
        "3"
    } else if d == 4 {
        "4"
    } else if d == 5 {
        "5"
    } else if d == 6 {
        "6"
    } else if d == 7 {
        "7"
    } else if d == 8 {
        "8"
    } else {
        "9"
    }
}

/// Appends the decimal digits of `n`.
fn push_decimal(s: &mut String, n: u64)
    ensures
        final(s)@ == old(s)@ + decimal(n as nat),
    decreases n,
{
    if n >= 10 {
        push_decimal(s, n / 10);
        s.append(digit_str(n % 10));
        assert(final(s)@ =~= old(s)@ + decimal(n as nat));
    } else {
        s.append(digit_str(n));
    }
}

/// Appends `n` hundredths with two decimals.
fn push_fixed2(s: &mut String, n: u64)
    ensures
        final(s)@ == old(s)@ + fixed2(n as nat),
{
    push_decimal(s, n / 100);
    s.append(".");
    s.append(digit_str((n / 10) % 10));
    s.append(digit_str(n % 10));
    proof {
        reveal_strlit(".");
    }
    assert(final(s)@ =~= old(s)@ + fixed2(n as nat));
}

fn count_line(prefix: &str, n: u64) -> (r: String)
    ensures
        r@ == prefix@ + decimal(n as nat),
{
    let mut s = String::from_str(prefix);
    push_decimal(&mut s, n);
    s
}

fn speed_line(prefix: &str, n: u64) -> (r: String)
    ensures
        r@ == prefix@ + fixed2(n as nat),
{
    let mut s = String::from_str(prefix);
    push_fixed2(&mut s, n);
    s
}

fn time_line(prefix: &str, ms: u64) -> (r: String)
    ensures
        r@ == prefix@ + seconds2(ms as nat),
{
    let mut s = String::from_str(prefix);
    push_fixed2(&mut s, ms / 10);
    s.append("s");
    proof {
        reveal_strlit("s");
    }
    assert(s@ =~= prefix@ + seconds2(ms as nat));
    s
}

/// The title and the lines of the summary shown when the simulation stops.
pub fn get_metrics_display(metrics: &Metrics) -> (r: (String, Vec<String>))
    ensures
        r.0@ == summary_title(*metrics),
        r.1@.map_values(|l: String| l@) == summary_lines(*metrics),
{
    let m = *metrics;
    let title = if m.cars_spawned == 0 {
        String::from_str("No Cars Were Spawned")
    } else {
        String::from_str("Simulation Stopped")
    };
    let mut stats: Vec<String> = Vec::new();
    stats.push(count_line("Total Cars Spawned: ", m.cars_spawned as u64));
    stats.push(count_line("Cars Completed Journey: ", m.vehicle_count as u64));
    if m.cars_spawned > 0 {
        if m.max_vehicle_speed > 0 {
            stats.push(speed_line("Max Vehicle Velocity: ", m.max_vehicle_speed));
            stats.push(speed_line("Min Vehicle Velocity: ", m.min_vehicle_speed));
        } else {
            stats.push(String::from_str("Max Vehicle Velocity: None"));
            stats.push(String::from_str("Min Vehicle Velocity: None"));
        }
    }
    if m.vehicle_count > 0 {
        stats.push(time_line("Max Time to Pass: ", m.max_intersection_pass_time));
        stats.push(time_line("Min Time to Pass: ", m.min_intersection_pass_time));
    } else {
        stats.push(String::from_str("Max Time to Pass: No completions"));
        stats.push(String::from_str("Min Time to Pass: No completions"));
    }
    stats.push(count_line("Close Calls: ", m.close_call_count as u64));
    assert(stats@.map_values(|l: String| l@) =~= summary_lines(m));
    (title, stats)
}

} // verus!
