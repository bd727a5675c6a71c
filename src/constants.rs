use vstd::prelude::*;

verus! {

/// Fixed-point scale: one pixel is `SCALE` units.
pub const SCALE: i64 = 100;

/// Side of the square window, in pixels.
pub const WINDOW_SIZE: u32 = 800;

/// Side of the square window, in units.
pub const WINDOW_EXTENT: i64 = 80000;

/// Distance between two lane lines, in pixels (800 / 14).
pub const LINE_SPACING_PX: i32 = 57;

/// Distance between two lane lines (57 pixels), in units.
pub const LINE_SPACING: i64 = 5700;

/// Offset from a lane line to the top of a horizontally travelling body
/// (28.5 - 33 / 2.75 = 16.5 pixels), in units.
pub const OFFSET: i64 = 1650;

/// Offset from a lane line to the left of a vertically travelling body
/// (28.5 - 43 / 2.75, about 12.86 pixels), in units.
pub const LANE_CENTER_V: i64 = 1286;

/// How far outside the window vehicles appear and leave (50 pixels), in units.
pub const MARGIN: i64 = 5000;

/// Long edge of a vehicle body (43 pixels), in units.
pub const LONG_EDGE: i64 = 4300;

/// Short edge of a vehicle body (33 pixels), in units.
pub const SHORT_EDGE: i64 = 3300;

/// Cross width of the sensing rectangle for vertical travel, narrower than
/// the body (30 pixels), in units.
pub const NARROW_RADAR_WIDTH: i64 = 3000;

/// Inset of the narrow sensing rectangle from the left of a vertical body,
/// which centres it on a body of the short edge's width.
pub const RADAR_INSET: i64 = 150;

/// Lowest base speed drawn at spawn (0.8 pixel per tick), in units.
pub const MIN_BASE_SPEED: i64 = 80;

/// Bound (exclusive) of the base speed drawn at spawn (2 pixels per tick), in units.
pub const MAX_BASE_SPEED: i64 = 200;

/// Largest base speed that a vehicle may carry, in units per tick.
pub const SPEED_LIMIT: i64 = 100000;

/// Largest number of active vehicles.
pub const CAPACITY: usize = 9999;

/// Number of left turners inside the core at which congestion-sensitive
/// vehicles hold outside it.
pub const CONGESTION_THRESHOLD: usize = 3;

/// A vehicle closer than this to its destination is retired (20 pixels), in units.
pub const ARRIVAL_RADIUS: i64 = 2000;

/// Backward step of the deadlock breaker (1 pixel), in units.
pub const NUDGE: i64 = 100;

/// Gap at or below which a vehicle stops (3 pixels), in units.
pub const STOP_GAP: i64 = 300;

/// Gap at or below which a horizontally travelling vehicle crawls (30 pixels).
pub const CRAWL_GAP_HORIZONTAL: i64 = 3000;

/// Gap at or below which a vertically travelling vehicle crawls (20 pixels).
pub const CRAWL_GAP_VERTICAL: i64 = 2000;

/// Gap at or below which a vehicle runs at half speed (39 pixels).
pub const SLOW_GAP: i64 = 3900;

/// Vehicle bodies stay inside the square `[-WORLD, WORLD]` of the plane.
pub const WORLD: i64 = 1000000000;

/// Largest extent of a vehicle body along either axis.
pub const MAX_EXTENT: i64 = 1000000;

/// Frame duration of the simulation loop, in milliseconds.
pub const FRAME_MILLIS: u64 = 16;

} // verus!
