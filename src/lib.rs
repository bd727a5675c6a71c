//! A verified simulation core for autonomous vehicles crossing a single
//! four-way intersection without traffic lights.
//!
//! Each frame, [`sim::tick`] runs the stages in their fixed order: the
//! intersection arbiter, radar and speed control, the turn state machine,
//! the deadlock breaker, the movement committer and retirement. Every stage
//! reads a snapshot of the vehicles taken when it starts, and its result is
//! stated exactly by a spec function of that snapshot.
//!
//! Coordinates, extents and speeds are fixed-point integers counted in
//! hundredths of a pixel (see [`constants::SCALE`]); times are milliseconds
//! of the caller's clock.
//!
//! - [`geometry`]: points, rectangles and the strict overlap test.
//! - [`lanes`]: headings, lane behaviors and their spawn and destination points.
//! - [`car`]: the vehicle record and the per-vehicle rules of each stage.
//! - [`sim`]: the stages over all vehicles, the tick, spawning and retirement.
//! - [`metrics`]: the aggregates reported while running, and their summary.
//! - [`laws`]: properties of the tick and of spawning, proved.
//! - [`direction`] and [`grid`]: sides of the grid, the cells of the
//!   intersection and the start and turn lines of each route.

pub mod car;
pub mod constants;
pub mod direction;
pub mod geometry;
pub mod grid;
pub mod lanes;
pub mod laws;
pub mod metrics;
mod rng;
pub mod sim;
