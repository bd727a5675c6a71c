use vstd::prelude::*;
use crate::constants::{LINE_SPACING_PX, WINDOW_SIZE};
use crate::direction::Direction;
use crate::geometry::FRect;

verus! {

/// One cell of the 4 by 4 grid that covers the intersection, in pixels.
#[derive(Debug, Clone, Copy, PartialEq, Eq, Structural)]
pub struct IntersectionCell {
    pub x: i32,
    pub y: i32,
    pub width: i32,
    pub height: i32,
}

/// The centre of `r`, rounded down, lies in the cell `c` (edges included).
pub open spec fn cell_contains(c: IntersectionCell, r: FRect) -> bool {
    let cx = r.x + r.w / 2;
    let cy = r.y + r.h / 2;
    c.x <= cx <= c.x + c.width && c.y <= cy <= c.y + c.height
}

/// The cell at column `i` and row `j` of the intersection grid.
pub open spec fn cell_at(i: int, j: int) -> IntersectionCell {
    IntersectionCell {
        x: ((5 + i) * LINE_SPACING_PX) as i32,
        y: ((5 + j) * LINE_SPACING_PX) as i32,
        width: LINE_SPACING_PX,
        height: LINE_SPACING_PX,
    }
}

impl IntersectionCell {
    /// Whether the centre of the rectangle `r` lies in this cell.
    pub fn contains(&self, r: &FRect) -> (b: bool)
        requires
            -0x4000_0000 <= r.x <= 0x4000_0000,
            -0x4000_0000 <= r.y <= 0x4000_0000,
            0 <= r.w <= 0x4000_0000,
            0 <= r.h <= 0x4000_0000,
        ensures
            b == cell_contains(*self, *r),
    {
        let cx = r.x + r.w / 2;
        let cy = r.y + r.h / 2;
        let (x, y, w, h) = (self.x as i64, self.y as i64, self.width as i64, self.height as i64);
        x <= cx && cx <= x + w && y <= cy && cy <= y + h
    }
}

/// The 16 cells of the intersection grid, column by column.
pub fn intersection_cells() -> (r: Vec<IntersectionCell>)
    ensures
        r@.len() == 16,
        forall|k: int| 0 <= k < 16 ==> #[trigger] r@[k] == cell_at(k / 4, k % 4),
{
    let mut cells: Vec<IntersectionCell> = Vec::new();
    let mut i: i32 = 0;
    while i < 4
        invariant
            0 <= i <= 4,
            cells@.len() == 4 * i,
            forall|k: int| 0 <= k < 4 * i ==> #[trigger] cells@[k] == cell_at(k / 4, k % 4),
        decreases 4 - i,
    {
        let mut j: i32 = 0;
        while j < 4
            invariant
                0 <= i < 4,
                0 <= j <= 4,
                cells@.len() == 4 * i + j,
                forall|k: int| 0 <= k < 4 * i + j ==> #[trigger] cells@[k] == cell_at(k / 4, k % 4),
            decreases 4 - j,
        {
            cells.push(
                IntersectionCell {
                    x: (5 + i) * LINE_SPACING_PX,
                    y: (5 + j) * LINE_SPACING_PX,
                    width: LINE_SPACING_PX,
                    height: LINE_SPACING_PX,
                },
            );
            assert((4 * i + j) / 4 == i && (4 * i + j) % 4 == j) by (nonlinear_arith)
                requires
                    0 <= j < 4,
                    0 <= i,
            ;
            j = j + 1;
        }
        i = i + 1;
    }
    cells
}

/// Where a square entering from `starting` side heading for `target` starts,
/// and the line at which it turns, if it turns.
#[derive(Debug, Clone, Copy, PartialEq, Eq, Structural)]
pub struct CalculatedCoordinates {
    pub starting_x: i32,
    pub starting_y: i32,
    pub turn_x: Option<i32>,
    pub turn_y: Option<i32>,
}

pub open spec fn coords(sx: int, sy: int, tx: Option<i32>, ty: Option<i32>) -> CalculatedCoordinates {
    CalculatedCoordinates { starting_x: sx as i32, starting_y: sy as i32, turn_x: tx, turn_y: ty }
}

/// The start and turn lines for a route from side `current` to side `target`.
pub open spec fn coordinates_of(current: Direction, target: Direction) -> CalculatedCoordinates {
    let l = LINE_SPACING_PX as int;
    let w = WINDOW_SIZE as int;
    match (current, target) {
        (Direction::Up, Direction::Down) => coords(5 * l, -l, None, None),
        (Direction::Up, Direction::Left) => coords(4 * l, -l, None, Some((4 * l) as i32)),
        (Direction::Up, Direction::Right) => coords(6 * l, -l, None, Some((7 * l) as i32)),
        (Direction::Down, Direction::Up) => coords(8 * l, w, None, None),
        (Direction::Down, Direction::Left) => coords(7 * l, w, None, Some((6 * l) as i32)),
        (Direction::Down, Direction::Right) => coords(9 * l, w, None, Some((9 * l) as i32)),
        (Direction::Left, Direction::Up) => coords(-l, 7 * l, Some((7 * l) as i32), None),
        (Direction::Left, Direction::Down) => coords(-l, 9 * l, Some((4 * l) as i32), None),
        (Direction::Left, Direction::Right) => coords(-l, 8 * l, None, None),
        (Direction::Right, Direction::Up) => coords(w, 4 * l, Some((9 * l) as i32), None),
        (Direction::Right, Direction::Down) => coords(w, 6 * l, Some((6 * l) as i32), None),
        (Direction::Right, Direction::Left) => coords(w, 5 * l, None, None),
        _ => coords(0, 0, None, None),
    }
}

/// The start and turn lines for a route from side `current_direction` to
/// side `target_direction`, which differ.
pub fn calculate_coordinates(current_direction: Direction, target_direction: Direction) -> (r:
    CalculatedCoordinates)
    requires
        current_direction != target_direction,
    ensures
        r == coordinates_of(current_direction, target_direction),
{
    let l = LINE_SPACING_PX;
    let w = WINDOW_SIZE as i32;
    let (sx, sy, tx, ty) = match (current_direction, target_direction) {
        (Direction::Up, Direction::Down) => (5 * l, -l, None, None),
        (Direction::Up, Direction::Left) => (4 * l, -l, None, Some(4 * l)),
        (Direction::Up, Direction::Right) => (6 * l, -l, None, Some(7 * l)),
        (Direction::Down, Direction::Up) => (8 * l, w, None, None),
        (Direction::Down, Direction::Left) => (7 * l, w, None, Some(6 * l)),
        (Direction::Down, Direction::Right) => (9 * l, w, None, Some(9 * l)),
        (Direction::Left, Direction::Up) => (-l, 7 * l, Some(7 * l), None),
        (Direction::Left, Direction::Down) => (-l, 9 * l, Some(4 * l), None),
        (Direction::Left, Direction::Right) => (-l, 8 * l, None, None),
        (Direction::Right, Direction::Up) => (w, 4 * l, Some(9 * l), None),
        (Direction::Right, Direction::Down) => (w, 6 * l, Some(6 * l), None),
        (Direction::Right, Direction::Left) => (w, 5 * l, None, None),
        _ => (0, 0, None, None),
    };
    CalculatedCoordinates { starting_x: sx, starting_y: sy, turn_x: tx, turn_y: ty }
}

} // verus!
