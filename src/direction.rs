use vstd::prelude::*;
use crate::rng::random_below;

verus! {

/// A side of the grid, or a direction of travel on it.
#[derive(Debug, Clone, Copy, PartialEq, Eq, Structural)]
pub enum Direction {
    Up,
    Down,
    Left,
    Right,
}

/// The `k`-th direction of the draw order: up, left, down, right.
pub open spec fn direction_at(k: int) -> Direction {
    if k == 0 {
        Direction::Up
    } else if k == 1 {
        Direction::Left
    } else if k == 2 {
        Direction::Down
    } else {
        Direction::Right
    }
}

/// The place of `d` in the draw order.
pub open spec fn order_of(d: Direction) -> int {
    match d {
        Direction::Up => 0,
        Direction::Left => 1,
        Direction::Down => 2,
        Direction::Right => 3,
    }
}

/// The `k`-th direction of the draw order once `exclude` is taken out of it.
pub open spec fn pick_of(k: int, exclude: Option<Direction>) -> Direction {
    match exclude {
        Some(e) => if k >= order_of(e) {
            direction_at(k + 1)
        } else {
            direction_at(k)
        },
        None => direction_at(k),
    }
}

pub open spec fn opposite_of(d: Direction) -> Direction {
    match d {
        Direction::Up => Direction::Down,
        Direction::Down => Direction::Up,
        Direction::Left => Direction::Right,
        Direction::Right => Direction::Left,
    }
}

impl Direction {
    /// A direction drawn at random, other than `exclude` where one is given.
    pub fn new(exclude: Option<Direction>) -> (r: Direction)
        ensures
            exclude matches Some(e) ==> r != e,
    {
        let n: u64 = if exclude.is_some() {
            3
        } else {
            4
        };
        let k = random_below(n);
        Direction::pick(k, exclude)
    }

    fn at(k: u64) -> (r: Direction)
        ensures
            r == direction_at(k as int),
    {
        if k == 0 {
            Direction::Up
        } else if k == 1 {
            Direction::Left
        } else if k == 2 {
            Direction::Down
        } else {
            Direction::Right
        }
    }

    fn order(&self) -> (r: u64)
        ensures
            r == order_of(*self),
    {
        match self {
            Direction::Up => 0,
            Direction::Left => 1,
            Direction::Down => 2,
            Direction::Right => 3,
        }
    }

    /// The `k`-th direction in the order up, left, down, right, once
    /// `exclude` is taken out of that order.
    pub fn pick(k: u64, exclude: Option<Direction>) -> (r: Direction)
        requires
            k < 4,
            exclude.is_some() ==> k < 3,
        ensures
            r == pick_of(k as int, exclude),
            exclude matches Some(e) ==> r != e,
    {
        match exclude {
            Some(e) => if k >= e.order() {
                Direction::at(k + 1)
            } else {
                Direction::at(k)
            },
            None => Direction::at(k),
        }
    }

    pub fn opposite(&self) -> (r: Direction)
        ensures
            r == opposite_of(*self),
    {
        match self {
            Direction::Up => Direction::Down,
            Direction::Down => Direction::Up,
            Direction::Left => Direction::Right,
            Direction::Right => Direction::Left,
        }
    }
}

} // verus!
