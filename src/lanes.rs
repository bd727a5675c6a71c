use vstd::prelude::*;
use crate::constants::{LANE_CENTER_V, LINE_SPACING, MARGIN, OFFSET, WINDOW_EXTENT};
use crate::geometry::Vec2;

verus! {

/// A compass heading of travel.
#[derive(Debug, Clone, Copy, PartialEq, Eq, Structural)]
pub enum Heading {
    North,
    South,
    East,
    West,
}

impl Heading {
    /// Travel along the x axis.
    pub open spec fn horizontal(self) -> bool {
        self == Heading::East || self == Heading::West
    }

    pub fn is_horizontal(&self) -> (r: bool)
        ensures
            r == self.horizontal(),
    {
        match self {
            Heading::East | Heading::West => true,
            _ => false,
        }
    }
}

/// Two headings are perpendicular when one is horizontal and the other is not.
pub open spec fn perpendicular(a: Heading, b: Heading) -> bool {
    a.horizontal() != b.horizontal()
}

/// A lane behavior: the side a vehicle enters from (first letter) and the
/// side it leaves by (second letter): Right, Left, Up or Down.
#[derive(Debug, Clone, Copy, PartialEq, Eq, Structural)]
pub enum Behavior {
    RU,
    RL,
    RD,
    DU,
    DL,
    DR,
    LU,
    LR,
    LD,
    UD,
    UR,
    UL,
}

/// The point `(x, y)` of the plane.
pub open spec fn pt(x: int, y: int) -> Vec2 {
    Vec2 { x: x as i64, y: y as i64 }
}

/// Where a vehicle of behavior `b` appears.
pub open spec fn spawn_point_of(b: Behavior) -> Vec2 {
    match b {
        Behavior::RU => pt(WINDOW_EXTENT + MARGIN, LINE_SPACING * 4 + OFFSET),
        Behavior::RL => pt(WINDOW_EXTENT + MARGIN, LINE_SPACING * 5 + OFFSET),
        Behavior::RD => pt(WINDOW_EXTENT + MARGIN, LINE_SPACING * 6 + OFFSET),
        Behavior::DU => pt(LINE_SPACING * 8 + LANE_CENTER_V, WINDOW_EXTENT + MARGIN),
        Behavior::DL => pt(LINE_SPACING * 7 + LANE_CENTER_V, WINDOW_EXTENT + MARGIN),
        Behavior::DR => pt(LINE_SPACING * 9 + LANE_CENTER_V, WINDOW_EXTENT + MARGIN),
        Behavior::LU => pt(-MARGIN as int, LINE_SPACING * 7 + OFFSET),
        Behavior::LR => pt(-MARGIN as int, LINE_SPACING * 8 + OFFSET),
        Behavior::LD => pt(-MARGIN as int, LINE_SPACING * 9 + OFFSET),
        Behavior::UD => pt(LINE_SPACING * 5 + LANE_CENTER_V, -MARGIN as int),
        Behavior::UR => pt(LINE_SPACING * 6 + LANE_CENTER_V, -MARGIN as int),
        Behavior::UL => pt(LINE_SPACING * 4 + LANE_CENTER_V, -MARGIN as int),
    }
}

/// Where a vehicle of behavior `b` is headed.
pub open spec fn dest_point_of(b: Behavior) -> Vec2 {
    match b {
        Behavior::RU => pt(LINE_SPACING * 7, -MARGIN as int),
        Behavior::RL => pt(-MARGIN as int, LINE_SPACING * 5 + OFFSET),
        Behavior::RD => pt(LINE_SPACING * 7, WINDOW_EXTENT as int),
        Behavior::DU => pt(LINE_SPACING * 8 + LANE_CENTER_V, -MARGIN as int),
        Behavior::DL => pt(-MARGIN as int, LINE_SPACING * 7 + OFFSET),
        Behavior::DR => pt(WINDOW_EXTENT as int, LINE_SPACING * 7 + OFFSET),
        Behavior::LU => pt(LINE_SPACING * 7, -MARGIN as int),
        Behavior::LR => pt(WINDOW_EXTENT as int, LINE_SPACING * 7 + OFFSET),
        Behavior::LD => pt(LINE_SPACING * 7, WINDOW_EXTENT as int),
        Behavior::UD => pt(LINE_SPACING * 5 + LANE_CENTER_V, WINDOW_EXTENT as int),
        Behavior::UR => pt(WINDOW_EXTENT as int, LINE_SPACING * 5 + OFFSET),
        Behavior::UL => pt(-MARGIN as int, LINE_SPACING * 5 + OFFSET),
    }
}

impl Behavior {
    pub fn spawn_point(&self) -> (r: Vec2)
        ensures
            r == spawn_point_of(*self),
    {
        match self {
            Behavior::RU => Vec2 { x: WINDOW_EXTENT + MARGIN, y: LINE_SPACING * 4 + OFFSET },
            Behavior::RL => Vec2 { x: WINDOW_EXTENT + MARGIN, y: LINE_SPACING * 5 + OFFSET },
            Behavior::RD => Vec2 { x: WINDOW_EXTENT + MARGIN, y: LINE_SPACING * 6 + OFFSET },
            Behavior::DU => Vec2 { x: LINE_SPACING * 8 + LANE_CENTER_V, y: WINDOW_EXTENT + MARGIN },
            Behavior::DL => Vec2 { x: LINE_SPACING * 7 + LANE_CENTER_V, y: WINDOW_EXTENT + MARGIN },
            Behavior::DR => Vec2 { x: LINE_SPACING * 9 + LANE_CENTER_V, y: WINDOW_EXTENT + MARGIN },
            Behavior::LU => Vec2 { x: -MARGIN, y: LINE_SPACING * 7 + OFFSET },
            Behavior::LR => Vec2 { x: -MARGIN, y: LINE_SPACING * 8 + OFFSET },
            Behavior::LD => Vec2 { x: -MARGIN, y: LINE_SPACING * 9 + OFFSET },
            Behavior::UD => Vec2 { x: LINE_SPACING * 5 + LANE_CENTER_V, y: -MARGIN },
            Behavior::UR => Vec2 { x: LINE_SPACING * 6 + LANE_CENTER_V, y: -MARGIN },
            Behavior::UL => Vec2 { x: LINE_SPACING * 4 + LANE_CENTER_V, y: -MARGIN },
        }
    }

    pub fn dest_point(&self) -> (r: Vec2)
        ensures
            r == dest_point_of(*self),
    {
        match self {
            Behavior::RU => Vec2 { x: LINE_SPACING * 7, y: -MARGIN },
            Behavior::RL => Vec2 { x: -MARGIN, y: LINE_SPACING * 5 + OFFSET },
            Behavior::RD => Vec2 { x: LINE_SPACING * 7, y: WINDOW_EXTENT },
            Behavior::DU => Vec2 { x: LINE_SPACING * 8 + LANE_CENTER_V, y: -MARGIN },
            Behavior::DL => Vec2 { x: -MARGIN, y: LINE_SPACING * 7 + OFFSET },
            Behavior::DR => Vec2 { x: WINDOW_EXTENT, y: LINE_SPACING * 7 + OFFSET },
            Behavior::LU => Vec2 { x: LINE_SPACING * 7, y: -MARGIN },
            Behavior::LR => Vec2 { x: WINDOW_EXTENT, y: LINE_SPACING * 7 + OFFSET },
            Behavior::LD => Vec2 { x: LINE_SPACING * 7, y: WINDOW_EXTENT },
            Behavior::UD => Vec2 { x: LINE_SPACING * 5 + LANE_CENTER_V, y: WINDOW_EXTENT },
            Behavior::UR => Vec2 { x: WINDOW_EXTENT, y: LINE_SPACING * 5 + OFFSET },
            Behavior::UL => Vec2 { x: -MARGIN, y: LINE_SPACING * 5 + OFFSET },
        }
    }

    /// The heading of a vehicle of this behavior when it enters.
    pub fn entry_heading(&self) -> (r: Heading)
        ensures
            r == entry_heading_of(*self),
    {
        match self {
            Behavior::RU | Behavior::RL | Behavior::RD => Heading::West,
            Behavior::DU | Behavior::DL | Behavior::DR => Heading::North,
            Behavior::LU | Behavior::LR | Behavior::LD => Heading::East,
            Behavior::UD | Behavior::UR | Behavior::UL => Heading::South,
        }
    }
}

pub open spec fn entry_heading_of(b: Behavior) -> Heading {
    match b {
        Behavior::RU | Behavior::RL | Behavior::RD => Heading::West,
        Behavior::DU | Behavior::DL | Behavior::DR => Heading::North,
        Behavior::LU | Behavior::LR | Behavior::LD => Heading::East,
        Behavior::UD | Behavior::UR | Behavior::UL => Heading::South,
    }
}

/// The `k`-th of the twelve behaviors in the order of the random spawn table.
pub open spec fn behavior_at(k: int) -> Behavior {
    if k == 0 {
        Behavior::RU
    } else if k == 1 {
        Behavior::RL
    } else if k == 2 {
        Behavior::RD
    } else if k == 3 {
        Behavior::DU
    } else if k == 4 {
        Behavior::DL
    } else if k == 5 {
        Behavior::DR
    } else if k == 6 {
        Behavior::LU
    } else if k == 7 {
        Behavior::LR
    } else if k == 8 {
        Behavior::LD
    } else if k == 9 {
        Behavior::UD
    } else if k == 10 {
        Behavior::UR
    } else {
        Behavior::UL
    }
}

/// The `k`-th of the three behaviors that enter along `h`.
pub open spec fn entering_at(h: Heading, k: int) -> Behavior {
    let first = match h {
        Heading::West => 0int,
        Heading::North => 3,
        Heading::East => 6,
        Heading::South => 9,
    };
    behavior_at(first + k)
}

impl Behavior {
    /// The `k`-th of the twelve behaviors: from the right, from below, from
    /// the left, from above, and for each side up or left first.
    pub fn at(k: u64) -> (r: Behavior)
        requires
            k < 12,
        ensures
            r == behavior_at(k as int),
    {
        if k == 0 {
            Behavior::RU
        } else if k == 1 {
            Behavior::RL
        } else if k == 2 {
            Behavior::RD
        } else if k == 3 {
            Behavior::DU
        } else if k == 4 {
            Behavior::DL
        } else if k == 5 {
            Behavior::DR
        } else if k == 6 {
            Behavior::LU
        } else if k == 7 {
            Behavior::LR
        } else if k == 8 {
            Behavior::LD
        } else if k == 9 {
            Behavior::UD
        } else if k == 10 {
            Behavior::UR
        } else {
            Behavior::UL
        }
    }

    /// The `k`-th of the three behaviors that enter along `h`.
    pub fn entering(h: Heading, k: u64) -> (r: Behavior)
        requires
            k < 3,
        ensures
            r == entering_at(h, k as int),
            entry_heading_of(r) == h,
    {
        let first: u64 = match h {
            Heading::West => 0,
            Heading::North => 3,
            Heading::East => 6,
            Heading::South => 9,
        };
        Behavior::at(first + k)
    }
}

} // verus!
