//! Hallways: straight runs of cells between two rooms.
//!
//! A hallway leaves its source room through the side that its direction names
//! and runs straight ahead to the facing side of its target room. Its first
//! cell lies one unit beyond the source's boundary, its last cell one unit
//! beyond the target's.

use crate::room::Room;
use vstd::prelude::*;

verus! {

/// A direction on the grid. `Up` is towards larger `y`, `Right` towards larger
/// `x`.
#[derive(Clone, Copy, Debug, PartialEq, Eq, Structural)]
pub enum Direction {
    Up,
    Down,
    Left,
    Right,
}

/// The number of directions.
pub const DIRECTION_COUNT: u32 = 4;

impl Direction {
    /// The direction that points the other way.
    pub open spec fn reversed(self) -> Direction {
        match self {
            Direction::Up => Direction::Down,
            Direction::Down => Direction::Up,
            Direction::Left => Direction::Right,
            Direction::Right => Direction::Left,
        }
    }

    /// The direction that a drawn number stands for: 0 is `Up`, 1 `Down`,
    /// 2 `Right`, and 3 `Left`.
    pub open spec fn of_index(index: u32) -> Direction {
        if index == 0 {
            Direction::Up
        } else if index == 1 {
            Direction::Down
        } else if index == 2 {
            Direction::Right
        } else {
            Direction::Left
        }
    }

    /// The direction that points the other way.
    pub fn opposite(self) -> (other: Direction)
        ensures
            other == self.reversed(),
    {
        match self {
            Direction::Up => Direction::Down,
            Direction::Down => Direction::Up,
            Direction::Left => Direction::Right,
            Direction::Right => Direction::Left,
        }
    }

    /// The direction that one of the numbers 0 to 3 stands for.
    pub fn from_index(index: u32) -> (direction: Direction)
        requires
            index < DIRECTION_COUNT,
        ensures
            direction == Direction::of_index(index),
    {
        if index == 0 {
            Direction::Up
        } else if index == 1 {
            Direction::Down
        } else if index == 2 {
            Direction::Right
        } else {
            Direction::Left
        }
    }
}

/// A straight corridor of `length + 1` cells: from `start`, `length` steps in
/// `direction`. `source` and `target` are the places, in the floor's room
/// sequence, of the two rooms it joins.
#[derive(Clone, Copy, Debug, PartialEq, Eq)]
pub struct Hallway {
    pub start: (u32, u32),
    pub direction: Direction,
    pub length: u32,
    pub source: usize,
    pub target: usize,
}

/// The cell reached from `start` after `steps` steps in `direction`.
pub open spec fn segment_cell(start: (u32, u32), direction: Direction, steps: int) -> (int, int) {
    match direction {
        Direction::Up => (start.0 as int, start.1 + steps),
        Direction::Down => (start.0 as int, start.1 - steps),
        Direction::Left => (start.0 - steps, start.1 as int),
        Direction::Right => (start.0 + steps, start.1 as int),
    }
}

/// The cell lies in the half-open box at `pos` of extent `size`.
pub open spec fn cell_in_box(cell: (int, int), pos: (u32, u32), size: (u32, u32)) -> bool {
    &&& pos.0 <= cell.0 < pos.0 + size.0
    &&& pos.1 <= cell.1 < pos.1 + size.1
}

/// Some cell of the segment from `start`, `length` steps in `direction`, lies in
/// the box at `pos` of extent `size`.
pub open spec fn segment_meets_box(
    start: (u32, u32),
    direction: Direction,
    length: u32,
    pos: (u32, u32),
    size: (u32, u32),
) -> bool {
    exists|k: int|
        0 <= k <= length && cell_in_box(#[trigger] segment_cell(start, direction, k), pos, size)
}

/// Some cell of the segment lies in some room of `rooms`.
pub open spec fn segment_meets_rooms(
    start: (u32, u32),
    direction: Direction,
    length: u32,
    rooms: Seq<Room>,
) -> bool {
    exists|i: int|
        0 <= i < rooms.len() && segment_meets_box(
            start,
            direction,
            length,
            (#[trigger] rooms[i]).position,
            rooms[i].size,
        )
}

/// Tests whether the segment from `start`, `length` steps in `direction`, enters
/// the box at `pos` of extent `size`.
pub fn segment_hits_box(
    start: (u32, u32),
    direction: Direction,
    length: u32,
    pos: (u32, u32),
    size: (u32, u32),
) -> (hit: bool)
    ensures
        hit == segment_meets_box(start, direction, length, pos, size),
{
    let sx: u64 = start.0 as u64;
    let sy: u64 = start.1 as u64;
    let run: u64 = length as u64;
    let left: u64 = pos.0 as u64;
    let right: u64 = pos.0 as u64 + size.0 as u64;
    let bottom: u64 = pos.1 as u64;
    let top: u64 = pos.1 as u64 + size.1 as u64;
    let in_columns: bool = left <= sx && sx < right;
    let in_rows: bool = bottom <= sy && sy < top;
    let hit: bool = match direction {
        Direction::Up => in_columns && bottom < top && sy < top && bottom <= sy + run,
        Direction::Down => in_columns && bottom < top && bottom <= sy && sy < top + run,
        Direction::Right => in_rows && left < right && sx < right && left <= sx + run,
        Direction::Left => in_rows && left < right && left <= sx && sx < right + run,
    };
    proof {
        if hit {
            let k: int = match direction {
                Direction::Up => if bottom > sy { bottom - sy } else { 0 },
                Direction::Down => if sy >= top { sy - top + 1 } else { 0 },
                Direction::Right => if left > sx { left - sx } else { 0 },
                Direction::Left => if sx >= right { sx - right + 1 } else { 0 },
            };
            assert(0 <= k <= length && cell_in_box(segment_cell(start, direction, k), pos, size));
        }
    }
    hit
}

/// Whether `along` is a coordinate on the side of `room` that `direction` names:
/// a column of the room for `Up` and `Down`, a row for `Left` and `Right`.
pub open spec fn on_side(room: Room, direction: Direction, along: u32) -> bool {
    match direction {
        Direction::Up | Direction::Down => room.position.0 <= along < room.position.0
            + room.size.0,
        Direction::Left | Direction::Right => room.position.1 <= along < room.position.1
            + room.size.1,
    }
}

/// The cell one unit beyond the boundary of `room` on the side that `direction`
/// names, in column or row `along`. The boundary runs along `position` and
/// `position + size`.
pub open spec fn beyond_side(room: Room, direction: Direction, along: u32) -> (int, int) {
    match direction {
        Direction::Up => (along as int, room.position.1 + room.size.1 + 1),
        Direction::Down => (along as int, room.position.1 - 1),
        Direction::Left => (room.position.0 - 1, along as int),
        Direction::Right => (room.position.0 + room.size.0 + 1, along as int),
    }
}

/// Whether the cell lies on a floor of dimensions `floor`.
pub open spec fn cell_on_floor(cell: (int, int), floor: (u32, u32)) -> bool {
    0 <= cell.0 < floor.0 && 0 <= cell.1 < floor.1
}

/// Where a hallway that leaves `room` in `direction`, in column or row `along`,
/// begins: `None` if `along` is not on that side of the room, or if the cell
/// beyond the side is off the floor.
pub open spec fn exit_cell(room: Room, direction: Direction, along: u32, floor: (u32, u32)) -> Option<
    (u32, u32),
> {
    let cell = beyond_side(room, direction, along);
    if on_side(room, direction, along) && cell_on_floor(cell, floor) {
        Some((cell.0 as u32, cell.1 as u32))
    } else {
        None
    }
}

/// The range of columns (for `Up` and `Down`) or rows (for `Left` and `Right`)
/// that the side of `room` named by `direction` spans, as a half-open pair.
pub open spec fn side_span(room: Room, direction: Direction) -> (u32, u32) {
    match direction {
        Direction::Up | Direction::Down => (
            room.position.0,
            (room.position.0 + room.size.0) as u32,
        ),
        Direction::Left | Direction::Right => (
            room.position.1,
            (room.position.1 + room.size.1) as u32,
        ),
    }
}

/// How many steps in `direction` lead from `from` to `to`; `None` if `to` does
/// not lie straight ahead.
pub open spec fn run_between(from: (u32, u32), direction: Direction, to: (u32, u32)) -> Option<
    u32,
> {
    match direction {
        Direction::Up => if from.0 == to.0 && from.1 <= to.1 {
            Some((to.1 - from.1) as u32)
        } else {
            None
        },
        Direction::Down => if from.0 == to.0 && to.1 <= from.1 {
            Some((from.1 - to.1) as u32)
        } else {
            None
        },
        Direction::Left => if from.1 == to.1 && to.0 <= from.0 {
            Some((from.0 - to.0) as u32)
        } else {
            None
        },
        Direction::Right => if from.1 == to.1 && from.0 <= to.0 {
            Some((to.0 - from.0) as u32)
        } else {
            None
        },
    }
}

/// Computes where a hallway that leaves `room` in `direction` begins.
pub fn exit_point(room: &Room, direction: Direction, along: u32, floor: (u32, u32)) -> (point:
    Option<(u32, u32)>)
    ensures
        point == exit_cell(*room, direction, along, floor),
{
    let x: u64 = room.position.0 as u64;
    let y: u64 = room.position.1 as u64;
    let far_x: u64 = x + room.size.0 as u64;
    let far_y: u64 = y + room.size.1 as u64;
    let spot: u64 = along as u64;
    match direction {
        Direction::Up => {
            if x <= spot && spot < far_x && spot < floor.0 as u64 && far_y + 1 < floor.1 as u64 {
                Some((along, (far_y + 1) as u32))
            } else {
                None
            }
        },
        Direction::Down => {
            if x <= spot && spot < far_x && spot < floor.0 as u64 && 1 <= y && y - 1
                < floor.1 as u64 {
                Some((along, (y - 1) as u32))
            } else {
                None
            }
        },
        Direction::Left => {
            if y <= spot && spot < far_y && spot < floor.1 as u64 && 1 <= x && x - 1
                < floor.0 as u64 {
                Some(((x - 1) as u32, along))
            } else {
                None
            }
        },
        Direction::Right => {
            if y <= spot && spot < far_y && spot < floor.1 as u64 && far_x + 1 < floor.0 as u64 {
                Some(((far_x + 1) as u32, along))
            } else {
                None
            }
        },
    }
}

/// Computes the columns or rows that one side of `room` spans.
pub fn side_range(room: &Room, direction: Direction) -> (span: (u32, u32))
    requires
        room.position.0 + room.size.0 <= u32::MAX,
        room.position.1 + room.size.1 <= u32::MAX,
    ensures
        span == side_span(*room, direction),
{
    match direction {
        Direction::Up | Direction::Down => (room.position.0, room.position.0 + room.size.0),
        Direction::Left | Direction::Right => (room.position.1, room.position.1 + room.size.1),
    }
}

/// Computes how many steps in `direction` lead from `from` to `to`.
pub fn straight_run(from: (u32, u32), direction: Direction, to: (u32, u32)) -> (run: Option<u32>)
    ensures
        run == run_between(from, direction, to),
{
    match direction {
        Direction::Up => if from.0 == to.0 && from.1 <= to.1 {
            Some(to.1 - from.1)
        } else {
            None
        },
        Direction::Down => if from.0 == to.0 && to.1 <= from.1 {
            Some(from.1 - to.1)
        } else {
            None
        },
        Direction::Left => if from.1 == to.1 && to.0 <= from.0 {
            Some(from.0 - to.0)
        } else {
            None
        },
        Direction::Right => if from.1 == to.1 && from.0 <= to.0 {
            Some(to.0 - from.0)
        } else {
            None
        },
    }
}

/// `run_between` gives exactly the number of steps after which the segment from
/// `from` stands on `to`.
pub proof fn lemma_run_reaches(from: (u32, u32), direction: Direction, to: (u32, u32), steps: int)
    ensures
        (steps >= 0 && segment_cell(from, direction, steps) == (to.0 as int, to.1 as int)) <==> (
        run_between(from, direction, to) matches Some(run) && run == steps),
{
}

} // verus!
