//! A picture of a floor in text: one row of characters for each `y`, row 0
//! first, with a blank for every cell of a room and `O` for every other cell.

use crate::floor::Floor;
use crate::room::{covered, Room};
use vstd::prelude::*;

verus! {

/// The character that stands for a cell of a room.
pub const ROOM_GLYPH: char = ' ';

/// The character that stands for a cell outside every room.
pub const ROCK_GLYPH: char = 'O';

/// The character that stands for the cell at `(x, y)`.
pub open spec fn glyph(rooms: Seq<Room>, x: u32, y: u32) -> char {
    if covered(rooms, (x, y)) {
        ROOM_GLYPH
    } else {
        ROCK_GLYPH
    }
}

/// The row of characters for the cells with the given `y`, in the order of
/// their `x`.
pub fn render_row(floor: &Floor, y: u32) -> (row: Vec<char>)
    ensures
        row@.len() == floor@.dimensions.0,
        forall|x: int| 0 <= x < row@.len() ==> #[trigger] row@[x] == glyph(floor@.rooms, x as u32, y),
{
    let width: u32 = floor.dimensions().0;
    let mut row: Vec<char> = Vec::new();
    let mut x: u32 = 0;
    while x < width
        invariant
            x <= width,
            width == floor@.dimensions.0,
            row@.len() == x,
            forall|i: int| 0 <= i < row@.len() ==> #[trigger] row@[i] == glyph(floor@.rooms, i as u32, y),
        decreases width - x,
    {
        if floor.point_in_room((x, y)) {
            row.push(ROOM_GLYPH);
        } else {
            row.push(ROCK_GLYPH);
        }
        x += 1;
    }
    row
}

/// The rows of the whole floor, the row of `y = 0` first.
pub fn render(floor: &Floor) -> (rows: Vec<Vec<char>>)
    ensures
        rows@.len() == floor@.dimensions.1,
        forall|y: int|
            0 <= y < rows@.len() ==> (#[trigger] rows@[y])@.len() == floor@.dimensions.0,
        forall|y: int, x: int|
            0 <= y < rows@.len() && 0 <= x < floor@.dimensions.0 ==> #[trigger] rows@[y]@[x]
                == glyph(floor@.rooms, x as u32, y as u32),
{
    let height: u32 = floor.dimensions().1;
    let mut rows: Vec<Vec<char>> = Vec::new();
    let mut y: u32 = 0;
    while y < height
        invariant
            y <= height,
            height == floor@.dimensions.1,
            rows@.len() == y,
            forall|j: int|
                0 <= j < rows@.len() ==> (#[trigger] rows@[j])@.len() == floor@.dimensions.0,
            forall|j: int, x: int|
                0 <= j < rows@.len() && 0 <= x < floor@.dimensions.0 ==> #[trigger] rows@[j]@[x]
                    == glyph(floor@.rooms, x as u32, j as u32),
        decreases height - y,
    {
        let row: Vec<char> = render_row(floor, y);
        rows.push(row);
        y += 1;
    }
    rows
}

} // verus!
