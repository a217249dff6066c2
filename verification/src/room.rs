//! Rooms, and what is asked of a set of rooms on one floor.

use crate::geometry::{box_contains, boxes_overlap, point_in_box};
use vstd::prelude::*;

verus! {

/// A rectangular room.
#[derive(Clone, Copy, Debug, PartialEq, Eq)]
pub struct Room {
    /// The bottom-left corner.
    pub position: (u32, u32),
    /// Width and height.
    pub size: (u32, u32),
    /// How many hallways are attached to the room.
    pub connection_count: u64,
}

impl Room {
    /// The room has an extent and lies wholly on a floor of dimensions `floor`.
    pub open spec fn within(&self, floor: (u32, u32)) -> bool {
        &&& self.size.0 > 0
        &&& self.size.1 > 0
        &&& self.position.0 + self.size.0 <= floor.0
        &&& self.position.1 + self.size.1 <= floor.1
    }

    /// The cell `point` belongs to the room.
    pub open spec fn covers(&self, point: (u32, u32)) -> bool {
        box_contains(point, self.position, self.size)
    }

    /// The room is closer than `padding` cells to `other`.
    pub open spec fn crowds(&self, other: Room, padding: u32) -> bool {
        boxes_overlap(self.position, self.size, other.position, other.size, padding)
    }

    /// The same room as far as its place on the floor goes.
    pub open spec fn same_place(&self, other: Room) -> bool {
        self.position == other.position && self.size == other.size
    }

    /// A room to which no hallway is attached yet.
    pub fn new(position: (u32, u32), size: (u32, u32)) -> (room: Room)
        ensures
            room.position == position,
            room.size == size,
            room.connection_count == 0,
    {
        Room { position, size, connection_count: 0 }
    }

    /// Whether the cell `point` belongs to the room.
    pub fn contains(&self, point: (u32, u32)) -> (inside: bool)
        ensures
            inside == self.covers(point),
    {
        point_in_box(point, self.position, self.size)
    }
}

/// Some room of `rooms` is closer than `padding` cells to the box at `pos` of
/// extent `size`.
pub open spec fn crowded(
    rooms: Seq<Room>,
    pos: (u32, u32),
    size: (u32, u32),
    padding: u32,
) -> bool {
    exists|i: int|
        0 <= i < rooms.len() && boxes_overlap(
            pos,
            size,
            (#[trigger] rooms[i]).position,
            rooms[i].size,
            padding,
        )
}

/// Some room of `rooms` holds the cell `point`.
pub open spec fn covered(rooms: Seq<Room>, point: (u32, u32)) -> bool {
    exists|i: int| 0 <= i < rooms.len() && (#[trigger] rooms[i]).covers(point)
}

/// Every room has an extent and lies wholly on the floor.
pub open spec fn rooms_within(rooms: Seq<Room>, floor: (u32, u32)) -> bool {
    forall|i: int| 0 <= i < rooms.len() ==> (#[trigger] rooms[i]).within(floor)
}

/// Any two rooms are at least `padding` cells apart.
pub open spec fn rooms_apart(rooms: Seq<Room>, padding: u32) -> bool {
    forall|i: int, j: int|
        0 <= i < rooms.len() && 0 <= j < rooms.len() && i != j ==> !(#[trigger] rooms[i]).crowds(
            #[trigger] rooms[j],
            padding,
        )
}

/// No room counts a hallway yet.
pub open spec fn rooms_fresh(rooms: Seq<Room>) -> bool {
    forall|i: int| 0 <= i < rooms.len() ==> (#[trigger] rooms[i]).connection_count == 0
}

/// The two sequences hold the same rooms in the same places; only the
/// connection counts may differ.
pub open spec fn same_places(a: Seq<Room>, b: Seq<Room>) -> bool {
    &&& a.len() == b.len()
    &&& forall|i: int| 0 <= i < a.len() ==> (#[trigger] a[i]).same_place(b[i])
}

/// Rooms that are apart stay apart when only connection counts change.
pub proof fn lemma_apart_same_places(a: Seq<Room>, b: Seq<Room>, padding: u32)
    requires
        same_places(a, b),
        rooms_apart(a, padding),
    ensures
        rooms_apart(b, padding),
{
    assert forall|i: int, j: int| 0 <= i < b.len() && 0 <= j < b.len() && i != j implies !(
    #[trigger] b[i]).crowds(#[trigger] b[j], padding) by {
        assert(a[i].same_place(b[i]));
        assert(a[j].same_place(b[j]));
        assert(!a[i].crowds(a[j], padding));
    }
}

} // verus!
