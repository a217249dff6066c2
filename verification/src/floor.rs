//! The floor: its rooms and hallways, and the queries on them.

use crate::config::{ConfigError, FloorConfig, PADDING};
use crate::connect::{connect_rooms, connected, connection_outcome, layout_of};
use crate::geometry::aabb_overlaps;
use crate::hallway::{segment_hits_box, segment_meets_rooms, Direction, Hallway};
use crate::placer::{place_rooms, placement_outcome, requested_count, room_sited, rooms_sited};
use crate::random::RandomSource;
use crate::room::{covered, crowded, lemma_apart_same_places, rooms_apart, rooms_within, Room};
use std::ops::Range;
use vstd::prelude::*;

verus! {

/// A generated floor. It is made by generation only and does not change
/// afterwards.
#[derive(Debug, PartialEq, Eq)]
pub struct Floor {
    rooms: Vec<Room>,
    hallways: Vec<Hallway>,
    dimensions: (u32, u32),
    padding: u32,
    requested_rooms: u32,
}

/// What a floor holds, as plain values.
pub struct FloorView {
    /// The rooms, in the order in which they were placed.
    pub rooms: Seq<Room>,
    /// The hallways, in the order in which they were attached.
    pub hallways: Seq<Hallway>,
    /// Width and height of the floor.
    pub dimensions: (u32, u32),
    /// The clearance between rooms that the floor was generated with.
    pub padding: u32,
    /// How many rooms were asked for; those that found no place are missing
    /// from `rooms`.
    pub requested_rooms: u32,
}

impl FloorView {
    /// What holds of every generated floor: each room has an extent and lies on
    /// the floor; any two rooms are at least `padding` cells apart; every
    /// hallway joins two different rooms, lies on the floor and enters no room;
    /// each room counts exactly the hallways that begin or end at it; and no
    /// more rooms stand than were asked for, but one at least if any was.
    pub open spec fn wf(self) -> bool {
        &&& rooms_within(self.rooms, self.dimensions)
        &&& rooms_apart(self.rooms, self.padding)
        &&& connected(layout_of(self.rooms, self.hallways), self.dimensions)
        &&& self.rooms.len() <= self.requested_rooms
        &&& self.requested_rooms > 0 ==> self.rooms.len() > 0
    }
}

/// The floor that `config` and `seed` stand for. The random source starts in
/// state `seed`; the rooms are placed first, then the hallways are attached.
pub open spec fn generated(config: FloorConfig, seed: u64) -> FloorView {
    let (rooms, state) = placement_outcome(config, seed);
    let layout = connection_outcome(rooms, config.floor_dimensions, state).0;
    FloorView {
        rooms: layout.rooms,
        hallways: layout.hallways,
        dimensions: config.floor_dimensions,
        padding: config.padding,
        requested_rooms: requested_count(config, seed),
    }
}

/// The configuration that `gen_floor` generates from: the given dimensions and
/// ranges, with the clearance `PADDING`.
pub open spec fn padded_config(
    floor_dims: (u32, u32),
    room_count_range: Range<u32>,
    room_dims_range: Range<u32>,
) -> FloorConfig {
    FloorConfig {
        floor_dimensions: floor_dims,
        room_count_range,
        room_dims_range,
        padding: PADDING,
    }
}

impl View for Floor {
    type V = FloorView;

    closed spec fn view(&self) -> FloorView {
        FloorView {
            rooms: self.rooms@,
            hallways: self.hallways@,
            dimensions: self.dimensions,
            padding: self.padding,
            requested_rooms: self.requested_rooms,
        }
    }
}

impl Floor {
    /// Every floor is well formed, from the moment it is made.
    #[verifier::type_invariant]
    spec fn sound(&self) -> bool {
        self@.wf()
    }

    /// What holds of every floor; see `FloorView::wf`.
    pub open spec fn wf(&self) -> bool {
        self@.wf()
    }

    /// Generates the floor that `config` and `seed` stand for: equal arguments
    /// give equal floors. A configuration that `FloorConfig::validate` refuses is
    /// refused here with the same error, before anything is drawn.
    pub fn generate(config: &FloorConfig, seed: u64) -> (outcome: Result<Floor, ConfigError>)
        ensures
            outcome is Ok <==> config.valid(),
            outcome matches Err(e) ==> config.fault() == Some(e),
            outcome matches Ok(floor) ==> {
                &&& floor@ == generated(*config, seed)
                &&& floor.wf()
                &&& rooms_sited(floor@.rooms, *config)
                &&& config.room_count_range.start <= floor@.requested_rooms
                    < config.room_count_range.end
                &&& floor@.rooms.len() < config.room_count_range.end
            },
    {
        let mut rng: RandomSource = RandomSource::new(seed);
        let (mut rooms, requested): (Vec<Room>, u32) = match place_rooms(config, &mut rng) {
            Ok(placed) => placed,
            Err(e) => {
                return Err(e);
            },
        };
        let ghost placed: Seq<Room> = rooms@;
        let hallways: Vec<Hallway> = connect_rooms(&mut rooms, config.floor_dimensions, &mut rng);
        proof {
            lemma_apart_same_places(placed, rooms@, config.padding);
            assert forall|i: int| 0 <= i < rooms@.len() implies room_sited(
                #[trigger] rooms@[i],
                *config,
            ) by {
                assert(placed[i].same_place(rooms@[i]));
            }
        }
        Ok(
            Floor {
                rooms,
                hallways,
                dimensions: config.floor_dimensions,
                padding: config.padding,
                requested_rooms: requested,
            },
        )
    }

    /// Generates a floor of dimensions `floor_dims` whose rooms keep `PADDING`
    /// cells apart; see `generate`.
    pub fn gen_floor(
        floor_dims: (u32, u32),
        room_count_range: Range<u32>,
        room_dims_range: Range<u32>,
        seed: u64,
    ) -> (outcome: Result<Floor, ConfigError>)
        ensures
            outcome is Ok <==> padded_config(floor_dims, room_count_range, room_dims_range).valid(),
            outcome matches Err(e) ==> padded_config(
                floor_dims,
                room_count_range,
                room_dims_range,
            ).fault() == Some(e),
            outcome matches Ok(floor) ==> {
                &&& floor@ == generated(
                    padded_config(floor_dims, room_count_range, room_dims_range),
                    seed,
                )
                &&& floor.wf()
                &&& rooms_sited(
                    floor@.rooms,
                    padded_config(floor_dims, room_count_range, room_dims_range),
                )
                &&& room_count_range.start <= floor@.requested_rooms < room_count_range.end
                &&& floor@.rooms.len() < room_count_range.end
            },
    {
        let config: FloorConfig = FloorConfig {
            floor_dimensions: floor_dims,
            room_count_range,
            room_dims_range,
            padding: PADDING,
        };
        Floor::generate(&config, seed)
    }

    /// Tests whether a room at `room_loc` of extent `room_dims` would come
    /// closer than `padding` cells to one of `rooms`.
    pub fn room_intersects_room(
        room_loc: (u32, u32),
        room_dims: (u32, u32),
        rooms: &Vec<Room>,
        padding: u32,
    ) -> (hit: bool)
        ensures
            hit == crowded(rooms@, room_loc, room_dims, padding),
    {
        let mut i: usize = 0;
        while i < rooms.len()
            invariant
                i <= rooms.len(),
                forall|j: int|
                    0 <= j < i ==> !crate::geometry::boxes_overlap(
                        room_loc,
                        room_dims,
                        (#[trigger] rooms@[j]).position,
                        rooms@[j].size,
                        padding,
                    ),
            decreases rooms.len() - i,
        {
            let other: &Room = &rooms[i];
            if aabb_overlaps(room_loc, room_dims, other.position, other.size, padding) {
                return true;
            }
            i += 1;
        }
        false
    }

    /// Tests whether `location` belongs to one of the floor's rooms.
    pub fn point_in_room(&self, location: (u32, u32)) -> (inside: bool)
        ensures
            inside == covered(self@.rooms, location),
    {
        let mut i: usize = 0;
        while i < self.rooms.len()
            invariant
                i <= self.rooms.len(),
                forall|j: int| 0 <= j < i ==> !(#[trigger] self.rooms@[j]).covers(location),
            decreases self.rooms.len() - i,
        {
            if self.rooms[i].contains(location) {
                return true;
            }
            i += 1;
        }
        false
    }

    /// Tests whether the segment from `starting_point`, `length` steps in
    /// `direction`, enters one of `rooms`.
    pub fn hallway_intersects_room(
        starting_point: (u32, u32),
        direction: Direction,
        length: u32,
        rooms: &Vec<Room>,
    ) -> (hit: bool)
        ensures
            hit == segment_meets_rooms(starting_point, direction, length, rooms@),
    {
        let mut i: usize = 0;
        while i < rooms.len()
            invariant
                i <= rooms.len(),
                forall|j: int|
                    0 <= j < i ==> !crate::hallway::segment_meets_box(
                        starting_point,
                        direction,
                        length,
                        (#[trigger] rooms@[j]).position,
                        rooms@[j].size,
                    ),
            decreases rooms.len() - i,
        {
            let room: &Room = &rooms[i];
            if segment_hits_box(starting_point, direction, length, room.position, room.size) {
                return true;
            }
            i += 1;
        }
        false
    }

    /// The rooms, in the order in which they were placed.
    pub fn rooms(&self) -> (rooms: &Vec<Room>)
        ensures
            rooms@ == self@.rooms,
            self.wf(),
    {
        proof {
            use_type_invariant(self);
        }
        &self.rooms
    }

    /// The hallways, in the order in which they were attached.
    pub fn hallways(&self) -> (hallways: &Vec<Hallway>)
        ensures
            hallways@ == self@.hallways,
            self.wf(),
    {
        proof {
            use_type_invariant(self);
        }
        &self.hallways
    }

    /// Width and height of the floor.
    pub fn dimensions(&self) -> (dimensions: (u32, u32))
        ensures
            dimensions == self@.dimensions,
    {
        self.dimensions
    }

    /// The clearance between rooms that the floor was generated with.
    pub fn padding(&self) -> (padding: u32)
        ensures
            padding == self@.padding,
    {
        self.padding
    }

    /// How many rooms were asked for. Where this exceeds the number of rooms,
    /// some found no place and were left out.
    pub fn requested_rooms(&self) -> (count: u32)
        ensures
            count == self@.requested_rooms,
    {
        self.requested_rooms
    }
}

} // verus!
