//! Placing rooms by rejection sampling.
//!
//! For each room asked for, a width and a height are drawn, then positions are
//! drawn until one keeps the room clear of those already placed. A room for
//! which `MAX_TRIES` positions in a row fail is left out.

use crate::config::{ConfigError, FloorConfig, MAX_TRIES};
use crate::floor::Floor;
use crate::random::{drawn_state, drawn_value, RandomSource};
use crate::room::{crowded, rooms_apart, rooms_fresh, rooms_within, Room};
use vstd::prelude::*;

verus! {

/// How one room fared.
#[derive(Clone, Copy, Debug, PartialEq, Eq)]
pub enum Placement {
    /// A position was found; the room stands there.
    Placed(Room),
    /// Every try came too close to a room already placed.
    GaveUp,
}

impl Placement {
    /// The room that was placed, if one was.
    pub open spec fn room(self) -> Option<Room> {
        match self {
            Placement::Placed(room) => Some(room),
            Placement::GaveUp => None,
        }
    }
}

/// The number of positions along one axis that a room of extent `room_dim` may
/// take on a floor of extent `floor_dim`: those that leave `padding` cells
/// between the room and the far edge, or the single position 0 where the room
/// and its clearance fill the axis.
pub open spec fn position_span(floor_dim: u32, room_dim: u32, padding: u32) -> u32 {
    if floor_dim - room_dim - padding > 0 {
        (floor_dim - room_dim - padding) as u32
    } else {
        1
    }
}

/// The room and its clearance fit a floor of dimensions `floor` along both
/// axes.
pub open spec fn fits(size: (u32, u32), floor: (u32, u32), padding: u32) -> bool {
    &&& size.0 > 0
    &&& size.1 > 0
    &&& size.0 + padding <= floor.0
    &&& size.1 + padding <= floor.1
}

/// The position that is tried in state `state` for a room of extent `size`,
/// and the state after the two draws: first `x`, then `y`.
pub open spec fn candidate(config: FloorConfig, size: (u32, u32), state: u64) -> ((u32, u32), u64) {
    let span_x = position_span(config.floor_dimensions.0, size.0, config.padding);
    let span_y = position_span(config.floor_dimensions.1, size.1, config.padding);
    let x = drawn_value(state, 0, span_x);
    let after_x = drawn_state(state, 0, span_x);
    let y = drawn_value(after_x, 0, span_y);
    ((x, y), drawn_state(after_x, 0, span_y))
}

/// What becomes of a room of extent `size` for which `tries` positions may
/// still be tried: the room at the first candidate that is clear of `rooms`, or
/// nothing; and the state after the last draw.
pub open spec fn room_outcome(
    rooms: Seq<Room>,
    size: (u32, u32),
    config: FloorConfig,
    state: u64,
    tries: nat,
) -> (Option<Room>, u64)
    decreases tries,
{
    if tries == 0 {
        (None, state)
    } else {
        let (position, next) = candidate(config, size, state);
        if !crowded(rooms, position, size, config.padding) {
            (Some(Room { position, size, connection_count: 0 }), next)
        } else {
            room_outcome(rooms, size, config, next, (tries - 1) as nat)
        }
    }
}

/// The rooms that stand after `remaining` more rooms were asked for, beside
/// those of `rooms`, and the state after the last draw. For each room the width
/// is drawn first, then the height.
pub open spec fn rooms_outcome(rooms: Seq<Room>, config: FloorConfig, state: u64, remaining: nat) -> (
    Seq<Room>,
    u64,
)
    decreases remaining,
{
    if remaining == 0 {
        (rooms, state)
    } else {
        let low = config.room_dims_range.start;
        let high = config.room_dims_range.end;
        let width = drawn_value(state, low, high);
        let after_width = drawn_state(state, low, high);
        let height = drawn_value(after_width, low, high);
        let after_height = drawn_state(after_width, low, high);
        let (placed, next) = room_outcome(
            rooms,
            (width, height),
            config,
            after_height,
            MAX_TRIES as nat,
        );
        let grown = match placed {
            Some(room) => rooms.push(room),
            None => rooms,
        };
        rooms_outcome(grown, config, next, (remaining - 1) as nat)
    }
}

/// How many rooms are asked for when placement starts in state `state`.
pub open spec fn requested_count(config: FloorConfig, state: u64) -> u32 {
    drawn_value(state, config.room_count_range.start, config.room_count_range.end)
}

/// The rooms that placement yields from state `state`, and the state it ends
/// in: the count is drawn, then the rooms are placed one by one.
pub open spec fn placement_outcome(config: FloorConfig, state: u64) -> (Seq<Room>, u64) {
    rooms_outcome(
        Seq::empty(),
        config,
        drawn_state(state, config.room_count_range.start, config.room_count_range.end),
        requested_count(config, state) as nat,
    )
}

/// Where placement may put a room, whatever was drawn: its sides come from the
/// configured range, and its corner is one of the positions that `position_span`
/// counts along each axis.
pub open spec fn room_sited(room: Room, config: FloorConfig) -> bool {
    &&& config.room_dims_range.start <= room.size.0 < config.room_dims_range.end
    &&& config.room_dims_range.start <= room.size.1 < config.room_dims_range.end
    &&& room.position.0 < position_span(
        config.floor_dimensions.0,
        room.size.0,
        config.padding,
    )
    &&& room.position.1 < position_span(
        config.floor_dimensions.1,
        room.size.1,
        config.padding,
    )
}

/// Every room is where placement may put it.
pub open spec fn rooms_sited(rooms: Seq<Room>, config: FloorConfig) -> bool {
    forall|i: int| 0 <= i < rooms.len() ==> room_sited(#[trigger] rooms[i], config)
}

/// A room that is where placement may put it leaves `padding` cells free
/// before the far edges of the floor, and so lies on the floor.
pub proof fn lemma_sited_within(room: Room, config: FloorConfig)
    requires
        config.valid(),
        room_sited(room, config),
    ensures
        room.position.0 + room.size.0 + config.padding <= config.floor_dimensions.0,
        room.position.1 + room.size.1 + config.padding <= config.floor_dimensions.1,
        room.within(config.floor_dimensions),
{
}

/// Computes the number of positions along one axis that a room may take.
pub fn position_limit(floor_dim: u32, room_dim: u32, padding: u32) -> (limit: u32)
    ensures
        limit == position_span(floor_dim, room_dim, padding),
        limit >= 1,
{
    let taken: u64 = room_dim as u64 + padding as u64;
    if (floor_dim as u64) > taken {
        ((floor_dim as u64) - taken) as u32
    } else {
        1
    }
}

/// Tries up to `MAX_TRIES` positions for a room of extent `size` and places it
/// at the first that keeps it clear of `rooms`.
pub fn place_room(
    rooms: &Vec<Room>,
    size: (u32, u32),
    config: &FloorConfig,
    rng: &mut RandomSource,
) -> (placement: Placement)
    requires
        fits(size, config.floor_dimensions, config.padding),
    ensures
        placement.room() == room_outcome(rooms@, size, *config, old(rng)@, MAX_TRIES as nat).0,
        final(rng)@ == room_outcome(rooms@, size, *config, old(rng)@, MAX_TRIES as nat).1,
        placement matches Placement::Placed(room) ==> {
            &&& room.size == size
            &&& room.connection_count == 0
            &&& room.position.0 < position_span(config.floor_dimensions.0, size.0, config.padding)
            &&& room.position.1 < position_span(config.floor_dimensions.1, size.1, config.padding)
            &&& room.within(config.floor_dimensions)
            &&& !crowded(rooms@, room.position, size, config.padding)
        },
        rooms@.len() == 0 ==> placement is Placed,
{
    let ghost start: u64 = rng@;
    let span_x: u32 = position_limit(config.floor_dimensions.0, size.0, config.padding);
    let span_y: u32 = position_limit(config.floor_dimensions.1, size.1, config.padding);
    let mut tries: u32 = 0;
    while tries < MAX_TRIES
        invariant
            tries <= MAX_TRIES,
            start == old(rng)@,
            fits(size, config.floor_dimensions, config.padding),
            span_x == position_span(config.floor_dimensions.0, size.0, config.padding),
            span_y == position_span(config.floor_dimensions.1, size.1, config.padding),
            room_outcome(rooms@, size, *config, rng@, (MAX_TRIES - tries) as nat) == room_outcome(
                rooms@,
                size,
                *config,
                start,
                MAX_TRIES as nat,
            ),
            rooms@.len() == 0 ==> tries == 0,
        decreases MAX_TRIES - tries,
    {
        let x: u32 = rng.next_in(0, span_x);
        let y: u32 = rng.next_in(0, span_y);
        if !Floor::room_intersects_room((x, y), size, rooms, config.padding) {
            return Placement::Placed(Room::new((x, y), size));
        }
        tries += 1;
    }
    Placement::GaveUp
}

/// Draws how many rooms to place, then places them one after another. Returns
/// the rooms that found a place, in the order of their placement, and the number
/// of rooms that was asked for.
///
/// A configuration that `validate` refuses is refused here too, before anything
/// is drawn.
pub fn place_rooms(config: &FloorConfig, rng: &mut RandomSource) -> (outcome: Result<
    (Vec<Room>, u32),
    ConfigError,
>)
    ensures
        outcome is Ok <==> config.valid(),
        outcome matches Err(e) ==> config.fault() == Some(e) && final(rng)@ == old(rng)@,
        outcome matches Ok((rooms, requested)) ==> {
            &&& rooms@ == placement_outcome(*config, old(rng)@).0
            &&& final(rng)@ == placement_outcome(*config, old(rng)@).1
            &&& requested == requested_count(*config, old(rng)@)
            &&& config.room_count_range.start <= requested < config.room_count_range.end
            &&& rooms@.len() <= requested
            &&& requested > 0 ==> rooms@.len() > 0
            &&& rooms_apart(rooms@, config.padding)
            &&& rooms_sited(rooms@, *config)
            &&& rooms_within(rooms@, config.floor_dimensions)
            &&& rooms_fresh(rooms@)
        },
{
    match config.validate() {
        Err(e) => {
            return Err(e);
        },
        Ok(()) => {},
    }
    let requested: u32 = rng.next_in(config.room_count_range.start, config.room_count_range.end);
    let ghost first: u64 = rng@;
    let mut rooms: Vec<Room> = Vec::new();
    let mut asked: u32 = 0;
    while asked < requested
        invariant
            asked <= requested,
            config.valid(),
            rooms@.len() <= asked,
            asked > 0 ==> rooms@.len() > 0,
            rooms_apart(rooms@, config.padding),
            rooms_sited(rooms@, *config),
            rooms_within(rooms@, config.floor_dimensions),
            rooms_fresh(rooms@),
            rooms_outcome(rooms@, *config, rng@, (requested - asked) as nat) == rooms_outcome(
                Seq::empty(),
                *config,
                first,
                requested as nat,
            ),
        decreases requested - asked,
    {
        let width: u32 = rng.next_in(config.room_dims_range.start, config.room_dims_range.end);
        let height: u32 = rng.next_in(config.room_dims_range.start, config.room_dims_range.end);
        match place_room(&rooms, (width, height), config, rng) {
            Placement::Placed(room) => {
                rooms.push(room);
            },
            Placement::GaveUp => {},
        }
        asked += 1;
    }
    Ok((rooms, requested))
}

} // verus!
