//! Attaching hallways to rooms.
//!
//! Each room in turn makes up to three attempts. An attempt draws a target
//! room, a direction in which to leave the source, a side on which to reach the
//! target, and a column or row on each of the two sides. The hallway is attached
//! if the draws describe a straight run between two different rooms that enters
//! no room; otherwise the attempt is dropped and leaves no trace.

use crate::floor::Floor;
use crate::hallway::{
    cell_on_floor, exit_cell, exit_point, run_between, segment_cell, segment_meets_box,
    segment_meets_rooms, side_range, side_span, straight_run, Direction, Hallway,
    DIRECTION_COUNT,
};
use crate::random::{drawn_state, drawn_value, RandomSource};
use crate::room::{rooms_fresh, rooms_within, same_places, Room};
use vstd::prelude::*;

verus! {

/// Some cell of the segment lies in a room of `rooms` other than the two in
/// places `source` and `target`.
pub open spec fn segment_meets_others(
    start: (u32, u32),
    direction: Direction,
    length: u32,
    rooms: Seq<Room>,
    source: usize,
    target: usize,
) -> bool {
    exists|i: int|
        0 <= i < rooms.len() && i != source && i != target && segment_meets_box(
            start,
            direction,
            length,
            (#[trigger] rooms[i]).position,
            rooms[i].size,
        )
}

/// The hallway that the drawn values describe, if they describe one.
///
/// They do when `source` and `target` are two different rooms, the side on which
/// the target is reached faces the direction of travel (`end_dir` is the
/// reverse of `start_dir`), both end cells exist on the floor, the second lies
/// straight ahead of the first, and the run between them enters no third room.
/// Any other combination of draws describes no hallway.
pub open spec fn planned_hallway(
    rooms: Seq<Room>,
    floor: (u32, u32),
    source: usize,
    target: usize,
    start_dir: Direction,
    end_dir: Direction,
    start_along: u32,
    end_along: u32,
) -> Option<Hallway> {
    if source < rooms.len() && target < rooms.len() && source != target && end_dir
        == start_dir.reversed() {
        match (
            exit_cell(rooms[source as int], start_dir, start_along, floor),
            exit_cell(rooms[target as int], end_dir, end_along, floor),
        ) {
            (Some(start), Some(end)) => match run_between(start, start_dir, end) {
                Some(length) => if !segment_meets_others(
                    start,
                    start_dir,
                    length,
                    rooms,
                    source,
                    target,
                ) {
                    Some(Hallway { start, direction: start_dir, length, source, target })
                } else {
                    None
                },
                None => None,
            },
            _ => None,
        }
    } else {
        None
    }
}

/// Decides whether the drawn values describe a hallway, and builds it.
pub fn plan_hallway(
    rooms: &Vec<Room>,
    floor: (u32, u32),
    source: usize,
    target: usize,
    start_dir: Direction,
    end_dir: Direction,
    start_along: u32,
    end_along: u32,
) -> (plan: Option<Hallway>)
    ensures
        plan == planned_hallway(
            rooms@,
            floor,
            source,
            target,
            start_dir,
            end_dir,
            start_along,
            end_along,
        ),
{
    if source >= rooms.len() || target >= rooms.len() || source == target {
        return None;
    }
    if end_dir != start_dir.opposite() {
        return None;
    }
    let start: (u32, u32) = match exit_point(&rooms[source], start_dir, start_along, floor) {
        Some(cell) => cell,
        None => {
            return None;
        },
    };
    let end: (u32, u32) = match exit_point(&rooms[target], end_dir, end_along, floor) {
        Some(cell) => cell,
        None => {
            return None;
        },
    };
    let length: u32 = match straight_run(start, start_dir, end) {
        Some(run) => run,
        None => {
            return None;
        },
    };
    proof {
        lemma_others_are_all(
            rooms@,
            floor,
            source,
            target,
            start_dir,
            start_along,
            end_along,
            start,
            end,
            length,
        );
    }
    if Floor::hallway_intersects_room(start, start_dir, length, rooms) {
        return None;
    }
    Some(Hallway { start, direction: start_dir, length, source, target })
}

/// A straight run from beside one room to beside another enters neither of the
/// two: it begins beyond the side through which it leaves the first, and ends
/// before the side on which it reaches the second.
pub proof fn lemma_run_clears_endpoints(
    source: Room,
    target: Room,
    floor: (u32, u32),
    direction: Direction,
    start_along: u32,
    end_along: u32,
    start: (u32, u32),
    end: (u32, u32),
    length: u32,
)
    requires
        exit_cell(source, direction, start_along, floor) == Some(start),
        exit_cell(target, direction.reversed(), end_along, floor) == Some(end),
        run_between(start, direction, end) == Some(length),
    ensures
        !segment_meets_box(start, direction, length, source.position, source.size),
        !segment_meets_box(start, direction, length, target.position, target.size),
{
}

/// For a straight run between two rooms, to enter no third room is to enter no
/// room at all.
pub proof fn lemma_others_are_all(
    rooms: Seq<Room>,
    floor: (u32, u32),
    source: usize,
    target: usize,
    direction: Direction,
    start_along: u32,
    end_along: u32,
    start: (u32, u32),
    end: (u32, u32),
    length: u32,
)
    requires
        source < rooms.len(),
        target < rooms.len(),
        exit_cell(rooms[source as int], direction, start_along, floor) == Some(start),
        exit_cell(rooms[target as int], direction.reversed(), end_along, floor) == Some(end),
        run_between(start, direction, end) == Some(length),
    ensures
        segment_meets_others(start, direction, length, rooms, source, target)
            == segment_meets_rooms(start, direction, length, rooms),
{
    lemma_run_clears_endpoints(
        rooms[source as int],
        rooms[target as int],
        floor,
        direction,
        start_along,
        end_along,
        start,
        end,
        length,
    );
}

/// The rooms and hallways of a floor while hallways are being attached.
pub struct Layout {
    pub rooms: Seq<Room>,
    pub hallways: Seq<Hallway>,
}

/// The layout made of `rooms` and `hallways`.
pub open spec fn layout_of(rooms: Seq<Room>, hallways: Seq<Hallway>) -> Layout {
    Layout { rooms, hallways }
}

/// The room with one more hallway attached.
pub open spec fn bumped(room: Room) -> Room {
    Room { connection_count: (room.connection_count + 1) as u64, ..room }
}

/// The layout after `hallway` was attached: it is the last of the hallways, and
/// its two rooms each count one connection more.
pub open spec fn attach(layout: Layout, hallway: Hallway) -> Layout {
    let source = hallway.source as int;
    let target = hallway.target as int;
    Layout {
        rooms: layout.rooms.update(source, bumped(layout.rooms[source])).update(
            target,
            bumped(layout.rooms[target]),
        ),
        hallways: layout.hallways.push(hallway),
    }
}

/// How many of `hallways` begin or end at the room in place `room`.
pub open spec fn attached(hallways: Seq<Hallway>, room: int) -> nat
    decreases hallways.len(),
{
    if hallways.len() == 0 {
        0
    } else {
        let last = hallways.last();
        let rest = attached(hallways.drop_last(), room);
        if last.source == room || last.target == room {
            rest + 1
        } else {
            rest
        }
    }
}

/// The last cell of the hallway.
pub open spec fn hallway_end(hallway: Hallway) -> (int, int) {
    segment_cell(hallway.start, hallway.direction, hallway.length as int)
}

/// The column of a cell, for a hallway that runs up or down; its row, for one
/// that runs left or right.
pub open spec fn along_of(cell: (int, int), direction: Direction) -> int {
    match direction {
        Direction::Up | Direction::Down => cell.0,
        Direction::Left | Direction::Right => cell.1,
    }
}

/// The hallway joins two different rooms of `rooms`: it begins one unit beyond
/// the side of its source that its direction names, ends one unit beyond the
/// facing side of its target, lies on the floor, and enters no room.
pub open spec fn hallway_sound(hallway: Hallway, rooms: Seq<Room>, floor: (u32, u32)) -> bool {
    let end = hallway_end(hallway);
    let start = (hallway.start.0 as int, hallway.start.1 as int);
    &&& hallway.source < rooms.len()
    &&& hallway.target < rooms.len()
    &&& hallway.source != hallway.target
    &&& exit_cell(
        rooms[hallway.source as int],
        hallway.direction,
        along_of(start, hallway.direction) as u32,
        floor,
    ) == Some(hallway.start)
    &&& cell_on_floor(end, floor)
    &&& exit_cell(
        rooms[hallway.target as int],
        hallway.direction.reversed(),
        along_of(end, hallway.direction) as u32,
        floor,
    ) == Some((end.0 as u32, end.1 as u32))
    &&& !segment_meets_rooms(hallway.start, hallway.direction, hallway.length, rooms)
}

/// What holds of a layout at every moment of the attaching: the rooms lie on
/// the floor, every hallway is sound, and each room counts exactly the hallways
/// that begin or end at it.
pub open spec fn connected(layout: Layout, floor: (u32, u32)) -> bool {
    &&& rooms_within(layout.rooms, floor)
    &&& forall|i: int|
        0 <= i < layout.hallways.len() ==> hallway_sound(
            #[trigger] layout.hallways[i],
            layout.rooms,
            floor,
        )
    &&& forall|k: int|
        0 <= k < layout.rooms.len() ==> (#[trigger] layout.rooms[k]).connection_count == attached(
            layout.hallways,
            k,
        )
}

/// No room counts more connections than there are hallways.
pub proof fn lemma_attached_bound(hallways: Seq<Hallway>, room: int)
    ensures
        attached(hallways, room) <= hallways.len(),
    decreases hallways.len(),
{
    if hallways.len() > 0 {
        lemma_attached_bound(hallways.drop_last(), room);
    }
}

/// Whether a segment enters a room depends on where the rooms are, not on their
/// connection counts.
pub proof fn lemma_meets_same_places(
    start: (u32, u32),
    direction: Direction,
    length: u32,
    a: Seq<Room>,
    b: Seq<Room>,
)
    requires
        same_places(a, b),
    ensures
        segment_meets_rooms(start, direction, length, a) == segment_meets_rooms(
            start,
            direction,
            length,
            b,
        ),
{
    if segment_meets_rooms(start, direction, length, a) {
        let i = choose|i: int|
            0 <= i < a.len() && segment_meets_box(
                start,
                direction,
                length,
                (#[trigger] a[i]).position,
                a[i].size,
            );
        assert(a[i].same_place(b[i]));
    }
    if segment_meets_rooms(start, direction, length, b) {
        let i = choose|i: int|
            0 <= i < b.len() && segment_meets_box(
                start,
                direction,
                length,
                (#[trigger] b[i]).position,
                b[i].size,
            );
        assert(a[i].same_place(b[i]));
    }
}

/// A sound hallway stays sound when only connection counts change.
pub proof fn lemma_sound_same_places(
    hallway: Hallway,
    a: Seq<Room>,
    b: Seq<Room>,
    floor: (u32, u32),
)
    requires
        same_places(a, b),
        hallway_sound(hallway, a, floor),
    ensures
        hallway_sound(hallway, b, floor),
{
    lemma_meets_same_places(hallway.start, hallway.direction, hallway.length, a, b);
}

/// A planned hallway is sound.
pub proof fn lemma_plan_sound(
    rooms: Seq<Room>,
    floor: (u32, u32),
    source: usize,
    target: usize,
    start_dir: Direction,
    end_dir: Direction,
    start_along: u32,
    end_along: u32,
)
    ensures
        planned_hallway(
            rooms,
            floor,
            source,
            target,
            start_dir,
            end_dir,
            start_along,
            end_along,
        ) matches Some(hallway) ==> hallway_sound(hallway, rooms, floor) && hallway.source
            == source && hallway.target == target,
{
    if let Some(hallway) = planned_hallway(
        rooms,
        floor,
        source,
        target,
        start_dir,
        end_dir,
        start_along,
        end_along,
    ) {
        let end = exit_cell(rooms[target as int], end_dir, end_along, floor).unwrap();
        lemma_others_are_all(
            rooms,
            floor,
            source,
            target,
            start_dir,
            start_along,
            end_along,
            hallway.start,
            end,
            hallway.length,
        );
    }
}

/// Attaching a sound hallway keeps the layout as it must be, and moves no
/// room.
pub proof fn lemma_attach_connected(layout: Layout, floor: (u32, u32), hallway: Hallway)
    requires
        connected(layout, floor),
        hallway_sound(hallway, layout.rooms, floor),
        layout.hallways.len() < usize::MAX,
    ensures
        connected(attach(layout, hallway), floor),
        same_places(layout.rooms, attach(layout, hallway).rooms),
{
    let after = attach(layout, hallway);
    assert(after.hallways.drop_last() =~= layout.hallways);
    assert forall|i: int| 0 <= i < after.hallways.len() implies hallway_sound(
        #[trigger] after.hallways[i],
        after.rooms,
        floor,
    ) by {
        lemma_sound_same_places(after.hallways[i], layout.rooms, after.rooms, floor);
    }
    assert forall|k: int| 0 <= k < after.rooms.len() implies (
    #[trigger] after.rooms[k]).connection_count == attached(after.hallways, k) by {
        lemma_attached_bound(layout.hallways, k);
    }
}

/// No hallway of a layout that is as it must be enters a room: not a third room,
/// and not the two that it joins either.
pub proof fn lemma_hallway_enters_no_room(
    layout: Layout,
    floor: (u32, u32),
    hallway: int,
    room: int,
)
    requires
        connected(layout, floor),
        0 <= hallway < layout.hallways.len(),
        0 <= room < layout.rooms.len(),
    ensures
        !segment_meets_box(
            layout.hallways[hallway].start,
            layout.hallways[hallway].direction,
            layout.hallways[hallway].length,
            layout.rooms[room].position,
            layout.rooms[room].size,
        ),
{
}

/// Every cell of a sound hallway lies on the floor.
pub proof fn lemma_hallway_on_floor(
    hallway: Hallway,
    rooms: Seq<Room>,
    floor: (u32, u32),
    steps: int,
)
    requires
        hallway_sound(hallway, rooms, floor),
        0 <= steps <= hallway.length,
    ensures
        cell_on_floor(segment_cell(hallway.start, hallway.direction, steps), floor),
{
}

/// The most attempts that one room makes, and one more: the number of attempts
/// is drawn from below this bound.
pub const ATTEMPT_BOUND: u32 = 4;

/// The layout after one attempt from the room in place `source`, and the state
/// after its five draws: the target, the direction of leaving, the side of
/// arrival, the column or row of leaving, and the column or row of arrival.
pub open spec fn attempt_outcome(layout: Layout, floor: (u32, u32), source: usize, state: u64) -> (
    Layout,
    u64,
) {
    let count = layout.rooms.len() as u32;
    let target = drawn_value(state, 0, count) as usize;
    let s1 = drawn_state(state, 0, count);
    let start_dir = Direction::of_index(drawn_value(s1, 0, DIRECTION_COUNT));
    let s2 = drawn_state(s1, 0, DIRECTION_COUNT);
    let end_dir = Direction::of_index(drawn_value(s2, 0, DIRECTION_COUNT));
    let s3 = drawn_state(s2, 0, DIRECTION_COUNT);
    let start_span = side_span(layout.rooms[source as int], start_dir);
    let start_along = drawn_value(s3, start_span.0, start_span.1);
    let s4 = drawn_state(s3, start_span.0, start_span.1);
    let end_span = side_span(layout.rooms[target as int], end_dir);
    let end_along = drawn_value(s4, end_span.0, end_span.1);
    let s5 = drawn_state(s4, end_span.0, end_span.1);
    match planned_hallway(
        layout.rooms,
        floor,
        source,
        target,
        start_dir,
        end_dir,
        start_along,
        end_along,
    ) {
        Some(hallway) => (attach(layout, hallway), s5),
        None => (layout, s5),
    }
}

/// The layout after `remaining` attempts in a row from the room in place
/// `source`.
pub open spec fn attempts_outcome(
    layout: Layout,
    floor: (u32, u32),
    source: usize,
    state: u64,
    remaining: nat,
) -> (Layout, u64)
    decreases remaining,
{
    if remaining == 0 {
        (layout, state)
    } else {
        let (next_layout, next) = attempt_outcome(layout, floor, source, state);
        attempts_outcome(next_layout, floor, source, next, (remaining - 1) as nat)
    }
}

/// The layout after the room in place `source` had its turn: the number of its
/// attempts is drawn, then they are made.
pub open spec fn turn_outcome(layout: Layout, floor: (u32, u32), source: usize, state: u64) -> (
    Layout,
    u64,
) {
    attempts_outcome(
        layout,
        floor,
        source,
        drawn_state(state, 0, ATTEMPT_BOUND),
        drawn_value(state, 0, ATTEMPT_BOUND) as nat,
    )
}

/// The layout after the rooms in places `source` to `count - 1` had their turns,
/// in that order.
pub open spec fn turns_outcome(
    layout: Layout,
    floor: (u32, u32),
    state: u64,
    source: nat,
    count: nat,
) -> (Layout, u64)
    decreases count - source,
{
    if source >= count {
        (layout, state)
    } else {
        let (next_layout, next) = turn_outcome(layout, floor, source as usize, state);
        turns_outcome(next_layout, floor, next, source + 1, count)
    }
}

/// The layout that attaching hallways to `rooms` yields from state `state`, and
/// the state it ends in.
pub open spec fn connection_outcome(rooms: Seq<Room>, floor: (u32, u32), state: u64) -> (
    Layout,
    u64,
) {
    turns_outcome(layout_of(rooms, Seq::empty()), floor, state, 0, rooms.len())
}

/// Attaches `hallway`: appends it to `hallways` and raises the connection count
/// of its two rooms by one each.
///
/// The two rooms are different rooms of `rooms`, and neither counts more
/// connections than there are hallways, as is the case in every layout that
/// `connected` describes.
pub fn attach_hallway(rooms: &mut Vec<Room>, hallways: &mut Vec<Hallway>, hallway: Hallway)
    requires
        hallway.source < old(rooms)@.len(),
        hallway.target < old(rooms)@.len(),
        hallway.source != hallway.target,
        old(rooms)@[hallway.source as int].connection_count <= old(hallways)@.len(),
        old(rooms)@[hallway.target as int].connection_count <= old(hallways)@.len(),
    ensures
        layout_of(final(rooms)@, final(hallways)@) == attach(
            layout_of(old(rooms)@, old(hallways)@),
            hallway,
        ),
{
    hallways.push(hallway);
    assert(old(hallways)@.len() < hallways.len() <= usize::MAX);
    let mut leaving: Room = rooms[hallway.source];
    leaving.connection_count = leaving.connection_count + 1;
    rooms.set(hallway.source, leaving);
    let mut reached: Room = rooms[hallway.target];
    reached.connection_count = reached.connection_count + 1;
    rooms.set(hallway.target, reached);
}

/// Makes one attempt from the room in place `source`.
fn attempt(
    rooms: &mut Vec<Room>,
    hallways: &mut Vec<Hallway>,
    floor: (u32, u32),
    source: usize,
    rng: &mut RandomSource,
)
    requires
        connected(layout_of(old(rooms)@, old(hallways)@), floor),
        source < old(rooms)@.len() <= u32::MAX,
    ensures
        layout_of(final(rooms)@, final(hallways)@) == attempt_outcome(
            layout_of(old(rooms)@, old(hallways)@),
            floor,
            source,
            old(rng)@,
        ).0,
        final(rng)@ == attempt_outcome(
            layout_of(old(rooms)@, old(hallways)@),
            floor,
            source,
            old(rng)@,
        ).1,
        connected(layout_of(final(rooms)@, final(hallways)@), floor),
        same_places(old(rooms)@, final(rooms)@),
{
    let ghost before: Layout = layout_of(rooms@, hallways@);
    let count: u32 = rooms.len() as u32;
    let target: usize = rng.next_in(0, count) as usize;
    let start_dir: Direction = Direction::from_index(rng.next_in(0, DIRECTION_COUNT));
    let end_dir: Direction = Direction::from_index(rng.next_in(0, DIRECTION_COUNT));
    let start_span: (u32, u32) = side_range(&rooms[source], start_dir);
    let start_along: u32 = rng.next_in(start_span.0, start_span.1);
    let end_span: (u32, u32) = side_range(&rooms[target], end_dir);
    let end_along: u32 = rng.next_in(end_span.0, end_span.1);
    let plan: Option<Hallway> = plan_hallway(
        rooms,
        floor,
        source,
        target,
        start_dir,
        end_dir,
        start_along,
        end_along,
    );
    match plan {
        Some(hallway) => {
            proof {
                lemma_plan_sound(
                    before.rooms,
                    floor,
                    source,
                    target,
                    start_dir,
                    end_dir,
                    start_along,
                    end_along,
                );
                lemma_attached_bound(before.hallways, source as int);
                lemma_attached_bound(before.hallways, target as int);
            }
            attach_hallway(rooms, hallways, hallway);
            proof {
                assert(before.hallways.len() < hallways.len() <= usize::MAX);
                lemma_attach_connected(before, floor, hallway);
            }
        },
        None => {},
    }
}

/// Gives every room its turn, in the order of the rooms, and returns the
/// hallways that were attached, in the order of their attaching. The rooms'
/// connection counts are raised as hallways are attached; nothing else about the
/// rooms changes. A dropped attempt changes nothing.
///
/// The rooms are taken as placement leaves them: on the floor, with no hallway
/// counted yet.
pub fn connect_rooms(rooms: &mut Vec<Room>, floor: (u32, u32), rng: &mut RandomSource) -> (hallways:
    Vec<Hallway>)
    requires
        old(rooms)@.len() <= u32::MAX,
        rooms_within(old(rooms)@, floor),
        rooms_fresh(old(rooms)@),
    ensures
        layout_of(final(rooms)@, hallways@) == connection_outcome(
            old(rooms)@,
            floor,
            old(rng)@,
        ).0,
        final(rng)@ == connection_outcome(old(rooms)@, floor, old(rng)@).1,
        connected(layout_of(final(rooms)@, hallways@), floor),
        same_places(old(rooms)@, final(rooms)@),
{
    let ghost initial: Seq<Room> = rooms@;
    let ghost start: u64 = rng@;
    let mut hallways: Vec<Hallway> = Vec::new();
    let count: usize = rooms.len();
    let mut source: usize = 0;
    while source < count
        invariant
            source <= count,
            count == rooms@.len(),
            count <= u32::MAX,
            initial == old(rooms)@,
            start == old(rng)@,
            connected(layout_of(rooms@, hallways@), floor),
            same_places(initial, rooms@),
            turns_outcome(
                layout_of(rooms@, hallways@),
                floor,
                rng@,
                source as nat,
                count as nat,
            ) == turns_outcome(layout_of(initial, Seq::empty()), floor, start, 0, count as nat),
        decreases count - source,
    {
        let ghost turn_layout: Layout = layout_of(rooms@, hallways@);
        let attempts: u32 = rng.next_in(0, ATTEMPT_BOUND);
        let ghost first: u64 = rng@;
        let mut made: u32 = 0;
        while made < attempts
            invariant
                made <= attempts,
                source < count,
                count == rooms@.len(),
                count <= u32::MAX,
                connected(layout_of(rooms@, hallways@), floor),
                same_places(initial, rooms@),
                attempts_outcome(
                    layout_of(rooms@, hallways@),
                    floor,
                    source,
                    rng@,
                    (attempts - made) as nat,
                ) == attempts_outcome(turn_layout, floor, source, first, attempts as nat),
            decreases attempts - made,
        {
            attempt(rooms, &mut hallways, floor, source, rng);
            made += 1;
        }
        source += 1;
    }
    hallways
}

} // verus!
