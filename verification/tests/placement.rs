use floor_gen::config::{ConfigError, FloorConfig, MAX_TRIES, PADDING};
use floor_gen::floor::Floor;
use floor_gen::placer::{place_room, place_rooms, position_limit, Placement};
use floor_gen::random::RandomSource;
use floor_gen::room::Room;

fn config(floor: (u32, u32), count: (u32, u32), dims: (u32, u32), padding: u32) -> FloorConfig {
    FloorConfig {
        floor_dimensions: floor,
        room_count_range: count.0..count.1,
        room_dims_range: dims.0..dims.1,
        padding,
    }
}

#[test]
fn the_constants() {
    assert_eq!(PADDING, 5);
    assert_eq!(MAX_TRIES, 1000);
}

#[test]
fn the_default_configuration() {
    let config: FloorConfig = FloorConfig::default();
    assert_eq!(config.floor_dimensions, (90, 30));
    assert_eq!(config.room_count_range, 3..8);
    assert_eq!(config.room_dims_range, 6..15);
    assert_eq!(config.padding, 5);
    assert_eq!(config.validate(), Ok(()));
    assert_eq!(config.clone(), config);
}

#[test]
fn a_floor_without_extent_is_refused() {
    assert_eq!(
        config((0, 30), (3, 8), (6, 15), 5).validate(),
        Err(ConfigError::ZeroFloorDimension)
    );
    assert_eq!(
        config((90, 0), (3, 8), (6, 15), 5).validate(),
        Err(ConfigError::ZeroFloorDimension)
    );
    assert_eq!(config((0, 0), (3, 3), (0, 0), 5).validate(), Err(ConfigError::ZeroFloorDimension));
}

#[test]
fn an_empty_count_range_is_refused() {
    assert_eq!(
        config((90, 30), (3, 3), (6, 15), 5).validate(),
        Err(ConfigError::EmptyRoomCountRange)
    );
    assert_eq!(
        config((90, 30), (8, 3), (6, 6), 5).validate(),
        Err(ConfigError::EmptyRoomCountRange)
    );
    assert_eq!(
        config((90, 30), (0, 0), (6, 15), 5).validate(),
        Err(ConfigError::EmptyRoomCountRange)
    );
}

#[test]
fn an_empty_dimension_range_is_refused() {
    assert_eq!(
        config((90, 30), (3, 8), (6, 6), 5).validate(),
        Err(ConfigError::EmptyRoomDimsRange)
    );
    assert_eq!(
        config((90, 30), (3, 8), (15, 6), 5).validate(),
        Err(ConfigError::EmptyRoomDimsRange)
    );
    assert_eq!(
        config((90, 30), (3, 8), (0, 0), 5).validate(),
        Err(ConfigError::EmptyRoomDimsRange)
    );
}

#[test]
fn a_room_without_extent_is_refused() {
    assert_eq!(config((90, 30), (3, 8), (0, 15), 5).validate(), Err(ConfigError::ZeroRoomDimension));
    assert_eq!(config((90, 30), (3, 8), (0, 1), 0).validate(), Err(ConfigError::ZeroRoomDimension));
}

#[test]
fn a_room_too_large_for_the_floor_is_refused() {
    assert_eq!(config((18, 30), (3, 8), (6, 15), 5).validate(), Err(ConfigError::RoomTooLarge));
    assert_eq!(config((90, 18), (3, 8), (6, 15), 5).validate(), Err(ConfigError::RoomTooLarge));
    assert_eq!(config((19, 19), (3, 8), (6, 15), 5).validate(), Ok(()));
    assert_eq!(config((19, 19), (3, 8), (6, 16), 5).validate(), Err(ConfigError::RoomTooLarge));
    assert_eq!(config((5, 5), (1, 2), (1, 2), 5).validate(), Err(ConfigError::RoomTooLarge));
    assert_eq!(config((6, 6), (1, 2), (1, 2), 5).validate(), Ok(()));
    assert_eq!(
        config((u32::MAX, u32::MAX), (1, 2), (1, u32::MAX), u32::MAX).validate(),
        Err(ConfigError::RoomTooLarge)
    );
    assert_eq!(config((u32::MAX, u32::MAX), (1, 2), (1, u32::MAX), 1).validate(), Ok(()));
}

#[test]
fn position_limits() {
    assert_eq!(position_limit(20, 5, 5), 10);
    assert_eq!(position_limit(10, 5, 5), 1);
    assert_eq!(position_limit(11, 5, 5), 1);
    assert_eq!(position_limit(12, 5, 5), 2);
    assert_eq!(position_limit(90, 14, 5), 71);
    assert_eq!(position_limit(30, 6, 5), 19);
    assert_eq!(position_limit(5, 5, 5), 1);
    assert_eq!(position_limit(u32::MAX, 1, 0), u32::MAX - 1);
    assert_eq!(position_limit(u32::MAX, u32::MAX, u32::MAX), 1);
}

#[test]
fn room_intersects_room_tests_every_room() {
    let rooms: Vec<Room> = vec![Room::new((0, 0), (5, 5)), Room::new((20, 20), (5, 5))];
    assert!(Floor::room_intersects_room((9, 0), (5, 5), &rooms, 5));
    assert!(!Floor::room_intersects_room((10, 0), (5, 5), &rooms, 5));
    assert!(Floor::room_intersects_room((11, 11), (5, 5), &rooms, 5));
    assert!(!Floor::room_intersects_room((10, 11), (5, 5), &rooms, 5));
    assert!(!Floor::room_intersects_room((10, 10), (5, 5), &rooms, 5));
    assert!(Floor::room_intersects_room((10, 10), (5, 5), &rooms, 6));
    assert!(Floor::room_intersects_room((21, 21), (1, 1), &rooms, 0));
    assert!(!Floor::room_intersects_room((19, 19), (1, 1), &rooms, 0));
    let none: Vec<Room> = Vec::new();
    assert!(!Floor::room_intersects_room((0, 0), (5, 5), &none, 5));
}

#[test]
fn the_first_room_is_placed_at_once() {
    let config: FloorConfig = config((20, 10), (1, 2), (5, 6), 5);
    for seed in 0..200u64 {
        let mut rng: RandomSource = RandomSource::new(seed);
        let mut twin: RandomSource = RandomSource::new(seed);
        let rooms: Vec<Room> = Vec::new();
        let x: u32 = twin.next_in(0, 10);
        let y: u32 = twin.next_in(0, 1);
        assert_eq!(
            place_room(&rooms, (5, 5), &config, &mut rng),
            Placement::Placed(Room { position: (x, y), size: (5, 5), connection_count: 0 })
        );
        assert_eq!(rng.state(), twin.state());
        assert_eq!(y, 0);
    }
}

#[test]
fn a_room_that_finds_no_place_is_given_up() {
    let config: FloorConfig = config((12, 12), (1, 2), (1, 2), 1);
    let rooms: Vec<Room> = vec![Room::new((0, 0), (10, 10))];
    let mut rng: RandomSource = RandomSource::new(3);
    let mut twin: RandomSource = RandomSource::new(3);
    assert_eq!(place_room(&rooms, (1, 1), &config, &mut rng), Placement::GaveUp);
    for _ in 0..(2 * MAX_TRIES) {
        twin.next_in(0, 10);
    }
    assert_eq!(rng.state(), twin.state());
}

#[test]
fn a_room_is_placed_at_the_first_free_candidate() {
    let config: FloorConfig = config((40, 12), (1, 2), (2, 3), 2);
    let rooms: Vec<Room> = vec![Room::new((0, 0), (20, 8))];
    for seed in 0..100u64 {
        let mut rng: RandomSource = RandomSource::new(seed);
        let mut twin: RandomSource = RandomSource::new(seed);
        let mut expected: Placement = Placement::GaveUp;
        for _ in 0..MAX_TRIES {
            let x: u32 = twin.next_in(0, 36);
            let y: u32 = twin.next_in(0, 8);
            if !Floor::room_intersects_room((x, y), (2, 2), &rooms, 2) {
                expected = Placement::Placed(Room::new((x, y), (2, 2)));
                break;
            }
        }
        assert!(matches!(expected, Placement::Placed(_)));
        assert_eq!(place_room(&rooms, (2, 2), &config, &mut rng), expected);
        assert_eq!(rng.state(), twin.state());
    }
}

#[test]
fn place_rooms_refuses_before_drawing() {
    let mut rng: RandomSource = RandomSource::new(77);
    assert_eq!(
        place_rooms(&config((20, 10), (1, 2), (5, 7), 5), &mut rng),
        Err(ConfigError::RoomTooLarge)
    );
    assert_eq!(rng.state(), 77);
    assert_eq!(
        place_rooms(&config((20, 10), (2, 2), (5, 6), 5), &mut rng),
        Err(ConfigError::EmptyRoomCountRange)
    );
    assert_eq!(rng.state(), 77);
}

#[test]
fn place_rooms_drops_the_room_that_cannot_fit() {
    let config: FloorConfig = config((10, 10), (2, 3), (5, 6), 5);
    for seed in 0..20u64 {
        let mut rng: RandomSource = RandomSource::new(seed);
        let (rooms, requested): (Vec<Room>, u32) = place_rooms(&config, &mut rng).unwrap();
        assert_eq!(requested, 2);
        assert_eq!(rooms, vec![Room::new((0, 0), (5, 5))]);
    }
}

#[test]
fn place_rooms_draws_count_then_sides_then_positions() {
    let config: FloorConfig = config((90, 30), (1, 2), (6, 15), 5);
    for seed in 0..100u64 {
        let mut rng: RandomSource = RandomSource::new(seed);
        let mut twin: RandomSource = RandomSource::new(seed);
        let (rooms, requested): (Vec<Room>, u32) = place_rooms(&config, &mut rng).unwrap();
        assert_eq!(twin.next_in(1, 2), 1);
        let width: u32 = twin.next_in(6, 15);
        let height: u32 = twin.next_in(6, 15);
        let x: u32 = twin.next_in(0, 90 - width - 5);
        let y: u32 = twin.next_in(0, 30 - height - 5);
        assert_eq!(requested, 1);
        assert_eq!(rooms, vec![Room::new((x, y), (width, height))]);
        assert_eq!(rng.state(), twin.state());
    }
}

#[test]
fn placed_rooms_keep_their_distance() {
    let config: FloorConfig = FloorConfig::default();
    for seed in 0..300u64 {
        let mut rng: RandomSource = RandomSource::new(seed);
        let (rooms, requested): (Vec<Room>, u32) = place_rooms(&config, &mut rng).unwrap();
        assert!(3 <= requested && requested < 8);
        assert!(1 <= rooms.len() && rooms.len() <= requested as usize);
        for (i, a) in rooms.iter().enumerate() {
            assert_eq!(a.connection_count, 0);
            assert!(6 <= a.size.0 && a.size.0 < 15 && 6 <= a.size.1 && a.size.1 < 15);
            assert!(a.position.0 + a.size.0 + 5 <= 90);
            assert!(a.position.1 + a.size.1 + 5 <= 30);
            for (j, b) in rooms.iter().enumerate() {
                if i != j {
                    let apart_x: bool = a.position.0 + a.size.0 + 5 <= b.position.0
                        || b.position.0 + b.size.0 + 5 <= a.position.0;
                    let apart_y: bool = a.position.1 + a.size.1 + 5 <= b.position.1
                        || b.position.1 + b.size.1 + 5 <= a.position.1;
                    assert!(apart_x || apart_y);
                }
            }
        }
    }
}
