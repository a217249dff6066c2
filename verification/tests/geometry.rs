use floor_gen::geometry::{aabb_overlaps, point_in_box};
use floor_gen::hallway::{segment_hits_box, Direction};
use floor_gen::room::Room;

#[test]
fn boxes_exactly_padding_apart_do_not_overlap() {
    assert!(!aabb_overlaps((0, 0), (5, 5), (10, 0), (5, 5), 5));
    assert!(!aabb_overlaps((10, 0), (5, 5), (0, 0), (5, 5), 5));
    assert!(!aabb_overlaps((0, 0), (5, 5), (0, 10), (5, 5), 5));
}

#[test]
fn boxes_closer_than_padding_overlap() {
    assert!(aabb_overlaps((0, 0), (5, 5), (9, 0), (5, 5), 5));
    assert!(aabb_overlaps((9, 0), (5, 5), (0, 0), (5, 5), 5));
    assert!(aabb_overlaps((0, 0), (5, 5), (0, 9), (5, 5), 5));
    assert!(aabb_overlaps((0, 0), (5, 5), (9, 9), (5, 5), 5));
}

#[test]
fn boxes_apart_on_one_axis_only_do_not_overlap() {
    assert!(!aabb_overlaps((0, 0), (5, 5), (3, 10), (5, 5), 5));
    assert!(!aabb_overlaps((0, 0), (5, 5), (10, 3), (5, 5), 5));
}

#[test]
fn touching_boxes_without_padding_do_not_overlap() {
    assert!(!aabb_overlaps((0, 0), (5, 5), (5, 0), (5, 5), 0));
    assert!(!aabb_overlaps((0, 0), (5, 5), (0, 5), (5, 5), 0));
    assert!(aabb_overlaps((0, 0), (5, 5), (4, 4), (5, 5), 0));
}

#[test]
fn a_box_inside_another_overlaps_it() {
    assert!(aabb_overlaps((2, 2), (1, 1), (0, 0), (10, 10), 0));
    assert!(aabb_overlaps((0, 0), (10, 10), (2, 2), (1, 1), 0));
    assert!(aabb_overlaps((3, 3), (4, 4), (3, 3), (4, 4), 0));
}

#[test]
fn overlap_is_symmetric_on_a_grid_of_boxes() {
    let sizes: [(u32, u32); 3] = [(1, 1), (3, 2), (4, 6)];
    for ax in 0..8u32 {
        for ay in 0..8u32 {
            for bx in 0..8u32 {
                for by in 0..8u32 {
                    for a_size in sizes {
                        for b_size in sizes {
                            for padding in 0..3u32 {
                                assert_eq!(
                                    aabb_overlaps((ax, ay), a_size, (bx, by), b_size, padding),
                                    aabb_overlaps((bx, by), b_size, (ax, ay), a_size, padding)
                                );
                            }
                        }
                    }
                }
            }
        }
    }
}

#[test]
fn overlap_near_the_largest_coordinates() {
    let top: u32 = u32::MAX;
    assert!(aabb_overlaps((top, top), (top, top), (top, top), (top, top), top));
    assert!(aabb_overlaps((0, 0), (1, 1), (top, top), (1, 1), top));
    assert!(!aabb_overlaps((0, 0), (1, 1), (top, top), (1, 1), top - 1));
}

#[test]
fn point_in_box_is_half_open() {
    assert!(point_in_box((0, 0), (0, 0), (5, 5)));
    assert!(point_in_box((4, 4), (0, 0), (5, 5)));
    assert!(!point_in_box((5, 4), (0, 0), (5, 5)));
    assert!(!point_in_box((4, 5), (0, 0), (5, 5)));
    assert!(!point_in_box((5, 5), (0, 0), (5, 5)));
    assert!(point_in_box((7, 9), (7, 9), (1, 1)));
    assert!(!point_in_box((6, 9), (7, 9), (1, 1)));
    assert!(!point_in_box((7, 8), (7, 9), (1, 1)));
}

#[test]
fn point_in_box_of_no_extent_is_false() {
    assert!(!point_in_box((3, 3), (3, 3), (0, 5)));
    assert!(!point_in_box((3, 3), (3, 3), (5, 0)));
}

#[test]
fn point_in_box_near_the_largest_coordinates() {
    let top: u32 = u32::MAX;
    assert!(point_in_box((top, top), (top, top), (1, 1)));
    assert!(point_in_box((top, top), (0, 0), (top, top)) == false);
    assert!(point_in_box((top - 1, top - 1), (0, 0), (top, top)));
}

#[test]
fn room_contains_its_cells_only() {
    let room: Room = Room::new((10, 20), (3, 2));
    assert_eq!(room.position, (10, 20));
    assert_eq!(room.size, (3, 2));
    assert_eq!(room.connection_count, 0);
    assert!(room.contains((10, 20)));
    assert!(room.contains((12, 21)));
    assert!(!room.contains((13, 21)));
    assert!(!room.contains((12, 22)));
    assert!(!room.contains((9, 20)));
    assert!(!room.contains((10, 19)));
}

#[test]
fn segment_upwards_reaches_a_box() {
    assert!(segment_hits_box((2, 0), Direction::Up, 10, (0, 5), (5, 5)));
    assert!(segment_hits_box((2, 0), Direction::Up, 5, (0, 5), (5, 5)));
    assert!(!segment_hits_box((2, 0), Direction::Up, 4, (0, 5), (5, 5)));
    assert!(!segment_hits_box((5, 0), Direction::Up, 10, (0, 5), (5, 5)));
    assert!(!segment_hits_box((2, 10), Direction::Up, 10, (0, 5), (5, 5)));
    assert!(segment_hits_box((2, 9), Direction::Up, 0, (0, 5), (5, 5)));
}

#[test]
fn segment_downwards_reaches_a_box() {
    assert!(!segment_hits_box((2, 12), Direction::Down, 2, (0, 5), (5, 5)));
    assert!(segment_hits_box((2, 12), Direction::Down, 3, (0, 5), (5, 5)));
    assert!(segment_hits_box((2, 12), Direction::Down, 100, (0, 5), (5, 5)));
    assert!(!segment_hits_box((2, 4), Direction::Down, 100, (0, 5), (5, 5)));
    assert!(!segment_hits_box((7, 12), Direction::Down, 100, (0, 5), (5, 5)));
}

#[test]
fn segment_sideways_reaches_a_box() {
    assert!(!segment_hits_box((0, 6), Direction::Right, 9, (10, 5), (5, 5)));
    assert!(segment_hits_box((0, 6), Direction::Right, 10, (10, 5), (5, 5)));
    assert!(!segment_hits_box((0, 10), Direction::Right, 30, (10, 5), (5, 5)));
    assert!(!segment_hits_box((20, 6), Direction::Left, 5, (10, 5), (5, 5)));
    assert!(segment_hits_box((20, 6), Direction::Left, 6, (10, 5), (5, 5)));
    assert!(!segment_hits_box((9, 6), Direction::Left, 9, (10, 5), (5, 5)));
    assert!(!segment_hits_box((15, 6), Direction::Right, 9, (10, 5), (5, 5)));
}

#[test]
fn segment_never_reaches_a_box_of_no_extent() {
    assert!(!segment_hits_box((2, 0), Direction::Up, 10, (0, 5), (5, 0)));
    assert!(!segment_hits_box((2, 0), Direction::Up, 10, (2, 5), (0, 5)));
    assert!(!segment_hits_box((0, 6), Direction::Right, 20, (10, 6), (0, 1)));
}

#[test]
fn segment_agrees_with_walking_its_cells() {
    let directions: [Direction; 4] =
        [Direction::Up, Direction::Down, Direction::Left, Direction::Right];
    let pos: (u32, u32) = (4, 5);
    let size: (u32, u32) = (3, 2);
    for sx in 0..12u32 {
        for sy in 0..12u32 {
            for length in 0..12u32 {
                for direction in directions {
                    let mut walked: bool = false;
                    for k in 0..=(length as i64) {
                        let cell: (i64, i64) = match direction {
                            Direction::Up => (sx as i64, sy as i64 + k),
                            Direction::Down => (sx as i64, sy as i64 - k),
                            Direction::Left => (sx as i64 - k, sy as i64),
                            Direction::Right => (sx as i64 + k, sy as i64),
                        };
                        if 4 <= cell.0 && cell.0 < 7 && 5 <= cell.1 && cell.1 < 7 {
                            walked = true;
                        }
                    }
                    assert_eq!(segment_hits_box((sx, sy), direction, length, pos, size), walked);
                }
            }
        }
    }
}
