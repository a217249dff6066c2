use floor_gen::random::RandomSource;

#[test]
fn a_new_source_starts_at_its_seed() {
    assert_eq!(RandomSource::new(0).state(), 0);
    assert_eq!(RandomSource::new(17).state(), 17);
    assert_eq!(RandomSource::new(u64::MAX).state(), u64::MAX);
}

#[test]
fn draws_stay_in_their_range() {
    let mut rng: RandomSource = RandomSource::new(1);
    for _ in 0..10_000u32 {
        let value: u32 = rng.next_in(10, 20);
        assert!(10 <= value && value < 20);
    }
    for _ in 0..1_000u32 {
        assert_eq!(rng.next_in(7, 8), 7);
    }
    for _ in 0..1_000u32 {
        let value: u32 = rng.next_in(u32::MAX - 2, u32::MAX);
        assert!(value == u32::MAX - 2 || value == u32::MAX - 1);
    }
}

#[test]
fn draws_take_every_value_of_a_small_range() {
    let mut rng: RandomSource = RandomSource::new(99);
    let mut seen: [bool; 4] = [false; 4];
    for _ in 0..1_000u32 {
        seen[rng.next_in(0, 4) as usize] = true;
    }
    assert_eq!(seen, [true, true, true, true]);
}

#[test]
fn a_draw_moves_the_source_on() {
    let mut rng: RandomSource = RandomSource::new(5);
    let mut states: Vec<u64> = vec![rng.state()];
    let mut values: Vec<u32> = Vec::new();
    for _ in 0..100u32 {
        values.push(rng.next_in(0, 1_000_000));
        assert!(!states.contains(&rng.state()));
        states.push(rng.state());
    }
    let first: u32 = values[0];
    assert!(values.iter().any(|value| *value != first));
    assert!(values.iter().any(|value| *value != 0));
}

#[test]
fn equal_seeds_give_equal_streams() {
    let mut a: RandomSource = RandomSource::new(123_456_789);
    let mut b: RandomSource = RandomSource::new(123_456_789);
    for round in 0..500u32 {
        let low: u32 = round % 7;
        let high: u32 = low + 1 + round;
        assert_eq!(a.next_in(low, high), b.next_in(low, high));
        assert_eq!(a.state(), b.state());
    }
}

#[test]
fn a_source_made_from_a_state_continues_the_stream() {
    let mut whole: RandomSource = RandomSource::new(2024);
    for _ in 0..10u32 {
        whole.next_in(0, 100);
    }
    let mut resumed: RandomSource = RandomSource::new(whole.state());
    for _ in 0..100u32 {
        assert_eq!(whole.next_in(0, 1000), resumed.next_in(0, 1000));
    }
}

#[test]
fn different_seeds_give_different_streams() {
    let mut a: RandomSource = RandomSource::new(1);
    let mut b: RandomSource = RandomSource::new(2);
    let mut differ: bool = false;
    for _ in 0..100u32 {
        if a.next_in(0, 1_000_000) != b.next_in(0, 1_000_000) {
            differ = true;
        }
    }
    assert!(differ);
}

#[test]
fn the_stream_is_that_of_the_generator() {
    let mut rng: RandomSource = RandomSource::new(42);
    let mut outside: fastrand::Rng = fastrand::Rng::with_seed(42);
    for round in 0..200u32 {
        let high: u32 = 1 + round * 13;
        assert_eq!(rng.next_in(0, high), outside.u32(0..high));
        assert_eq!(rng.state(), outside.get_seed());
    }
}
