use control_surface::velocity::{find_bucket, EncoderVelocityMap, Mapped, MAP_SIZE};

fn apply(mapped: Option<Mapped>) -> Option<i32> {
    match mapped {
        Some(Mapped::Unscaled(ticks)) => Some(ticks),
        Some(Mapped::Scaled(ticks, scale)) => Some((ticks as f32 * f32::from_bits(scale)) as i32),
        None => None,
    }
}

fn reference_table() -> EncoderVelocityMap {
    EncoderVelocityMap::new()
        .with((1_000_000, 1.0f32.to_bits()))
        .with((500_000, 2.0f32.to_bits()))
        .with((250_000, 4.0f32.to_bits()))
        .with((100_000, 8.0f32.to_bits()))
}

#[test]
fn encoder_velocity() {
    let mut map = reference_table();

    let mut inst = 0;
    assert_eq!(apply(map.map(inst, Some(1))), Some(1));
    inst += 300_000;
    assert_eq!(apply(map.map(inst, Some(1))), Some(2));
    inst += 400_000;
    assert_eq!(apply(map.map(inst, Some(-1))), Some(-2));
    inst += 90_000;
    assert_eq!(apply(map.map(inst, Some(-1))), Some(-8));
}

#[test]
fn buckets_are_kept_in_ascending_order() {
    let mut map = reference_table();
    assert_eq!(map.len(), 4);
    assert_eq!(map.map(0, Some(3)), Some(Mapped::Unscaled(3)));
    assert_eq!(map.map(50_000, Some(3)), Some(Mapped::Scaled(3, 8.0f32.to_bits())));
    assert_eq!(map.map(200_000, Some(3)), Some(Mapped::Scaled(3, 4.0f32.to_bits())));
    assert_eq!(map.map(500_000, Some(3)), Some(Mapped::Scaled(3, 2.0f32.to_bits())));
    assert_eq!(map.map(1_200_000, Some(3)), Some(Mapped::Scaled(3, 1.0f32.to_bits())));
}

#[test]
fn threshold_is_exclusive() {
    let mut map = reference_table();
    assert_eq!(map.map(10, Some(1)), Some(Mapped::Unscaled(1)));
    // Exactly 100_000 later: no longer under the fastest bucket.
    assert_eq!(map.map(100_010, Some(1)), Some(Mapped::Scaled(1, 4.0f32.to_bits())));
    // 99_999 later: under it.
    assert_eq!(map.map(200_009, Some(1)), Some(Mapped::Scaled(1, 8.0f32.to_bits())));
}

#[test]
fn slower_than_every_bucket_passes_through() {
    let mut map = reference_table();
    assert_eq!(map.map(5, Some(7)), Some(Mapped::Unscaled(7)));
    assert_eq!(map.map(1_000_005, Some(7)), Some(Mapped::Unscaled(7)));
    assert_eq!(map.map(3_000_000, Some(-7)), Some(Mapped::Unscaled(-7)));
    // The slow ticks were put on record all the same.
    assert_eq!(map.map(3_000_001, Some(1)), Some(Mapped::Scaled(1, 8.0f32.to_bits())));
}

#[test]
fn no_tick_gives_no_answer_and_records_nothing() {
    let mut map = reference_table();
    assert_eq!(map.map(100, None), None);
    // Still the first tick ever: passed through.
    assert_eq!(map.map(150, Some(2)), Some(Mapped::Unscaled(2)));
    assert_eq!(map.map(160, None), None);
    assert_eq!(map.map(1_000_000, Some(2)), Some(Mapped::Scaled(2, 1.0f32.to_bits())));
}

#[test]
fn empty_map_passes_ticks_through() {
    let mut map = EncoderVelocityMap::new();
    assert_eq!(map.len(), 0);
    assert_eq!(map.map(1_000, Some(5)), Some(Mapped::Unscaled(5)));
    assert_eq!(map.map(1_001, Some(-5)), Some(Mapped::Unscaled(-5)));
    assert_eq!(map.map(0, Some(9)), Some(Mapped::Unscaled(9)));
    assert_eq!(map.map(u64::MAX, Some(i32::MIN)), Some(Mapped::Unscaled(i32::MIN)));
    assert_eq!(map.map(7, None), None);
}

#[test]
fn earlier_instant_is_rejected_and_not_recorded() {
    let mut map = reference_table();
    assert_eq!(map.map(1_000_000, Some(1)), Some(Mapped::Unscaled(1)));
    assert_eq!(map.map(999_999, Some(1)), None);
    assert_eq!(map.map(0, Some(1)), None);
    // Elapsed time is counted from 1_000_000, not from the rejected instants.
    assert_eq!(map.map(1_300_000, Some(1)), Some(Mapped::Scaled(1, 2.0f32.to_bits())));
}

#[test]
fn same_instant_is_accepted() {
    let mut map = reference_table();
    assert_eq!(map.map(42, Some(1)), Some(Mapped::Unscaled(1)));
    assert_eq!(map.map(42, Some(1)), Some(Mapped::Scaled(1, 8.0f32.to_bits())));
}

#[test]
fn scaling_rounds_toward_zero() {
    let mut map = EncoderVelocityMap::new().with((1_000, 1.5f32.to_bits()));
    assert_eq!(apply(map.map(0, Some(3))), Some(3));
    assert_eq!(apply(map.map(10, Some(3))), Some(4));
    assert_eq!(apply(map.map(20, Some(-3))), Some(-4));
    assert_eq!(apply(map.map(30, Some(1))), Some(1));
}

#[test]
fn table_fills_to_capacity() {
    let mut map = EncoderVelocityMap::new();
    let mut i: u64 = 0;
    while (map.len()) < MAP_SIZE {
        map = map.with((1_000 - i, i as u32));
        i += 1;
    }
    assert_eq!(map.len(), MAP_SIZE);
    assert_eq!(map.map(0, Some(1)), Some(Mapped::Unscaled(1)));
    // The smallest threshold, pushed last, is found first.
    assert_eq!(map.map(1, Some(1)), Some(Mapped::Scaled(1, (MAP_SIZE - 1) as u32)));
}

#[test]
fn find_bucket_takes_the_first_larger_threshold() {
    let table = [(10u64, 1u32), (20, 2), (20, 3), (30, 4)];
    assert_eq!(find_bucket(&table, 0), Some(0));
    assert_eq!(find_bucket(&table, 9), Some(0));
    assert_eq!(find_bucket(&table, 10), Some(1));
    assert_eq!(find_bucket(&table, 19), Some(1));
    assert_eq!(find_bucket(&table, 20), Some(3));
    assert_eq!(find_bucket(&table, 30), None);
    assert_eq!(find_bucket(&[], 0), None);
}

#[test]
fn table_is_reachable_beside_the_encoder() {
    let mut map = control_surface::rotary_encoder::EncoderVelocityMap::default();
    assert_eq!(map.len(), 0);
    assert_eq!(map.map(3, Some(1)), Some(Mapped::Unscaled(1)));
}

#[test]
fn equal_thresholds_are_both_kept() {
    let mut map = EncoderVelocityMap::new().with((50, 9)).with((50, 9)).with((10, 1));
    assert_eq!(map.len(), 3);
    assert_eq!(map.map(0, Some(2)), Some(Mapped::Unscaled(2)));
    assert_eq!(map.map(5, Some(2)), Some(Mapped::Scaled(2, 1)));
    assert_eq!(map.map(25, Some(2)), Some(Mapped::Scaled(2, 9)));
    assert_eq!(map.map(75, Some(2)), Some(Mapped::Unscaled(2)));
}
