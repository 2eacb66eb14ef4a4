use occupier_r::memory::MemOccupyConfig;
use occupier_r::quota::MIB;

#[test]
fn new_holds_nothing() {
    let c = MemOccupyConfig::new(60, 16);
    assert_eq!(c.rate, 60);
    assert_eq!(c.part_size_mb, 16);
    assert_eq!(c.target_part_count, 0);
    assert_eq!(c.current_part_count, 0);
    assert!(c.used_parts.is_empty());
    assert!(c.seg_part_data.is_empty());
    assert!(c.buckets.is_empty());
}

#[test]
fn init_fills_part_content_with_ones() {
    let mut c = MemOccupyConfig::new(10, 2);
    c.init();
    assert_eq!(c.seg_part_data.len(), 2 * 1024 * 1024);
    assert!(c.seg_part_data.iter().all(|b| *b == 1));
}

#[test]
fn init_does_nothing_at_rate_zero() {
    let mut c = MemOccupyConfig::new(0, 2);
    c.init();
    assert!(c.seg_part_data.is_empty());
}

#[test]
fn update_grows_band_keeps_and_shrinks() {
    let mut c = MemOccupyConfig::new(50, 1);
    c.init();
    // 100 MiB, 10 MiB used by others: 40 parts fill the 50 MiB budget.
    assert!(c.can_update(100 * MIB, 90 * MIB));
    c.update(100 * MIB, 90 * MIB);
    assert_eq!(c.target_part_count, 40);
    assert_eq!(c.current_part_count, 40);
    assert_eq!(c.buckets.len(), 40);
    assert!(c.buckets.iter().all(|b| b.len() == MIB as usize && b.iter().all(|x| *x == 1)));

    // Same others' use: the new target equals the old one, inside the band.
    c.update(100 * MIB, 50 * MIB);
    assert_eq!(c.target_part_count, 40);
    assert_eq!(c.buckets.len(), 40);

    // Others now use 40 MiB: 10 parts remain.
    c.update(100 * MIB, 20 * MIB);
    assert_eq!(c.target_part_count, 10);
    assert_eq!(c.current_part_count, 10);
    assert_eq!(c.buckets.len(), 10);

    // Others exceed the budget: everything is given back.
    c.update(100 * MIB, 20 * MIB);
    assert_eq!(c.target_part_count, 0);
    assert_eq!(c.buckets.len(), 0);
}

#[test]
fn update_within_band_changes_nothing() {
    let mut c = MemOccupyConfig::new(50, 1);
    c.init();
    c.target_part_count = 100;
    // The new target is 102, within 5% of 100.
    c.update(204 * MIB, 204 * MIB);
    assert_eq!(c.target_part_count, 100);
    assert_eq!(c.current_part_count, 0);
    assert!(c.buckets.is_empty());
}

#[test]
fn update_counts_the_parts_actually_held() {
    let mut c = MemOccupyConfig::new(50, 1);
    c.init();
    c.update(10 * MIB, 10 * MIB);
    assert_eq!(c.buckets.len(), 5);
    // The count says 5; a reading with 7 MiB in use leaves others 2 MiB.
    c.update(10 * MIB, 3 * MIB);
    assert_eq!(c.target_part_count, 3);
    assert_eq!(c.buckets.len(), 3);
}

#[test]
fn can_update_refuses_what_would_fail() {
    let mut c = MemOccupyConfig::new(50, 1);
    assert!(!c.can_update(u64::MAX, 0));
    c.current_part_count = 10;
    // 10 MiB held but only 5 MiB in use.
    assert!(!c.can_update(100 * MIB, 95 * MIB));
    let z = MemOccupyConfig::new(50, 0);
    assert!(!z.can_update(100 * MIB, 100 * MIB));
    assert!(z.can_update(100 * MIB, 0));
}

#[test]
fn release_gives_everything_back() {
    let mut c = MemOccupyConfig::new(50, 1);
    c.init();
    c.update(4 * MIB, 4 * MIB);
    assert_eq!(c.buckets.len(), 2);
    assert!(c.release());
    assert!(c.buckets.is_empty());
    assert_eq!(c.current_part_count, 2);

    let mut idle = MemOccupyConfig::new(0, 1);
    assert!(!idle.release());
}

#[test]
fn more_use_by_others_never_gives_more_parts() {
    let mut a = MemOccupyConfig::new(50, 1);
    a.init();
    let mut b = a.clone();
    a.update(20 * MIB, 12 * MIB);
    b.update(20 * MIB, 18 * MIB);
    assert_eq!(a.buckets.len(), 2);
    assert_eq!(b.buckets.len(), 8);
    assert!(a.buckets.len() <= b.buckets.len());
}

#[test]
fn higher_rate_never_gives_fewer_parts() {
    let mut lo = MemOccupyConfig::new(20, 1);
    lo.init();
    let mut hi = MemOccupyConfig::new(60, 1);
    hi.init();
    lo.update(20 * MIB, 18 * MIB);
    hi.update(20 * MIB, 18 * MIB);
    assert_eq!(lo.buckets.len(), 2);
    assert_eq!(hi.buckets.len(), 10);
}

#[test]
fn pop_undoes_push() {
    let mut c = MemOccupyConfig::new(50, 1);
    c.init();
    c.update(4 * MIB, 4 * MIB);
    let before = c.clone();
    c.push();
    assert_eq!(c.buckets.len(), 3);
    assert_eq!(c.current_part_count, 3);
    c.pop();
    assert_eq!(c.buckets, before.buckets);
    assert_eq!(c.current_part_count, before.current_part_count);
    assert_eq!(c.target_part_count, before.target_part_count);
}
