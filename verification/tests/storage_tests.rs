use occupier_r::quota::MIB;
use occupier_r::storage::{next_write_len, FileOccupyConfig, StorageStep};

fn follow_steps(c: &mut FileOccupyConfig) -> Vec<usize> {
    let mut removed = Vec::new();
    loop {
        match c.next_step() {
            StorageStep::Create(id) => c.part_created(id),
            StorageStep::Remove => {
                removed.push(c.take_last_part());
                c.part_removed();
            }
            StorageStep::Done => return removed,
        }
    }
}

#[test]
fn storage_new_holds_nothing() {
    let c = FileOccupyConfig::new(60, 64);
    assert_eq!(c.rate, 60);
    assert_eq!(c.part_size_mb, 64);
    assert_eq!(c.target_part_count, 0);
    assert_eq!(c.current_part_count, 0);
    assert!(c.used_parts.is_empty());
    assert!(c.seg_part_data.is_empty());
    assert_eq!(c.next_step(), StorageStep::Done);
}

#[test]
fn storage_init_fills_part_content_with_ones() {
    let mut c = FileOccupyConfig::new(1, 1);
    c.init();
    assert_eq!(c.seg_part_data.len(), MIB as usize);
    assert!(c.seg_part_data.iter().all(|b| *b == 1));
    let mut z = FileOccupyConfig::new(0, 1);
    z.init();
    assert!(z.seg_part_data.is_empty());
}

#[test]
fn update_then_steps_reach_the_target() {
    let mut c = FileOccupyConfig::new(60, 1);
    assert!(c.can_update(100 * MIB, 100 * MIB));
    assert!(c.update(100 * MIB, 100 * MIB));
    assert_eq!(c.target_part_count, 60);
    assert_eq!(c.current_part_count, 0);
    assert_eq!(c.next_step(), StorageStep::Create(0));
    let removed = follow_steps(&mut c);
    assert!(removed.is_empty());
    assert_eq!(c.current_part_count, 60);
    assert_eq!(c.used_parts, (0..60).collect::<Vec<usize>>());

    // Others now use 10 MiB besides the 60 MiB held: 50 parts.
    assert!(c.update(100 * MIB, 30 * MIB));
    assert_eq!(c.target_part_count, 50);
    assert_eq!(c.next_step(), StorageStep::Remove);
    let removed = follow_steps(&mut c);
    assert_eq!(removed, (50..60).rev().collect::<Vec<usize>>());
    assert_eq!(c.used_parts, (0..50).collect::<Vec<usize>>());
    assert_eq!(c.current_part_count, 50);
}

#[test]
fn update_within_band_asks_for_nothing() {
    let mut c = FileOccupyConfig::new(50, 1);
    c.target_part_count = 100;
    assert!(!c.update(204 * MIB, 204 * MIB));
    assert_eq!(c.target_part_count, 100);
    assert_eq!(c.current_part_count, 0);
}

#[test]
fn unreported_removal_keeps_the_count() {
    let mut c = FileOccupyConfig::new(50, 1);
    assert!(c.update(4 * MIB, 4 * MIB));
    follow_steps(&mut c);
    assert!(c.update(4 * MIB, 0));
    assert_eq!(c.target_part_count, 0);
    assert_eq!(c.next_step(), StorageStep::Remove);
    assert_eq!(c.take_last_part(), 1);
    // The file was not removed: the count stays, the list shrinks.
    assert_eq!(c.current_part_count, 2);
    assert_eq!(c.used_parts, vec![0]);
    assert_eq!(c.target_part_count, 0);
    assert_eq!(c.next_step(), StorageStep::Remove);
}

#[test]
fn unreported_creation_changes_nothing() {
    let mut c = FileOccupyConfig::new(50, 1);
    assert!(c.update(10 * MIB, 10 * MIB));
    c.part_created(0);
    // The file of part 1 could not be written: nothing is recorded.
    assert_eq!(c.next_step(), StorageStep::Create(1));
    assert_eq!(c.target_part_count, 5);
    assert_eq!(c.current_part_count, 1);
    assert_eq!(c.used_parts, vec![0]);
}

#[test]
fn storage_can_update_refuses_what_would_fail() {
    let mut c = FileOccupyConfig::new(50, 1);
    c.current_part_count = 3;
    assert!(!c.can_update(10 * MIB, 9 * MIB));
    assert!(!FileOccupyConfig::new(50, 0).can_update(10 * MIB, 10 * MIB));
    assert!(!FileOccupyConfig::new(7, 1).can_update(u64::MAX, 0));
}

#[test]
fn part_file_paths() {
    assert_eq!(
        FileOccupyConfig::part_file_path(12),
        "./storage_bucket_occupier_r_dsd1sakmf/12.tmp"
    );
    assert_eq!(
        FileOccupyConfig::part_file_path(0),
        "./storage_bucket_occupier_r_dsd1sakmf/0.tmp"
    );
    assert_eq!(
        FileOccupyConfig::part_file_path(4096),
        "./storage_bucket_occupier_r_dsd1sakmf/4096.tmp"
    );
}

#[test]
fn write_lengths() {
    assert_eq!(next_write_len(5, 16), 5);
    assert_eq!(next_write_len(16, 16), 16);
    assert_eq!(next_write_len(40, 16), 16);
    assert_eq!(next_write_len(0, 16), 0);
}
