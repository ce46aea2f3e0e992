use get_huawei_market::batch::{
    merge_packages, shuffle_packages, tally_wave, wave_count, BatchProgress, Random, SyncOutcome,
};
use get_huawei_market::status::{
    end_sync_all, get_sync_status, reset_sync_status, start_sync_all, update_sync_progress,
    GlobalSyncStatus,
};

#[test]
fn batch_of_failing_items_completes_with_exact_counts() {
    // 2,500 identifiers in waves of 1,000; 3 of them always fail.
    let mut outcomes: Vec<SyncOutcome> = Vec::new();
    for i in 0..2500usize {
        if i == 17 || i == 1203 || i == 2404 {
            outcomes.push(SyncOutcome::Failed);
        } else if i % 2 == 0 {
            outcomes.push(SyncOutcome::Inserted);
        } else {
            outcomes.push(SyncOutcome::Skipped);
        }
    }
    assert_eq!(wave_count(2500, 1000), 3);

    let mut progress = BatchProgress::new(5000);
    for wave in outcomes.chunks(1000) {
        let wave: Vec<SyncOutcome> = wave.to_vec();
        let tally = tally_wave(&wave);
        progress.record_wave(&tally);
    }
    progress.finish(9000);

    assert_eq!(progress.processed, 2500);
    assert_eq!(progress.failed, 3);
    assert_eq!(progress.inserted + progress.skipped, 2497);
    assert_eq!(progress.started_at_nanos, 5000);
    assert_eq!(progress.finished_at_nanos, 9000);
}

#[test]
fn wave_count_rounds_up() {
    assert_eq!(wave_count(0, 1000), 0);
    assert_eq!(wave_count(1, 1000), 1);
    assert_eq!(wave_count(1000, 1000), 1);
    assert_eq!(wave_count(1001, 1000), 2);
}

#[test]
fn generator_steps_are_the_fixed_recurrence() {
    // A clock-seeded generator advances like any other.
    let mut seeded = Random::new();
    let s0 = seeded.state;
    assert_eq!(seeded.next(), s0.wrapping_mul(1664525).wrapping_add(1013904223));

    let mut rng = Random { state: 1 };
    assert_eq!(rng.next(), 1u64.wrapping_mul(1664525).wrapping_add(1013904223));
    let s = rng.state;
    assert_eq!(rng.next(), s.wrapping_mul(1664525).wrapping_add(1013904223));
}

#[test]
fn shuffle_keeps_exactly_the_same_entries() {
    let mut v: Vec<String> = vec!["d", "a", "c", "b", "a"].into_iter().map(String::from).collect();
    let mut expected = v.clone();
    shuffle_packages(&mut v, 42);
    let mut shuffled = v.clone();
    expected.sort();
    shuffled.sort();
    assert_eq!(shuffled, expected);
}

#[test]
fn merged_package_lists_are_sorted_and_unique() {
    let configured: Vec<String> = vec!["com.b", "com.a"].into_iter().map(String::from).collect();
    let stored: Vec<String> = vec!["com.c", "com.a"].into_iter().map(String::from).collect();
    let merged = merge_packages(&configured, &stored);
    assert_eq!(merged, vec!["com.a".to_string(), "com.b".to_string(), "com.c".to_string()]);
}

#[test]
fn status_follows_a_run() {
    let mut status = GlobalSyncStatus::new();
    start_sync_all(&mut status, 2500, 1_000_000_000);
    update_sync_progress(&mut status, 1000, 1000, 600, 397, 3);
    let info = get_sync_status(&status, 3_000_000_000, 60);
    assert!(info.is_syncing_all);
    assert_eq!(info.progress, (1000, 2500));
    assert_eq!(info.total_failed, 3);
    assert_eq!(info.elapsed_time, Some(2_000_000_000));
    assert_eq!(info.estimated_total_time, Some(2_000_000 * 2500));
    assert_eq!(info.next_sync_countdown, None);

    end_sync_all(&mut status, 4_000_000_000);
    let info = get_sync_status(&status, 5_000_000_000, 60);
    assert!(!info.is_syncing_all);
    assert_eq!(info.elapsed_time, Some(3_000_000_000));
    // 60 s after completion minus the second that has passed.
    assert_eq!(info.next_sync_countdown, Some(59_000_000_000));

    reset_sync_status(&mut status);
    let info = get_sync_status(&status, 6_000_000_000, 60);
    assert_eq!(info.elapsed_time, None);
    assert_eq!(info.next_sync_countdown, None);
}
