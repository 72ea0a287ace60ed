use savegame_manager::{
    choose_backup_kind, find_current_backup, get_latest_non_temp, interval_duration,
    BackupDecision, ProfileIntervalUnit, SavegameMeta,
};

fn list(pairs: &[(&str, &str)]) -> Vec<(String, String)> {
    pairs.iter().map(|(n, h)| (n.to_string(), h.to_string())).collect()
}

fn meta(name: &str, date: i64, pairs: &[(&str, &str)]) -> SavegameMeta {
    SavegameMeta { name: name.to_string(), date, checksums: list(pairs) }
}

#[test]
fn detection_off_means_keeper() {
    let live = list(&[("a.txt", "h1")]);
    let prior = Some(meta("2024-01-01_00-00-00", 0, &[("a.txt", "h1")]));
    let r = choose_backup_kind(false, &live, &prior, 1_000_000, 5, &ProfileIntervalUnit::Minutes);
    assert_eq!(r, BackupDecision::Keeper);
}

#[test]
fn no_prior_backup_means_keeper() {
    let live = list(&[("a.txt", "h1")]);
    let r = choose_backup_kind(true, &live, &None, 1_000_000, 5, &ProfileIntervalUnit::Minutes);
    assert_eq!(r, BackupDecision::Keeper);
}

#[test]
fn complete_diff_means_keeper() {
    let live = list(&[("save.dat", "new")]);
    let prior = Some(meta("2024-01-01_00-00-00", 0, &[("save.dat", "old")]));
    let r = choose_backup_kind(true, &live, &prior, 60_000, 5, &ProfileIntervalUnit::Minutes);
    assert_eq!(r, BackupDecision::Keeper);
}

#[test]
fn matching_live_state_means_no_backup() {
    // Source {a.txt: h1, b.txt: h2} against an identical prior keeper.
    let live = list(&[("a.txt", "h1"), ("b.txt", "h2")]);
    let prior = Some(meta("2024-01-01_00-00-00", 0, &[("a.txt", "h1"), ("b.txt", "h2")]));
    let r = choose_backup_kind(true, &live, &prior, 60_000, 5, &ProfileIntervalUnit::Minutes);
    assert_eq!(r, BackupDecision::NoBackup);
}

#[test]
fn asymmetric_subset_means_no_backup() {
    // Source {a.txt: h1} against a larger prior keeper: still no backup.
    let live = list(&[("a.txt", "h1")]);
    let prior = Some(meta("2024-01-01_00-00-00", 0, &[("a.txt", "h1"), ("b.txt", "h2")]));
    let r = choose_backup_kind(true, &live, &prior, 60_000, 5, &ProfileIntervalUnit::Minutes);
    assert_eq!(r, BackupDecision::NoBackup);
}

#[test]
fn stale_partial_change_means_automatic() {
    // Changed a.txt, same file name: partial; ten minutes past a five-minute interval.
    let live = list(&[("a.txt", "h3"), ("b.txt", "h2")]);
    let prior = Some(meta("2024-01-01_00-00-00", 0, &[("a.txt", "h1"), ("b.txt", "h2")]));
    let r = choose_backup_kind(true, &live, &prior, 600_000, 5, &ProfileIntervalUnit::Minutes);
    assert_eq!(r, BackupDecision::Automatic);
}

#[test]
fn recent_partial_change_means_temporary() {
    // Same change, but only one minute has elapsed.
    let live = list(&[("a.txt", "h3"), ("b.txt", "h2")]);
    let prior = Some(meta("2024-01-01_00-00-00", 0, &[("a.txt", "h1"), ("b.txt", "h2")]));
    let r = choose_backup_kind(true, &live, &prior, 60_000, 5, &ProfileIntervalUnit::Minutes);
    assert_eq!(r, BackupDecision::Temporary);
}

#[test]
fn elapsed_exactly_at_interval_means_temporary() {
    let live = list(&[("a.txt", "h3"), ("b.txt", "h2")]);
    let prior = Some(meta("2024-01-01_00-00-00", 0, &[("a.txt", "h1"), ("b.txt", "h2")]));
    let r = choose_backup_kind(true, &live, &prior, 300_000, 5, &ProfileIntervalUnit::Minutes);
    assert_eq!(r, BackupDecision::Temporary);
    let r = choose_backup_kind(true, &live, &prior, 300_001, 5, &ProfileIntervalUnit::Minutes);
    assert_eq!(r, BackupDecision::Automatic);
}

#[test]
fn latest_non_temp_skips_temporaries() {
    let backups = vec![
        meta("temp_2024-01-03_00-00-00", 3, &[]),
        meta("2024-01-02_00-00-00", 2, &[("a.txt", "h1")]),
        meta("auto_2024-01-01_00-00-00", 1, &[]),
    ];
    let found = get_latest_non_temp(&backups).expect("keeper expected");
    assert_eq!(found.name, "2024-01-02_00-00-00");
    assert_eq!(found.date, 2);
    assert_eq!(found.checksums, vec![("a.txt".to_string(), "h1".to_string())]);
}

#[test]
fn latest_non_temp_of_only_temporaries_is_none() {
    let backups = vec![
        meta("temp_2024-01-03_00-00-00", 3, &[]),
        meta("temp_2024-01-02_00-00-00", 2, &[]),
    ];
    assert!(get_latest_non_temp(&backups).is_none());
}

#[test]
fn find_current_backup_picks_first_full_match() {
    let live = list(&[("a.txt", "h1")]);
    let backups = vec![
        meta("new", 3, &[("a.txt", "other")]),
        meta("match1", 2, &[("a.txt", "h1"), ("extra.txt", "h5")]),
        meta("match2", 1, &[("a.txt", "h1")]),
    ];
    assert_eq!(find_current_backup(&live, &backups), Some(1));
    assert_eq!(find_current_backup(&list(&[("z.txt", "h9")]), &backups), None);
}

#[test]
fn interval_duration_per_unit() {
    assert_eq!(interval_duration(7, &ProfileIntervalUnit::Seconds), 7_000);
    assert_eq!(interval_duration(5, &ProfileIntervalUnit::Minutes), 300_000);
    assert_eq!(interval_duration(2, &ProfileIntervalUnit::Hours), 7_200_000);
    assert_eq!(interval_duration(0, &ProfileIntervalUnit::Hours), 0);
    assert_eq!(interval_duration(u16::MAX, &ProfileIntervalUnit::Hours), 65_535i64 * 3_600_000);
}
