use savegame_manager::{plan_restore, BackupError, SavegameMeta};

fn list(pairs: &[(&str, &str)]) -> Vec<(String, String)> {
    pairs.iter().map(|(n, h)| (n.to_string(), h.to_string())).collect()
}

fn backup() -> SavegameMeta {
    SavegameMeta {
        name: "2024-01-01_00-00-00".to_string(),
        date: 0,
        checksums: list(&[("a.txt", "h1"), ("b.txt", "h2")]),
    }
}

#[test]
fn restore_without_pausing_the_watcher_is_refused() {
    let live = list(&[("c.txt", "h3")]);
    let r = plan_restore(false, &live, &backup());
    assert_eq!(r, Err(BackupError::ConcurrencyViolation));
}

#[test]
fn restore_of_a_differing_source_deletes_then_copies() {
    let live = list(&[("a.txt", "stale"), ("junk.txt", "h9")]);
    let plan = plan_restore(true, &live, &backup())
        .expect("paused restore is allowed")
        .expect("a differing source needs file operations");
    assert_eq!(plan.delete, vec!["a.txt", "junk.txt"]);
    assert_eq!(plan.copy, vec!["a.txt", "b.txt"]);
}

#[test]
fn restore_of_a_matching_source_is_a_no_op() {
    let live = list(&[("a.txt", "h1"), ("b.txt", "h2")]);
    let r = plan_restore(true, &live, &backup());
    assert_eq!(r, Ok(None));
}

#[test]
fn second_restore_performs_no_file_operations() {
    // First restore: the source differs, so files are deleted and copied;
    // afterwards the source holds exactly the backup's files.
    let live = list(&[("a.txt", "stale")]);
    let first = plan_restore(true, &live, &backup()).unwrap();
    assert!(first.is_some());

    // Hashing the restored source yields the backup's own manifest, and the
    // immediate second restore finds nothing to do.
    let live_after = backup().checksums;
    let second = plan_restore(true, &live_after, &backup());
    assert_eq!(second, Ok(None));
}
