use savegame_manager::{
    backup_name_for, exit_name_for, fresh_backup_name, sanitize_backup_name, BackupDecision,
};

#[test]
fn keeper_name_is_a_bare_timestamp() {
    let name = fresh_backup_name(&BackupDecision::Keeper).expect("keeper gets a name");
    assert!(!name.is_empty());
    assert!(!name.starts_with("temp_"));
    assert!(!name.starts_with("auto_"));
    assert!(!name.starts_with("exit_"));
    assert!(name.chars().next().unwrap().is_ascii_digit());
}

#[test]
fn backup_name_for_builds_exact_names() {
    let stamp = "2024-06-01_10-20-30";
    assert_eq!(
        backup_name_for(&BackupDecision::Keeper, stamp.to_string()).unwrap(),
        "2024-06-01_10-20-30"
    );
    assert_eq!(
        backup_name_for(&BackupDecision::Temporary, stamp.to_string()).unwrap(),
        "temp_2024-06-01_10-20-30"
    );
    assert_eq!(
        backup_name_for(&BackupDecision::Automatic, stamp.to_string()).unwrap(),
        "auto_2024-06-01_10-20-30"
    );
    assert!(backup_name_for(&BackupDecision::NoBackup, stamp.to_string()).is_none());
}

#[test]
fn temporary_name_carries_the_temp_prefix() {
    let name = fresh_backup_name(&BackupDecision::Temporary).expect("temp gets a name");
    assert!(name.starts_with("temp_"));
    assert!(!name.starts_with("auto_"));
}

#[test]
fn automatic_name_carries_the_auto_prefix() {
    let name = fresh_backup_name(&BackupDecision::Automatic).expect("auto gets a name");
    assert!(name.starts_with("auto_"));
    assert!(!name.starts_with("temp_"));
}

#[test]
fn no_backup_gets_no_name() {
    assert!(fresh_backup_name(&BackupDecision::NoBackup).is_none());
}

#[test]
fn timestamp_part_is_shared_shape() {
    // YYYY-MM-DD_HH-MM-SS: nineteen characters for present-day years.
    let name = fresh_backup_name(&BackupDecision::Keeper).unwrap();
    assert_eq!(name.len(), 19);
    let name = fresh_backup_name(&BackupDecision::Temporary).unwrap();
    assert_eq!(name.len(), 24);
}

#[test]
fn exit_name_swaps_the_prefix() {
    let renamed = exit_name_for(&"temp_2024-01-03_12-30-00".to_string());
    assert_eq!(renamed, "exit_2024-01-03_12-30-00");
}

#[test]
fn sanitize_strips_forbidden_characters_and_trims() {
    assert_eq!(sanitize_backup_name(&"  a<b>:c  ".to_string()), "abc");
    assert_eq!(sanitize_backup_name(&"a/b\\c|d?e*f".to_string()), "abcdef");
    assert_eq!(sanitize_backup_name(&"\"quoted\"".to_string()), "quoted");
    assert_eq!(sanitize_backup_name(&"plain name".to_string()), "plain name");
    assert_eq!(sanitize_backup_name(&"   ".to_string()), "");
    assert_eq!(sanitize_backup_name(&"<>:?*".to_string()), "");
    assert_eq!(sanitize_backup_name(&"".to_string()), "");
}
