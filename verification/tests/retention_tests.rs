use savegame_manager::{deal_with_exit_save, plan_autosave, plan_temp_clear, sort_backups_desc, SavegameMeta};

fn meta(name: &str, date: i64) -> SavegameMeta {
    SavegameMeta { name: name.to_string(), date, checksums: vec![] }
}

fn names(list: &[SavegameMeta]) -> Vec<String> {
    list.iter().map(|m| m.name.clone()).collect()
}

#[test]
fn sort_is_newest_first() {
    let backups = vec![meta("b", 1), meta("a", 3), meta("c", 2)];
    let sorted = sort_backups_desc(backups);
    assert_eq!(names(&sorted), vec!["a", "c", "b"]);
}

#[test]
fn sort_keeps_order_of_equal_dates() {
    let backups = vec![meta("x", 2), meta("y", 2), meta("z", 5)];
    let sorted = sort_backups_desc(backups);
    assert_eq!(names(&sorted), vec!["z", "x", "y"]);
}

#[test]
fn autosave_rotation_keeps_newest_below_cap() {
    let backups = vec![
        meta("auto_1", 10),
        meta("auto_2", 20),
        meta("keeper", 35),
        meta("auto_3", 30),
        meta("temp_1", 40),
        meta("auto_4", 5),
    ];
    let plan = plan_autosave(backups, 3);
    // Walk order: temp_1, keeper, auto_3, auto_2, auto_1, auto_4.
    // The two newest automatic snapshots survive; the third and later are
    // deleted, and the temporary backup always is.
    assert_eq!(names(&plan.kept), vec!["keeper", "auto_3", "auto_2"]);
    assert_eq!(plan.doomed, vec!["temp_1", "auto_1", "auto_4"]);

    // Recording the new automatic snapshot stays within the cap of three.
    let autos_after = plan.kept.iter().filter(|m| m.name.starts_with("auto_")).count() + 1;
    assert!(autos_after <= 3);
}

#[test]
fn autosave_rotation_with_cap_one_keeps_none() {
    let backups = vec![meta("auto_1", 10), meta("auto_2", 20)];
    let plan = plan_autosave(backups, 1);
    assert!(names(&plan.kept).is_empty());
    assert_eq!(plan.doomed, vec!["auto_2", "auto_1"]);
}

#[test]
fn temp_clear_deletes_every_temporary() {
    let backups = vec![
        meta("temp_old", 1),
        meta("keeper", 2),
        meta("temp_new", 4),
        meta("auto_1", 3),
    ];
    let plan = plan_temp_clear(backups);
    assert_eq!(names(&plan.kept), vec!["auto_1", "keeper"]);
    assert_eq!(plan.doomed, vec!["temp_new", "temp_old"]);
    assert_eq!(plan.kept.iter().filter(|m| m.name.starts_with("temp_")).count(), 0);
}

#[test]
fn exit_save_promotes_newest_temp_and_deletes_the_rest() {
    let backups = vec![
        meta("temp_2024-01-01_00-00-00", 10),
        meta("keeper", 25),
        meta("temp_2024-01-03_00-00-00", 30),
        meta("temp_2024-01-02_00-00-00", 20),
    ];
    let plan = deal_with_exit_save(backups);
    let (old_name, new_name) = plan.rename.expect("a temp slot should be promoted");
    assert_eq!(old_name, "temp_2024-01-03_00-00-00");
    assert_eq!(new_name, "exit_2024-01-03_00-00-00");
    assert_eq!(plan.doomed, vec!["temp_2024-01-02_00-00-00", "temp_2024-01-01_00-00-00"]);
}

#[test]
fn exit_save_without_temps_does_nothing() {
    let backups = vec![meta("keeper", 2), meta("auto_1", 1)];
    let plan = deal_with_exit_save(backups);
    assert!(plan.rename.is_none());
    assert!(plan.doomed.is_empty());
}
