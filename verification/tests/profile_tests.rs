use savegame_manager::{selected_profile_index, ProfileIntervalUnit, SavegameManagerProfile};

#[test]
fn default_profile_settings() {
    let p = SavegameManagerProfile::default();
    assert!(!p.selected);
    assert_eq!(p.name, "");
    assert_eq!(p.src_path, "");
    assert_eq!(p.dst_path, "");
    assert!(p.screenshots);
    assert!(p.manual_save_detection);
    assert_eq!(p.auto_saves_max, 12);
    assert_eq!(p.auto_saves_interval, 5);
    assert!(matches!(
        p.auto_saves_interval_unit,
        savegame_manager::ProfileIntervalUnit::Minutes
    ));
}

#[test]
fn interval_unit_labels() {
    assert_eq!(ProfileIntervalUnit::Seconds.label(), "seconds");
    assert_eq!(ProfileIntervalUnit::Minutes.label(), "minutes");
    assert_eq!(ProfileIntervalUnit::Hours.label(), "hours");
}

#[test]
fn first_selected_profile_wins() {
    let mut a = SavegameManagerProfile::default();
    a.name = "first".to_string();
    let mut b = SavegameManagerProfile::default();
    b.name = "second".to_string();
    b.selected = true;
    let mut c = SavegameManagerProfile::default();
    c.name = "third".to_string();
    c.selected = true;
    let profiles = vec![a, b, c];
    assert_eq!(selected_profile_index(&profiles), Some(1));
}

#[test]
fn no_selected_profile_yields_none() {
    let profiles = vec![SavegameManagerProfile::default(), SavegameManagerProfile::default()];
    assert_eq!(selected_profile_index(&profiles), None);
}
