//! Savegame protection library: checksum manifests, backup classification,
//! retention planning, and restore planning for a watched save directory.
//!
//! The library holds the decision logic; file-system work, the watcher and
//! the GUI drive it from outside through plain values.

pub mod cache;
pub mod classify;
pub mod compare;
pub mod coordinator;
pub mod meta;
pub mod names;
pub mod profile;
pub mod restore;
pub mod retention;

pub use cache::BackupCache;
pub use classify::{choose_backup_kind, find_current_backup, get_latest_non_temp, BackupDecision};
pub use compare::{hash_list_cmp, BackupComparison};
pub use coordinator::{backup_tick, collect_backup, conclude_backup, screenshot_tick, watch_event_step};
pub use meta::{BackupError, BackupState, SavegameMeta, ScreenshotState};
pub use names::{backup_name_for, exit_name_for, fresh_backup_name, sanitize_backup_name};
pub use profile::{interval_duration, selected_profile_index, ProfileIntervalUnit, SavegameManagerProfile};
pub use restore::{plan_restore, RestorePlan};
pub use retention::{deal_with_exit_save, plan_autosave, plan_temp_clear, sort_backups_desc, ExitPlan, RetentionPlan};
