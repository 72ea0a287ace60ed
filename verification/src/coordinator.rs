//! The poll-driven coordinators' decisions: what one watcher event, one
//! screenshot tick, one backup tick, or one finished backup run changes.
//!
//! The decisions are pure; the caller owns the shared state cells and the
//! background threads, performs the actions decided here, and hands the
//! observed state back on the next tick.

use vstd::prelude::*;
use crate::meta::{BackupState, ScreenshotState};

verus! {

/// What one delivered file-system event changes.
#[derive(Clone, Copy, Debug, PartialEq, Eq, Structural)]
pub struct WatchStep {
    /// Mark changes pending and stamp the time of this change.
    pub record_change: bool,
    /// Reset the screenshot cycle for the newly begun burst of changes.
    pub reset_screenshot: bool,
}

/// A watcher event counts only while the watcher is not paused and only
/// when at least one regular file changed; the screenshot cycle restarts
/// when the event begins a new burst of changes.
pub open spec fn spec_watch_event_step(
    paused: bool,
    any_file_changed: bool,
    changes_pending: bool,
) -> WatchStep {
    WatchStep {
        record_change: !paused && any_file_changed,
        reset_screenshot: !paused && any_file_changed && !changes_pending,
    }
}

/// Decides what one delivered watcher event changes.
pub fn watch_event_step(paused: bool, any_file_changed: bool, changes_pending: bool) -> (r:
    WatchStep)
    ensures
        r == spec_watch_event_step(paused, any_file_changed, changes_pending),
{
    if paused || !any_file_changed {
        WatchStep { record_change: false, reset_screenshot: false }
    } else {
        WatchStep { record_change: true, reset_screenshot: !changes_pending }
    }
}

/// What one screenshot poll tick does.
#[derive(Clone, Copy, Debug, PartialEq, Eq, Structural)]
pub struct ScreenshotTick {
    /// Mark the screenshot cell busy and dispatch a capture.
    pub start_capture: bool,
    /// Surface the capture error to the user.
    pub report_error: bool,
    /// The backup must keep waiting for the screenshot.
    pub wait: bool,
}

/// With screenshots disabled nothing happens and nothing is waited for;
/// otherwise an idle cycle starts a capture, a running one is waited for,
/// and a terminal state releases the backup, reporting a failed capture.
pub open spec fn spec_screenshot_tick(enabled: bool, state: ScreenshotState) -> ScreenshotTick {
    if !enabled {
        ScreenshotTick { start_capture: false, report_error: false, wait: false }
    } else {
        match state {
            ScreenshotState::Idle => ScreenshotTick {
                start_capture: true,
                report_error: false,
                wait: true,
            },
            ScreenshotState::Busy => ScreenshotTick {
                start_capture: false,
                report_error: false,
                wait: true,
            },
            ScreenshotState::Error => ScreenshotTick {
                start_capture: false,
                report_error: true,
                wait: false,
            },
            ScreenshotState::Finished => ScreenshotTick {
                start_capture: false,
                report_error: false,
                wait: false,
            },
        }
    }
}

/// Decides what one screenshot poll tick does.
pub fn screenshot_tick(enabled: bool, state: &ScreenshotState) -> (r: ScreenshotTick)
    ensures
        r == spec_screenshot_tick(enabled, *state),
{
    if !enabled {
        ScreenshotTick { start_capture: false, report_error: false, wait: false }
    } else {
        match state {
            ScreenshotState::Idle => ScreenshotTick {
                start_capture: true,
                report_error: false,
                wait: true,
            },
            ScreenshotState::Busy => ScreenshotTick {
                start_capture: false,
                report_error: false,
                wait: true,
            },
            ScreenshotState::Error => ScreenshotTick {
                start_capture: false,
                report_error: true,
                wait: false,
            },
            ScreenshotState::Finished => ScreenshotTick {
                start_capture: false,
                report_error: false,
                wait: false,
            },
        }
    }
}

/// What one backup poll tick does.
#[derive(Clone, Copy, Debug, PartialEq, Eq, Structural)]
pub struct BackupTick {
    /// Mark the backup cell busy and dispatch classification and creation.
    pub start_backup: bool,
    /// Collect the finished run: surface its outcome and go idle again.
    pub finish_up: bool,
}

/// The quiet period one settled change must outlast before a backup may
/// start, in milliseconds.
pub open spec fn debounce_millis() -> int {
    1000
}

/// An idle cell starts a backup once the last change is older than the
/// debounce window and no screenshot is pending; a busy cell only waits; a
/// finished cell is collected.
pub open spec fn spec_backup_tick(
    state: BackupState,
    now_ms: int,
    last_change_ms: int,
    wait_for_screenshot: bool,
) -> BackupTick {
    match state {
        BackupState::Idle => BackupTick {
            start_backup: now_ms - last_change_ms > debounce_millis() && !wait_for_screenshot,
            finish_up: false,
        },
        BackupState::Busy => BackupTick { start_backup: false, finish_up: false },
        BackupState::Finished => BackupTick { start_backup: false, finish_up: true },
    }
}

/// Decides what one backup poll tick does.
pub fn backup_tick(
    state: &BackupState,
    now_ms: i64,
    last_change_ms: i64,
    wait_for_screenshot: bool,
) -> (r: BackupTick)
    ensures
        r == spec_backup_tick(*state, now_ms as int, last_change_ms as int, wait_for_screenshot),
{
    match state {
        BackupState::Idle => {
            let elapsed: i128 = now_ms as i128 - last_change_ms as i128;
            BackupTick {
                start_backup: elapsed > 1000 && !wait_for_screenshot,
                finish_up: false,
            }
        },
        BackupState::Busy => BackupTick { start_backup: false, finish_up: false },
        BackupState::Finished => BackupTick { start_backup: false, finish_up: true },
    }
}

/// What collecting one finished backup run does.
#[derive(Clone, Copy, Debug, PartialEq, Eq, Structural)]
pub struct BackupCollection {
    /// Surface the failure text to the user.
    pub report_error: bool,
    /// Read the new backup back from the store to confirm it.
    pub confirm_backup: bool,
}

/// Collecting a finished run: a non-empty error cell is surfaced, otherwise
/// a non-empty name cell is confirmed by reading the backup back; either
/// way the run is over — the state cell returns to idle and the pending
/// change counts as handled.
pub fn collect_backup(error: &String, backup_name: &String) -> (r: BackupCollection)
    ensures
        r.report_error == (error@.len() > 0),
        r.confirm_backup == (error@.len() == 0 && backup_name@.len() > 0),
{
    if !error.as_str().is_empty() {
        BackupCollection { report_error: true, confirm_backup: false }
    } else {
        BackupCollection {
            report_error: false,
            confirm_backup: !backup_name.as_str().is_empty(),
        }
    }
}

/// The values the three shared backup cells take when a backup run ends.
#[derive(Debug)]
pub struct BackupOutcome {
    pub error: String,
    pub name: String,
    pub state: BackupState,
}

/// Concludes a backup run: the state cell always turns `Finished`; the name
/// cell carries the new backup's name only on success, and the error cell
/// carries the failure text only when the copy itself failed. Empty source
/// or destination paths fail silently, as no backup can be taken.
pub fn conclude_backup(paths_ok: bool, copy_ok: bool, backup_name: &String, error_text: String) -> (r:
    BackupOutcome)
    ensures
        r.state is Finished,
        r.name@ == if paths_ok && copy_ok {
            backup_name@
        } else {
            Seq::<char>::empty()
        },
        r.error@ == if paths_ok && !copy_ok {
            error_text@
        } else {
            Seq::<char>::empty()
        },
{
    if !paths_ok {
        BackupOutcome { error: String::new(), name: String::new(), state: BackupState::Finished }
    } else if copy_ok {
        BackupOutcome {
            error: String::new(),
            name: backup_name.clone(),
            state: BackupState::Finished,
        }
    } else {
        BackupOutcome { error: error_text, name: String::new(), state: BackupState::Finished }
    }
}

} // verus!
