//! The backup classifier: turns a settled change event into the kind of
//! backup to produce, from the live checksum manifest, the most recent
//! non-temporary backup, and the profile's interval settings.

use vstd::prelude::*;
use crate::compare::{hash_list_cmp, spec_compare, BackupComparison};
use crate::meta::{clone_meta, meta_matches, SavegameMeta};
use crate::profile::{interval_duration, spec_interval_millis, ProfileIntervalUnit};

verus! {

/// The classifier's verdict for one settled change.
#[derive(Clone, Copy, Debug, PartialEq, Eq, Structural)]
pub enum BackupDecision {
    /// Keep outright: detection is off, no prior backup exists, or the live
    /// state is a wholly different save.
    Keeper,
    /// Hold as the single disposable slot: a partial change close in time to
    /// the prior backup.
    Temporary,
    /// Promote to a rotated snapshot: a partial change older than the
    /// configured interval.
    Automatic,
    /// Create nothing: the live state already matches the prior backup.
    NoBackup,
}

/// The decision table: keeper when detection is off, no prior non-temporary
/// backup exists, or the live state shares nothing with it; for a partial
/// overlap, automatic once the interval has elapsed since the prior backup
/// and temporary before that; nothing when the live state already matches.
pub open spec fn spec_decide(
    manual_save_detection: bool,
    live: Seq<(String, String)>,
    prior: Option<SavegameMeta>,
    now_ms: int,
    interval: u16,
    unit: ProfileIntervalUnit,
) -> BackupDecision {
    if !manual_save_detection {
        BackupDecision::Keeper
    } else {
        match prior {
            None => BackupDecision::Keeper,
            Some(p) => match spec_compare(live, p.checksums@) {
                BackupComparison::CompleteDiff => BackupDecision::Keeper,
                BackupComparison::PartialDiff => if now_ms - p.date
                    > spec_interval_millis(interval, unit) {
                    BackupDecision::Automatic
                } else {
                    BackupDecision::Temporary
                },
                BackupComparison::NoDiff => BackupDecision::NoBackup,
            },
        }
    }
}

/// Classifies one settled change, implementing the decision table exactly.
pub fn choose_backup_kind(
    manual_save_detection: bool,
    live_hashes: &Vec<(String, String)>,
    prior: &Option<SavegameMeta>,
    now_ms: i64,
    interval: u16,
    unit: &ProfileIntervalUnit,
) -> (r: BackupDecision)
    ensures
        r == spec_decide(manual_save_detection, live_hashes@, *prior, now_ms as int, interval, *unit),
{
    if !manual_save_detection {
        return BackupDecision::Keeper;
    }
    match prior {
        None => BackupDecision::Keeper,
        Some(p) => {
            match hash_list_cmp(live_hashes, &p.checksums) {
                BackupComparison::CompleteDiff => BackupDecision::Keeper,
                BackupComparison::PartialDiff => {
                    let elapsed: i128 = now_ms as i128 - p.date as i128;
                    if elapsed > interval_duration(interval, unit) as i128 {
                        BackupDecision::Automatic
                    } else {
                        BackupDecision::Temporary
                    }
                },
                BackupComparison::NoDiff => BackupDecision::NoBackup,
            }
        },
    }
}

/// Index of the first entry of `s` that is not a temporary backup.
pub open spec fn first_non_temp_index(s: Seq<SavegameMeta>) -> Option<int>
    decreases s.len(),
{
    if s.len() == 0 {
        None
    } else if !crate::meta::spec_is_temp_name(s[0].name@) {
        Some(0)
    } else {
        match first_non_temp_index(s.drop_first()) {
            None => None,
            Some(i) => Some(i + 1),
        }
    }
}

proof fn lemma_first_non_temp_index(s: Seq<SavegameMeta>, k: int)
    requires
        0 <= k < s.len(),
        !crate::meta::spec_is_temp_name(s[k].name@),
        forall|m: int| 0 <= m < k ==> crate::meta::spec_is_temp_name((#[trigger] s[m]).name@),
    ensures
        first_non_temp_index(s) == Some(k),
    decreases k,
{
    if k > 0 {
        lemma_first_non_temp_index(s.drop_first(), k - 1);
    }
}

proof fn lemma_first_non_temp_index_none(s: Seq<SavegameMeta>)
    requires
        forall|m: int| 0 <= m < s.len() ==> crate::meta::spec_is_temp_name((#[trigger] s[m]).name@),
    ensures
        first_non_temp_index(s) is None,
    decreases s.len(),
{
    if s.len() > 0 {
        lemma_first_non_temp_index_none(s.drop_first());
    }
}

/// The most recent non-temporary backup: the first such entry of a list that
/// is sorted newest first.
pub fn get_latest_non_temp(backups: &Vec<SavegameMeta>) -> (r: Option<SavegameMeta>)
    ensures
        match r {
            Some(m) => {
                &&& first_non_temp_index(backups@) is Some
                &&& meta_matches(backups@[first_non_temp_index(backups@).unwrap()], m)
            },
            None => first_non_temp_index(backups@) is None,
        },
{
    let mut i: usize = 0;
    while i < backups.len()
        invariant
            i <= backups@.len(),
            forall|m: int| 0 <= m < i ==> crate::meta::spec_is_temp_name(
                (#[trigger] backups@[m]).name@,
            ),
        decreases backups@.len() - i,
    {
        if !backups[i].is_temp() {
            proof {
                lemma_first_non_temp_index(backups@, i as int);
            }
            return Some(clone_meta(&backups[i]));
        }
        i += 1;
    }
    proof {
        lemma_first_non_temp_index_none(backups@);
    }
    None
}

/// Index of the first backup whose manifest the live manifest already
/// matches in full.
pub open spec fn first_current_index(live: Seq<(String, String)>, s: Seq<SavegameMeta>) -> Option<int>
    decreases s.len(),
{
    if s.len() == 0 {
        None
    } else if spec_compare(live, s[0].checksums@) is NoDiff {
        Some(0)
    } else {
        match first_current_index(live, s.drop_first()) {
            None => None,
            Some(i) => Some(i + 1),
        }
    }
}

proof fn lemma_first_current_index(live: Seq<(String, String)>, s: Seq<SavegameMeta>, k: int)
    requires
        0 <= k < s.len(),
        spec_compare(live, s[k].checksums@) is NoDiff,
        forall|m: int| 0 <= m < k ==> !(spec_compare(live, (#[trigger] s[m]).checksums@) is NoDiff),
    ensures
        first_current_index(live, s) == Some(k),
    decreases k,
{
    if k > 0 {
        lemma_first_current_index(live, s.drop_first(), k - 1);
    }
}

proof fn lemma_first_current_index_none(live: Seq<(String, String)>, s: Seq<SavegameMeta>)
    requires
        forall|m: int| 0 <= m < s.len() ==> !(spec_compare(live, (#[trigger] s[m]).checksums@) is NoDiff),
    ensures
        first_current_index(live, s) is None,
    decreases s.len(),
{
    if s.len() > 0 {
        lemma_first_current_index_none(live, s.drop_first());
    }
}

/// Finds the backup the source directory currently corresponds to: the first
/// one in the list whose manifest the live manifest matches in full.
pub fn find_current_backup(live: &Vec<(String, String)>, backups: &Vec<SavegameMeta>) -> (r: Option<usize>)
    ensures
        match r {
            Some(k) => first_current_index(live@, backups@) == Some(k as int),
            None => first_current_index(live@, backups@) is None,
        },
{
    let mut i: usize = 0;
    while i < backups.len()
        invariant
            i <= backups@.len(),
            forall|m: int| 0 <= m < i ==> !(spec_compare(live@, (#[trigger] backups@[m]).checksums@)
                is NoDiff),
        decreases backups@.len() - i,
    {
        if !hash_list_cmp(live, &backups[i].checksums).differs() {
            proof {
                lemma_first_current_index(live@, backups@, i as int);
            }
            return Some(i);
        }
        i += 1;
    }
    proof {
        lemma_first_current_index_none(live@, backups@);
    }
    None
}

} // verus!
