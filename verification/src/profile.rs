//! Profile settings that steer backup classification.

use vstd::prelude::*;
use vstd::string::StringExecFns;

verus! {

/// Unit in which a profile states the automatic-backup interval.
#[derive(Clone, Copy, Debug, PartialEq, Eq, Structural)]
pub enum ProfileIntervalUnit {
    Seconds,
    Minutes,
    Hours,
}

impl ProfileIntervalUnit {
    /// The unit's English name, as shown beside the interval setting.
    pub fn label(&self) -> (r: String)
        ensures
            match self {
                ProfileIntervalUnit::Seconds => r@ == "seconds"@,
                ProfileIntervalUnit::Minutes => r@ == "minutes"@,
                ProfileIntervalUnit::Hours => r@ == "hours"@,
            },
    {
        match self {
            ProfileIntervalUnit::Seconds => String::from_str("seconds"),
            ProfileIntervalUnit::Minutes => String::from_str("minutes"),
            ProfileIntervalUnit::Hours => String::from_str("hours"),
        }
    }
}

/// Length of one interval in milliseconds.
pub open spec fn spec_interval_millis(interval: u16, interval_unit: ProfileIntervalUnit) -> int {
    match interval_unit {
        ProfileIntervalUnit::Seconds => interval * 1_000,
        ProfileIntervalUnit::Minutes => interval * 60_000,
        ProfileIntervalUnit::Hours => interval * 3_600_000,
    }
}

/// Converts a profile's interval setting to milliseconds.
pub fn interval_duration(interval: u16, interval_unit: &ProfileIntervalUnit) -> (r: i64)
    ensures
        r == spec_interval_millis(interval, *interval_unit),
{
    match interval_unit {
        ProfileIntervalUnit::Seconds => interval as i64 * 1_000,
        ProfileIntervalUnit::Minutes => interval as i64 * 60 * 1_000,
        ProfileIntervalUnit::Hours => interval as i64 * 60 * 60 * 1_000,
    }
}

/// One watched game's settings: where its saves live, where backups go, and
/// how change detection and rotation behave.
#[derive(Clone, Debug)]
pub struct SavegameManagerProfile {
    pub selected: bool,
    pub name: String,
    pub src_path: String,
    pub dst_path: String,
    pub screenshots: bool,
    pub manual_save_detection: bool,
    pub auto_saves_max: u16,
    pub auto_saves_interval: u16,
    pub auto_saves_interval_unit: ProfileIntervalUnit,
}

impl Default for SavegameManagerProfile {
    /// A fresh profile: screenshots and save detection on, twelve automatic
    /// snapshots at five-minute intervals, no paths chosen yet.
    fn default() -> (r: Self)
        ensures
            !r.selected,
            r.name@ == Seq::<char>::empty(),
            r.src_path@ == Seq::<char>::empty(),
            r.dst_path@ == Seq::<char>::empty(),
            r.screenshots,
            r.manual_save_detection,
            r.auto_saves_max == 12,
            r.auto_saves_interval == 5,
            r.auto_saves_interval_unit is Minutes,
    {
        SavegameManagerProfile {
            selected: false,
            name: String::new(),
            src_path: String::new(),
            dst_path: String::new(),
            screenshots: true,
            manual_save_detection: true,
            auto_saves_max: 12,
            auto_saves_interval: 5,
            auto_saves_interval_unit: ProfileIntervalUnit::Minutes,
        }
    }
}

/// Index of the first profile marked selected.
pub open spec fn first_selected_index(s: Seq<SavegameManagerProfile>) -> Option<int>
    decreases s.len(),
{
    if s.len() == 0 {
        None
    } else if s[0].selected {
        Some(0)
    } else {
        match first_selected_index(s.drop_first()) {
            None => None,
            Some(i) => Some(i + 1),
        }
    }
}

proof fn lemma_first_selected_index(s: Seq<SavegameManagerProfile>, k: int)
    requires
        0 <= k < s.len(),
        s[k].selected,
        forall|m: int| 0 <= m < k ==> !(#[trigger] s[m]).selected,
    ensures
        first_selected_index(s) == Some(k),
    decreases k,
{
    if k > 0 {
        lemma_first_selected_index(s.drop_first(), k - 1);
    }
}

proof fn lemma_first_selected_index_none(s: Seq<SavegameManagerProfile>)
    requires
        forall|m: int| 0 <= m < s.len() ==> !(#[trigger] s[m]).selected,
    ensures
        first_selected_index(s) is None,
    decreases s.len(),
{
    if s.len() > 0 {
        lemma_first_selected_index_none(s.drop_first());
    }
}

/// The profile to activate on startup: the first one marked selected.
pub fn selected_profile_index(profiles: &Vec<SavegameManagerProfile>) -> (r: Option<usize>)
    ensures
        match r {
            Some(k) => first_selected_index(profiles@) == Some(k as int),
            None => first_selected_index(profiles@) is None,
        },
{
    let mut i: usize = 0;
    while i < profiles.len()
        invariant
            i <= profiles@.len(),
            forall|m: int| 0 <= m < i ==> !(#[trigger] profiles@[m]).selected,
        decreases profiles@.len() - i,
    {
        if profiles[i].selected {
            proof {
                lemma_first_selected_index(profiles@, i as int);
            }
            return Some(i);
        }
        i += 1;
    }
    proof {
        lemma_first_selected_index_none(profiles@);
    }
    None
}

} // verus!
