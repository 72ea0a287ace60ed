//! Directional comparison of two checksum manifests.
//!
//! The comparison asks one question: does everything currently in the live
//! directory already exist, byte-identical, in the target manifest? Entries
//! present only in the target never affect the verdict.

use vstd::prelude::*;

verus! {

/// Three-valued verdict of comparing a live manifest against a target.
#[derive(Clone, Copy, Debug, PartialEq, Eq, Structural)]
pub enum BackupComparison {
    CompleteDiff,
    PartialDiff,
    NoDiff,
}

impl BackupComparison {
    /// True unless the two manifests were found identical.
    pub fn differs(self) -> (r: bool)
        ensures
            r == !(self is NoDiff),
    {
        match self {
            BackupComparison::CompleteDiff => true,
            BackupComparison::PartialDiff => true,
            BackupComparison::NoDiff => false,
        }
    }
}

/// Hash recorded in `target` for the first entry named `name`, if any.
pub open spec fn lookup_hash(target: Seq<(String, String)>, name: Seq<char>) -> Option<Seq<char>>
    decreases target.len(),
{
    if target.len() == 0 {
        None
    } else if target[0].0@ == name {
        Some(target[0].1@)
    } else {
        lookup_hash(target.drop_first(), name)
    }
}

/// `target` records the entry's file under the identical hash.
pub open spec fn entry_matches(target: Seq<(String, String)>, entry: (String, String)) -> bool {
    lookup_hash(target, entry.0@) == Some(entry.1@)
}

/// Every live entry is matched by `target`.
pub open spec fn all_entries_match(live: Seq<(String, String)>, target: Seq<(String, String)>) -> bool {
    forall|i: int| 0 <= i < live.len() ==> entry_matches(target, #[trigger] live[i])
}

/// At least one live entry is matched by `target`.
pub open spec fn some_entry_matches(live: Seq<(String, String)>, target: Seq<(String, String)>) -> bool {
    exists|i: int| 0 <= i < live.len() && entry_matches(target, #[trigger] live[i])
}

/// The verdict of the directional comparison: `NoDiff` when every live entry
/// matches (vacuously so for an empty live manifest), `PartialDiff` when only
/// some do, `CompleteDiff` when none does.
pub open spec fn spec_compare(live: Seq<(String, String)>, target: Seq<(String, String)>) -> BackupComparison {
    if all_entries_match(live, target) {
        BackupComparison::NoDiff
    } else if some_entry_matches(live, target) {
        BackupComparison::PartialDiff
    } else {
        BackupComparison::CompleteDiff
    }
}

proof fn lemma_lookup_at_first(target: Seq<(String, String)>, name: Seq<char>, k: int)
    requires
        0 <= k < target.len(),
        target[k].0@ == name,
        forall|m: int| 0 <= m < k ==> (#[trigger] target[m]).0@ != name,
    ensures
        lookup_hash(target, name) == Some(target[k].1@),
    decreases k,
{
    if k > 0 {
        lemma_lookup_at_first(target.drop_first(), name, k - 1);
    }
}

proof fn lemma_lookup_absent(target: Seq<(String, String)>, name: Seq<char>)
    requires
        forall|m: int| 0 <= m < target.len() ==> (#[trigger] target[m]).0@ != name,
    ensures
        lookup_hash(target, name) is None,
    decreases target.len(),
{
    if target.len() > 0 {
        lemma_lookup_absent(target.drop_first(), name);
    }
}

/// Index of the first entry of `list` carrying the file name `name`, if any.
fn find_name(list: &Vec<(String, String)>, name: &String) -> (r: Option<usize>)
    ensures
        match r {
            Some(k) => {
                &&& k < list@.len()
                &&& list@[k as int].0@ == name@
                &&& forall|m: int| 0 <= m < k ==> (#[trigger] list@[m]).0@ != name@
            },
            None => forall|m: int| 0 <= m < list@.len() ==> (#[trigger] list@[m]).0@ != name@,
        },
{
    let mut k: usize = 0;
    while k < list.len()
        invariant
            k <= list@.len(),
            forall|m: int| 0 <= m < k ==> (#[trigger] list@[m]).0@ != name@,
        decreases list@.len() - k,
    {
        if list[k].0 == *name {
            return Some(k);
        }
        k += 1;
    }
    None
}

/// Compares the live manifest `hashes` against the target `cmp_with`,
/// directionally: only files named in `hashes` are consulted.
pub fn hash_list_cmp(hashes: &Vec<(String, String)>, cmp_with: &Vec<(String, String)>) -> (r: BackupComparison)
    ensures
        r == spec_compare(hashes@, cmp_with@),
{
    let mut some_matches = false;
    let mut all_matches = true;

    let mut i: usize = 0;
    while i < hashes.len()
        invariant
            i <= hashes@.len(),
            all_matches == (forall|j: int| 0 <= j < i ==> entry_matches(cmp_with@, #[trigger] hashes@[j])),
            some_matches == (exists|j: int| 0 <= j < i && entry_matches(cmp_with@, #[trigger] hashes@[j])),
        decreases hashes@.len() - i,
    {
        match find_name(cmp_with, &hashes[i].0) {
            Some(k) => {
                proof {
                    lemma_lookup_at_first(cmp_with@, hashes@[i as int].0@, k as int);
                }
                if hashes[i].1 != cmp_with[k].1 {
                    all_matches = false;
                } else {
                    some_matches = true;
                }
            },
            None => {
                proof {
                    lemma_lookup_absent(cmp_with@, hashes@[i as int].0@);
                }
                all_matches = false;
            },
        }
        i += 1;
    }

    if all_matches {
        BackupComparison::NoDiff
    } else if some_matches {
        BackupComparison::PartialDiff
    } else {
        BackupComparison::CompleteDiff
    }
}

/// No two entries of `s` share a file name.
pub open spec fn distinct_names(s: Seq<(String, String)>) -> bool {
    forall|i: int, j: int| 0 <= i < j < s.len() ==> (#[trigger] s[i]).0@ != (#[trigger] s[j]).0@
}

/// An empty live manifest compares as `NoDiff` against any target: there is
/// nothing in the source that the target could fail to cover.
pub proof fn lemma_compare_empty_live(target: Seq<(String, String)>)
    ensures
        spec_compare(Seq::<(String, String)>::empty(), target) is NoDiff,
{
}

/// A manifest without repeated file names compares as `NoDiff` against itself.
pub proof fn lemma_compare_self(a: Seq<(String, String)>)
    requires
        distinct_names(a),
    ensures
        spec_compare(a, a) is NoDiff,
{
    assert forall|i: int| 0 <= i < a.len() implies entry_matches(a, #[trigger] a[i]) by {
        lemma_lookup_at_first(a, a[i].0@, i);
    }
}

proof fn lemma_lookup_push_other(target: Seq<(String, String)>, extra: (String, String), name: Seq<char>)
    requires
        extra.0@ != name,
    ensures
        lookup_hash(target.push(extra), name) == lookup_hash(target, name),
    decreases target.len(),
{
    assert(target.push(extra)[0] == if target.len() == 0 { extra } else { target[0] });
    if target.len() == 0 {
        assert(target.push(extra).drop_first() =~= Seq::<(String, String)>::empty());
        assert(lookup_hash(target.push(extra).drop_first(), name) is None);
    } else {
        assert(target.push(extra).drop_first() =~= target.drop_first().push(extra));
        lemma_lookup_push_other(target.drop_first(), extra, name);
    }
}

/// The comparison never looks at target entries whose file name occurs
/// nowhere in the live manifest: appending such an entry to the target
/// leaves the verdict unchanged.
pub proof fn lemma_compare_ignores_unrelated(
    live: Seq<(String, String)>,
    target: Seq<(String, String)>,
    extra: (String, String),
)
    requires
        forall|i: int| 0 <= i < live.len() ==> (#[trigger] live[i]).0@ != extra.0@,
    ensures
        spec_compare(live, target.push(extra)) == spec_compare(live, target),
{
    assert forall|i: int| 0 <= i < live.len() implies entry_matches(target.push(extra), #[trigger] live[i])
        == entry_matches(target, live[i]) by {
        lemma_lookup_push_other(target, extra, live[i].0@);
    }
}

} // verus!
