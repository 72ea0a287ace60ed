//! The retention policy: which backups survive a new creation.
//!
//! Every entry point first sorts the store's listing newest-first, as the
//! on-disk walk does, then sweeps it: temporary backups never survive a new
//! creation, and automatic backups are rotated down to the configured cap.
//! The sweeps only plan; executing the deletions is the caller's part.

use vstd::prelude::*;
use crate::meta::{spec_is_auto_name, spec_is_temp_name, SavegameMeta};
use crate::names::exit_name_for;

verus! {

/// Newest first: dates never increase along the sequence.
pub open spec fn sorted_desc(s: Seq<SavegameMeta>) -> bool {
    forall|i: int, j: int| 0 <= i < j < s.len() ==> (#[trigger] s[i]).date >= (#[trigger] s[j]).date
}

/// `m` placed into the sorted-descending `s`, after every entry at least as
/// new as `m`.
pub open spec fn insert_desc(s: Seq<SavegameMeta>, m: SavegameMeta) -> Seq<SavegameMeta>
    decreases s.len(),
{
    if s.len() == 0 {
        seq![m]
    } else if s[0].date >= m.date {
        seq![s[0]] + insert_desc(s.drop_first(), m)
    } else {
        seq![m] + s
    }
}

/// `s` sorted by date, newest first; entries with equal dates keep their
/// relative order.
pub open spec fn sort_desc(s: Seq<SavegameMeta>) -> Seq<SavegameMeta>
    decreases s.len(),
{
    if s.len() == 0 {
        Seq::empty()
    } else {
        insert_desc(sort_desc(s.drop_last()), s.last())
    }
}

proof fn lemma_insert_desc_at(s: Seq<SavegameMeta>, m: SavegameMeta, k: int)
    requires
        0 <= k <= s.len(),
        forall|j: int| 0 <= j < k ==> (#[trigger] s[j]).date >= m.date,
        k < s.len() ==> s[k].date < m.date,
    ensures
        insert_desc(s, m) == s.insert(k, m),
    decreases s.len(),
{
    if k == 0 {
        if s.len() == 0 {
            assert(s.insert(0, m) =~= seq![m]);
        } else {
            assert(s.insert(0, m) =~= seq![m] + s);
        }
    } else {
        assert(s[0].date >= m.date);
        assert forall|j: int| 0 <= j < k - 1 implies (#[trigger] s.drop_first()[j]).date >= m.date by {
            assert(s.drop_first()[j] == s[j + 1]);
        }
        if k - 1 < s.drop_first().len() {
            assert(s.drop_first()[k - 1] == s[k]);
        }
        lemma_insert_desc_at(s.drop_first(), m, k - 1);
        assert(seq![s[0]] + s.drop_first().insert(k - 1, m) =~= s.insert(k, m));
    }
}

proof fn lemma_sorted_insert(s: Seq<SavegameMeta>, m: SavegameMeta, k: int)
    requires
        sorted_desc(s),
        0 <= k <= s.len(),
        forall|j: int| 0 <= j < k ==> (#[trigger] s[j]).date >= m.date,
        k < s.len() ==> s[k].date < m.date,
    ensures
        sorted_desc(s.insert(k, m)),
{
    let t = s.insert(k, m);
    assert forall|i: int, j: int| 0 <= i < j < t.len() implies (#[trigger] t[i]).date
        >= (#[trigger] t[j]).date by {
        assert(t[i] == if i < k { s[i] } else if i == k { m } else { s[i - 1] });
        assert(t[j] == if j < k { s[j] } else if j == k { m } else { s[j - 1] });
    }
}

/// Inserts `m` into the sorted `out`, keeping it sorted, exactly as
/// `insert_desc` describes.
fn insert_sorted(out: &mut Vec<SavegameMeta>, m: SavegameMeta)
    requires
        sorted_desc(old(out)@),
    ensures
        final(out)@ == insert_desc(old(out)@, m),
        sorted_desc(final(out)@),
{
    let mut k: usize = 0;
    while k < out.len() && out[k].date >= m.date
        invariant
            k <= out@.len(),
            forall|j: int| 0 <= j < k ==> (#[trigger] out@[j]).date >= m.date,
        decreases out@.len() - k,
    {
        k += 1;
    }
    proof {
        lemma_insert_desc_at(out@, m, k as int);
        lemma_sorted_insert(out@, m, k as int);
    }
    out.insert(k, m);
}

/// Sorts a store listing by creation date, newest first; entries with equal
/// dates keep their relative order.
pub fn sort_backups_desc(backups: Vec<SavegameMeta>) -> (r: Vec<SavegameMeta>)
    ensures
        r@ == sort_desc(backups@),
        sorted_desc(r@),
{
    let ghost s0 = backups@;
    let mut rest = backups;
    let mut out: Vec<SavegameMeta> = Vec::new();
    let ghost mut i: int = 0;
    while rest.len() > 0
        invariant
            0 <= i <= s0.len(),
            rest@ == s0.subrange(i, s0.len() as int),
            out@ == sort_desc(s0.subrange(0, i)),
            sorted_desc(out@),
        decreases rest@.len(),
    {
        let m = rest.remove(0);
        proof {
            assert(s0.subrange(i, s0.len() as int).drop_first() =~= s0.subrange(i + 1, s0.len() as int));
            assert(s0.subrange(0, i + 1).drop_last() =~= s0.subrange(0, i));
            assert(s0.subrange(0, i + 1).last() == s0[i]);
            assert(rest@ =~= s0.subrange(i, s0.len() as int).drop_first());
        }
        insert_sorted(&mut out, m);
        proof {
            i = i + 1;
        }
    }
    proof {
        assert(s0.subrange(0, s0.len() as int) =~= s0);
    }
    out
}

/// Survivors of the pruning walk before an automatic creation: temporary
/// backups go, and an automatic backup goes once `max` rotated snapshots
/// (itself included) have already been seen.
pub open spec fn auto_kept(s: Seq<SavegameMeta>, seen: int, max: int) -> Seq<SavegameMeta>
    decreases s.len(),
{
    if s.len() == 0 {
        Seq::empty()
    } else {
        let rest = s.drop_first();
        if spec_is_auto_name(s[0].name@) {
            if seen + 1 >= max {
                auto_kept(rest, seen + 1, max)
            } else {
                seq![s[0]] + auto_kept(rest, seen + 1, max)
            }
        } else if spec_is_temp_name(s[0].name@) {
            auto_kept(rest, seen, max)
        } else {
            seq![s[0]] + auto_kept(rest, seen, max)
        }
    }
}

/// Names deleted by the same walk, in walk order.
pub open spec fn auto_doomed(s: Seq<SavegameMeta>, seen: int, max: int) -> Seq<String>
    decreases s.len(),
{
    if s.len() == 0 {
        Seq::empty()
    } else {
        let rest = s.drop_first();
        if spec_is_auto_name(s[0].name@) {
            if seen + 1 >= max {
                seq![s[0].name] + auto_doomed(rest, seen + 1, max)
            } else {
                auto_doomed(rest, seen + 1, max)
            }
        } else if spec_is_temp_name(s[0].name@) {
            seq![s[0].name] + auto_doomed(rest, seen, max)
        } else {
            auto_doomed(rest, seen, max)
        }
    }
}

/// Survivors of clearing the temp slot: every non-temporary backup.
pub open spec fn temps_kept(s: Seq<SavegameMeta>) -> Seq<SavegameMeta>
    decreases s.len(),
{
    if s.len() == 0 {
        Seq::empty()
    } else if spec_is_temp_name(s[0].name@) {
        temps_kept(s.drop_first())
    } else {
        seq![s[0]] + temps_kept(s.drop_first())
    }
}

/// Names of every temporary backup, in walk order.
pub open spec fn temps_doomed(s: Seq<SavegameMeta>) -> Seq<String>
    decreases s.len(),
{
    if s.len() == 0 {
        Seq::empty()
    } else if spec_is_temp_name(s[0].name@) {
        seq![s[0].name] + temps_doomed(s.drop_first())
    } else {
        temps_doomed(s.drop_first())
    }
}

/// What survives a retention sweep and what is to be deleted.
#[derive(Debug)]
pub struct RetentionPlan {
    pub kept: Vec<SavegameMeta>,
    pub doomed: Vec<String>,
}

/// The walk before an automatic creation: sorts the listing newest-first,
/// deletes every temporary backup, and rotates automatic backups so that at
/// most `max_autosaves - 1` of the newest survive.
pub fn plan_autosave(backups: Vec<SavegameMeta>, max_autosaves: u16) -> (r: RetentionPlan)
    ensures
        r.kept@ == auto_kept(sort_desc(backups@), 0, max_autosaves as int),
        r.doomed@ == auto_doomed(sort_desc(backups@), 0, max_autosaves as int),
{
    let sorted = sort_backups_desc(backups);
    let ghost s0 = sorted@;
    let mut rest = sorted;
    let total: usize = rest.len();
    let mut kept: Vec<SavegameMeta> = Vec::new();
    let mut doomed: Vec<String> = Vec::new();
    let mut seen: usize = 0;
    let ghost mut i: int = 0;
    while rest.len() > 0
        invariant
            0 <= i <= s0.len(),
            s0.len() == total,
            seen <= i,
            rest@ == s0.subrange(i, s0.len() as int),
            kept@ + auto_kept(rest@, seen as int, max_autosaves as int)
                == auto_kept(s0, 0, max_autosaves as int),
            doomed@ + auto_doomed(rest@, seen as int, max_autosaves as int)
                == auto_doomed(s0, 0, max_autosaves as int),
        decreases rest@.len(),
    {
        let ghost rest_pre = rest@;
        let m = rest.remove(0);
        proof {
            assert(rest@ =~= rest_pre.drop_first());
        }
        if m.is_auto() {
            seen += 1;
            if seen >= max_autosaves as usize {
                doomed.push(m.name);
            } else {
                kept.push(m);
            }
        } else if m.is_temp() {
            doomed.push(m.name);
        } else {
            kept.push(m);
        }
        proof {
            i = i + 1;
            assert(kept@ + auto_kept(rest@, seen as int, max_autosaves as int)
                =~= auto_kept(s0, 0, max_autosaves as int));
            assert(doomed@ + auto_doomed(rest@, seen as int, max_autosaves as int)
                =~= auto_doomed(s0, 0, max_autosaves as int));
        }
    }
    proof {
        assert(kept@ =~= auto_kept(s0, 0, max_autosaves as int));
        assert(doomed@ =~= auto_doomed(s0, 0, max_autosaves as int));
    }
    RetentionPlan { kept, doomed }
}

/// The walk before a keeper or temporary creation: sorts the listing
/// newest-first and deletes every temporary backup.
pub fn plan_temp_clear(backups: Vec<SavegameMeta>) -> (r: RetentionPlan)
    ensures
        r.kept@ == temps_kept(sort_desc(backups@)),
        r.doomed@ == temps_doomed(sort_desc(backups@)),
{
    let sorted = sort_backups_desc(backups);
    let ghost s0 = sorted@;
    let mut rest = sorted;
    let mut kept: Vec<SavegameMeta> = Vec::new();
    let mut doomed: Vec<String> = Vec::new();
    let ghost mut i: int = 0;
    while rest.len() > 0
        invariant
            0 <= i <= s0.len(),
            rest@ == s0.subrange(i, s0.len() as int),
            kept@ + temps_kept(rest@) == temps_kept(s0),
            doomed@ + temps_doomed(rest@) == temps_doomed(s0),
        decreases rest@.len(),
    {
        let ghost rest_pre = rest@;
        let m = rest.remove(0);
        proof {
            assert(rest@ =~= rest_pre.drop_first());
        }
        if m.is_temp() {
            doomed.push(m.name);
        } else {
            kept.push(m);
        }
        proof {
            i = i + 1;
            assert(kept@ + temps_kept(rest@) =~= temps_kept(s0));
            assert(doomed@ + temps_doomed(rest@) =~= temps_doomed(s0));
        }
    }
    proof {
        assert(kept@ =~= temps_kept(s0));
        assert(doomed@ =~= temps_doomed(s0));
    }
    RetentionPlan { kept, doomed }
}

/// Index of the first temporary backup in `s`.
pub open spec fn first_temp_index(s: Seq<SavegameMeta>) -> Option<int>
    decreases s.len(),
{
    if s.len() == 0 {
        None
    } else if spec_is_temp_name(s[0].name@) {
        Some(0)
    } else {
        match first_temp_index(s.drop_first()) {
            None => None,
            Some(i) => Some(i + 1),
        }
    }
}

proof fn lemma_first_temp_index(s: Seq<SavegameMeta>, k: int)
    requires
        0 <= k < s.len(),
        spec_is_temp_name(s[k].name@),
        forall|m: int| 0 <= m < k ==> !spec_is_temp_name((#[trigger] s[m]).name@),
    ensures
        first_temp_index(s) == Some(k),
    decreases k,
{
    if k > 0 {
        lemma_first_temp_index(s.drop_first(), k - 1);
    }
}

proof fn lemma_first_temp_index_none(s: Seq<SavegameMeta>)
    requires
        forall|m: int| 0 <= m < s.len() ==> !spec_is_temp_name((#[trigger] s[m]).name@),
    ensures
        first_temp_index(s) is None,
    decreases s.len(),
{
    if s.len() > 0 {
        lemma_first_temp_index_none(s.drop_first());
    }
}

/// Names of the temporary backups other than the first one encountered;
/// `one_seen` records whether a temporary backup was already walked past.
pub open spec fn extra_temps(s: Seq<SavegameMeta>, one_seen: bool) -> Seq<String>
    decreases s.len(),
{
    if s.len() == 0 {
        Seq::empty()
    } else if spec_is_temp_name(s[0].name@) {
        if one_seen {
            seq![s[0].name] + extra_temps(s.drop_first(), true)
        } else {
            extra_temps(s.drop_first(), true)
        }
    } else {
        extra_temps(s.drop_first(), one_seen)
    }
}

/// The shutdown plan: one rename that promotes the newest temporary backup,
/// and the names of the remaining temporary backups, to be deleted.
#[derive(Debug)]
pub struct ExitPlan {
    pub rename: Option<(String, String)>,
    pub doomed: Vec<String>,
}

/// The shutdown walk over the store listing, newest first: the single most
/// recent temporary backup is promoted by renaming its `temp_` prefix to
/// `exit_`; every other temporary backup is deleted.
pub fn deal_with_exit_save(backups: Vec<SavegameMeta>) -> (r: ExitPlan)
    ensures
        r.doomed@ == extra_temps(sort_desc(backups@), false),
        match r.rename {
            Some(pair) => {
                &&& first_temp_index(sort_desc(backups@)) is Some
                &&& pair.0 == sort_desc(backups@)[first_temp_index(sort_desc(backups@)).unwrap()].name
                &&& spec_is_temp_name(pair.0@)
                &&& pair.1@ == "exit_"@ + pair.0@.subrange(5, pair.0@.len() as int)
                &&& !spec_is_temp_name(pair.1@)
            },
            None => first_temp_index(sort_desc(backups@)) is None,
        },
{
    let sorted = sort_backups_desc(backups);
    let ghost s0 = sorted@;
    let mut rest = sorted;
    let mut doomed: Vec<String> = Vec::new();
    let mut rename: Option<(String, String)> = None;
    let ghost mut i: int = 0;
    while rest.len() > 0
        invariant
            0 <= i <= s0.len(),
            rest@ == s0.subrange(i, s0.len() as int),
            doomed@ + extra_temps(rest@, rename is Some) == extra_temps(s0, false),
            match rename {
                Some(pair) => {
                    &&& first_temp_index(s0) is Some
                    &&& first_temp_index(s0).unwrap() < i
                    &&& pair.0 == s0[first_temp_index(s0).unwrap()].name
                    &&& spec_is_temp_name(pair.0@)
                    &&& pair.1@ == "exit_"@ + pair.0@.subrange(5, pair.0@.len() as int)
                    &&& !spec_is_temp_name(pair.1@)
                },
                None => forall|m: int| 0 <= m < i ==> !spec_is_temp_name(
                    (#[trigger] s0[m]).name@,
                ),
            },
        decreases rest@.len(),
    {
        let ghost rest_pre = rest@;
        let m = rest.remove(0);
        proof {
            assert(rest@ =~= rest_pre.drop_first());
            assert(rest_pre[0] == s0[i]);
        }
        if m.is_temp() {
            if rename.is_none() {
                proof {
                    lemma_first_temp_index(s0, i);
                }
                let promoted = exit_name_for(&m.name);
                rename = Some((m.name, promoted));
            } else {
                doomed.push(m.name);
            }
        }
        proof {
            i = i + 1;
            assert(doomed@ + extra_temps(rest@, rename is Some) =~= extra_temps(s0, false));
        }
    }
    proof {
        if rename is None {
            lemma_first_temp_index_none(s0);
        }
        assert(doomed@ =~= extra_temps(s0, false));
    }
    ExitPlan { rename, doomed }
}

/// How many entries carry the `auto_` prefix.
pub open spec fn count_autos(s: Seq<SavegameMeta>) -> int
    decreases s.len(),
{
    if s.len() == 0 {
        0
    } else {
        (if spec_is_auto_name(s[0].name@) {
            1int
        } else {
            0int
        }) + count_autos(s.drop_first())
    }
}

/// How many entries carry the `temp_` prefix.
pub open spec fn count_temps(s: Seq<SavegameMeta>) -> int
    decreases s.len(),
{
    if s.len() == 0 {
        0
    } else {
        (if spec_is_temp_name(s[0].name@) {
            1int
        } else {
            0int
        }) + count_temps(s.drop_first())
    }
}

proof fn lemma_count_autos_cons(m: SavegameMeta, s: Seq<SavegameMeta>)
    ensures
        count_autos(seq![m] + s) == (if spec_is_auto_name(m.name@) {
            1int
        } else {
            0int
        }) + count_autos(s),
{
    assert((seq![m] + s)[0] == m);
    assert((seq![m] + s).drop_first() =~= s);
}

proof fn lemma_count_temps_cons(m: SavegameMeta, s: Seq<SavegameMeta>)
    ensures
        count_temps(seq![m] + s) == (if spec_is_temp_name(m.name@) {
            1int
        } else {
            0int
        }) + count_temps(s),
{
    assert((seq![m] + s)[0] == m);
    assert((seq![m] + s).drop_first() =~= s);
}

proof fn lemma_count_autos_push(s: Seq<SavegameMeta>, m: SavegameMeta)
    ensures
        count_autos(s.push(m)) == count_autos(s) + (if spec_is_auto_name(m.name@) {
            1int
        } else {
            0int
        }),
    decreases s.len(),
{
    let t = s.push(m);
    if s.len() == 0 {
        assert(t[0] == m);
        assert(t.drop_first() =~= Seq::<SavegameMeta>::empty());
        assert(count_autos(t) == (if spec_is_auto_name(t[0].name@) {
            1int
        } else {
            0int
        }) + count_autos(t.drop_first()));
    } else {
        assert(t[0] == s[0]);
        assert(t.drop_first() =~= s.drop_first().push(m));
        lemma_count_autos_push(s.drop_first(), m);
        assert(count_autos(t) == (if spec_is_auto_name(t[0].name@) {
            1int
        } else {
            0int
        }) + count_autos(t.drop_first()));
    }
}

proof fn lemma_count_temps_push(s: Seq<SavegameMeta>, m: SavegameMeta)
    ensures
        count_temps(s.push(m)) == count_temps(s) + (if spec_is_temp_name(m.name@) {
            1int
        } else {
            0int
        }),
    decreases s.len(),
{
    let t = s.push(m);
    if s.len() == 0 {
        assert(t[0] == m);
        assert(t.drop_first() =~= Seq::<SavegameMeta>::empty());
        assert(count_temps(t) == (if spec_is_temp_name(t[0].name@) {
            1int
        } else {
            0int
        }) + count_temps(t.drop_first()));
    } else {
        assert(t[0] == s[0]);
        assert(t.drop_first() =~= s.drop_first().push(m));
        lemma_count_temps_push(s.drop_first(), m);
        assert(count_temps(t) == (if spec_is_temp_name(t[0].name@) {
            1int
        } else {
            0int
        }) + count_temps(t.drop_first()));
    }
}

proof fn lemma_auto_kept_bound(s: Seq<SavegameMeta>, seen: int, max: int)
    ensures
        count_autos(auto_kept(s, seen, max)) <= if max - 1 - seen >= 0 {
            max - 1 - seen
        } else {
            0int
        },
    decreases s.len(),
{
    if s.len() > 0 {
        let rest = s.drop_first();
        if spec_is_auto_name(s[0].name@) {
            lemma_auto_kept_bound(rest, seen + 1, max);
            if seen + 1 < max {
                lemma_count_autos_cons(s[0], auto_kept(rest, seen + 1, max));
            }
        } else {
            lemma_auto_kept_bound(rest, seen, max);
            if !spec_is_temp_name(s[0].name@) {
                lemma_count_autos_cons(s[0], auto_kept(rest, seen, max));
            }
        }
    }
}

proof fn lemma_auto_kept_no_temps(s: Seq<SavegameMeta>, seen: int, max: int)
    ensures
        count_temps(auto_kept(s, seen, max)) == 0,
    decreases s.len(),
{
    if s.len() > 0 {
        let rest = s.drop_first();
        if spec_is_auto_name(s[0].name@) {
            lemma_auto_kept_no_temps(rest, seen + 1, max);
            if seen + 1 < max {
                lemma_count_temps_cons(s[0], auto_kept(rest, seen + 1, max));
                assert(!spec_is_temp_name(s[0].name@)) by {
                    crate::meta::lemma_auto_name_not_temp(s[0].name@);
                }
            }
        } else {
            lemma_auto_kept_no_temps(rest, seen, max);
            if !spec_is_temp_name(s[0].name@) {
                lemma_count_temps_cons(s[0], auto_kept(rest, seen, max));
            }
        }
    }
}

proof fn lemma_temps_kept_no_temps(s: Seq<SavegameMeta>)
    ensures
        count_temps(temps_kept(s)) == 0,
    decreases s.len(),
{
    if s.len() > 0 {
        lemma_temps_kept_no_temps(s.drop_first());
        if !spec_is_temp_name(s[0].name@) {
            lemma_count_temps_cons(s[0], temps_kept(s.drop_first()));
        }
    }
}

/// Retention invariant for automatic backups: the pruning walk before an
/// automatic creation leaves at most `max - 1` rotated snapshots, so after
/// the new snapshot is recorded at most `max` exist. Since every automatic
/// creation starts with this walk, the bound holds after any sequence of
/// them.
pub proof fn lemma_autosave_cap(backups: Seq<SavegameMeta>, max: u16, fresh: SavegameMeta)
    requires
        1 <= max,
        spec_is_auto_name(fresh.name@),
    ensures
        count_autos(auto_kept(sort_desc(backups), 0, max as int).push(fresh)) <= max as int,
{
    lemma_auto_kept_bound(sort_desc(backups), 0, max as int);
    lemma_count_autos_push(auto_kept(sort_desc(backups), 0, max as int), fresh);
}

/// Temp-slot invariant: clearing the slot before a keeper or temporary
/// creation deletes every temporary backup, so after the new backup is
/// recorded at most one temporary backup exists, and none when a keeper was
/// created. Since every such creation starts with this walk, the bound
/// holds after any sequence of them.
pub proof fn lemma_temp_slot(backups: Seq<SavegameMeta>, fresh: SavegameMeta)
    ensures
        count_temps(temps_kept(sort_desc(backups)).push(fresh)) <= if spec_is_temp_name(fresh.name@) {
            1int
        } else {
            0int
        },
{
    lemma_temps_kept_no_temps(sort_desc(backups));
    lemma_count_temps_push(temps_kept(sort_desc(backups)), fresh);
}

/// An automatic creation also leaves the temp slot empty: its pruning walk
/// deletes every temporary backup, and the snapshot it records is not a
/// temporary one.
pub proof fn lemma_autosave_clears_temps(backups: Seq<SavegameMeta>, max: u16, fresh: SavegameMeta)
    requires
        spec_is_auto_name(fresh.name@),
    ensures
        count_temps(auto_kept(sort_desc(backups), 0, max as int).push(fresh)) == 0,
{
    lemma_auto_kept_no_temps(sort_desc(backups), 0, max as int);
    lemma_count_temps_push(auto_kept(sort_desc(backups), 0, max as int), fresh);
    crate::meta::lemma_auto_name_not_temp(fresh.name@);
}

} // verus!
