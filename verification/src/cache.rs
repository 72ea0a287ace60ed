//! A read-through cache of backup manifests, keyed by the destination root.
//!
//! The cache only memoizes what the store has already read this session; it
//! is cleared whenever the destination root changes, and the caller must
//! clear it after writing to the store.

use vstd::prelude::*;
use crate::meta::{clone_meta, meta_matches, SavegameMeta};

verus! {

/// Index of the first cached manifest named `name`.
pub open spec fn first_named_index(s: Seq<SavegameMeta>, name: Seq<char>) -> Option<int>
    decreases s.len(),
{
    if s.len() == 0 {
        None
    } else if s[0].name@ == name {
        Some(0)
    } else {
        match first_named_index(s.drop_first(), name) {
            None => None,
            Some(i) => Some(i + 1),
        }
    }
}

proof fn lemma_first_named_index(s: Seq<SavegameMeta>, name: Seq<char>, k: int)
    requires
        0 <= k < s.len(),
        s[k].name@ == name,
        forall|m: int| 0 <= m < k ==> (#[trigger] s[m]).name@ != name,
    ensures
        first_named_index(s, name) == Some(k),
    decreases k,
{
    if k > 0 {
        lemma_first_named_index(s.drop_first(), name, k - 1);
    }
}

proof fn lemma_first_named_index_none(s: Seq<SavegameMeta>, name: Seq<char>)
    requires
        forall|m: int| 0 <= m < s.len() ==> (#[trigger] s[m]).name@ != name,
    ensures
        first_named_index(s, name) is None,
    decreases s.len(),
{
    if s.len() > 0 {
        lemma_first_named_index_none(s.drop_first(), name);
    }
}

/// The manifests read so far from one destination root.
pub struct BackupCache {
    pub root: String,
    pub entries: Vec<SavegameMeta>,
}

impl BackupCache {
    /// An empty cache, bound to no destination root.
    pub fn new() -> (r: Self)
        ensures
            r.root@ == Seq::<char>::empty(),
            r.entries@ == Seq::<SavegameMeta>::empty(),
    {
        BackupCache { root: String::new(), entries: Vec::new() }
    }

    /// Looks `backup_name` up under `dst_path`, first re-keying the cache:
    /// a different destination root empties it.
    pub fn probe(&mut self, dst_path: &String, backup_name: &String) -> (r: Option<SavegameMeta>)
        ensures
            final(self).root@ == dst_path@,
            old(self).root@ == dst_path@ ==> final(self).entries@ == old(self).entries@,
            old(self).root@ != dst_path@ ==> final(self).entries@ == Seq::<SavegameMeta>::empty(),
            match r {
                Some(m) => {
                    &&& first_named_index(final(self).entries@, backup_name@) is Some
                    &&& meta_matches(
                        final(self).entries@[first_named_index(
                            final(self).entries@,
                            backup_name@,
                        ).unwrap()],
                        m,
                    )
                },
                None => first_named_index(final(self).entries@, backup_name@) is None,
            },
    {
        if !(self.root == *dst_path) {
            self.root = dst_path.clone();
            self.entries.clear();
        }
        let mut i: usize = 0;
        while i < self.entries.len()
            invariant
                i <= self.entries@.len(),
                self.root@ == dst_path@,
                old(self).root@ == dst_path@ ==> self.entries@ == old(self).entries@,
                old(self).root@ != dst_path@ ==> self.entries@ == Seq::<SavegameMeta>::empty(),
                forall|m: int| 0 <= m < i ==> (#[trigger] self.entries@[m]).name@ != backup_name@,
        decreases self.entries@.len() - i,
        {
            if self.entries[i].name == *backup_name {
                proof {
                    lemma_first_named_index(self.entries@, backup_name@, i as int);
                }
                return Some(clone_meta(&self.entries[i]));
            }
            i += 1;
        }
        proof {
            lemma_first_named_index_none(self.entries@, backup_name@);
        }
        None
    }

    /// Records a manifest the store has just read from disk.
    pub fn record(&mut self, meta: SavegameMeta)
        ensures
            final(self).root@ == old(self).root@,
            final(self).entries@ == old(self).entries@.push(meta),
    {
        self.entries.push(meta);
    }

    /// Forgets every cached manifest; to be called after any write, rename
    /// or delete against the destination root.
    pub fn clear(&mut self)
        ensures
            final(self).root@ == old(self).root@,
            final(self).entries@ == Seq::<SavegameMeta>::empty(),
    {
        self.entries.clear();
    }
}

} // verus!
