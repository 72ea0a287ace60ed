//! The persisted description of one backup and the process-wide state cells'
//! value types.

use vstd::prelude::*;
use vstd::string::StrSliceExecFns;

verus! {

/// Does `s` begin with the prefix `p`?
pub open spec fn has_prefix(s: Seq<char>, p: Seq<char>) -> bool {
    p.len() <= s.len() && s.subrange(0, p.len() as int) == p
}

/// A name of the temporary (single-slot) kind.
pub open spec fn spec_is_temp_name(name: Seq<char>) -> bool {
    has_prefix(name, "temp_"@)
}

/// A name of the automatic (rotated) kind.
pub open spec fn spec_is_auto_name(name: Seq<char>) -> bool {
    has_prefix(name, "auto_"@)
}

/// Compares the first `prefix.len()` characters of `s` against `prefix`.
pub fn starts_with_prefix(s: &str, prefix: &str) -> (r: bool)
    ensures
        r == has_prefix(s@, prefix@),
{
    let n: usize = prefix.unicode_len();
    let sn: usize = s.unicode_len();
    if sn < n {
        return false;
    }
    let mut i: usize = 0;
    while i < n
        invariant
            i <= n,
            n == prefix@.len(),
            sn == s@.len(),
            n <= sn,
            forall|j: int| 0 <= j < i ==> s@[j] == prefix@[j],
        decreases n - i,
    {
        if s.get_char(i) != prefix.get_char(i) {
            proof {
                assert(!has_prefix(s@, prefix@)) by {
                    if has_prefix(s@, prefix@) {
                        assert(s@.subrange(0, n as int)[i as int] == prefix@[i as int]);
                    }
                }
            }
            return false;
        }
        i += 1;
    }
    proof {
        assert(s@.subrange(0, n as int) =~= prefix@);
    }
    true
}

/// The per-kind prefixes exclude one another: an `auto_` name is not a
/// `temp_` name.
pub proof fn lemma_auto_name_not_temp(name: Seq<char>)
    requires
        spec_is_auto_name(name),
    ensures
        !spec_is_temp_name(name),
{
    reveal_strlit("auto_");
    reveal_strlit("temp_");
    assert(name.subrange(0, 5)[0] == name[0]);
    if spec_is_temp_name(name) {
    }
}

/// One backup's manifest: its directory name, creation time in milliseconds
/// since the epoch, and one (file name, content hash) pair per copied file.
#[derive(Clone, Debug, PartialEq, Eq)]
pub struct SavegameMeta {
    pub name: String,
    pub date: i64,
    pub checksums: Vec<(String, String)>,
}

impl SavegameMeta {
    /// Temporary backups carry the `temp_` name prefix.
    pub fn is_temp(&self) -> (r: bool)
        ensures
            r == spec_is_temp_name(self.name@),
    {
        starts_with_prefix(self.name.as_str(), "temp_")
    }

    /// Automatic backups carry the `auto_` name prefix.
    pub fn is_auto(&self) -> (r: bool)
        ensures
            r == spec_is_auto_name(self.name@),
    {
        starts_with_prefix(self.name.as_str(), "auto_")
    }
}

/// `b` holds the same manifest as `a`: same name, date and checksum list.
pub open spec fn meta_matches(a: SavegameMeta, b: SavegameMeta) -> bool {
    a.name == b.name && a.date == b.date && a.checksums@ == b.checksums@
}

/// Copies a checksum list entry by entry.
pub fn clone_checksums(list: &Vec<(String, String)>) -> (r: Vec<(String, String)>)
    ensures
        r@ == list@,
{
    let mut out: Vec<(String, String)> = Vec::new();
    let mut i: usize = 0;
    while i < list.len()
        invariant
            i <= list@.len(),
            out@ =~= list@.subrange(0, i as int),
        decreases list@.len() - i,
    {
        let pair = (list[i].0.clone(), list[i].1.clone());
        out.push(pair);
        i += 1;
    }
    proof {
        assert(out@ =~= list@);
    }
    out
}

/// Copies a manifest; the copy describes the same backup.
pub fn clone_meta(m: &SavegameMeta) -> (r: SavegameMeta)
    ensures
        meta_matches(*m, r),
{
    SavegameMeta { name: m.name.clone(), date: m.date, checksums: clone_checksums(&m.checksums) }
}

/// Whether a backup run may start, is under way, or awaits collection.
#[derive(Clone, Copy, Debug, PartialEq, Eq, Structural)]
pub enum BackupState {
    Idle,
    Busy,
    Finished,
}

/// Progress of the screenshot taken alongside a backup.
#[derive(Clone, Copy, Debug, PartialEq, Eq, Structural)]
pub enum ScreenshotState {
    Idle,
    Busy,
    Finished,
    Error,
}

/// The failures the store and the restore engine report.
#[derive(Clone, Copy, Debug, PartialEq, Eq, Structural)]
pub enum BackupError {
    NotFound,
    ParseError,
    IOError,
    ConcurrencyViolation,
    AlreadyExists,
    NoPrimaryDisplay,
}

} // verus!
