//! Backup names: the timestamp naming convention, the per-kind prefixes,
//! the exit promotion of a temporary name, and the rename-dialog sanitizer.

use vstd::prelude::*;
use vstd::string::{StrSliceExecFns, StringExecFns};
use crate::classify::BackupDecision;
use crate::meta::{has_prefix, spec_is_auto_name, spec_is_temp_name};

verus! {

/// A prefix with a different first character cannot match.
proof fn lemma_first_char_excludes(s: Seq<char>, q: Seq<char>)
    requires
        s.len() > 0,
        q.len() > 0,
        s[0] != q[0],
    ensures
        !has_prefix(s, q),
{
    if has_prefix(s, q) {
        assert(s.subrange(0, q.len() as int)[0] == q[0]);
    }
}

/// Relies on chrono's `Local::now` and `DateTime::format`: renders the
/// current local time as `YYYY-MM-DD_HH-MM-SS`. The year is zero-padded to
/// four digits and written with a leading sign beyond that range, so the
/// rendering is never empty and starts with a digit or a sign, never with
/// a letter. chrono's `Utc::now` aborts when the clock reads before the
/// Unix epoch, so that case is tested first and reported as `None`.
#[verifier::external_body]
fn current_timestamp_name() -> (r: Option<String>)
    ensures
        match r {
            Some(stamp) => {
                &&& stamp@.len() > 0
                &&& stamp@[0] != 't'
                &&& stamp@[0] != 'a'
                &&& stamp@[0] != 'e'
            },
            None => true,
        },
{
    if std::time::SystemTime::now().duration_since(std::time::UNIX_EPOCH).is_err() {
        return None;
    }
    Some(chrono::Local::now().format("%Y-%m-%d_%H-%M-%S").to_string())
}

/// The directory name for a backup of the decided kind, built from a given
/// timestamp rendering: the bare stamp for a keeper, the stamp behind the
/// `temp_` or `auto_` prefix for the disposable and rotated kinds, and no
/// name at all when the classifier asked for no backup.
pub fn backup_name_for(decision: &BackupDecision, stamp: String) -> (r: Option<String>)
    ensures
        match r {
            Some(name) => {
                &&& !(*decision is NoBackup)
                &&& (*decision is Keeper ==> name@ == stamp@)
                &&& (*decision is Temporary ==> name@ == "temp_"@ + stamp@)
                &&& (*decision is Automatic ==> name@ == "auto_"@ + stamp@)
            },
            None => *decision is NoBackup,
        },
{
    match decision {
        BackupDecision::Keeper => Some(stamp),
        BackupDecision::Temporary => Some(String::from_str("temp_").concat(stamp.as_str())),
        BackupDecision::Automatic => Some(String::from_str("auto_").concat(stamp.as_str())),
        BackupDecision::NoBackup => None,
    }
}

/// Builds the directory name for a backup of the decided kind, stamped with
/// the current local time. The name's prefix tells the kind apart: `temp_`
/// exactly for a temporary backup, `auto_` exactly for an automatic one,
/// and never the `exit_` prefix reserved for promoted temp slots.
pub fn fresh_backup_name(decision: &BackupDecision) -> (r: Option<String>)
    ensures
        match r {
            Some(name) => {
                &&& !(*decision is NoBackup)
                &&& name@.len() > 0
                &&& (spec_is_temp_name(name@) <==> *decision is Temporary)
                &&& (spec_is_auto_name(name@) <==> *decision is Automatic)
                &&& !has_prefix(name@, "exit_"@)
            },
            None => *decision is NoBackup,
        },
{
    let stamp = match current_timestamp_name() {
        Some(s) => s,
        // A clock before the epoch cannot be rendered; the earliest stamp
        // stands in, so a backup is still taken under a usable name.
        None => String::from_str("1970-01-01_00-00-00"),
    };
    let ghost sv = stamp@;
    let r = backup_name_for(decision, stamp);
    proof {
        reveal_strlit("1970-01-01_00-00-00");
        reveal_strlit("temp_");
        reveal_strlit("auto_");
        reveal_strlit("exit_");
        assert(sv.len() > 0 && sv[0] != 't' && sv[0] != 'a' && sv[0] != 'e');
        if r is Some {
            let name = r.unwrap();
            if *decision is Temporary {
                assert(name@.subrange(0, 5) =~= "temp_"@);
                assert(name@[0] == 't');
                lemma_first_char_excludes(name@, "auto_"@);
                lemma_first_char_excludes(name@, "exit_"@);
            } else if *decision is Automatic {
                assert(name@.subrange(0, 5) =~= "auto_"@);
                assert(name@[0] == 'a');
                lemma_first_char_excludes(name@, "temp_"@);
                lemma_first_char_excludes(name@, "exit_"@);
            } else {
                lemma_first_char_excludes(sv, "temp_"@);
                lemma_first_char_excludes(sv, "auto_"@);
                lemma_first_char_excludes(sv, "exit_"@);
            }
        }
    }
    r
}

/// The exit promotion of a temporary name: the `temp_` prefix is swapped
/// for `exit_`, keeping the timestamp part.
pub fn exit_name_for(name: &String) -> (r: String)
    requires
        spec_is_temp_name(name@),
    ensures
        r@ == "exit_"@ + name@.subrange(5, name@.len() as int),
        !spec_is_temp_name(r@),
{
    proof {
        reveal_strlit("temp_");
        reveal_strlit("exit_");
    }
    let s = name.as_str();
    let n: usize = s.unicode_len();
    let tail = s.substring_char(5, n);
    let renamed = String::from_str("exit_").concat(tail);
    proof {
        lemma_first_char_excludes(renamed@, "temp_"@);
    }
    renamed
}

/// The characters the rename dialog strips from a requested backup name.
pub open spec fn forbidden_char(c: char) -> bool {
    ||| c == '<'
    ||| c == '>'
    ||| c == ':'
    ||| c == '"'
    ||| c == '/'
    ||| c == '\\'
    ||| c == '|'
    ||| c == '?'
    ||| c == '*'
}

/// `s` with every forbidden character removed, order kept.
pub open spec fn strip_forbidden(s: Seq<char>) -> Seq<char>
    decreases s.len(),
{
    if s.len() == 0 {
        Seq::empty()
    } else {
        strip_forbidden(s.drop_last()) + (if forbidden_char(s.last()) {
            Seq::<char>::empty()
        } else {
            seq![s.last()]
        })
    }
}

/// What `str::trim` leaves of a string: its characters without leading and
/// trailing whitespace.
pub uninterp spec fn trim_of(s: Seq<char>) -> Seq<char>;

/// Relies on `str::trim`: returns the string without leading and trailing
/// whitespace; the result depends on the characters alone, never grows,
/// and is empty for an empty input.
#[verifier::external_body]
fn trim_ends(s: &String) -> (r: String)
    ensures
        r@ == trim_of(s@),
        r@.len() <= s@.len(),
        s@.len() == 0 ==> r@.len() == 0,
{
    String::from(s.trim())
}

/// Cleans a name typed into the rename dialog: strips the characters
/// Windows forbids in file names, then trims surrounding whitespace.
pub fn sanitize_backup_name(raw: &String) -> (r: String)
    ensures
        r@ == trim_of(strip_forbidden(raw@)),
{
    let s = raw.as_str();
    let n: usize = s.unicode_len();
    let mut acc = String::new();
    let mut i: usize = 0;
    while i < n
        invariant
            i <= n,
            n == raw@.len(),
            s@ == raw@,
            acc@ == strip_forbidden(raw@.subrange(0, i as int)),
        decreases n - i,
    {
        let c = s.get_char(i);
        let keep = !(c == '<' || c == '>' || c == ':' || c == '"' || c == '/' || c == '\\'
            || c == '|' || c == '?' || c == '*');
        if keep {
            let piece = s.substring_char(i, i + 1);
            proof {
                assert(piece@ =~= seq![raw@[i as int]]);
            }
            acc = acc.concat(piece);
        }
        proof {
            assert(raw@.subrange(0, i + 1).drop_last() =~= raw@.subrange(0, i as int));
            assert(raw@.subrange(0, i + 1).last() == raw@[i as int]);
            if keep {
                assert(acc@ =~= strip_forbidden(raw@.subrange(0, i + 1)));
            } else {
                assert(acc@ =~= strip_forbidden(raw@.subrange(0, i + 1)));
            }
        }
        i += 1;
    }
    proof {
        assert(raw@.subrange(0, n as int) =~= raw@);
    }
    trim_ends(&acc)
}

} // verus!
