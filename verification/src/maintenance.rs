use vstd::prelude::*;

use crate::library::{lowercase, to_lowercase};
use crate::text::same_text;

verus! {

/// A stored file that nothing refers to, offered for removal.
pub struct Candidate {
    pub path: String,
    pub bytes: u64,
}

/// What the storage folders hold: their total size and the files that may go.
pub struct Usage {
    pub bytes: u64,
    pub candidates: Vec<Candidate>,
}

/// One file found in a storage folder.
pub struct Found {
    /// Where the file is.
    pub path: String,
    /// The key of its resolved path (see `key`).
    pub key: String,
    /// Its size.
    pub bytes: u64,
    /// Whether it was both written and created at least the minimum age ago.
    pub old: bool,
}

/// The key by which stored files and references are compared: the resolved
/// path in lower case, since Windows paths ignore case.
pub fn key(resolved: &str) -> (k: String)
    ensures
        k@ == lowercase(resolved@),
{
    to_lowercase(resolved)
}

/// Whether `key` is one of `referenced`.
pub open spec fn is_referenced(referenced: Seq<String>, key: Seq<char>) -> bool {
    exists|j: int| 0 <= j < referenced.len() && #[trigger] referenced[j]@ == key
}

/// Whether a found file may be offered for removal.
pub open spec fn removable(file: Found, referenced: Seq<String>) -> bool {
    file.old && !is_referenced(referenced, file.key@)
}

/// The total size of the first `n` files.
pub open spec fn total_bytes(files: Seq<Found>, n: int) -> int
    decreases n,
{
    if n <= 0 {
        0
    } else {
        total_bytes(files, n - 1) + files[n - 1].bytes
    }
}

/// The positions, in order, of the removable files among the first `n`.
pub open spec fn orphans(files: Seq<Found>, referenced: Seq<String>, n: int) -> Seq<int>
    decreases n,
{
    if n <= 0 {
        Seq::empty()
    } else if removable(files[n - 1], referenced) {
        orphans(files, referenced, n - 1).push(n - 1)
    } else {
        orphans(files, referenced, n - 1)
    }
}

fn lookup(referenced: &Vec<String>, key: &String) -> (found: bool)
    ensures
        found == is_referenced(referenced@, key@),
{
    let mut j: usize = 0;
    while j < referenced.len()
        invariant
            j <= referenced@.len(),
            forall|i: int| 0 <= i < j ==> #[trigger] referenced@[i]@ != key@,
        decreases referenced@.len() - j,
    {
        if same_text(referenced[j].as_str(), key.as_str()) {
            return true;
        }
        j = j + 1;
    }
    false
}

/// Sums the sizes of the found files, saturating at `u64::MAX`, and lists,
/// in the order found, those that are old enough and whose key no reference
/// names.
pub fn tally(files: &Vec<Found>, referenced: &Vec<String>) -> (usage: Usage)
    ensures
        usage.bytes == (if total_bytes(files@, files@.len() as int) > u64::MAX {
            u64::MAX as int
        } else {
            total_bytes(files@, files@.len() as int)
        }),
        usage.candidates@.len() == orphans(files@, referenced@, files@.len() as int).len(),
        forall|k: int|
            0 <= k < usage.candidates@.len() ==> {
                let at = orphans(files@, referenced@, files@.len() as int)[k];
                &&& #[trigger] usage.candidates@[k].path@ == files@[at].path@
                &&& usage.candidates@[k].bytes == files@[at].bytes
            },
{
    let mut bytes: u64 = 0;
    let mut candidates: Vec<Candidate> = Vec::new();
    let mut i: usize = 0;
    while i < files.len()
        invariant
            i <= files@.len(),
            bytes == (if total_bytes(files@, i as int) > u64::MAX {
                u64::MAX as int
            } else {
                total_bytes(files@, i as int)
            }),
            candidates@.len() == orphans(files@, referenced@, i as int).len(),
            forall|k: int|
                0 <= k < candidates@.len() ==> {
                    let at = orphans(files@, referenced@, i as int)[k];
                    &&& #[trigger] candidates@[k].path@ == files@[at].path@
                    &&& candidates@[k].bytes == files@[at].bytes
                },
        decreases files@.len() - i,
    {
        let file = &files[i];
        let ghost before = candidates@;
        bytes = bytes.saturating_add(file.bytes);
        let take = file.old && !lookup(referenced, &file.key);
        proof {
            assert(take == removable(files@[i as int], referenced@));
        }
        if take {
            candidates.push(Candidate { path: file.path.clone(), bytes: file.bytes });
        }
        proof {
            let next = orphans(files@, referenced@, i + 1);
            let prev = orphans(files@, referenced@, i as int);
            assert forall|k: int| 0 <= k < candidates@.len() implies {
                let at = next[k];
                &&& #[trigger] candidates@[k].path@ == files@[at].path@
                &&& candidates@[k].bytes == files@[at].bytes
            } by {
                if k < before.len() {
                    assert(next[k] == prev[k]);
                    assert(candidates@[k] == before[k]);
                }
            }
        }
        i = i + 1;
    }
    Usage { bytes, candidates }
}

/// Whether `candidate` is listed, by path and size, in `current`.
pub open spec fn still_listed(current: Seq<Candidate>, candidate: Candidate) -> bool {
    exists|j: int| 0 <= j < current.len() && #[trigger] current[j].path@ == candidate.path@ && current[j].bytes == candidate.bytes
}

/// The positions, in order, of the first `n` reviewed candidates that are still listed.
pub open spec fn confirmed_upto(reviewed: Seq<Candidate>, current: Seq<Candidate>, n: int) -> Seq<usize>
    decreases n,
{
    if n <= 0 {
        Seq::empty()
    } else if still_listed(current, reviewed[n - 1]) {
        confirmed_upto(reviewed, current, n - 1).push((n - 1) as usize)
    } else {
        confirmed_upto(reviewed, current, n - 1)
    }
}

fn listed(current: &[Candidate], candidate: &Candidate) -> (found: bool)
    ensures
        found == still_listed(current@, *candidate),
{
    let mut j: usize = 0;
    while j < current.len()
        invariant
            j <= current@.len(),
            forall|i: int| 0 <= i < j ==> !(#[trigger] current@[i].path@ == candidate.path@ && current@[i].bytes == candidate.bytes),
        decreases current@.len() - j,
    {
        if current[j].bytes == candidate.bytes && same_text(current[j].path.as_str(), candidate.path.as_str()) {
            return true;
        }
        j = j + 1;
    }
    false
}

/// The positions, in review order, of the reviewed candidates that a fresh
/// scan still offers with the same path and size: only these may be removed.
pub fn confirmed(reviewed: &[Candidate], current: &[Candidate]) -> (chosen: Vec<usize>)
    ensures
        chosen@ == confirmed_upto(reviewed@, current@, reviewed@.len() as int),
{
    let mut chosen: Vec<usize> = Vec::new();
    let mut i: usize = 0;
    while i < reviewed.len()
        invariant
            i <= reviewed@.len(),
            chosen@ == confirmed_upto(reviewed@, current@, i as int),
        decreases reviewed@.len() - i,
    {
        if listed(current, &reviewed[i]) {
            chosen.push(i);
        }
        i = i + 1;
    }
    chosen
}

/// Cleanup never offers a file that is recent or that something refers to:
/// every position it lists is a found file that is old enough and whose key no
/// reference names, and the positions come in the order the files were found.
pub proof fn offered_files_are_old_and_unreferenced(files: Seq<Found>, referenced: Seq<String>, n: int)
    requires
        0 <= n <= files.len(),
    ensures
        forall|k: int|
            0 <= k < orphans(files, referenced, n).len() ==> {
                let at = #[trigger] orphans(files, referenced, n)[k];
                &&& 0 <= at < n
                &&& files[at].old
                &&& !is_referenced(referenced, files[at].key@)
            },
        forall|a: int, b: int|
            0 <= a < b < orphans(files, referenced, n).len() ==> #[trigger] orphans(files, referenced, n)[a]
                < #[trigger] orphans(files, referenced, n)[b],
    decreases n,
{
    if n > 0 {
        offered_files_are_old_and_unreferenced(files, referenced, n - 1);
        let before = orphans(files, referenced, n - 1);
        let after = orphans(files, referenced, n);
        if removable(files[n - 1], referenced) {
            assert(after == before.push(n - 1));
            assert forall|k: int| 0 <= k < after.len() implies {
                let at = #[trigger] after[k];
                &&& 0 <= at < n
                &&& files[at].old
                &&& !is_referenced(referenced, files[at].key@)
            } by {
                if k < before.len() {
                    assert(after[k] == before[k]);
                }
            }
            assert forall|a: int, b: int| 0 <= a < b < after.len() implies #[trigger] after[a] < #[trigger] after[b] by {
                assert(after[a] == before[a]);
                if b < before.len() {
                    assert(after[b] == before[b]);
                }
            }
        } else {
            assert(after == before);
        }
    }
}

} // verus!
