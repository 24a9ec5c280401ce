//! Matching rule names against a snapshot of the running processes.

use vstd::prelude::*;

verus! {

/// `needle` occurs as a contiguous run of characters in `hay`.
pub open spec fn is_substring(needle: Seq<char>, hay: Seq<char>) -> bool {
    exists|i: int| 0 <= i && i + needle.len() <= hay.len() && #[trigger] hay.subrange(i, i + needle.len()) == needle
}

/// Relies on `str::contains` with a `&str` pattern: true exactly when the
/// pattern matches a sub-slice of the haystack.
#[verifier::external_body]
fn str_contains(hay: &str, needle: &str) -> (r: bool)
    ensures
        r == is_substring(needle@, hay@),
{
    hay.contains(needle)
}

/// What is known of one running process: its short name, when it could be
/// read, and its command-line arguments (empty when they could not be read).
pub struct ProcessEntry {
    pub comm: Option<String>,
    pub cmdline: Vec<String>,
}

/// A process matches a name when its short name or one of its arguments
/// contains the name.
pub open spec fn entry_matches(e: ProcessEntry, name: Seq<char>) -> bool {
    (e.comm matches Some(c) && is_substring(name, c@))
        || exists|k: int| 0 <= k < e.cmdline@.len() && is_substring(name, #[trigger] e.cmdline@[k]@)
}

/// Some process of the snapshot matches the name.
pub open spec fn running(procs: Seq<ProcessEntry>, name: Seq<char>) -> bool {
    exists|i: int| 0 <= i < procs.len() && entry_matches(#[trigger] procs[i], name)
}

/// Tells whether one process matches the name.
pub fn process_matches(entry: &ProcessEntry, name: &str) -> (r: bool)
    ensures
        r == entry_matches(*entry, name@),
{
    if let Some(c) = &entry.comm {
        if str_contains(c.as_str(), name) {
            return true;
        }
    }
    let mut k: usize = 0;
    while k < entry.cmdline.len()
        invariant
            0 <= k <= entry.cmdline@.len(),
            forall|j: int| 0 <= j < k ==> !is_substring(name@, #[trigger] entry.cmdline@[j]@),
        decreases entry.cmdline@.len() - k,
    {
        if str_contains(entry.cmdline[k].as_str(), name) {
            return true;
        }
        k = k + 1;
    }
    false
}

/// Tells whether a process matching the name is running, by its short name
/// or by any argument of its command line.
pub fn is_process_running(procs: &Vec<ProcessEntry>, process_name: &str) -> (r: bool)
    ensures
        r == running(procs@, process_name@),
{
    let mut i: usize = 0;
    while i < procs.len()
        invariant
            0 <= i <= procs@.len(),
            forall|j: int| 0 <= j < i ==> !entry_matches(#[trigger] procs@[j], process_name@),
        decreases procs@.len() - i,
    {
        if process_matches(&procs[i], process_name) {
            return true;
        }
        i = i + 1;
    }
    false
}

} // verus!
