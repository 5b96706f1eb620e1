//! Choosing the log file to follow: among the entries of a directory whose
//! names begin with a fixed prefix, the one modified last.

use crate::text::chars_of;
use crate::text::starts_with;
use vstd::prelude::*;

verus! {

/// The characters every log file's name begins with.
pub open spec fn log_file_prefix() -> Seq<char> {
    "output_log_"@
}

/// One entry of the log directory, as the caller read it.
#[derive(Debug)]
pub struct DirectoryEntry {
    /// The entry's file name, without its directory.
    pub name: String,
    /// When the entry was last modified, in nanoseconds since the Unix epoch
    /// (negative before it).
    pub modified: i128,
}

/// What enumerating the log directory gave.
#[derive(Debug)]
pub enum DirectoryListing {
    /// The directory could not be read.
    Unreadable,
    /// Its entries, in the order in which they were enumerated.
    Entries(Vec<DirectoryEntry>),
}

/// Why no log file was chosen.
#[derive(Clone, Copy, Debug, PartialEq, Eq, Structural)]
pub enum LocateError {
    /// The directory is unreadable, or none of its entries is a log file.
    NotFound,
}

/// Whether `entry` is a log file, going by its name.
pub open spec fn is_log_file(entry: DirectoryEntry) -> bool {
    log_file_prefix().is_prefix_of(entry.name@)
}

/// Whether some entry is a log file.
pub open spec fn has_log_file(entries: Seq<DirectoryEntry>) -> bool {
    exists|j: int| 0 <= j < entries.len() && is_log_file(#[trigger] entries[j])
}

/// Whether entry `i` is the one to follow: a log file that no other log file
/// is newer than, and the first such in enumeration order.
pub open spec fn is_latest(entries: Seq<DirectoryEntry>, i: int) -> bool {
    &&& 0 <= i < entries.len()
    &&& is_log_file(entries[i])
    &&& forall|j: int|
        0 <= j < entries.len() && is_log_file(#[trigger] entries[j]) ==> entries[j].modified
            <= entries[i].modified
    &&& forall|j: int|
        0 <= j < i && is_log_file(#[trigger] entries[j]) ==> entries[j].modified
            < entries[i].modified
}

/// At most one entry is the one to follow: the choice among the entries of
/// a directory is never open.
pub proof fn law_latest_is_unique(entries: Seq<DirectoryEntry>, i: int, j: int)
    requires
        is_latest(entries, i),
        is_latest(entries, j),
    ensures
        i == j,
{
    if i < j {
        assert(is_log_file(entries[i]));
    } else if j < i {
        assert(is_log_file(entries[j]));
    }
}

/// Tells whether a file of this name is a log file.
pub fn is_log_file_name(name: &str) -> (r: bool)
    ensures
        r == log_file_prefix().is_prefix_of(name@),
{
    let prefix = chars_of("output_log_");
    let text = chars_of(name);
    starts_with(&text, &prefix)
}

/// Picks the log file to follow among `entries`: the index of the log file
/// modified last, the first of them where several share that time.
pub fn select_latest(entries: &Vec<DirectoryEntry>) -> (r: Result<usize, LocateError>)
    ensures
        r is Ok <==> has_log_file(entries@),
        r matches Ok(i) ==> is_latest(entries@, i as int),
        r matches Err(e) ==> e == LocateError::NotFound,
{
    let mut best: Option<usize> = None;
    let mut k: usize = 0;
    while k < entries.len()
        invariant
            k <= entries.len(),
            best is None ==> forall|j: int| 0 <= j < k ==> !is_log_file(#[trigger] entries@[j]),
            best matches Some(b) ==> b < k && is_latest(entries@.take(k as int), b as int),
        decreases entries.len() - k,
    {
        let ghost seen = entries@.take(k as int);
        let ghost next = entries@.take(k + 1);
        assert(forall|j: int| 0 <= j < k ==> seen[j] == next[j]);
        if is_log_file_name(entries[k].name.as_str()) {
            match best {
                None => {
                    best = Some(k);
                },
                Some(b) => {
                    if entries[k].modified > entries[b].modified {
                        best = Some(k);
                    }
                },
            }
        }
        k += 1;
    }
    assert(entries@.take(k as int) =~= entries@);
    match best {
        Some(b) => Ok(b),
        None => Err(LocateError::NotFound),
    }
}

/// Picks the log file to follow from what enumerating the directory gave.
pub fn locate(listing: &DirectoryListing) -> (r: Result<usize, LocateError>)
    ensures
        r is Ok <==> (listing matches DirectoryListing::Entries(entries) && has_log_file(entries@)),
        r matches Ok(i) ==> (listing matches DirectoryListing::Entries(entries) && is_latest(
            entries@,
            i as int,
        )),
        r matches Err(e) ==> e == LocateError::NotFound,
{
    match listing {
        DirectoryListing::Unreadable => Err(LocateError::NotFound),
        DirectoryListing::Entries(entries) => select_latest(entries),
    }
}

} // verus!
