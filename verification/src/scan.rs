use vstd::prelude::*;

use crate::errors::LaunchError;

verus! {

/// One direct entry of a candidate directory, as the embedding program
/// observed it. Only entries classified as regular files count toward the
/// match; symlinks, directories, devices and the rest do not.
pub enum ScannedEntry {
    /// An entry classified as a regular file, with its path.
    File { path: String },
    /// An entry of any other kind.
    Other,
    /// Reading or classifying the entry failed.
    Failed,
}

/// One candidate directory, as the embedding program observed it.
pub enum ScannedDir {
    /// The path does not exist, or is not a directory; silently skipped.
    Absent,
    /// The directory exists but reading it failed.
    Unreadable,
    /// The directory's direct entries, in the order they were produced.
    /// Subdirectories are not recursed into.
    Listed { entries: Vec<ScannedEntry> },
}

/// The scan's running state: the unique candidate seen so far, or the
/// failure that ended the scan.
pub type ScanState = Result<Option<Seq<char>>, LaunchError>;

/// One entry's effect on the scan state: a failed entry ends the scan with
/// `IoFailure`; a second regular file ends it with `AmbiguousMatch`; a
/// first regular file becomes the candidate; anything else changes nothing.
pub open spec fn entry_step(state: ScanState, e: ScannedEntry) -> ScanState {
    match state {
        Err(er) => Err(er),
        Ok(cand) => match e {
            ScannedEntry::Failed => Err(LaunchError::IoFailure),
            ScannedEntry::Other => Ok(cand),
            ScannedEntry::File { path } => match cand {
                Some(c) => Err(LaunchError::AmbiguousMatch),
                None => Ok(Some(path@)),
            },
        },
    }
}

/// The scan state after the first `k` entries of one directory, starting
/// from `state`.
pub open spec fn scan_entries_prefix(entries: Seq<ScannedEntry>, state: ScanState, k: int) -> ScanState
    decreases k,
{
    if k <= 0 {
        state
    } else {
        entry_step(scan_entries_prefix(entries, state, k - 1), entries[k - 1])
    }
}

/// One directory's effect on the scan state: an absent one is skipped, an
/// unreadable one ends the scan with `IoFailure`, and a listed one folds
/// its entries in order.
pub open spec fn dir_step(state: ScanState, d: ScannedDir) -> ScanState {
    match state {
        Err(er) => Err(er),
        Ok(cand) => match d {
            ScannedDir::Absent => Ok(cand),
            ScannedDir::Unreadable => Err(LaunchError::IoFailure),
            ScannedDir::Listed { entries } => scan_entries_prefix(
                entries@,
                Ok(cand),
                entries@.len() as int,
            ),
        },
    }
}

/// The scan state after the first `k` directories of the list.
pub open spec fn scan_dirs_prefix(dirs: Seq<ScannedDir>, k: int) -> ScanState
    decreases k,
{
    if k <= 0 {
        Ok(None)
    } else {
        dir_step(scan_dirs_prefix(dirs, k - 1), dirs[k - 1])
    }
}

/// The result the scan owes for the whole list: the unique regular file's
/// path, `NotFound` when there was none, or the failure that ended the
/// scan first.
pub open spec fn scan_spec(dirs: Seq<ScannedDir>) -> Result<Seq<char>, LaunchError> {
    match scan_dirs_prefix(dirs, dirs.len() as int) {
        Ok(cand) => match cand {
            Some(p) => Ok(p),
            None => Err(LaunchError::NotFound),
        },
        Err(e) => Err(e),
    }
}

/// The candidate's view, for relating the loop state to the fold.
pub open spec fn candidate_view(c: Option<String>) -> Option<Seq<char>> {
    match c {
        Some(p) => Some(p@),
        None => None,
    }
}

/// Once the entry fold has failed, every longer prefix reports the same
/// failure.
proof fn lemma_entries_error_persists(entries: Seq<ScannedEntry>, state: ScanState, k: int, m: int)
    requires
        0 <= k <= m,
        scan_entries_prefix(entries, state, k) is Err,
    ensures
        scan_entries_prefix(entries, state, m) == scan_entries_prefix(entries, state, k),
    decreases m - k,
{
    if m > k {
        lemma_entries_error_persists(entries, state, k, m - 1);
    }
}

/// Once the directory fold has failed, every longer prefix reports the
/// same failure.
proof fn lemma_dirs_error_persists(dirs: Seq<ScannedDir>, k: int, m: int)
    requires
        0 <= k <= m,
        scan_dirs_prefix(dirs, k) is Err,
    ensures
        scan_dirs_prefix(dirs, m) == scan_dirs_prefix(dirs, k),
    decreases m - k,
{
    if m > k {
        lemma_dirs_error_persists(dirs, k, m - 1);
    }
}

/// Whether the entry is a regular file.
pub open spec fn entry_is_file(e: ScannedEntry) -> bool {
    e matches ScannedEntry::File { .. }
}

/// Whether the entry was read and classified without failure.
pub open spec fn entry_ok(e: ScannedEntry) -> bool {
    !(e matches ScannedEntry::Failed)
}

/// Whether the directory was observed without any read failure.
pub open spec fn dir_ok(d: ScannedDir) -> bool {
    match d {
        ScannedDir::Absent => true,
        ScannedDir::Unreadable => false,
        ScannedDir::Listed { entries } => forall|m: int|
            0 <= m < entries@.len() ==> entry_ok(entries@[m]),
    }
}

/// Whether every directory in the list was observed without read failures.
pub open spec fn scan_clean(dirs: Seq<ScannedDir>) -> bool {
    forall|m: int| 0 <= m < dirs.len() ==> dir_ok(dirs[m])
}

/// Regular files among the first `k` entries of one directory.
pub open spec fn entry_files_prefix(entries: Seq<ScannedEntry>, k: int) -> nat
    decreases k,
{
    if k <= 0 {
        0
    } else {
        entry_files_prefix(entries, k - 1) + (if entry_is_file(entries[k - 1]) {
            1nat
        } else {
            0nat
        })
    }
}

/// Regular files among one directory's direct entries.
pub open spec fn dir_file_count(d: ScannedDir) -> nat {
    match d {
        ScannedDir::Listed { entries } => entry_files_prefix(entries@, entries@.len() as int),
        _ => 0,
    }
}

/// Regular files across the first `k` directories of the list.
pub open spec fn files_prefix(dirs: Seq<ScannedDir>, k: int) -> nat
    decreases k,
{
    if k <= 0 {
        0
    } else {
        files_prefix(dirs, k - 1) + dir_file_count(dirs[k - 1])
    }
}

/// Regular files across the whole list: the scan treats the list as one
/// namespace, so this combined count decides the outcome.
pub open spec fn file_count(dirs: Seq<ScannedDir>) -> nat {
    files_prefix(dirs, dirs.len() as int)
}

/// The path of the first regular file among the first `k` entries.
pub open spec fn entries_first_file(entries: Seq<ScannedEntry>, k: int) -> Seq<char>
    decreases k,
{
    if k <= 0 {
        Seq::empty()
    } else {
        match entries[k - 1] {
            ScannedEntry::File { path } => if entry_files_prefix(entries, k - 1) == 0 {
                path@
            } else {
                entries_first_file(entries, k - 1)
            },
            _ => entries_first_file(entries, k - 1),
        }
    }
}

/// The path of the first regular file across the first `k` directories.
pub open spec fn dirs_first_file(dirs: Seq<ScannedDir>, k: int) -> Seq<char>
    decreases k,
{
    if k <= 0 {
        Seq::empty()
    } else if files_prefix(dirs, k - 1) == 0 && dir_file_count(dirs[k - 1]) > 0 {
        match dirs[k - 1] {
            ScannedDir::Listed { entries } => entries_first_file(entries@, entries@.len() as int),
            _ => Seq::empty(),
        }
    } else {
        dirs_first_file(dirs, k - 1)
    }
}

/// The path of the first regular file across the whole list.
pub open spec fn first_file(dirs: Seq<ScannedDir>) -> Seq<char> {
    dirs_first_file(dirs, dirs.len() as int)
}

/// How the entry fold behaves on clean entries, by their file count: no
/// file leaves the candidate alone, a first file becomes the candidate,
/// and any further file is ambiguous.
proof fn lemma_entries_clean(entries: Seq<ScannedEntry>, cand: Option<Seq<char>>, k: int)
    requires
        0 <= k <= entries.len(),
        forall|m: int| 0 <= m < k ==> entry_ok(entries[m]),
    ensures
        cand is Some && entry_files_prefix(entries, k) == 0 ==> scan_entries_prefix(
            entries,
            Ok(cand),
            k,
        ) == Ok::<Option<Seq<char>>, LaunchError>(cand),
        cand is Some && entry_files_prefix(entries, k) >= 1 ==> scan_entries_prefix(
            entries,
            Ok(cand),
            k,
        ) == Err::<Option<Seq<char>>, LaunchError>(LaunchError::AmbiguousMatch),
        cand is None && entry_files_prefix(entries, k) == 0 ==> scan_entries_prefix(
            entries,
            Ok(cand),
            k,
        ) == Ok::<Option<Seq<char>>, LaunchError>(None),
        cand is None && entry_files_prefix(entries, k) == 1 ==> scan_entries_prefix(
            entries,
            Ok(cand),
            k,
        ) == Ok::<Option<Seq<char>>, LaunchError>(Some(entries_first_file(entries, k))),
        cand is None && entry_files_prefix(entries, k) >= 2 ==> scan_entries_prefix(
            entries,
            Ok(cand),
            k,
        ) == Err::<Option<Seq<char>>, LaunchError>(LaunchError::AmbiguousMatch),
    decreases k,
{
    if k > 0 {
        lemma_entries_clean(entries, cand, k - 1);
    }
}

/// How the directory fold behaves on a clean list, by its combined file
/// count.
proof fn lemma_dirs_clean(dirs: Seq<ScannedDir>, k: int)
    requires
        0 <= k <= dirs.len(),
        forall|m: int| 0 <= m < k ==> dir_ok(dirs[m]),
    ensures
        files_prefix(dirs, k) == 0 ==> scan_dirs_prefix(dirs, k) == Ok::<
            Option<Seq<char>>,
            LaunchError,
        >(None),
        files_prefix(dirs, k) == 1 ==> scan_dirs_prefix(dirs, k) == Ok::<
            Option<Seq<char>>,
            LaunchError,
        >(Some(dirs_first_file(dirs, k))),
        files_prefix(dirs, k) >= 2 ==> scan_dirs_prefix(dirs, k) == Err::<
            Option<Seq<char>>,
            LaunchError,
        >(LaunchError::AmbiguousMatch),
    decreases k,
{
    if k > 0 {
        lemma_dirs_clean(dirs, k - 1);
        assert(dir_ok(dirs[k - 1]));
        match dirs[k - 1] {
            ScannedDir::Listed { entries } => {
                if files_prefix(dirs, k - 1) == 0 {
                    lemma_entries_clean(entries@, None, entries@.len() as int);
                } else if files_prefix(dirs, k - 1) == 1 {
                    lemma_entries_clean(
                        entries@,
                        Some(dirs_first_file(dirs, k - 1)),
                        entries@.len() as int,
                    );
                }
            },
            _ => {},
        }
    }
}

/// Scanning an empty list of directories yields `NotFound`.
pub proof fn lemma_scan_empty(dirs: Seq<ScannedDir>)
    requires
        dirs.len() == 0,
    ensures
        scan_spec(dirs) == Err::<Seq<char>, LaunchError>(LaunchError::NotFound),
{
}

/// With every directory read cleanly, a combined regular-file count of
/// zero across the whole list yields `NotFound`.
pub proof fn lemma_scan_no_file(dirs: Seq<ScannedDir>)
    requires
        scan_clean(dirs),
        file_count(dirs) == 0,
    ensures
        scan_spec(dirs) == Err::<Seq<char>, LaunchError>(LaunchError::NotFound),
{
    lemma_dirs_clean(dirs, dirs.len() as int);
}

/// With every directory read cleanly, a combined regular-file count of
/// exactly one across the whole list yields that file's path, wherever in
/// the list the file stands and however many other directories are empty.
pub proof fn lemma_scan_unique_file(dirs: Seq<ScannedDir>)
    requires
        scan_clean(dirs),
        file_count(dirs) == 1,
    ensures
        scan_spec(dirs) == Ok::<Seq<char>, LaunchError>(first_file(dirs)),
{
    lemma_dirs_clean(dirs, dirs.len() as int);
}

/// With every directory read cleanly, a combined regular-file count of two
/// or more across the whole list yields `AmbiguousMatch`, even when each
/// single directory holds at most one file.
pub proof fn lemma_scan_ambiguous(dirs: Seq<ScannedDir>)
    requires
        scan_clean(dirs),
        file_count(dirs) >= 2,
    ensures
        scan_spec(dirs) == Err::<Seq<char>, LaunchError>(LaunchError::AmbiguousMatch),
{
    lemma_dirs_clean(dirs, dirs.len() as int);
}

/// The prefix fold is blind to an absent directory wherever it stands.
proof fn lemma_prefix_insert_absent(dirs: Seq<ScannedDir>, i: int, k: int)
    requires
        0 <= i <= dirs.len(),
        0 <= k <= dirs.len(),
    ensures
        scan_dirs_prefix(
            dirs.insert(i, ScannedDir::Absent),
            if k <= i {
                k
            } else {
                k + 1
            },
        ) == scan_dirs_prefix(dirs, k),
    decreases k,
{
    let dirs2 = dirs.insert(i, ScannedDir::Absent);
    dirs.insert_ensures(i, ScannedDir::Absent);
    if k > 0 {
        lemma_prefix_insert_absent(dirs, i, k - 1);
        if k <= i {
            assert(dirs2[k - 1] == dirs[k - 1]);
        } else if k - 1 == i {
            assert(dirs2[i] == ScannedDir::Absent);
            assert(dirs2[k] == dirs[k - 1]);
            assert(scan_dirs_prefix(dirs2, i + 1) == dir_step(
                scan_dirs_prefix(dirs2, i),
                ScannedDir::Absent,
            ));
        } else {
            assert(dirs2[k] == dirs[k - 1]);
        }
    }
}

/// A directory that does not exist is skipped without error: an absent
/// entry anywhere in the list leaves the scan's result unchanged.
pub proof fn lemma_scan_skips_absent(dirs: Seq<ScannedDir>, i: int)
    requires
        0 <= i <= dirs.len(),
    ensures
        scan_spec(dirs.insert(i, ScannedDir::Absent)) == scan_spec(dirs),
{
    let dirs2 = dirs.insert(i, ScannedDir::Absent);
    dirs.insert_ensures(i, ScannedDir::Absent);
    lemma_prefix_insert_absent(dirs, i, dirs.len() as int);
    if i == dirs.len() {
        assert(dirs2[dirs.len() as int] == ScannedDir::Absent);
        assert(scan_dirs_prefix(dirs2, dirs.len() as int + 1) == dir_step(
            scan_dirs_prefix(dirs2, dirs.len() as int),
            ScannedDir::Absent,
        ));
    }
}

/// Finds the single regular file across the given directory observations.
///
/// Every listed directory's entries are folded in order, over the whole
/// list as one namespace: a failed read ends the scan with `IoFailure` at
/// once, a second regular file ends it with `AmbiguousMatch` at once, and
/// absent directories are skipped. When the whole list holds exactly one
/// regular file, its path is returned; when it holds none, `NotFound`.
pub fn find_single_file_in_directories(dirs: &Vec<ScannedDir>) -> (r: Result<String, LaunchError>)
    ensures
        match r {
            Ok(p) => scan_spec(dirs@) == Ok::<Seq<char>, LaunchError>(p@),
            Err(e) => scan_spec(dirs@) == Err::<Seq<char>, LaunchError>(e),
        },
{
    let ghost n = dirs@.len() as int;
    let mut candidate: Option<String> = None;
    let mut i: usize = 0;
    while i < dirs.len()
        invariant
            i <= dirs@.len(),
            n == dirs@.len() as int,
            scan_dirs_prefix(dirs@, i as int) == Ok::<Option<Seq<char>>, LaunchError>(
                candidate_view(candidate),
            ),
        decreases dirs@.len() - i,
    {
        let ghost cv0 = candidate_view(candidate);
        match &dirs[i] {
            ScannedDir::Absent => {},
            ScannedDir::Unreadable => {
                proof {
                    assert(scan_dirs_prefix(dirs@, i + 1) == Err::<Option<Seq<char>>, LaunchError>(
                        LaunchError::IoFailure,
                    ));
                    lemma_dirs_error_persists(dirs@, i + 1, n);
                }
                return Err(LaunchError::IoFailure);
            },
            ScannedDir::Listed { entries } => {
                let mut j: usize = 0;
                while j < entries.len()
                    invariant
                        j <= entries@.len(),
                        i < dirs@.len(),
                        n == dirs@.len() as int,
                        dirs@[i as int] == (ScannedDir::Listed { entries: *entries }),
                        scan_dirs_prefix(dirs@, i as int) == Ok::<
                            Option<Seq<char>>,
                            LaunchError,
                        >(cv0),
                        scan_entries_prefix(entries@, Ok(cv0), j as int) == Ok::<
                            Option<Seq<char>>,
                            LaunchError,
                        >(candidate_view(candidate)),
                    decreases entries@.len() - j,
                {
                    match &entries[j] {
                        ScannedEntry::Failed => {
                            proof {
                                assert(scan_entries_prefix(entries@, Ok(cv0), j + 1) == Err::<
                                    Option<Seq<char>>,
                                    LaunchError,
                                >(LaunchError::IoFailure));
                                lemma_entries_error_persists(
                                    entries@,
                                    Ok(cv0),
                                    j + 1,
                                    entries@.len() as int,
                                );
                                assert(scan_dirs_prefix(dirs@, i + 1) == Err::<
                                    Option<Seq<char>>,
                                    LaunchError,
                                >(LaunchError::IoFailure));
                                lemma_dirs_error_persists(dirs@, i + 1, n);
                            }
                            return Err(LaunchError::IoFailure);
                        },
                        ScannedEntry::Other => {},
                        ScannedEntry::File { path } => {
                            if candidate.is_some() {
                                proof {
                                    assert(scan_entries_prefix(entries@, Ok(cv0), j + 1) == Err::<
                                        Option<Seq<char>>,
                                        LaunchError,
                                    >(LaunchError::AmbiguousMatch));
                                    lemma_entries_error_persists(
                                        entries@,
                                        Ok(cv0),
                                        j + 1,
                                        entries@.len() as int,
                                    );
                                    assert(scan_dirs_prefix(dirs@, i + 1) == Err::<
                                        Option<Seq<char>>,
                                        LaunchError,
                                    >(LaunchError::AmbiguousMatch));
                                    lemma_dirs_error_persists(dirs@, i + 1, n);
                                }
                                return Err(LaunchError::AmbiguousMatch);
                            }
                            candidate = Some(path.clone());
                        },
                    }
                    j += 1;
                }
                proof {
                    assert(dir_step(Ok(cv0), dirs@[i as int]) == Ok::<
                        Option<Seq<char>>,
                        LaunchError,
                    >(candidate_view(candidate)));
                }
            },
        }
        i += 1;
    }
    match candidate {
        Some(p) => Ok(p),
        None => Err(LaunchError::NotFound),
    }
}

} // verus!
