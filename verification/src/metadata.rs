//! The record of one inspected path, and the two steps that produce it: the
//! stat outcome first, and for a directory the look for a first entry.

use crate::error::Error;
use crate::time::{checked_system_time_to_ms, epoch_ms, representable};
use std::path::PathBuf;
use std::time::SystemTime;
use vstd::prelude::*;

verus! {

/// `std::path::PathBuf`, carried through unread.
#[verifier::external_type_specification]
#[verifier::external_body]
pub struct ExPathBuf(PathBuf);

/// What one stat call reported, with its timestamps already in milliseconds.
#[derive(Clone, Copy, Debug, PartialEq, Eq)]
pub struct FileStat {
    pub accessed_at_ms: u64,
    pub created_at_ms: u64,
    pub modified_at_ms: u64,
    pub is_dir: bool,
    pub is_file: bool,
    pub is_symlink: bool,
    pub len: u64,
}

/// The record of one inspected path.
#[derive(Debug)]
pub struct Metadata {
    pub accessed_at_ms: u64,
    pub created_at_ms: u64,
    pub modified_at_ms: u64,
    pub is_dir: bool,
    pub is_file: bool,
    pub is_symlink: bool,
    pub size: u64,
    pub path: PathBuf,
    pub has_child: bool,
    pub id: String,
}

/// A record as a mathematical value: the identifier is a sequence of
/// characters, the rest is as in `Metadata`.
pub struct MetadataView {
    pub accessed_at_ms: u64,
    pub created_at_ms: u64,
    pub modified_at_ms: u64,
    pub is_dir: bool,
    pub is_file: bool,
    pub is_symlink: bool,
    pub size: u64,
    pub path: PathBuf,
    pub has_child: bool,
    pub id: Seq<char>,
}

impl View for Metadata {
    type V = MetadataView;

    open spec fn view(&self) -> MetadataView {
        MetadataView {
            accessed_at_ms: self.accessed_at_ms,
            created_at_ms: self.created_at_ms,
            modified_at_ms: self.modified_at_ms,
            is_dir: self.is_dir,
            is_file: self.is_file,
            is_symlink: self.is_symlink,
            size: self.size,
            path: self.path,
            has_child: self.has_child,
            id: self.id@,
        }
    }
}

/// The record that a stat outcome gives for `path` under `id`, with the given
/// answer to whether the path has an entry below it.
pub open spec fn record(
    path: PathBuf,
    id: Seq<char>,
    stat: FileStat,
    has_child: bool,
) -> MetadataView {
    MetadataView {
        accessed_at_ms: stat.accessed_at_ms,
        created_at_ms: stat.created_at_ms,
        modified_at_ms: stat.modified_at_ms,
        is_dir: stat.is_dir,
        is_file: stat.is_file,
        is_symlink: stat.is_symlink,
        size: stat.len,
        path,
        has_child,
        id,
    }
}

/// A result with its success taken by its view.
pub open spec fn outcome<T: View>(r: Result<T, Error>) -> Result<T::V, Error> {
    match r {
        Ok(value) => Ok(value@),
        Err(e) => Err(e),
    }
}

impl FileStat {
    /// The stat made of three timestamp readings, the type flags and the
    /// length.
    pub open spec fn of(
        accessed: Result<SystemTime, std::io::Error>,
        created: Result<SystemTime, std::io::Error>,
        modified: Result<SystemTime, std::io::Error>,
        is_dir: bool,
        is_file: bool,
        is_symlink: bool,
        len: u64,
    ) -> FileStat {
        FileStat {
            accessed_at_ms: epoch_ms(accessed),
            created_at_ms: epoch_ms(created),
            modified_at_ms: epoch_ms(modified),
            is_dir,
            is_file,
            is_symlink,
            len,
        }
    }

    /// Normalises what a stat call reported. Each timestamp reading that
    /// failed becomes zero, independently of the others. `None` where a time
    /// lies before the epoch.
    pub fn new(
        accessed: Result<SystemTime, std::io::Error>,
        created: Result<SystemTime, std::io::Error>,
        modified: Result<SystemTime, std::io::Error>,
        is_dir: bool,
        is_file: bool,
        is_symlink: bool,
        len: u64,
    ) -> (stat: Option<FileStat>)
        ensures
            stat == if representable(accessed) && representable(created)
                && representable(modified) {
                Some(FileStat::of(accessed, created, modified, is_dir, is_file, is_symlink, len))
            } else {
                None
            },
    {
        let accessed_at_ms = checked_system_time_to_ms(accessed);
        let created_at_ms = checked_system_time_to_ms(created);
        let modified_at_ms = checked_system_time_to_ms(modified);
        match (accessed_at_ms, created_at_ms, modified_at_ms) {
            (Some(accessed_at_ms), Some(created_at_ms), Some(modified_at_ms)) => Some(
                FileStat {
                    accessed_at_ms,
                    created_at_ms,
                    modified_at_ms,
                    is_dir,
                    is_file,
                    is_symlink,
                    len,
                },
            ),
            _ => None,
        }
    }
}

/// A directory's record that still lacks the answer to whether the directory
/// has an entry. It is made by `metadata` alone, for a directory alone.
pub struct Pending {
    record: Metadata,
}

/// Where the inspection of a path stands once its stat outcome is known.
pub enum Resolved {
    /// The path is no directory: the record is complete, and nothing is read
    /// below the path.
    Complete(Metadata),
    /// The path is a directory: its first entry has to be looked for.
    Directory(Pending),
}

/// `Resolved` as a mathematical value.
pub enum Step {
    Complete(MetadataView),
    Directory(MetadataView),
}

impl View for Pending {
    type V = MetadataView;

    closed spec fn view(&self) -> MetadataView {
        self.record@
    }
}

impl View for Resolved {
    type V = Step;

    open spec fn view(&self) -> Step {
        match *self {
            Resolved::Complete(record) => Step::Complete(record@),
            Resolved::Directory(pending) => Step::Directory(pending@),
        }
    }
}

/// The first step: a failed stat fails the inspection with the system's own
/// error; otherwise the record is filled from the stat, with `has_child` false,
/// and a directory waits for the look below it.
pub open spec fn begun(
    path: PathBuf,
    id: Seq<char>,
    stat: Result<FileStat, std::io::Error>,
) -> Result<Step, Error> {
    match stat {
        Err(e) => Err(Error::Io(e)),
        Ok(s) => if s.is_dir {
            Ok(Step::Directory(record(path, id, s, false)))
        } else {
            Ok(Step::Complete(record(path, id, s, false)))
        },
    }
}

/// The second step, for a directory: a look that failed fails the inspection;
/// otherwise `has_child` says whether an entry was found.
pub open spec fn finished(
    pending: MetadataView,
    first_entry: Result<bool, std::io::Error>,
) -> Result<MetadataView, Error> {
    match first_entry {
        Err(e) => Err(Error::Io(e)),
        Ok(found) => Ok(MetadataView { has_child: found, ..pending }),
    }
}

/// What the inspection of `path` under `id` comes to, given the stat outcome
/// and what a look for a first entry would give. The look counts for a
/// directory only.
pub open spec fn resolved(
    path: PathBuf,
    id: Seq<char>,
    stat: Result<FileStat, std::io::Error>,
    first_entry: Result<bool, std::io::Error>,
) -> Result<MetadataView, Error> {
    match stat {
        Err(e) => Err(Error::Io(e)),
        Ok(s) => if s.is_dir {
            match first_entry {
                Err(e) => Err(Error::Io(e)),
                Ok(found) => Ok(record(path, id, s, found)),
            }
        } else {
            Ok(record(path, id, s, false))
        },
    }
}

/// Takes the stat outcome of `file_path` and starts its record under
/// `file_id`. Path and identifier are echoed as given.
pub fn metadata(
    file_path: PathBuf,
    file_id: String,
    stat: Result<FileStat, std::io::Error>,
) -> (r: Result<Resolved, Error>)
    ensures
        outcome(r) == begun(file_path, file_id@, stat),
{
    match stat {
        Err(e) => Err(Error::Io(e)),
        Ok(s) => {
            let is_dir = s.is_dir;
            let record = Metadata {
                accessed_at_ms: s.accessed_at_ms,
                created_at_ms: s.created_at_ms,
                modified_at_ms: s.modified_at_ms,
                is_dir: s.is_dir,
                is_file: s.is_file,
                is_symlink: s.is_symlink,
                size: s.len,
                path: file_path,
                has_child: false,
                id: file_id,
            };
            if is_dir {
                Ok(Resolved::Directory(Pending { record }))
            } else {
                Ok(Resolved::Complete(record))
            }
        },
    }
}

impl Pending {
    #[verifier::type_invariant]
    spec fn is_unprobed_directory(&self) -> bool {
        self.record.is_dir && !self.record.has_child
    }

    /// The directory to look into.
    pub fn path(&self) -> (path: &PathBuf)
        ensures
            *path == self@.path,
    {
        &self.record.path
    }

    /// Takes what the look for a first entry gave and completes the record.
    pub fn finish(self, first_entry: Result<bool, std::io::Error>) -> (r: Result<Metadata, Error>)
        ensures
            outcome(r) == finished(self@, first_entry),
            self@.is_dir,
            !self@.has_child,
    {
        proof {
            use_type_invariant(&self);
        }
        match first_entry {
            Err(e) => Err(Error::Io(e)),
            Ok(found) => {
                let Pending { record } = self;
                Ok(
                    Metadata {
                        accessed_at_ms: record.accessed_at_ms,
                        created_at_ms: record.created_at_ms,
                        modified_at_ms: record.modified_at_ms,
                        is_dir: record.is_dir,
                        is_file: record.is_file,
                        is_symlink: record.is_symlink,
                        size: record.size,
                        path: record.path,
                        has_child: found,
                        id: record.id,
                    },
                )
            },
        }
    }
}

/// The two steps, one after the other, give what `resolved` says, whatever
/// the stat and the look gave.
pub proof fn steps_give_resolved(
    path: PathBuf,
    id: Seq<char>,
    stat: Result<FileStat, std::io::Error>,
    first_entry: Result<bool, std::io::Error>,
)
    ensures
        resolved(path, id, stat, first_entry) == match begun(path, id, stat) {
            Err(e) => Err(e),
            Ok(Step::Complete(record)) => Ok(record),
            Ok(Step::Directory(pending)) => finished(pending, first_entry),
        },
{
}

/// A path whose stat succeeded and reports a regular file that is no directory
/// resolves to a record that says so, whatever a look below it would give.
pub proof fn regular_file_resolves(
    path: PathBuf,
    id: Seq<char>,
    stat: FileStat,
    first_entry: Result<bool, std::io::Error>,
)
    requires
        stat.is_file,
        !stat.is_dir,
    ensures
        resolved(path, id, Ok(stat), first_entry) == Ok::<MetadataView, Error>(
            record(path, id, stat, false),
        ),
        record(path, id, stat, false).is_file,
        !record(path, id, stat, false).is_dir,
        record(path, id, stat, false).path == path,
        record(path, id, stat, false).id == id,
{
}

/// A directory has a child exactly where the look below it found an entry.
pub proof fn directory_has_child_where_found(
    path: PathBuf,
    id: Seq<char>,
    stat: FileStat,
    found: bool,
)
    requires
        stat.is_dir,
    ensures
        resolved(path, id, Ok(stat), Ok(found)) matches Ok(m) && m.has_child == found,
{
}

/// A directory that cannot be looked into fails the inspection with the
/// system's error.
pub proof fn unreadable_directory_fails(
    path: PathBuf,
    id: Seq<char>,
    stat: FileStat,
    e: std::io::Error,
)
    requires
        stat.is_dir,
    ensures
        resolved(path, id, Ok(stat), Err(e)) == Err::<MetadataView, Error>(Error::Io(e)),
{
}

/// A path whose stat failed fails the inspection with the system's error.
pub proof fn inaccessible_path_fails(
    path: PathBuf,
    id: Seq<char>,
    e: std::io::Error,
    first_entry: Result<bool, std::io::Error>,
)
    ensures
        resolved(path, id, Err(e), first_entry) == Err::<MetadataView, Error>(Error::Io(e)),
{
}

/// Every record echoes the path and the identifier it was asked for, takes
/// flags, size and timestamps from the stat, and says of a directory alone that
/// it has a child.
pub proof fn record_echoes_input(
    path: PathBuf,
    id: Seq<char>,
    stat: Result<FileStat, std::io::Error>,
    first_entry: Result<bool, std::io::Error>,
)
    ensures
        resolved(path, id, stat, first_entry) matches Ok(m) ==> {
            &&& stat matches Ok(s)
            &&& m == record(path, id, s, m.has_child)
            &&& m.path == path
            &&& m.id == id
            &&& m.has_child ==> m.is_dir
        },
{
}

/// A timestamp that could not be read is zero, each on its own: in the stat,
/// and in every record made from it.
pub proof fn unread_timestamps_are_zero(
    accessed: Result<SystemTime, std::io::Error>,
    created: Result<SystemTime, std::io::Error>,
    modified: Result<SystemTime, std::io::Error>,
    is_dir: bool,
    is_file: bool,
    is_symlink: bool,
    len: u64,
    path: PathBuf,
    id: Seq<char>,
    first_entry: Result<bool, std::io::Error>,
)
    ensures
        ({
            let stat = FileStat::of(accessed, created, modified, is_dir, is_file, is_symlink, len);
            &&& accessed is Err ==> stat.accessed_at_ms == 0
            &&& created is Err ==> stat.created_at_ms == 0
            &&& modified is Err ==> stat.modified_at_ms == 0
            &&& resolved(path, id, Ok(stat), first_entry) matches Ok(m) ==> {
                &&& m.accessed_at_ms == epoch_ms(accessed)
                &&& m.created_at_ms == epoch_ms(created)
                &&& m.modified_at_ms == epoch_ms(modified)
                &&& accessed is Err ==> m.accessed_at_ms == 0
                &&& created is Err ==> m.created_at_ms == 0
                &&& modified is Err ==> m.modified_at_ms == 0
            }
        }),
{
}

} // verus!
