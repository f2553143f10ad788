use vstd::prelude::*;

pub mod git;

verus! {

/// What a backend operation gives: its value, or the text of the error.
pub type BackendResult<T> = Result<T, String>;

/// The state of a file in the working copy.
#[derive(PartialEq, Eq, Structural, Clone, Copy, Debug)]
pub enum FileStatus {
    Unmodified,
    Modified,
    Added,
    Deleted,
    Renamed,
    Untracked,
    Copied,
    Unmerged,
    Missing,
    Ignored,
    Clean,
}

/// The name a status is shown by.
pub open spec fn file_status_name(status: FileStatus) -> Seq<char> {
    match status {
        FileStatus::Unmodified => "unmodified"@,
        FileStatus::Modified => "modified"@,
        FileStatus::Added => "added"@,
        FileStatus::Deleted => "deleted"@,
        FileStatus::Renamed => "renamed"@,
        FileStatus::Untracked => "untracked"@,
        FileStatus::Copied => "copied"@,
        FileStatus::Unmerged => "unmerged"@,
        FileStatus::Missing => "missing"@,
        FileStatus::Ignored => "ignored"@,
        FileStatus::Clean => "clean"@,
    }
}

impl FileStatus {
    /// The name the status is shown by.
    pub fn name(&self) -> (res: &'static str)
        ensures
            res@ == file_status_name(*self),
    {
        match self {
            FileStatus::Unmodified => "unmodified",
            FileStatus::Modified => "modified",
            FileStatus::Added => "added",
            FileStatus::Deleted => "deleted",
            FileStatus::Renamed => "renamed",
            FileStatus::Untracked => "untracked",
            FileStatus::Copied => "copied",
            FileStatus::Unmerged => "unmerged",
            FileStatus::Missing => "missing",
            FileStatus::Ignored => "ignored",
            FileStatus::Clean => "clean",
        }
    }
}

/// The header of a working copy and its changed files.
pub struct StatusInfo {
    pub header: String,
    pub entries: Vec<StatusEntry>,
}

/// A changed file.
pub struct StatusEntry {
    pub name: String,
    pub status: FileStatus,
}

/// One revision of the log.
pub struct LogEntry {
    pub graph: String,
    pub hash: String,
    pub date: String,
    pub author: String,
    pub refs: String,
    pub message: String,
}

/// A branch.
pub struct BranchEntry {
    pub name: String,
}

/// What a version control system does for the screens.
pub trait Backend {
    fn name(&self) -> &str;

    fn status(&self) -> BackendResult<StatusInfo>;

    fn commit(&self, message: &str, entries: &[StatusEntry]) -> BackendResult<String>;

    fn discard(&self, entries: &[StatusEntry]) -> BackendResult<String>;

    fn diff(&self, revision: Option<&str>, entries: &[StatusEntry]) -> BackendResult<String>;

    fn log(&self, start: usize, len: usize) -> BackendResult<Vec<LogEntry>>;
}

/// The repository the current directory is in: a git repository, given the root its probe
/// found.
pub fn backend_from_current_repository(git: Option<(String, git::Git)>) -> (res: Option<(String, git::Git)>)
    ensures
        res == git,
{
    match git {
        Some((root, g)) => Some((root, g)),
        None => None,
    }
}

} // verus!
