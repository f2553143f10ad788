use vstd::prelude::*;

use crate::backend::{log_entry, log_fields};
use crate::next::backend::{BackendResult, FileStatus, LogEntry};
use crate::text::{lines, lines_spec, str_equal, views};

verus! {

/// The git backend.
pub struct Git;

/// The status a git status code stands for: a modified file for an unknown code.
pub open spec fn status_of_code(s: Seq<char>) -> FileStatus {
    if s == "M"@ {
        FileStatus::Modified
    } else if s == "A"@ {
        FileStatus::Added
    } else if s == "D"@ {
        FileStatus::Deleted
    } else if s == "R"@ {
        FileStatus::Renamed
    } else if s == "?"@ {
        FileStatus::Untracked
    } else if s == "C"@ {
        FileStatus::Copied
    } else if s == "U"@ {
        FileStatus::Unmerged
    } else {
        FileStatus::Unmodified
    }
}

/// The status a git status code stands for.
pub fn parse_file_status(s: &str) -> (res: FileStatus)
    ensures
        res == status_of_code(s@),
{
    if str_equal(s, "M") {
        FileStatus::Modified
    } else if str_equal(s, "A") {
        FileStatus::Added
    } else if str_equal(s, "D") {
        FileStatus::Deleted
    } else if str_equal(s, "R") {
        FileStatus::Renamed
    } else if str_equal(s, "?") {
        FileStatus::Untracked
    } else if str_equal(s, "C") {
        FileStatus::Copied
    } else if str_equal(s, "U") {
        FileStatus::Unmerged
    } else {
        FileStatus::Unmodified
    }
}

/// The fields of a log line as an entry.
pub open spec fn log_entry_view(e: LogEntry) -> Seq<Seq<char>> {
    seq![e.graph@, e.hash@, e.date@, e.author@, e.refs@, e.message@]
}

impl Git {
    /// The repository whose root `git rev-parse --show-toplevel` printed on its first line,
    /// if it succeeded and printed a line.
    pub fn try_new(output: BackendResult<String>) -> (res: Option<(String, Git)>)
        ensures
            match output {
                Ok(o) => if lines_spec(o@).len() > 0 {
                    res matches Some((root, _)) && root@ == lines_spec(o@)[0]
                } else {
                    res is None
                },
                Err(_) => res is None,
            },
    {
        match output {
            Ok(o) => {
                let ls = lines(o.as_str());
                if ls.len() > 0 {
                    Some((ls[0].clone(), Git))
                } else {
                    None
                }
            },
            Err(_) => None,
        }
    }

    /// The log read from the output of `git log` with the fields of each line divided by NUL
    /// characters.
    pub fn log(&self, output: &str) -> (res: Vec<LogEntry>)
        ensures
            res@.map_values(|e: LogEntry| log_entry_view(e)) == lines_spec(output@).map_values(
                |l: Seq<char>| log_fields(l, '\0'),
            ),
    {
        let ls = lines(output);
        let ghost lv = views(ls@);
        let mut res: Vec<LogEntry> = Vec::new();
        let mut i: usize = 0;
        while i < ls.len()
            invariant
                i <= ls.len(),
                lv == views(ls@),
                lv == lines_spec(output@),
                res@.map_values(|e: LogEntry| log_entry_view(e)) == lv.take(i as int).map_values(
                    |l: Seq<char>| log_fields(l, '\0'),
                ),
            decreases ls.len() - i,
        {
            let e = log_entry(ls[i].as_str(), '\0');
            let ghost before = res@.map_values(|e: LogEntry| log_entry_view(e));
            let entry = LogEntry {
                graph: e.graph,
                hash: e.hash,
                date: e.date,
                author: e.author,
                refs: e.refs,
                message: e.message,
            };
            res.push(entry);
            assert(res@.map_values(|e: LogEntry| log_entry_view(e)) == before.push(log_fields(lv[i as int], '\0')));
            assert(lv.take(i as int + 1).map_values(|l: Seq<char>| log_fields(l, '\0')) == lv.take(i as int).map_values(
                |l: Seq<char>| log_fields(l, '\0'),
            ).push(log_fields(lv[i as int], '\0')));
            i = i + 1;
        }
        assert(lv.take(lv.len() as int) == lv);
        res
    }
}

} // verus!
