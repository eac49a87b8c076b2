//! Where the application keeps its files on disk.
//!
//! Resolving and creating the data directory is the platform's business and
//! stays with the caller; what is verified here is the derived location: the
//! log directory sits beside the database file, so if the database path ever
//! moves, the logs follow automatically.

use vstd::prelude::*;

verus! {

/// Whether `c` separates path components.
pub open spec fn is_path_sep(c: char) -> bool {
    c == '/' || c == '\\'
}

/// The length of the directory prefix of a path: everything up to and
/// including the last separator, or nothing for a bare file name.
pub open spec fn dir_prefix_len(p: Seq<char>) -> int
    decreases p.len(),
{
    if p.len() == 0 {
        0
    } else if is_path_sep(p[p.len() - 1]) {
        p.len() as int
    } else {
        dir_prefix_len(p.subrange(0, p.len() - 1))
    }
}

/// The log directory of a database path: a `logs` entry in the directory
/// that holds the database file.
pub open spec fn log_dir_spec(db_path: Seq<char>) -> Seq<char> {
    db_path.subrange(0, dir_prefix_len(db_path)) + "logs"@
}

proof fn lemma_dir_prefix_len_at(p: Seq<char>, i: int)
    requires
        0 <= i <= p.len(),
        forall|k: int| i <= k < p.len() ==> !is_path_sep(#[trigger] p[k]),
        i > 0 ==> is_path_sep(p[i - 1]),
    ensures
        dir_prefix_len(p) == i,
    decreases p.len(),
{
    if p.len() == 0 {
    } else if is_path_sep(p[p.len() - 1]) {
        assert(i == p.len());
    } else {
        let t = p.subrange(0, p.len() - 1);
        assert(i < p.len());
        lemma_dir_prefix_len_at(t, i);
    }
}

/// The file-system locations the application uses.
#[derive(Clone, Debug, PartialEq, Eq)]
pub struct AppPaths {
    /// The database file's full path.
    pub db_path: String,
}

impl AppPaths {
    /// The log directory: a `logs` folder alongside the database file.
    pub fn log_dir(&self) -> (r: String)
        ensures
            r@ == log_dir_spec(self.db_path@),
    {
        let p = self.db_path.as_str();
        let len = p.unicode_len();
        let mut i: usize = len;
        while i > 0 && !is_sep_char(p.get_char(i - 1))
            invariant
                0 <= i <= len,
                len == p@.len(),
                forall|k: int| i <= k < len ==> !is_path_sep(#[trigger] p@[k]),
            decreases i,
        {
            i = i - 1;
        }
        proof {
            lemma_dir_prefix_len_at(p@, i as int);
        }
        let mut r = String::from_str(p.substring_char(0, i));
        r.append("logs");
        r
    }
}

/// Executable twin of [`is_path_sep`].
fn is_sep_char(c: char) -> (r: bool)
    ensures
        r == is_path_sep(c),
{
    c == '/' || c == '\\'
}

} // verus!
