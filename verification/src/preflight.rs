//! Script preflight validation: purely local checks on the script path
//! and on filesystem metadata the caller already holds. Nothing here
//! opens the file or spawns a process.

use vstd::prelude::*;
use vstd::string::{StringExecFns, StrSliceExecFns};
use crate::text::{trim_of, trim_str};

verus! {

/// What the filesystem reports about a path, as the embedding
/// application observed it: no entry at all, an entry that is not a
/// regular file (a directory, for instance), or a regular file.
#[derive(Debug, Clone, Copy, PartialEq, Eq, Structural)]
pub enum PathStatus {
    Missing,
    NotRegularFile,
    RegularFile,
}

/// Why preflight rejected a script path, in the order the checks run.
#[derive(Debug, Clone, Copy, PartialEq, Eq, Structural)]
pub enum PreflightError {
    EmptyPath,
    NotFound,
    NotAFile,
    WrongExtension,
}

/// The final component of a `/`-separated path: everything after the
/// last separator, empty when the path ends in a separator.
pub open spec fn file_name_of(p: Seq<char>) -> Seq<char>
    decreases p.len(),
{
    if p.len() == 0 {
        Seq::empty()
    } else if p.last() == '/' {
        Seq::empty()
    } else {
        file_name_of(p.drop_last()).push(p.last())
    }
}

/// The final component is the suffix that starts right after the last
/// separator.
proof fn lemma_file_name_is_suffix(p: Seq<char>, i: int)
    requires
        0 <= i <= p.len(),
        forall|j: int| i <= j < p.len() ==> p[j] != '/',
        i > 0 ==> p[i - 1] == '/',
    ensures
        file_name_of(p) == p.subrange(i, p.len() as int),
    decreases p.len(),
{
    if i == p.len() {
        assert(file_name_of(p) =~= p.subrange(i, p.len() as int));
    } else {
        lemma_file_name_is_suffix(p.drop_last(), i);
        assert(p.drop_last().subrange(i, p.len() - 1).push(p.last()) =~= p.subrange(
            i,
            p.len() as int,
        ));
    }
}

/// The path names a `.py` file: its final component ends in `.py`
/// (case-sensitive) and has at least one character before the dot, so
/// a bare `.py` — a hidden file with no extension — does not qualify.
pub open spec fn has_py_extension(p: Seq<char>) -> bool {
    let name = file_name_of(p);
    &&& name.len() >= 4
    &&& name[name.len() - 3] == '.'
    &&& name[name.len() - 2] == 'p'
    &&& name[name.len() - 1] == 'y'
}

/// Decides [`has_py_extension`] by locating the final path component
/// and examining its last three characters.
pub fn has_py_ext(path: &str) -> (r: bool)
    ensures
        r == has_py_extension(path@),
{
    let n = path.unicode_len();
    let mut i = n;
    while i > 0 && path.get_char(i - 1) != '/'
        invariant
            0 <= i <= n,
            n == path@.len(),
            forall|j: int| i <= j < n ==> path@[j] != '/',
        decreases i,
    {
        i = i - 1;
    }
    proof {
        lemma_file_name_is_suffix(path@, i as int);
    }
    if n - i >= 4 {
        let dot = path.get_char(n - 3);
        let p = path.get_char(n - 2);
        let y = path.get_char(n - 1);
        dot == '.' && p == 'p' && y == 'y'
    } else {
        false
    }
}

/// What preflight returns for a path with the given filesystem status:
/// the four checks in order, each short-circuiting, then success.
pub open spec fn preflight_spec(path: Seq<char>, status: PathStatus) -> Result<
    (),
    PreflightError,
> {
    if trim_of(path).len() == 0 {
        Err(PreflightError::EmptyPath)
    } else if status is Missing {
        Err(PreflightError::NotFound)
    } else if status is NotRegularFile {
        Err(PreflightError::NotAFile)
    } else if !has_py_extension(path) {
        Err(PreflightError::WrongExtension)
    } else {
        Ok(())
    }
}

/// Script preflight: rejects a blank path, a path with no filesystem
/// entry, an entry that is not a regular file, and a file whose name
/// does not end in `.py` — in that order — and accepts everything
/// else. `status` is what the filesystem reports for `script_path`;
/// the decision is verified for every reported value.
pub fn validate_script_path(script_path: &str, status: PathStatus) -> (r: Result<
    (),
    PreflightError,
>)
    ensures
        r == preflight_spec(script_path@, status),
        r is Ok <==> {
            &&& trim_of(script_path@).len() > 0
            &&& status is RegularFile
            &&& has_py_extension(script_path@)
        },
{
    let trimmed = trim_str(script_path);
    if trimmed.as_str().is_empty() {
        return Err(PreflightError::EmptyPath);
    }
    match status {
        PathStatus::Missing => Err(PreflightError::NotFound),
        PathStatus::NotRegularFile => Err(PreflightError::NotAFile),
        PathStatus::RegularFile => {
            if !has_py_ext(script_path) {
                Err(PreflightError::WrongExtension)
            } else {
                Ok(())
            }
        },
    }
}

/// The human-readable explanation for each preflight failure; the two
/// path-specific ones carry the offending path verbatim.
pub open spec fn preflight_message_of(e: PreflightError, path: Seq<char>) -> Seq<char> {
    match e {
        PreflightError::EmptyPath => "script_path is required"@,
        PreflightError::NotFound => "script file not found: "@ + path,
        PreflightError::NotAFile => "script path is not a file: "@ + path,
        PreflightError::WrongExtension => "script must be a .py file"@,
    }
}

impl PreflightError {
    /// The diagnostic text for this failure on `script_path`.
    pub fn message(&self, script_path: &str) -> (r: String)
        ensures
            r@ == preflight_message_of(*self, script_path@),
    {
        match self {
            PreflightError::EmptyPath => String::from_str("script_path is required"),
            PreflightError::NotFound => String::from_str("script file not found: ").concat(
                script_path,
            ),
            PreflightError::NotAFile => String::from_str("script path is not a file: ").concat(
                script_path,
            ),
            PreflightError::WrongExtension => String::from_str("script must be a .py file"),
        }
    }
}

} // verus!
