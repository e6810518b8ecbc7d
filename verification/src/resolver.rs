//! Interpreter-candidate resolution: an explicit non-blank override
//! short-circuits to a single candidate; otherwise a fixed,
//! platform-keyed ordered list of default interpreters is returned.

use vstd::prelude::*;
use vstd::string::StringExecFns;
use crate::text::{trim_of, trim_str};

verus! {

/// One concrete way to invoke an interpreter: an executable name or
/// path, the arguments injected before the script path, and a label
/// for diagnostics. Order inside a candidate list encodes priority.
#[derive(Debug, Clone)]
pub struct PythonCandidate {
    pub program: String,
    pub pre_args: Vec<String>,
    pub display_name: String,
}

/// The platform family whose default interpreter list applies. The
/// embedding application picks the value for the build target; the
/// resolution logic itself is platform-independent.
#[derive(Debug, Clone, Copy, PartialEq, Eq, Structural)]
pub enum Platform {
    Windows,
    Posix,
}

/// A candidate with no pre-arguments whose program and display name are
/// both `name`.
pub open spec fn is_bare_candidate(c: PythonCandidate, name: Seq<char>) -> bool {
    &&& c.program@ == name
    &&& c.pre_args@.len() == 0
    &&& c.display_name@ == name
}

/// An override is used only when it is present and non-blank.
pub open spec fn override_used(python_path: Option<Seq<char>>) -> bool {
    match python_path {
        Some(p) => trim_of(p).len() > 0,
        None => false,
    }
}

/// The default list for `platform`: on Windows the bare name first and
/// then the launcher with a version selector; elsewhere `python3` first
/// and then `python`.
pub open spec fn is_default_list(r: Seq<PythonCandidate>, platform: Platform) -> bool {
    match platform {
        Platform::Windows => {
            &&& r.len() == 2
            &&& is_bare_candidate(r[0], "python"@)
            &&& r[1].program@ == "py"@
            &&& r[1].pre_args@.len() == 1
            &&& r[1].pre_args@[0]@ == "-3"@
            &&& r[1].display_name@ == "py -3"@
        },
        Platform::Posix => {
            &&& r.len() == 2
            &&& is_bare_candidate(r[0], "python3"@)
            &&& is_bare_candidate(r[1], "python"@)
        },
    }
}

/// The fixed default candidate list for one platform family.
pub fn default_candidates(platform: Platform) -> (r: Vec<PythonCandidate>)
    ensures
        is_default_list(r@, platform),
        r@.len() >= 1,
{
    let mut r: Vec<PythonCandidate> = Vec::new();
    match platform {
        Platform::Windows => {
            r.push(PythonCandidate {
                program: String::from_str("python"),
                pre_args: Vec::new(),
                display_name: String::from_str("python"),
            });
            let mut pre_args: Vec<String> = Vec::new();
            pre_args.push(String::from_str("-3"));
            r.push(PythonCandidate {
                program: String::from_str("py"),
                pre_args,
                display_name: String::from_str("py -3"),
            });
        },
        Platform::Posix => {
            r.push(PythonCandidate {
                program: String::from_str("python3"),
                pre_args: Vec::new(),
                display_name: String::from_str("python3"),
            });
            r.push(PythonCandidate {
                program: String::from_str("python"),
                pre_args: Vec::new(),
                display_name: String::from_str("python"),
            });
        },
    }
    r
}

/// Candidate resolution for one platform family: a present, non-blank
/// override yields exactly one candidate wrapping the trimmed override
/// verbatim; a blank or absent override yields the fixed default list.
/// Total: there is no error case.
pub fn resolve_candidates(python_path: &Option<String>, platform: Platform) -> (r: Vec<
    PythonCandidate,
>)
    ensures
        r@.len() >= 1,
        override_used(python_path.deep_view()) ==> {
            &&& r@.len() == 1
            &&& is_bare_candidate(r@[0], trim_of(python_path->Some_0@))
        },
        !override_used(python_path.deep_view()) ==> is_default_list(r@, platform),
{
    if let Some(path) = python_path {
        let trimmed = trim_str(path.as_str());
        if !trimmed.as_str().is_empty() {
            let display = trimmed.clone();
            let mut r: Vec<PythonCandidate> = Vec::new();
            r.push(PythonCandidate { program: trimmed, pre_args: Vec::new(), display_name: display });
            return r;
        }
    }
    default_candidates(platform)
}

/// Candidate resolution with this library's native default order
/// (`python3`, then `python`); the embedding application passes the
/// platform explicitly through [`resolve_candidates`] where it differs.
pub fn python_candidates(python_path: &Option<String>) -> (r: Vec<PythonCandidate>)
    ensures
        r@.len() >= 1,
        override_used(python_path.deep_view()) ==> {
            &&& r@.len() == 1
            &&& is_bare_candidate(r@[0], trim_of(python_path->Some_0@))
        },
        !override_used(python_path.deep_view()) ==> is_default_list(r@, Platform::Posix),
{
    resolve_candidates(python_path, Platform::Posix)
}

} // verus!
