//! Assembly of the exact argument vectors handed to the OS: the
//! execution form `pre_args... script_path args...` and the probe form
//! `pre_args... --version`. The embedding application passes these to
//! the spawned process verbatim, after `candidate.program`.

use vstd::prelude::*;
use vstd::string::StringExecFns;
use crate::resolver::PythonCandidate;

verus! {

/// The argument vector for running `script_path` with `args` through
/// `candidate`: the candidate's pre-arguments, then the script path,
/// then the caller's arguments, all verbatim and in order.
pub fn script_invocation_args(candidate: &PythonCandidate, script_path: &str, args: &Vec<String>)
    -> (r: Vec<String>)
    ensures
        r@.len() == candidate.pre_args@.len() + 1 + args@.len(),
        forall|i: int|
            0 <= i < candidate.pre_args@.len() ==> r@[i]@ == candidate.pre_args@[i]@,
        r@[candidate.pre_args@.len() as int]@ == script_path@,
        forall|i: int|
            0 <= i < args@.len() ==> r@[candidate.pre_args@.len() + 1 + i]@ == args@[i]@,
{
    let mut r: Vec<String> = Vec::new();
    let mut i: usize = 0;
    while i < candidate.pre_args.len()
        invariant
            0 <= i <= candidate.pre_args@.len(),
            r@.len() == i,
            forall|j: int| 0 <= j < i ==> r@[j]@ == candidate.pre_args@[j]@,
        decreases candidate.pre_args@.len() - i,
    {
        r.push(candidate.pre_args[i].clone());
        i = i + 1;
    }
    r.push(script_path.to_owned());
    let mut k: usize = 0;
    while k < args.len()
        invariant
            0 <= k <= args@.len(),
            r@.len() == candidate.pre_args@.len() + 1 + k,
            forall|j: int|
                0 <= j < candidate.pre_args@.len() ==> r@[j]@ == candidate.pre_args@[j]@,
            r@[candidate.pre_args@.len() as int]@ == script_path@,
            forall|j: int|
                0 <= j < k ==> r@[candidate.pre_args@.len() + 1 + j]@ == args@[j]@,
        decreases args@.len() - k,
    {
        r.push(args[k].clone());
        k = k + 1;
    }
    r
}

/// The argument vector for probing `candidate`'s availability: its
/// pre-arguments followed by `--version`.
pub fn probe_invocation_args(candidate: &PythonCandidate) -> (r: Vec<String>)
    ensures
        r@.len() == candidate.pre_args@.len() + 1,
        forall|i: int|
            0 <= i < candidate.pre_args@.len() ==> r@[i]@ == candidate.pre_args@[i]@,
        r@[candidate.pre_args@.len() as int]@ == "--version"@,
{
    let mut r: Vec<String> = Vec::new();
    let mut i: usize = 0;
    while i < candidate.pre_args.len()
        invariant
            0 <= i <= candidate.pre_args@.len(),
            r@.len() == i,
            forall|j: int| 0 <= j < i ==> r@[j]@ == candidate.pre_args@[j]@,
        decreases candidate.pre_args@.len() - i,
    {
        r.push(candidate.pre_args[i].clone());
        i = i + 1;
    }
    r.push(String::from_str("--version"));
    r
}

} // verus!
