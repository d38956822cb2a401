//! Where the shell keeps its job list and resume library: files in its
//! data folder (`InterPrep` under the user's local application data).
use vstd::prelude::*;

verus! {

/// The job list, as path segments below the user's local application data.
pub fn jobs_path() -> (r: Vec<&'static str>)
    ensures
        r@.map_values(|s: &'static str| s@) == seq!["InterPrep"@, "jobs.json"@],
{
    let r = vec!["InterPrep", "jobs.json"];
    assert(r@.map_values(|s: &'static str| s@) =~= seq!["InterPrep"@, "jobs.json"@]);
    r
}

/// The resume library, as path segments below the user's local application
/// data.
pub fn resumes_path() -> (r: Vec<&'static str>)
    ensures
        r@.map_values(|s: &'static str| s@) == seq!["InterPrep"@, "resumes.json"@],
{
    let r = vec!["InterPrep", "resumes.json"];
    assert(r@.map_values(|s: &'static str| s@) =~= seq!["InterPrep"@, "resumes.json"@]);
    r
}

} // verus!
