//! Rules for the persisted job list: where it is kept and how a loaded list
//! is repaired.
use vstd::prelude::*;
use crate::desktop::types::{Job, JobView, jobs_view};

verus! {

/// A loaded job whose research status is blank gets one again: "No JD
/// added" when its description is blank too, else "Not started".
pub open spec fn normalized_job(j: JobView) -> JobView {
    if crate::text::is_blank(j.research_status) {
        JobView {
            research_status: if crate::text::is_blank(j.job_description) {
                "No JD added"@
            } else {
                "Not started"@
            },
            ..j
        }
    } else {
        j
    }
}

/// Repairs every job of a freshly loaded list ([`normalized_job`]).
pub fn normalize_loaded(jobs: &mut Vec<Job>)
    ensures
        jobs_view(final(jobs)@) == jobs_view(old(jobs)@).map_values(|j: JobView| normalized_job(j)),
{
    let ghost before = jobs_view(jobs@);
    let mut i: usize = 0;
    while i < jobs.len()
        invariant
            0 <= i <= jobs.len(),
            jobs@.len() == before.len(),
            forall|k: int| 0 <= k < i ==> #[trigger] jobs@[k]@ == normalized_job(before[k]),
            forall|k: int| i <= k < jobs@.len() ==> #[trigger] jobs@[k]@ == before[k],
        decreases jobs.len() - i,
    {
        let ghost j0 = jobs@[i as int];
        assert(j0@ == before[i as int]);
        if crate::text::is_blank_str(jobs[i].research_status.as_str()) {
            let status = if crate::text::is_blank_str(jobs[i].job_description.as_str()) {
                crate::text::owned("No JD added")
            } else {
                crate::text::owned("Not started")
            };
            jobs[i].research_status = status;
            assert(jobs@[i as int] == Job { research_status: status, ..j0 });
        }
        assert(jobs@[i as int]@ =~= normalized_job(before[i as int]));
        i += 1;
    }
    assert(jobs_view(jobs@) =~= before.map_values(|j: JobView| normalized_job(j)));
}

/// Where the job list is kept, as path segments below the user's local
/// application data folder.
pub fn jobs_path() -> (r: Vec<&'static str>)
    ensures
        r@.map_values(|s: &'static str| s@) == seq!["InterPrep"@, "jobs.json"@],
{
    let r = vec!["InterPrep", "jobs.json"];
    assert(r@.map_values(|s: &'static str| s@) =~= seq!["InterPrep"@, "jobs.json"@]);
    r
}

} // verus!
