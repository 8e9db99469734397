use vstd::prelude::*;
use vstd::string::StringExecFns;

verus! {

/// The repository a job is about.
pub struct Repo {
    pub owner: String,
    pub name: String,
    pub full_name: String,
    pub clone_url: String,
}

/// The pull request a job is about: its head commit is merged into the
/// target branch.
pub struct PullRequest {
    pub number: u64,
    pub head_sha: String,
    pub target_branch: Option<String>,
}

/// One queued request to evaluate a pull request.
pub struct RebuildJob {
    pub repo: Repo,
    pub pr: PullRequest,
}

/// The ref checked out when a job names no target branch.
pub open spec fn default_target() -> Seq<char> {
    "origin/master"@
}

/// The ref that a job's pull request is merged into.
pub open spec fn target_of(job: RebuildJob) -> Seq<char> {
    match job.pr.target_branch {
        Some(b) => b@,
        None => default_target(),
    }
}

impl RebuildJob {
    /// The ref to check out: the pull request's target branch, or the
    /// repository's default branch when it names none.
    pub fn target_branch(&self) -> (r: String)
        ensures
            r@ == target_of(*self),
    {
        match &self.pr.target_branch {
            Some(b) => b.clone(),
            None => String::from_str("origin/master"),
        }
    }
}

} // verus!
