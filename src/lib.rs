pub mod eval_check;
pub mod job;
pub mod pipeline;
pub mod status;
pub mod stdenv;

pub use eval_check::{all_succeeded, eval_checks, outcome_state, Artifact, EvalChecker};
pub use job::{PullRequest, RebuildJob, Repo};
pub use pipeline::{Action, Event, Fault, Outcome, Pipeline, SkipReason, Step};
pub use status::{CommitStatus, StatusState, StatusUpdate};
pub use stdenv::{file_to_drv, StdenvFrom, Stdenvs, System};
