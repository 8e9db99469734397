use massrebuild::{
    Event, Fault, Outcome, Pipeline, PullRequest, RebuildJob, Repo, SkipReason, StatusState,
    Step,
};

fn job(target: Option<&str>) -> RebuildJob {
    RebuildJob {
        repo: Repo {
            owner: String::from("NixOS"),
            name: String::from("nixpkgs"),
            full_name: String::from("NixOS/nixpkgs"),
            clone_url: String::from("https://github.com/NixOS/nixpkgs.git"),
        },
        pr: PullRequest {
            number: 31337,
            head_sha: String::from("deadbeef"),
            target_branch: target.map(String::from),
        },
    }
}

/// Drives a pipeline with `events`, returning each step and the overall
/// status writes as (state, description).
fn drive(p: &mut Pipeline, events: &[Event]) -> (Vec<Step>, Vec<(StatusState, String)>) {
    let mut steps = vec![];
    let mut writes = vec![];
    for e in events {
        let a = p.advance(*e);
        if let Some(u) = a.status {
            assert_eq!(u.context, "grahamcofborg-eval");
            assert_eq!(u.sha, "deadbeef");
            writes.push((u.state, u.description));
        }
        steps.push(a.work);
    }
    (steps, writes)
}

use Event::{Failed as F, Succeeded as S};

#[test]
fn default_target_branch() {
    let j = job(None);
    assert_eq!(j.target_branch(), "origin/master");
    let mut p = Pipeline::new(&j);
    let (steps, writes) = drive(&mut p, &[S, S, S]);
    assert_eq!(steps[2], Step::CheckoutTarget);
    assert_eq!(writes[2], (StatusState::Pending, String::from("Checking out origin/master")));
}

#[test]
fn explicit_target_branch() {
    let j = job(Some("release-1.0"));
    assert_eq!(j.target_branch(), "release-1.0");
    let mut p = Pipeline::new(&j);
    assert_eq!(p.target_branch(), "release-1.0");
    let (_, writes) = drive(&mut p, &[S, S, S]);
    assert_eq!(writes[2], (StatusState::Pending, String::from("Checking out release-1.0")));
}

#[test]
fn full_run_completes() {
    let mut p = Pipeline::new(&job(None));
    assert_eq!(p.step(), Step::Start);
    assert_eq!(p.overall().description(), "Starting");
    let (steps, writes) = drive(&mut p, &[S; 12]);
    assert_eq!(
        steps,
        vec![
            Step::OpenProject,
            Step::AcquireWorkingCopy,
            Step::CheckoutTarget,
            Step::SnapshotBefore,
            Step::FetchPr,
            Step::CheckCommit,
            Step::Merge,
            Step::SnapshotAfter,
            Step::RunChecks,
            Step::CompareStdenvs,
            Step::Finished(Outcome::Completed),
            Step::Finished(Outcome::Completed),
        ]
    );
    let descriptions: Vec<&str> = writes.iter().map(|w| w.1.as_str()).collect();
    assert_eq!(
        descriptions,
        vec![
            "Starting",
            "Cloning project",
            "Checking out origin/master",
            "Checking original stdenvs",
            "Fetching PR",
            "Merging PR",
            "Checking new stdenvs",
            "Begining Evaluations",
            "Calculating Changed Outputs",
        ]
    );
    assert!(writes.iter().all(|w| w.0 == StatusState::Pending));
}

#[test]
fn failed_checks_still_complete() {
    let mut p = Pipeline::new(&job(None));
    let (steps, writes) = drive(&mut p, &[S, S, S, S, S, S, S, S, S, F]);
    assert_eq!(steps[9], Step::Finished(Outcome::Completed));
    assert_eq!(writes.last().unwrap().1, "Begining Evaluations");
}

#[test]
fn merge_failure_skips_without_checks() {
    let mut p = Pipeline::new(&job(None));
    let (steps, writes) = drive(&mut p, &[S, S, S, S, S, S, S, F, S, S, S]);
    let end = Step::Finished(Outcome::Skipped(SkipReason::MergeFailed));
    assert_eq!(steps[7], end);
    assert!(steps[7..].iter().all(|s| *s == end));
    assert!(!steps.contains(&Step::RunChecks));
    assert_eq!(
        writes.last().unwrap(),
        &(StatusState::Failure, String::from("Failed to merge"))
    );
    assert_eq!(p.overall().description(), "Failed to merge");
}

#[test]
fn missing_commit_skips_without_merge() {
    let mut p = Pipeline::new(&job(None));
    let (steps, writes) = drive(&mut p, &[S, S, S, S, S, S, F, S, S]);
    let end = Step::Finished(Outcome::Skipped(SkipReason::CommitNotFound));
    assert_eq!(steps[6], end);
    assert!(!steps.contains(&Step::Merge));
    assert!(!steps.contains(&Step::RunChecks));
    assert_eq!(
        writes.last().unwrap(),
        &(StatusState::Error, String::from("Commit not found"))
    );
}

#[test]
fn infrastructure_faults_end_without_a_status() {
    let cases = [
        (vec![S, S, F], Fault::WorkingCopy),
        (vec![S, S, S, F], Fault::Checkout),
        (vec![S, S, S, S, S, F], Fault::Fetch),
    ];
    for (events, fault) in cases {
        let mut p = Pipeline::new(&job(None));
        let (steps, writes) = drive(&mut p, &events);
        assert_eq!(*steps.last().unwrap(), Step::Finished(Outcome::Failed(fault)));
        assert_eq!(writes.len(), events.len() - 1);
    }
}

#[test]
fn snapshot_failures_do_not_block() {
    let mut p = Pipeline::new(&job(None));
    let (steps, _) = drive(&mut p, &[S, S, S, S, F, S, S, S, F]);
    assert_eq!(steps[4], Step::FetchPr);
    assert_eq!(steps[8], Step::RunChecks);
}
