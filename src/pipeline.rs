use vstd::prelude::*;
use vstd::string::StringExecFns;

use crate::eval_check::overall_context;
use crate::job::{target_of, RebuildJob};
use crate::status::{CommitStatus, CommitStatusView, StatusState, StatusUpdate};

verus! {

/// Why a job ended without evaluating: the pull request's content is at fault.
#[derive(Clone, Copy, Debug, PartialEq, Eq, Structural)]
pub enum SkipReason {
    CommitNotFound,
    MergeFailed,
}

/// Which piece of the infrastructure let a job down.
#[derive(Clone, Copy, Debug, PartialEq, Eq, Structural)]
pub enum Fault {
    WorkingCopy,
    Checkout,
    Fetch,
}

/// How a job ends.
#[derive(Clone, Copy, Debug, PartialEq, Eq, Structural)]
pub enum Outcome {
    Completed,
    Skipped(SkipReason),
    Failed(Fault),
}

/// What the runner reports of the step it just performed.
#[derive(Clone, Copy, Debug, PartialEq, Eq, Structural)]
pub enum Event {
    Succeeded,
    Failed,
}

/// The work a job waits on, in the order a successful job goes through it.
/// The runner performs the step and reports how it went; for the snapshot
/// steps, for opening the project and for comparing stdenvs the report is
/// not read, and for `RunChecks` success means that every check succeeded.
#[derive(Clone, Copy, Debug, PartialEq, Eq, Structural)]
pub enum Step {
    Start,
    OpenProject,
    AcquireWorkingCopy,
    CheckoutTarget,
    SnapshotBefore,
    FetchPr,
    CheckCommit,
    Merge,
    SnapshotAfter,
    RunChecks,
    CompareStdenvs,
    Finished(Outcome),
}

/// The step that follows `s` when it went as `e` says.
pub open spec fn next_step(s: Step, e: Event) -> Step {
    let ok = e == Event::Succeeded;
    match s {
        Step::Start => Step::OpenProject,
        Step::OpenProject => Step::AcquireWorkingCopy,
        Step::AcquireWorkingCopy => if ok {
            Step::CheckoutTarget
        } else {
            Step::Finished(Outcome::Failed(Fault::WorkingCopy))
        },
        Step::CheckoutTarget => if ok {
            Step::SnapshotBefore
        } else {
            Step::Finished(Outcome::Failed(Fault::Checkout))
        },
        Step::SnapshotBefore => Step::FetchPr,
        Step::FetchPr => if ok {
            Step::CheckCommit
        } else {
            Step::Finished(Outcome::Failed(Fault::Fetch))
        },
        Step::CheckCommit => if ok {
            Step::Merge
        } else {
            Step::Finished(Outcome::Skipped(SkipReason::CommitNotFound))
        },
        Step::Merge => if ok {
            Step::SnapshotAfter
        } else {
            Step::Finished(Outcome::Skipped(SkipReason::MergeFailed))
        },
        Step::SnapshotAfter => Step::RunChecks,
        Step::RunChecks => if ok {
            Step::CompareStdenvs
        } else {
            Step::Finished(Outcome::Completed)
        },
        Step::CompareStdenvs => Step::Finished(Outcome::Completed),
        Step::Finished(o) => Step::Finished(o),
    }
}

/// The state and description the overall status line takes on reaching
/// `s`, when it changes; `target` is the ref being checked out.
pub open spec fn announcement(s: Step, target: Seq<char>) -> Option<(StatusState, Seq<char>)> {
    match s {
        Step::OpenProject => Some((StatusState::Pending, "Starting"@)),
        Step::AcquireWorkingCopy => Some((StatusState::Pending, "Cloning project"@)),
        Step::CheckoutTarget => Some((StatusState::Pending, "Checking out "@ + target)),
        Step::SnapshotBefore => Some((StatusState::Pending, "Checking original stdenvs"@)),
        Step::FetchPr => Some((StatusState::Pending, "Fetching PR"@)),
        Step::Merge => Some((StatusState::Pending, "Merging PR"@)),
        Step::SnapshotAfter => Some((StatusState::Pending, "Checking new stdenvs"@)),
        Step::RunChecks => Some((StatusState::Pending, "Begining Evaluations"@)),
        Step::CompareStdenvs => Some((StatusState::Pending, "Calculating Changed Outputs"@)),
        Step::Finished(Outcome::Skipped(SkipReason::CommitNotFound)) => Some(
            (StatusState::Error, "Commit not found"@),
        ),
        Step::Finished(Outcome::Skipped(SkipReason::MergeFailed)) => Some(
            (StatusState::Failure, "Failed to merge"@),
        ),
        _ => None,
    }
}

/// The overall status write made on moving from `from` to `to`: none when
/// the job stays where it is.
pub open spec fn announced(from: Step, to: Step, target: Seq<char>) -> Option<
    (StatusState, Seq<char>),
> {
    if from == to {
        None
    } else {
        announcement(to, target)
    }
}

/// The steps a job goes through from `s` as it is told `events`, one step
/// after each event.
pub open spec fn run(s: Step, events: Seq<Event>) -> Seq<Step>
    decreases events.len(),
{
    if events.len() == 0 {
        Seq::empty()
    } else {
        let n = next_step(s, events[0]);
        seq![n] + run(n, events.drop_first())
    }
}

/// How many steps at most lie between `s` and the end of the job.
pub open spec fn steps_left(s: Step) -> nat {
    match s {
        Step::Start => 11,
        Step::OpenProject => 10,
        Step::AcquireWorkingCopy => 9,
        Step::CheckoutTarget => 8,
        Step::SnapshotBefore => 7,
        Step::FetchPr => 6,
        Step::CheckCommit => 5,
        Step::Merge => 4,
        Step::SnapshotAfter => 3,
        Step::RunChecks => 2,
        Step::CompareStdenvs => 1,
        Step::Finished(_) => 0,
    }
}

/// A finished job stays finished, whatever it is told, and says nothing more.
pub proof fn finished_stays(o: Outcome, events: Seq<Event>, target: Seq<char>)
    ensures
        run(Step::Finished(o), events).len() == events.len(),
        forall|i: int|
            0 <= i < events.len() ==> #[trigger] run(Step::Finished(o), events)[i] == Step::Finished(
                o,
            ),
        forall|e: Event| announced(Step::Finished(o), #[trigger] next_step(Step::Finished(o), e), target) is None,
    decreases events.len(),
{
    if events.len() > 0 {
        finished_stays(o, events.drop_first(), target);
        let rest = run(Step::Finished(o), events.drop_first());
        assert forall|i: int| 0 <= i < events.len() implies #[trigger] run(
            Step::Finished(o),
            events,
        )[i] == Step::Finished(o) by {
            if i > 0 {
                assert(run(Step::Finished(o), events)[i] == rest[i - 1]);
            }
        }
    }
}

/// One step is taken for each event.
pub proof fn run_length(s: Step, events: Seq<Event>)
    ensures
        run(s, events).len() == events.len(),
    decreases events.len(),
{
    if events.len() > 0 {
        run_length(next_step(s, events[0]), events.drop_first());
    }
}

/// Every step that is not the end either ends the job or takes it one step
/// closer to the end.
pub proof fn each_step_progresses(s: Step, e: Event)
    ensures
        !(s is Finished) ==> (next_step(s, e) is Finished || steps_left(next_step(s, e)) + 1
            == steps_left(s)),
{
}

/// Whatever the runner reports, a job has ended after as many events as
/// it has steps left.
pub proof fn every_job_ends(s: Step, events: Seq<Event>)
    requires
        events.len() >= steps_left(s),
        steps_left(s) > 0,
    ensures
        run(s, events)[steps_left(s) - 1] is Finished,
    decreases steps_left(s),
{
    let n = next_step(s, events[0]);
    let rest = run(n, events.drop_first());
    run_length(n, events.drop_first());
    each_step_progresses(s, events[0]);
    let k = steps_left(s) - 1;
    if k > 0 {
        assert(run(s, events)[k] == rest[k - 1]);
    }
    if let Step::Finished(o) = n {
        finished_stays(o, events.drop_first(), Seq::empty());
    } else {
        every_job_ends(n, events.drop_first());
    }
}

/// A merge is tried only after the head commit was found in the working copy.
pub proof fn merge_only_after_commit_found(s: Step, e: Event)
    ensures
        next_step(s, e) == Step::Merge ==> s == Step::CheckCommit && e == Event::Succeeded,
{
}

/// The checks run only on a tree that the head commit was merged into.
pub proof fn checks_only_after_merge(s: Step, e: Event)
    ensures
        next_step(s, e) == Step::SnapshotAfter ==> s == Step::Merge && e == Event::Succeeded,
        next_step(s, e) == Step::RunChecks ==> s == Step::SnapshotAfter,
{
}

/// A head commit that cannot be merged ends the job as skipped, with the
/// overall status failed and saying so; no check runs after that.
pub proof fn merge_failure_skips(events: Seq<Event>, target: Seq<char>)
    ensures
        ({
            let steps = run(Step::Merge, seq![Event::Failed] + events);
            let end = Step::Finished(Outcome::Skipped(SkipReason::MergeFailed));
            &&& steps.len() == events.len() + 1
            &&& forall|i: int| 0 <= i < steps.len() ==> #[trigger] steps[i] == end
            &&& announced(Step::Merge, steps[0], target) == Some(
                (StatusState::Failure, "Failed to merge"@),
            )
        }),
{
    let end = Step::Finished(Outcome::Skipped(SkipReason::MergeFailed));
    let all = seq![Event::Failed] + events;
    assert(all.drop_first() =~= events);
    finished_stays(Outcome::Skipped(SkipReason::MergeFailed), events, target);
    let steps = run(Step::Merge, all);
    assert forall|i: int| 0 <= i < steps.len() implies #[trigger] steps[i] == end by {
        if i > 0 {
            assert(steps[i] == run(end, events)[i - 1]);
        }
    }
}

/// A head commit missing after the fetch ends the job as skipped, with the
/// overall status in error and saying so; neither a merge nor a check is
/// tried after that.
pub proof fn missing_commit_skips(events: Seq<Event>, target: Seq<char>)
    ensures
        ({
            let steps = run(Step::CheckCommit, seq![Event::Failed] + events);
            let end = Step::Finished(Outcome::Skipped(SkipReason::CommitNotFound));
            &&& steps.len() == events.len() + 1
            &&& forall|i: int| 0 <= i < steps.len() ==> #[trigger] steps[i] == end
            &&& announced(Step::CheckCommit, steps[0], target) == Some(
                (StatusState::Error, "Commit not found"@),
            )
        }),
{
    let end = Step::Finished(Outcome::Skipped(SkipReason::CommitNotFound));
    let all = seq![Event::Failed] + events;
    assert(all.drop_first() =~= events);
    finished_stays(Outcome::Skipped(SkipReason::CommitNotFound), events, target);
    let steps = run(Step::CheckCommit, all);
    assert forall|i: int| 0 <= i < steps.len() implies #[trigger] steps[i] == end by {
        if i > 0 {
            assert(steps[i] == run(end, events)[i - 1]);
        }
    }
}

/// The first ref checked out is the job's target branch, or the default
/// branch when the job names none.
pub proof fn checkout_targets_job_branch(job: RebuildJob)
    ensures
        announcement(Step::CheckoutTarget, target_of(job)) == Some(
            (StatusState::Pending, "Checking out "@ + target_of(job)),
        ),
        job.pr.target_branch is None ==> target_of(job) == crate::job::default_target(),
        job.pr.target_branch matches Some(b) ==> target_of(job) == b@,
{
}

/// What the runner does next: send `status`, if any, then perform `work`.
pub struct Action {
    pub status: Option<StatusUpdate>,
    pub work: Step,
}

/// The decisions of one job, from receipt to its end. The runner performs
/// each step it is handed and reports back; the pipeline says what comes
/// next and what the overall status line shows.
pub struct Pipeline {
    target: String,
    overall: CommitStatus,
    step: Step,
}

pub struct PipelineView {
    pub target: Seq<char>,
    pub overall: CommitStatusView,
    pub step: Step,
}

impl View for Pipeline {
    type V = PipelineView;

    closed spec fn view(&self) -> PipelineView {
        PipelineView { target: self.target@, overall: self.overall@, step: self.step }
    }
}

impl Pipeline {
    pub fn new(job: &RebuildJob) -> (r: Pipeline)
        ensures
            r@ == (PipelineView {
                target: target_of(*job),
                overall: CommitStatusView {
                    sha: job.pr.head_sha@,
                    context: overall_context(),
                    description: "Starting"@,
                    url: Seq::empty(),
                },
                step: Step::Start,
            }),
    {
        let overall = CommitStatus::new(
            job.pr.head_sha.clone(),
            String::from_str("grahamcofborg-eval"),
            String::from_str("Starting"),
            None,
        );
        Pipeline { target: job.target_branch(), overall, step: Step::Start }
    }

    pub fn step(&self) -> (r: Step)
        ensures
            r == self@.step,
    {
        self.step
    }

    /// The ref the pull request is merged into.
    pub fn target_branch(&self) -> (r: &String)
        ensures
            r@ == self@.target,
    {
        &self.target
    }

    pub fn overall(&self) -> (r: &CommitStatus)
        ensures
            r@ == self@.overall,
    {
        &self.overall
    }

    /// Takes the report on the current step and moves on.
    pub fn advance(&mut self, event: Event) -> (a: Action)
        ensures
            final(self)@.step == next_step(old(self)@.step, event),
            final(self)@.target == old(self)@.target,
            a.work == final(self)@.step,
            match announced(old(self)@.step, final(self)@.step, old(self)@.target) {
                Some((state, description)) => {
                    &&& final(self)@.overall == (CommitStatusView {
                        description,
                        ..old(self)@.overall
                    })
                    &&& a.status matches Some(u) && u@ == final(self)@.overall.update(state)
                },
                None => final(self)@.overall == old(self)@.overall && a.status is None,
            },
    {
        let ok = event == Event::Succeeded;
        let next = match self.step {
            Step::Start => Step::OpenProject,
            Step::OpenProject => Step::AcquireWorkingCopy,
            Step::AcquireWorkingCopy => if ok {
                Step::CheckoutTarget
            } else {
                Step::Finished(Outcome::Failed(Fault::WorkingCopy))
            },
            Step::CheckoutTarget => if ok {
                Step::SnapshotBefore
            } else {
                Step::Finished(Outcome::Failed(Fault::Checkout))
            },
            Step::SnapshotBefore => Step::FetchPr,
            Step::FetchPr => if ok {
                Step::CheckCommit
            } else {
                Step::Finished(Outcome::Failed(Fault::Fetch))
            },
            Step::CheckCommit => if ok {
                Step::Merge
            } else {
                Step::Finished(Outcome::Skipped(SkipReason::CommitNotFound))
            },
            Step::Merge => if ok {
                Step::SnapshotAfter
            } else {
                Step::Finished(Outcome::Skipped(SkipReason::MergeFailed))
            },
            Step::SnapshotAfter => Step::RunChecks,
            Step::RunChecks => if ok {
                Step::CompareStdenvs
            } else {
                Step::Finished(Outcome::Completed)
            },
            Step::CompareStdenvs => Step::Finished(Outcome::Completed),
            Step::Finished(o) => Step::Finished(o),
        };
        let status = if next != self.step {
            self.announce(next)
        } else {
            None
        };
        self.step = next;
        Action { status, work: next }
    }

    /// Sets the overall status line as reaching `s` calls for.
    fn announce(&mut self, s: Step) -> (u: Option<StatusUpdate>)
        ensures
            final(self).target == old(self).target,
            final(self).step == old(self).step,
            match announcement(s, old(self)@.target) {
                Some((state, description)) => {
                    &&& final(self)@.overall == (CommitStatusView {
                        description,
                        ..old(self)@.overall
                    })
                    &&& u matches Some(w) && w@ == final(self)@.overall.update(state)
                },
                None => final(self)@.overall == old(self)@.overall && u is None,
            },
    {
        match s {
            Step::OpenProject => Some(self.overall.set_with_description("Starting", StatusState::Pending)),
            Step::AcquireWorkingCopy => Some(
                self.overall.set_with_description("Cloning project", StatusState::Pending),
            ),
            Step::CheckoutTarget => {
                let mut d = String::from_str("Checking out ");
                d.append(self.target.as_str());
                Some(self.overall.set_with_description(d.as_str(), StatusState::Pending))
            },
            Step::SnapshotBefore => Some(
                self.overall.set_with_description("Checking original stdenvs", StatusState::Pending),
            ),
            Step::FetchPr => Some(self.overall.set_with_description("Fetching PR", StatusState::Pending)),
            Step::Merge => Some(self.overall.set_with_description("Merging PR", StatusState::Pending)),
            Step::SnapshotAfter => Some(
                self.overall.set_with_description("Checking new stdenvs", StatusState::Pending),
            ),
            Step::RunChecks => Some(
                self.overall.set_with_description("Begining Evaluations", StatusState::Pending),
            ),
            Step::CompareStdenvs => Some(
                self.overall.set_with_description("Calculating Changed Outputs", StatusState::Pending),
            ),
            Step::Finished(Outcome::Skipped(SkipReason::CommitNotFound)) => Some(
                self.overall.set_with_description("Commit not found", StatusState::Error),
            ),
            Step::Finished(Outcome::Skipped(SkipReason::MergeFailed)) => Some(
                self.overall.set_with_description("Failed to merge", StatusState::Failure),
            ),
            _ => None,
        }
    }
}

} // verus!
