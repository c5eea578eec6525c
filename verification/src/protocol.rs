//! What a running job and the check that started it say to each other.

use vstd::prelude::*;

verus! {

/// A point in time: nanoseconds since the Unix epoch.
pub type Timestamp = u64;

/// How a step stands.
#[derive(Debug, Clone, Copy, PartialEq, Eq, Structural)]
pub enum StepStatus {
    Running,
    Success,
    /// It failed; an ignored failure does not fail its job.
    Failed { ignored: bool },
}

/// How a job stands.
#[derive(Debug, Clone, Copy, PartialEq, Eq, Structural)]
pub enum JobStatus {
    Running,
    Succeeded,
    Failed,
}

/// One step of a job.
#[derive(Debug)]
pub struct StepLogEntry {
    /// When it started.
    pub ts: Timestamp,
    pub name: String,
    pub status: StepStatus,
    /// When its job started, where that is known.
    pub job_started_at: Option<Timestamp>,
}

/// What a [`StepLogEntry`] holds.
pub struct StepLogView {
    pub ts: Timestamp,
    pub name: Seq<char>,
    pub status: StepStatus,
    pub job_started_at: Option<Timestamp>,
}

impl View for StepLogEntry {
    type V = StepLogView;

    open spec fn view(&self) -> StepLogView {
        StepLogView {
            ts: self.ts,
            name: self.name@,
            status: self.status,
            job_started_at: self.job_started_at,
        }
    }
}

impl Clone for StepLogEntry {
    fn clone(&self) -> (res: Self)
        ensures
            res == *self,
    {
        StepLogEntry {
            ts: self.ts,
            name: self.name.clone(),
            status: self.status,
            job_started_at: self.job_started_at,
        }
    }
}

/// One job of a check and how it ended.
#[derive(Debug)]
pub struct JobLogEntry {
    pub name: String,
    pub status: JobStatus,
}

/// What a [`JobLogEntry`] holds.
pub struct JobLogView {
    pub name: Seq<char>,
    pub status: JobStatus,
}

impl View for JobLogEntry {
    type V = JobLogView;

    open spec fn view(&self) -> JobLogView {
        JobLogView { name: self.name@, status: self.status }
    }
}

impl Clone for JobLogEntry {
    fn clone(&self) -> (res: Self)
        ensures
            res == *self,
    {
        JobLogEntry { name: self.name.clone(), status: self.status }
    }
}

/// What steps hold.
pub open spec fn step_views(steps: Seq<StepLogEntry>) -> Seq<StepLogView> {
    steps.map_values(|s: StepLogEntry| s@)
}

/// What jobs hold.
pub open spec fn job_views(jobs: Seq<JobLogEntry>) -> Seq<JobLogView> {
    jobs.map_values(|j: JobLogEntry| j@)
}

/// A copy of steps.
pub fn copy_steps(steps: &Vec<StepLogEntry>) -> (res: Vec<StepLogEntry>)
    ensures
        res@ == steps@,
{
    let mut res: Vec<StepLogEntry> = Vec::new();
    let mut i: usize = 0;
    while i < steps.len()
        invariant
            i <= steps.len(),
            res@ == steps@.take(i as int),
        decreases steps.len() - i,
    {
        res.push(steps[i].clone());
        assert(res@ =~= steps@.take(i + 1));
        i = i + 1;
    }
    assert(steps@.take(i as int) =~= steps@);
    res
}

/// A copy of jobs.
pub fn copy_jobs(jobs: &Vec<JobLogEntry>) -> (res: Vec<JobLogEntry>)
    ensures
        res@ == jobs@,
{
    let mut res: Vec<JobLogEntry> = Vec::new();
    let mut i: usize = 0;
    while i < jobs.len()
        invariant
            i <= jobs.len(),
            res@ == jobs@.take(i as int),
        decreases jobs.len() - i,
    {
        res.push(jobs[i].clone());
        assert(res@ =~= jobs@.take(i + 1));
        i = i + 1;
    }
    assert(jobs@.take(i as int) =~= jobs@);
    res
}

/// Whether a step failed and the failure counts.
pub open spec fn fails_job(status: StepStatus) -> bool {
    status == StepStatus::Failed { ignored: false }
}

/// Whether any step failed and its failure counts.
pub open spec fn any_step_failed(steps: Seq<StepLogView>) -> bool {
    exists|i: int| 0 <= i < steps.len() && fails_job(#[trigger] steps[i].status)
}

/// Whether any step failed and its failure counts.
pub fn has_failed_step(steps: &Vec<StepLogEntry>) -> (res: bool)
    ensures
        res == any_step_failed(step_views(steps@)),
{
    let ghost views = step_views(steps@);
    let mut i: usize = 0;
    while i < steps.len()
        invariant
            i <= steps.len(),
            views == step_views(steps@),
            forall|j: int| 0 <= j < i ==> !fails_job(#[trigger] views[j].status),
        decreases steps.len() - i,
    {
        assert(views[i as int] == steps@[i as int]@);
        if steps[i].status == (StepStatus::Failed { ignored: false }) {
            assert(fails_job(views[i as int].status));
            return true;
        }
        i = i + 1;
    }
    false
}

/// What a job asks of its check.
#[derive(Debug)]
pub enum JobControlRequest {
    StartJob { name: String },
    LogStep { job_name: String, step_name: String },
    MarkStepFailed { job_name: String, ignore: bool },
    WaitForJob { name: String },
}

/// What the check answers.
#[derive(Debug)]
pub enum JobControlResponse {
    JobStarted,
    StepLogged,
    StepMarkedFailed,
    JobCompleted { status: JobStatus },
    JobNotFound,
    Error(String),
}

/// What a [`JobControlResponse`] holds.
pub enum JobControlResponseView {
    JobStarted,
    StepLogged,
    StepMarkedFailed,
    JobCompleted { status: JobStatus },
    JobNotFound,
    Error(Seq<char>),
}

impl View for JobControlResponse {
    type V = JobControlResponseView;

    open spec fn view(&self) -> JobControlResponseView {
        match *self {
            JobControlResponse::JobStarted => JobControlResponseView::JobStarted,
            JobControlResponse::StepLogged => JobControlResponseView::StepLogged,
            JobControlResponse::StepMarkedFailed => JobControlResponseView::StepMarkedFailed,
            JobControlResponse::JobCompleted { status } => JobControlResponseView::JobCompleted {
                status,
            },
            JobControlResponse::JobNotFound => JobControlResponseView::JobNotFound,
            JobControlResponse::Error(e) => JobControlResponseView::Error(e@),
        }
    }
}

/// Only a failure that is not ignored counts: neither an ignored one nor a step
/// that runs or succeeded fails a job, and one that counts is enough.
pub proof fn law_only_counted_failures_count(step: StepLogView, steps: Seq<StepLogView>)
    ensures
        fails_job(StepStatus::Failed { ignored: false }),
        !fails_job(StepStatus::Failed { ignored: true }),
        !fails_job(StepStatus::Running),
        !fails_job(StepStatus::Success),
        any_step_failed(steps) <==> exists|i: int|
            0 <= i < steps.len() && (#[trigger] steps[i]).status == (StepStatus::Failed {
                ignored: false,
            }),
        any_step_failed(steps.push(step)) <==> any_step_failed(steps) || step.status == (
        StepStatus::Failed { ignored: false }),
{
    let more = steps.push(step);
    if any_step_failed(steps) {
        let i = choose|i: int| 0 <= i < steps.len() && fails_job(#[trigger] steps[i].status);
        assert(steps[i].status == (StepStatus::Failed { ignored: false }));
        assert(fails_job(more[i].status));
    }
    if exists|i: int|
        0 <= i < steps.len() && (#[trigger] steps[i]).status == (StepStatus::Failed {
            ignored: false,
        }) {
        let i = choose|i: int|
            0 <= i < steps.len() && (#[trigger] steps[i]).status == (StepStatus::Failed {
                ignored: false,
            });
        assert(fails_job(steps[i].status));
    }
    if any_step_failed(more) {
        let i = choose|i: int| 0 <= i < more.len() && fails_job(#[trigger] more[i].status);
        if i < steps.len() {
            assert(fails_job(steps[i].status));
        }
    }
    if step.status == (StepStatus::Failed { ignored: false }) {
        assert(fails_job(more[steps.len() as int].status));
    }
}

/// What steps and jobs hold is what each of them holds, in order.
pub proof fn law_entries_hold_their_parts(
    steps: Seq<StepLogEntry>,
    jobs: Seq<JobLogEntry>,
    i: int,
    j: int,
)
    requires
        0 <= i < steps.len(),
        0 <= j < jobs.len(),
    ensures
        step_views(steps).len() == steps.len(),
        step_views(steps)[i].ts == steps[i].ts,
        step_views(steps)[i].name == steps[i].name@,
        step_views(steps)[i].status == steps[i].status,
        step_views(steps)[i].job_started_at == steps[i].job_started_at,
        job_views(jobs).len() == jobs.len(),
        job_views(jobs)[j].name == jobs[j].name@,
        job_views(jobs)[j].status == jobs[j].status,
{
}

/// What an answer holds is what its parts hold, and of the same kind.
pub proof fn law_answers_hold_their_parts(answer: JobControlResponse)
    ensures
        answer@ is JobStarted <==> answer is JobStarted,
        answer@ is StepLogged <==> answer is StepLogged,
        answer@ is StepMarkedFailed <==> answer is StepMarkedFailed,
        answer@ is JobNotFound <==> answer is JobNotFound,
        answer matches JobControlResponse::JobCompleted { status } ==> answer@ == (
        JobControlResponseView::JobCompleted { status }),
        answer matches JobControlResponse::Error(e) ==> answer@ == JobControlResponseView::Error(
            e@,
        ),
{
}

} // verus!
