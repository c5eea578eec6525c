//! A candidate check: its jobs, what is shown of them, and its result.

use vstd::prelude::*;

use crate::protocol;
use crate::protocol::{
    JobLogEntry, JobLogView, JobStatus, StepLogEntry, StepLogView, StepStatus, Timestamp,
};
use crate::text;
use crate::worker;
use crate::worker::{
    JobMessage, JobMessageView, JobOutcomeView, JobStates, JobStatesView, RunJobOutcome,
};

verus! {

/// Who runs a check.
#[derive(Debug, Clone, Copy, PartialEq, Eq, Structural)]
pub enum CheckMode {
    /// The user, who sees the output at once.
    Inline { print_output: bool },
    /// The merge queue, which keeps the output.
    MergeQueue,
}

impl CheckMode {
    /// Whether the output of jobs is printed while they run.
    pub fn print_output(&self) -> (res: bool)
        ensures
            res == (*self == CheckMode::Inline { print_output: true }),
    {
        match self {
            CheckMode::Inline { print_output } => *print_output,
            CheckMode::MergeQueue => false,
        }
    }
}

/// What came of a check.
#[derive(Debug)]
pub struct CheckResult {
    pub output: String,
    pub steps: Vec<StepLogEntry>,
    pub jobs: Vec<JobLogEntry>,
    pub exit_code: Option<i32>,
    /// In nanoseconds.
    pub duration: u64,
    /// The output of the post-clone hook, where it was run.
    pub post_clone_output: Option<String>,
    /// Whether the post-clone hook succeeded, where it was run.
    pub post_clone_success: Option<bool>,
}

/// What a [`CheckResult`] holds.
pub struct CheckResultView {
    pub output: Seq<char>,
    pub steps: Seq<StepLogView>,
    pub jobs: Seq<JobLogView>,
    pub exit_code: Option<i32>,
    pub duration: u64,
    pub post_clone_output: Option<Seq<char>>,
    pub post_clone_success: Option<bool>,
}

impl View for CheckResult {
    type V = CheckResultView;

    open spec fn view(&self) -> CheckResultView {
        CheckResultView {
            output: self.output@,
            steps: protocol::step_views(self.steps@),
            jobs: protocol::job_views(self.jobs@),
            exit_code: self.exit_code,
            duration: self.duration,
            post_clone_output: self.post_clone_output.deep_view(),
            post_clone_success: self.post_clone_success,
        }
    }
}

/// Whether a check passed: it ended with zero, and no step failed that counts.
pub open spec fn passed(result: CheckResultView) -> bool {
    result.exit_code == Some(0i32) && !protocol::any_step_failed(result.steps)
}

/// Whether a check passed.
pub fn check_passed(result: &CheckResult) -> (res: bool)
    ensures
        res == passed(result@),
{
    match result.exit_code {
        Some(code) => code == 0 && !protocol::has_failed_step(&result.steps),
        None => false,
    }
}

// ---------------------------------------------------------------------------
// Following the jobs

/// What is known of a check while its jobs run.
#[derive(Debug)]
pub struct CheckProgress {
    mode: CheckMode,
    active_jobs: u64,
    total_jobs: u64,
    output: String,
    steps: Vec<StepLogEntry>,
    jobs: Vec<JobLogEntry>,
    any_job_failed: bool,
    /// When the steps that are running started, by job and step.
    step_starts: Vec<((String, String), Timestamp)>,
}

/// What a [`CheckProgress`] holds.
pub struct ProgressView {
    pub mode: CheckMode,
    pub active_jobs: u64,
    pub total_jobs: u64,
    pub output: Seq<char>,
    pub steps: Seq<StepLogView>,
    pub jobs: Seq<JobLogView>,
    pub any_job_failed: bool,
    pub step_starts: Seq<((Seq<char>, Seq<char>), Timestamp)>,
}

impl View for CheckProgress {
    type V = ProgressView;

    closed spec fn view(&self) -> ProgressView {
        ProgressView {
            mode: self.mode,
            active_jobs: self.active_jobs,
            total_jobs: self.total_jobs,
            output: self.output@,
            steps: protocol::step_views(self.steps@),
            jobs: protocol::job_views(self.jobs@),
            any_job_failed: self.any_job_failed,
            step_starts: self.step_starts@.map_values(
                |s: ((String, String), Timestamp)| ((s.0.0@, s.0.1@), s.1),
            ),
        }
    }
}

/// Whether any job failed.
pub open spec fn any_failed(jobs: Seq<JobLogView>) -> bool {
    exists|i: int| 0 <= i < jobs.len() && (#[trigger] jobs[i]).status == JobStatus::Failed
}

impl ProgressView {
    /// What every message keeps: each job that was started is active or has
    /// ended, the check counts as failed exactly if a job has failed, a failed
    /// step counts against the check, and each job that ended either succeeded or
    /// failed.
    pub open spec fn in_order(self) -> bool {
        &&& self.jobs.len() + self.active_jobs == self.total_jobs
        &&& self.any_job_failed <==> any_failed(self.jobs)
        &&& protocol::any_step_failed(self.steps) ==> self.any_job_failed
        &&& forall|i: int|
            0 <= i < self.jobs.len() ==> (#[trigger] self.jobs[i]).status != JobStatus::Running
    }
}

/// Before anything has happened.
pub open spec fn no_progress(mode: CheckMode) -> ProgressView {
    ProgressView {
        mode,
        active_jobs: 0,
        total_jobs: 0,
        output: seq![],
        steps: seq![],
        jobs: seq![],
        any_job_failed: false,
        step_starts: seq![],
    }
}

/// `[done/total] `.
pub open spec fn counter(done: int, total: int) -> Seq<char> {
    "["@ + text::decimal(done as nat) + "/"@ + text::decimal(total as nat) + "] "@
}

/// The sign for how a step stands.
pub open spec fn step_sign(status: StepStatus) -> Seq<char> {
    match status {
        StepStatus::Success => "✅"@,
        StepStatus::Failed { ignored: true } => "⚠️"@,
        StepStatus::Failed { ignored: false } => "❌"@,
        StepStatus::Running => "⏳"@,
    }
}

/// The word for how a step ended.
pub open spec fn step_word(status: StepStatus) -> Seq<char> {
    if status == StepStatus::Success {
        "passed"@
    } else {
        "failed"@
    }
}

/// The line for a step that ended.
pub open spec fn step_line(
    done: int,
    total: int,
    status: StepStatus,
    job: Seq<char>,
    step: Seq<char>,
    secs: Seq<char>,
) -> Seq<char> {
    counter(done, total) + step_sign(status) + " "@ + step_word(status) + ": "@ + job + "/"@ + step
        + " ("@ + secs + "s)\n"@
}

/// The steps of a job that ended: one that was still running is done.
pub open spec fn ended_steps(steps: Seq<StepLogView>) -> Seq<StepLogView> {
    steps.map_values(
        |s: StepLogView|
            if s.status == StepStatus::Running {
                StepLogView { status: StepStatus::Success, ..s }
            } else {
                s
            },
    )
}

/// Whether a job failed: it ended other than with zero, or a step failed that counts.
pub open spec fn job_failed(exit_code: Option<i32>, steps: Seq<StepLogView>) -> bool {
    exit_code != Some(0i32) || protocol::any_step_failed(steps)
}

/// Why a job failed.
pub open spec fn failure_reason(exit_code: Option<i32>, steps: Seq<StepLogView>) -> Seq<char> {
    if protocol::any_step_failed(steps) {
        "step failure"@
    } else {
        match exit_code {
            Some(code) => "exit code: "@ + text::signed_decimal(code as int),
            None => "no exit code"@,
        }
    }
}

/// The line for a job that ended.
pub open spec fn job_line(
    done: int,
    total: int,
    outcome: JobOutcomeView,
    steps: Seq<StepLogView>,
    secs: Seq<char>,
) -> Seq<char> {
    if job_failed(outcome.exit_code, steps) {
        counter(done, total) + "❌ Job failed: "@ + outcome.job_name + " ("@ + failure_reason(
            outcome.exit_code,
            steps,
        ) + ", "@ + secs + "s)\n"@
    } else {
        counter(done, total) + "✅ Job passed: "@ + outcome.job_name + " ("@ + secs + "s)\n"@
    }
}

/// The output of a job that ended, where it is shown: always in the merge
/// queue, else on request or if the job failed.
pub open spec fn output_text(
    mode: CheckMode,
    outcome: JobOutcomeView,
    steps: Seq<StepLogView>,
) -> Seq<char> {
    let wanted = match mode {
        CheckMode::MergeQueue => true,
        CheckMode::Inline { print_output } => print_output || job_failed(outcome.exit_code, steps),
    };
    if wanted && outcome.output.len() > 0 {
        "--- output: "@ + outcome.job_name + " ---\n"@ + outcome.output + "--- end output ---\n"@
    } else {
        seq![]
    }
}

/// Times as they are shown, in seconds.
#[derive(Debug)]
pub struct ShownTimes {
    /// How long the step took that the message ends.
    pub step: String,
    /// How long the job took that the message ends.
    pub job: String,
}

/// The text that a message gives rise to.
pub open spec fn message_text(
    p: ProgressView,
    states: JobStatesView,
    message: JobMessageView,
    step_secs: Seq<char>,
    job_secs: Seq<char>,
) -> Seq<char> {
    let done = p.total_jobs - p.active_jobs;
    match message {
        JobMessageView::Started { job_name } => counter(done, p.total_jobs + 1)
            + "🚀 Job started: "@ + job_name + "\n"@,
        JobMessageView::StepStarted { .. } => seq![],
        JobMessageView::StepCompleted { job_name, step_name, status } => step_line(
            done,
            p.total_jobs as int,
            status,
            job_name,
            step_name,
            step_secs,
        ),
        JobMessageView::Completed(outcome) => {
            let steps = ended_steps(worker::steps_of(states, outcome.job_name));
            let first = if pending_step(p, states, outcome.job_name) {
                step_line(
                    done,
                    p.total_jobs as int,
                    steps.last().status,
                    outcome.job_name,
                    steps.last().name,
                    step_secs,
                )
            } else {
                seq![]
            };
            first + job_line(done + 1, p.total_jobs as int, outcome, steps, job_secs)
                + output_text(p.mode, outcome, steps)
        },
    }
}

/// Whether the last step of a job has not been reported as ended.
pub open spec fn pending_step(p: ProgressView, states: JobStatesView, job: Seq<char>) -> bool {
    let steps = worker::steps_of(states, job);
    steps.len() > 0 && worker::entry(p.step_starts, (job, steps.last().name)) is Some
}

/// What is known after a message, but for the text.
pub open spec fn advanced(
    p: ProgressView,
    states: JobStatesView,
    message: JobMessageView,
    now: Timestamp,
) -> ProgressView {
    match message {
        JobMessageView::Started { .. } => ProgressView {
            active_jobs: (p.active_jobs + 1) as u64,
            total_jobs: (p.total_jobs + 1) as u64,
            ..p
        },
        JobMessageView::StepStarted { job_name, step_name } => ProgressView {
            step_starts: worker::with_entry(p.step_starts, (job_name, step_name), now),
            ..p
        },
        JobMessageView::StepCompleted { job_name, step_name, .. } => ProgressView {
            step_starts: worker::without_entry(p.step_starts, (job_name, step_name)),
            ..p
        },
        JobMessageView::Completed(outcome) => {
            let steps = ended_steps(worker::steps_of(states, outcome.job_name));
            let failed = job_failed(outcome.exit_code, steps);
            ProgressView {
                active_jobs: (p.active_jobs - 1) as u64,
                steps: p.steps + steps,
                jobs: p.jobs.push(
                    JobLogView { name: outcome.job_name, status: job_end(failed) },
                ),
                any_job_failed: p.any_job_failed || failed,
                step_starts: if steps.len() > 0 {
                    worker::without_entry(p.step_starts, (outcome.job_name, steps.last().name))
                } else {
                    p.step_starts
                },
                ..p
            }
        },
    }
}

/// How a job ended.
pub open spec fn job_end(failed: bool) -> JobStatus {
    if failed {
        JobStatus::Failed
    } else {
        JobStatus::Succeeded
    }
}

/// The states of the jobs after a message: one that ended is noted as such.
pub open spec fn states_after(states: JobStatesView, message: JobMessageView) -> JobStatesView {
    match message {
        JobMessageView::Completed(outcome) => states.job_completed(
            outcome.job_name,
            job_end(
                job_failed(
                    outcome.exit_code,
                    ended_steps(worker::steps_of(states, outcome.job_name)),
                ),
            ),
        ),
        _ => states,
    }
}

/// What is known after a message: in the merge queue, its text is kept.
pub open spec fn after_message(
    p: ProgressView,
    states: JobStatesView,
    message: JobMessageView,
    now: Timestamp,
    step_secs: Seq<char>,
    job_secs: Seq<char>,
) -> ProgressView {
    let next = advanced(p, states, message, now);
    if p.mode == CheckMode::MergeQueue {
        ProgressView {
            output: p.output + message_text(p, states, message, step_secs, job_secs),
            ..next
        }
    } else {
        next
    }
}

/// How long ago something started.
pub open spec fn elapsed_since(start: Option<Timestamp>, now: Timestamp) -> u64 {
    match start {
        Some(at) => if at <= now {
            (now - at) as u64
        } else {
            0
        },
        None => 0,
    }
}

/// The two times that are shown with a message: of the step and of the job
/// that it ends.
pub open spec fn message_times(
    p: ProgressView,
    states: JobStatesView,
    message: JobMessageView,
    now: Timestamp,
) -> (u64, u64) {
    match message {
        JobMessageView::StepCompleted { job_name, step_name, .. } => (
            elapsed_since(worker::entry(p.step_starts, (job_name, step_name)), now),
            0,
        ),
        JobMessageView::Completed(outcome) => {
            let steps = worker::steps_of(states, outcome.job_name);
            (
                if steps.len() > 0 {
                    elapsed_since(
                        worker::entry(p.step_starts, (outcome.job_name, steps.last().name)),
                        now,
                    )
                } else {
                    0
                },
                outcome.duration,
            )
        },
        _ => (0, 0),
    }
}

fn push_counter(out: &mut String, done: u64, total: u64)
    ensures
        final(out)@ == old(out)@ + counter(done as int, total as int),
{
    let ghost before = out@;
    let text = String::from_str("[").concat(text::decimal_of(done).as_str()).concat("/").concat(
        text::decimal_of(total).as_str(),
    ).concat("] ");
    out.append(text.as_str());
}

fn make_step_line(
    done: u64,
    total: u64,
    status: StepStatus,
    job: &str,
    step: &str,
    secs: &str,
) -> (res: String)
    ensures
        res@ == step_line(done as int, total as int, status, job@, step@, secs@),
{
    let sign = match status {
        StepStatus::Success => "✅",
        StepStatus::Failed { ignored } => if ignored {
            "⚠️"
        } else {
            "❌"
        },
        StepStatus::Running => "⏳",
    };
    let word = if status == StepStatus::Success {
        "passed"
    } else {
        "failed"
    };
    let mut out = String::new();
    push_counter(&mut out, done, total);
    assert(out@ =~= counter(done as int, total as int));
    out.concat(sign).concat(" ").concat(word).concat(": ").concat(job).concat("/").concat(
        step,
    ).concat(" (").concat(secs).concat("s)\n")
}

fn make_job_line(
    done: u64,
    total: u64,
    outcome: &RunJobOutcome,
    steps: &Vec<StepLogEntry>,
    secs: &str,
) -> (res: String)
    ensures
        res@ == job_line(
            done as int,
            total as int,
            outcome@,
            protocol::step_views(steps@),
            secs@,
        ),
{
    let step_failed = protocol::has_failed_step(steps);
    let mut out = String::new();
    push_counter(&mut out, done, total);
    assert(out@ =~= counter(done as int, total as int));
    let failed = match outcome.exit_code {
        Some(code) => code != 0 || step_failed,
        None => true,
    };
    if failed {
        let reason = if step_failed {
            "step failure".to_owned()
        } else {
            match outcome.exit_code {
                Some(code) => {
                    String::from_str("exit code: ").concat(text::signed_decimal_of(code).as_str())
                },
                None => "no exit code".to_owned(),
            }
        };
        out.concat("❌ Job failed: ").concat(outcome.job_name.as_str()).concat(" (").concat(
            reason.as_str(),
        ).concat(", ").concat(secs).concat("s)\n")
    } else {
        out.concat("✅ Job passed: ").concat(outcome.job_name.as_str()).concat(" (").concat(
            secs,
        ).concat("s)\n")
    }
}

fn end_steps(steps: &Vec<StepLogEntry>) -> (res: Vec<StepLogEntry>)
    ensures
        protocol::step_views(res@) == ended_steps(protocol::step_views(steps@)),
{
    let mut res: Vec<StepLogEntry> = Vec::new();
    let ghost wanted = ended_steps(protocol::step_views(steps@));
    let mut i: usize = 0;
    while i < steps.len()
        invariant
            i <= steps.len(),
            wanted == ended_steps(protocol::step_views(steps@)),
            protocol::step_views(res@) == wanted.take(i as int),
        decreases steps.len() - i,
    {
        let ghost before = res@;
        let mut step = steps[i].clone();
        if step.status == StepStatus::Running {
            step.status = StepStatus::Success;
        }
        assert(step@ == wanted[i as int]);
        res.push(step);
        proof {
            assert(protocol::step_views(res@) =~= protocol::step_views(before).push(step@));
            assert(protocol::step_views(res@) =~= wanted.take(i + 1));
        }
        i = i + 1;
    }
    assert(wanted.take(i as int) =~= wanted);
    res
}

impl CheckProgress {
    /// Before anything has happened.
    pub fn new(mode: CheckMode) -> (res: Self)
        ensures
            res@ == no_progress(mode),
            res@.in_order(),
    {
        let res = CheckProgress {
            mode,
            active_jobs: 0,
            total_jobs: 0,
            output: String::new(),
            steps: Vec::new(),
            jobs: Vec::new(),
            any_job_failed: false,
            step_starts: Vec::new(),
        };
        assert(res@.steps =~= seq![]);
        assert(res@.jobs =~= seq![]);
        assert(res@.step_starts =~= seq![]);
        res
    }

    /// How many jobs are running.
    pub fn active_jobs(&self) -> (res: u64)
        ensures
            res == self@.active_jobs,
    {
        self.active_jobs
    }

    /// How many jobs were started.
    pub fn total_jobs(&self) -> (res: u64)
        ensures
            res == self@.total_jobs,
    {
        self.total_jobs
    }

    fn find_start(&self, job: &str, step: &str) -> (res: usize)
        ensures
            res == worker::place(self@.step_starts, (job@, step@)),
            res <= self.step_starts.len(),
            self.step_starts.len() == self@.step_starts.len(),
    {
        let mut i: usize = 0;
        while i < self.step_starts.len()
            invariant
                i <= self.step_starts.len(),
                forall|j: int| 0 <= j < i ==> (#[trigger] self@.step_starts[j]).0 != (job@, step@),
            decreases self.step_starts.len() - i,
        {
            assert(self@.step_starts[i as int].0 == (
                self.step_starts@[i as int].0.0@,
                self.step_starts@[i as int].0.1@,
            ));
            let same_job = text::same_text(self.step_starts[i].0.0.as_str(), job);
            let same_step = text::same_text(self.step_starts[i].0.1.as_str(), step);
            if same_job && same_step {
                proof {
                    worker::lemma_place(self@.step_starts, (job@, step@), i as int);
                }
                return i;
            }
            i = i + 1;
        }
        proof {
            worker::lemma_place(self@.step_starts, (job@, step@), i as int);
        }
        i
    }

    fn elapsed(&self, job: &str, step: &str, now: Timestamp) -> (res: u64)
        ensures
            res == elapsed_since(worker::entry(self@.step_starts, (job@, step@)), now),
    {
        let p = self.find_start(job, step);
        if p < self.step_starts.len() {
            assert(self@.step_starts[p as int].1 == self.step_starts@[p as int].1);
            let at: Timestamp = self.step_starts[p].1;
            if at <= now {
                now - at
            } else {
                0
            }
        } else {
            0
        }
    }

    /// The times that are shown with a message, in nanoseconds: of the step and
    /// of the job that it ends.
    pub fn times(&self, states: &JobStates, message: &JobMessage, now: Timestamp) -> (res: (u64, u64))
        ensures
            res == message_times(self@, states@, message@, now),
    {
        match message {
            JobMessage::StepCompleted { job_name, step_name, .. } => (
                self.elapsed(job_name.as_str(), step_name.as_str(), now),
                0,
            ),
            JobMessage::Completed(outcome) => {
                let steps = states.steps_for(outcome.job_name.as_str());
                let ghost views = protocol::step_views(steps@);
                if steps.len() > 0 {
                    let last: usize = steps.len() - 1;
                    assert(views.last() == steps@[last as int]@);
                    (
                        self.elapsed(outcome.job_name.as_str(), steps[last].name.as_str(), now),
                        outcome.duration,
                    )
                } else {
                    (0, outcome.duration)
                }
            },
            _ => (0, 0),
        }
    }

    fn remember_start(&mut self, job: &str, step: &str, now: Timestamp)
        ensures
            final(self)@ == (ProgressView {
                step_starts: worker::with_entry(old(self)@.step_starts, (job@, step@), now),
                ..old(self)@
            }),
    {
        let ghost before = self@;
        let p = self.find_start(job, step);
        let entry = ((job.to_owned(), step.to_owned()), now);
        if p < self.step_starts.len() {
            self.step_starts.set(p, entry);
        } else {
            self.step_starts.push(entry);
        }
        assert(self@.step_starts =~= worker::with_entry(before.step_starts, (job@, step@), now));
    }

    fn forget_start(&mut self, job: &str, step: &str) -> (res: bool)
        ensures
            final(self)@ == (ProgressView {
                step_starts: worker::without_entry(old(self)@.step_starts, (job@, step@)),
                ..old(self)@
            }),
            res == worker::entry(old(self)@.step_starts, (job@, step@)) is Some,
    {
        let ghost before = self@;
        let p = self.find_start(job, step);
        if p < self.step_starts.len() {
            self.step_starts.remove(p);
            assert(self@.step_starts =~= worker::without_entry(
                before.step_starts,
                (job@, step@),
            ));
            true
        } else {
            false
        }
    }

    fn complete_job(
        &mut self,
        states: &mut JobStates,
        outcome: &RunJobOutcome,
        now: Timestamp,
        times: &ShownTimes,
    ) -> (res: String)
        requires
            old(self)@.in_order(),
            old(self)@.active_jobs > 0,
        ensures
            final(self)@ == advanced(
                old(self)@,
                old(states)@,
                JobMessageView::Completed(outcome@),
                now,
            ),
            final(self)@.in_order(),
            final(states)@ == states_after(
                old(states)@,
                JobMessageView::Completed(outcome@),
            ),
            res@ == message_text(
                old(self)@,
                old(states)@,
                JobMessageView::Completed(outcome@),
                times.step@,
                times.job@,
            ),
    {
        let ghost p = self@;
        let job = outcome.job_name.as_str();
        let raw = states.steps_for(job);
        let mut steps = end_steps(&raw);
        let ghost views = ended_steps(worker::steps_of(states@, outcome.job_name@));
        assert(views == protocol::step_views(steps@));
        let done: u64 = self.total_jobs - self.active_jobs;
        let mut out = String::new();
        if steps.len() > 0 {
            let last: usize = steps.len() - 1;
            assert(views.last() == steps@[last as int]@);
            assert(views.last().name == worker::steps_of(states@, outcome.job_name@).last().name);
            let step = steps[last].name.as_str();
            if self.forget_start(job, step) {
                out = make_step_line(
                    done,
                    self.total_jobs,
                    steps[last].status,
                    job,
                    step,
                    times.step.as_str(),
                );
            }
        }
        let failed = match outcome.exit_code {
            Some(code) => code != 0 || protocol::has_failed_step(&steps),
            None => true,
        };
        assert(failed == job_failed(outcome.exit_code, views));
        if failed {
            self.any_job_failed = true;
        }
        let status = if failed {
            JobStatus::Failed
        } else {
            JobStatus::Succeeded
        };
        states.complete(job, status);
        let ghost jobs_before = self@.jobs;
        self.jobs.push(JobLogEntry { name: outcome.job_name.clone(), status });
        assert(self@.jobs =~= jobs_before.push(JobLogView { name: outcome.job_name@, status }));
        out.append(
            make_job_line(
                done + 1,
                self.total_jobs,
                outcome,
                &steps,
                times.job.as_str(),
            ).as_str(),
        );
        let wanted = match self.mode {
            CheckMode::MergeQueue => true,
            CheckMode::Inline { print_output } => print_output || failed,
        };
        if wanted && !outcome.output.as_str().is_empty() {
            let shown = String::from_str("--- output: ").concat(job).concat(" ---\n").concat(
                outcome.output.as_str(),
            ).concat("--- end output ---\n");
            out.append(shown.as_str());
        } else {
            assert(out@ + Seq::<char>::empty() =~= out@);
        }
        let ghost steps_before = self.steps@;
        let ghost steps_added = steps@;
        self.steps.append(&mut steps);
        assert(self@.steps =~= p.steps + views) by {
            assert(self.steps@ == steps_before + steps_added);
        }
        self.active_jobs = self.active_jobs - 1;
        proof {
            let next = self@;
            lemma_order_after_job(p, views, outcome.job_name@, failed, next.steps, next.jobs);
        }
        out
    }

    /// Takes a message up. The result is the text to print now, which is empty
    /// in the merge queue, and whether all jobs have ended.
    pub fn take(
        &mut self,
        states: &mut JobStates,
        message: &JobMessage,
        now: Timestamp,
        times: &ShownTimes,
    ) -> (res: (String, bool))
        requires
            old(self)@.in_order(),
            message is Started ==> old(self)@.total_jobs < u64::MAX,
            message is Completed ==> old(self)@.active_jobs > 0,
        ensures
            final(self)@ == after_message(
                old(self)@,
                old(states)@,
                message@,
                now,
                times.step@,
                times.job@,
            ),
            final(self)@.in_order(),
            final(states)@ == states_after(old(states)@, message@),
            res.0@ == (if old(self)@.mode == CheckMode::MergeQueue {
                seq![]
            } else {
                message_text(old(self)@, old(states)@, message@, times.step@, times.job@)
            }),
            res.1 == (message is Completed && final(self)@.active_jobs == 0),
    {
        let ghost p = self@;
        let (text, finished) = match message {
            JobMessage::Started { job_name } => {
                self.active_jobs = self.active_jobs + 1;
                self.total_jobs = self.total_jobs + 1;
                let mut out = String::new();
                push_counter(&mut out, self.total_jobs - self.active_jobs, self.total_jobs);
                assert(out@ =~= counter(p.total_jobs - p.active_jobs, p.total_jobs + 1));
                (out.concat("🚀 Job started: ").concat(job_name.as_str()).concat("\n"), false)
            },
            JobMessage::StepStarted { job_name, step_name } => {
                self.remember_start(job_name.as_str(), step_name.as_str(), now);
                (String::new(), false)
            },
            JobMessage::StepCompleted { job_name, step_name, status } => {
                self.forget_start(job_name.as_str(), step_name.as_str());
                let line = make_step_line(
                    self.total_jobs - self.active_jobs,
                    self.total_jobs,
                    *status,
                    job_name.as_str(),
                    step_name.as_str(),
                    times.step.as_str(),
                );
                (line, false)
            },
            JobMessage::Completed(outcome) => {
                let text = self.complete_job(states, outcome, now, times);
                (text, self.active_jobs == 0)
            },
        };
        match self.mode {
            CheckMode::MergeQueue => {
                self.output.append(text.as_str());
                (String::new(), finished)
            },
            CheckMode::Inline { .. } => (text, finished),
        }
    }

    /// What came of the jobs: zero if none failed, else one.
    pub fn finish(self, duration: u64) -> (res: CheckResult)
        ensures
            res@ == jobs_result(self@, duration),
    {
        CheckResult {
            output: self.output,
            steps: self.steps,
            jobs: self.jobs,
            exit_code: if self.any_job_failed {
                Some(1)
            } else {
                Some(0)
            },
            duration,
            post_clone_output: None,
            post_clone_success: None,
        }
    }
}

/// What came of the jobs of a check.
pub open spec fn jobs_result(p: ProgressView, duration: u64) -> CheckResultView {
    CheckResultView {
        output: p.output,
        steps: p.steps,
        jobs: p.jobs,
        exit_code: Some(
            if p.any_job_failed {
                1i32
            } else {
                0i32
            },
        ),
        duration,
        post_clone_output: None,
        post_clone_success: None,
    }
}

proof fn lemma_order_after_job(
    p: ProgressView,
    added: Seq<StepLogView>,
    job: Seq<char>,
    failed: bool,
    steps: Seq<StepLogView>,
    jobs: Seq<JobLogView>,
)
    requires
        p.in_order(),
        steps == p.steps + added,
        jobs == p.jobs.push(JobLogView { name: job, status: job_end(failed) }),
        protocol::any_step_failed(added) ==> failed,
    ensures
        (p.any_job_failed || failed) <==> any_failed(jobs),
        protocol::any_step_failed(steps) ==> p.any_job_failed || failed,
        forall|i: int| 0 <= i < jobs.len() ==> (#[trigger] jobs[i]).status != JobStatus::Running,
{
    let n = p.jobs.len() as int;
    assert(jobs[n].status == job_end(failed));
    if p.any_job_failed {
        let i = choose|i: int|
            0 <= i < p.jobs.len() && (#[trigger] p.jobs[i]).status == JobStatus::Failed;
        assert(jobs[i].status == JobStatus::Failed);
    }
    if any_failed(jobs) {
        let i = choose|i: int|
            0 <= i < jobs.len() && (#[trigger] jobs[i]).status == JobStatus::Failed;
        if i < n {
            assert(p.jobs[i].status == JobStatus::Failed);
        }
    }
    if protocol::any_step_failed(steps) {
        let i = choose|i: int|
            0 <= i < steps.len() && protocol::fails_job(#[trigger] steps[i].status);
        if i < p.steps.len() {
            assert(protocol::fails_job(p.steps[i].status));
        } else {
            assert(protocol::fails_job(added[i - p.steps.len()].status));
        }
    }
}

/// A check whose jobs have all ended knows how each job that it started ended,
/// and passes if and only if all of them succeeded.
pub proof fn law_check_passes_iff_all_jobs_succeed(p: ProgressView, duration: u64)
    requires
        p.in_order(),
        p.active_jobs == 0,
    ensures
        p.jobs.len() == p.total_jobs,
        passed(jobs_result(p, duration)) <==> forall|i: int|
            0 <= i < p.jobs.len() ==> (#[trigger] p.jobs[i]).status == JobStatus::Succeeded,
{
    if p.any_job_failed {
        let i = choose|i: int|
            0 <= i < p.jobs.len() && (#[trigger] p.jobs[i]).status == JobStatus::Failed;
        assert(p.jobs[i].status != JobStatus::Succeeded);
    } else {
        assert forall|i: int| 0 <= i < p.jobs.len() implies (#[trigger] p.jobs[i]).status
            == JobStatus::Succeeded by {
            assert(p.jobs[i].status != JobStatus::Failed);
        }
    }
}

/// A job succeeds if and only if its command ended with zero and no step failed
/// that counts; a step that was running when the job ended counts as a success.
pub proof fn law_job_succeeds_iff_clean(exit_code: Option<i32>, steps: Seq<StepLogView>)
    ensures
        job_end(job_failed(exit_code, ended_steps(steps))) == JobStatus::Succeeded <==> exit_code
            == Some(0i32) && !protocol::any_step_failed(steps),
{
    let ended = ended_steps(steps);
    if protocol::any_step_failed(steps) {
        let i = choose|i: int|
            0 <= i < steps.len() && protocol::fails_job(#[trigger] steps[i].status);
        assert(protocol::fails_job(ended[i].status));
    }
    if protocol::any_step_failed(ended) {
        let i = choose|i: int|
            0 <= i < ended.len() && protocol::fails_job(#[trigger] ended[i].status);
        assert(protocol::fails_job(steps[i].status));
    }
}

/// Whether a step that failed counts among steps: its failure is not ignored.
pub open spec fn holds_counted_failure(steps: Seq<StepLogView>) -> bool {
    exists|i: int|
        0 <= i < steps.len() && (#[trigger] steps[i]).status == (StepStatus::Failed {
            ignored: false,
        })
}

proof fn lemma_counted_failure(steps: Seq<StepLogView>)
    ensures
        protocol::any_step_failed(steps) <==> holds_counted_failure(steps),
{
    protocol::law_only_counted_failures_count(
        StepLogView {
            ts: 0,
            name: seq![],
            status: StepStatus::Running,
            job_started_at: None,
        },
        steps,
    );
}

/// Whoever waits for a job is told how it ended: as a success if and only if its
/// command ended with zero and no step of the job failed whose failure counts,
/// else as a failure. The check's own list of jobs says the same, the other jobs
/// stay as they were, and the check as a whole fails if the job did.
pub proof fn law_ends_are_told_as_they_were(
    p: ProgressView,
    states: JobStatesView,
    outcome: JobOutcomeView,
    now: Timestamp,
    other: Seq<char>,
)
    ensures
        ({
            let message = JobMessageView::Completed(outcome);
            let after = states_after(states, message);
            let next = advanced(p, states, message, now);
            let clean = outcome.exit_code == Some(0i32) && !holds_counted_failure(
                worker::steps_of(states, outcome.job_name),
            );
            let told = worker::entry(after.completions, outcome.job_name);
            &&& told == Some(JobStatus::Succeeded) <==> clean
            &&& told == Some(JobStatus::Failed) <==> !clean
            &&& told == Some(next.jobs.last().status)
            &&& next.jobs.last().name == outcome.job_name
            &&& next.jobs.len() == p.jobs.len() + 1
            &&& next.jobs.drop_last() == p.jobs
            &&& next.any_job_failed <==> p.any_job_failed || !clean
            &&& other != outcome.job_name ==> worker::entry(after.completions, other)
                == worker::entry(states.completions, other)
            &&& after.used == states.used
            &&& after.steps == states.steps
        }),
{
    let message = JobMessageView::Completed(outcome);
    let steps = worker::steps_of(states, outcome.job_name);
    lemma_counted_failure(steps);
    law_job_succeeds_iff_clean(outcome.exit_code, steps);
    let end = job_end(job_failed(outcome.exit_code, ended_steps(steps)));
    worker::law_entries_read_back(states.completions, outcome.job_name, end, other);
    let next = advanced(p, states, message, now);
    assert(next.jobs.drop_last() =~= p.jobs);
}

/// What is counted and what is kept. A job that starts is active; one that ends
/// is not, and its steps go to the end of the check's, one that was still running
/// as a success. No other message changes a count, a step or a job, and only the
/// end of a job changes what is known of the jobs.
pub proof fn law_messages_are_counted(
    p: ProgressView,
    states: JobStatesView,
    message: JobMessageView,
    now: Timestamp,
    i: int,
)
    requires
        message is Started ==> p.active_jobs < u64::MAX && p.total_jobs < u64::MAX,
        message is Completed ==> p.active_jobs > 0,
    ensures
        ({
            let next = advanced(p, states, message, now);
            &&& next.mode == p.mode
            &&& next.output == p.output
            &&& message is Started ==> {
                &&& next.active_jobs == p.active_jobs + 1
                &&& next.total_jobs == p.total_jobs + 1
            }
            &&& message is Completed ==> {
                &&& next.active_jobs == p.active_jobs - 1
                &&& next.total_jobs == p.total_jobs
            }
            &&& message is StepStarted || message is StepCompleted ==> {
                &&& next.active_jobs == p.active_jobs
                &&& next.total_jobs == p.total_jobs
            }
            &&& message !is Completed ==> {
                &&& next.steps == p.steps
                &&& next.jobs == p.jobs
                &&& next.any_job_failed == p.any_job_failed
                &&& states_after(states, message) == states
            }
            &&& (message matches JobMessageView::Completed(outcome) ==> {
                let steps = worker::steps_of(states, outcome.job_name);
                &&& next.steps.len() == p.steps.len() + steps.len()
                &&& 0 <= i < p.steps.len() ==> next.steps[i] == p.steps[i]
                &&& 0 <= i < steps.len() ==> {
                    let kept = next.steps[p.steps.len() + i];
                    &&& kept.name == steps[i].name
                    &&& kept.ts == steps[i].ts
                    &&& kept.job_started_at == steps[i].job_started_at
                    &&& steps[i].status == StepStatus::Running ==> kept.status
                        == StepStatus::Success
                    &&& steps[i].status != StepStatus::Running ==> kept.status
                        == steps[i].status
                }
            })
        }),
{
}

/// A step that started is known by when it did until it or its job has ended,
/// and the time shown with its end is the time that passed since, or none where
/// the clock went back or the start is not known. A job is shown with its own
/// duration.
pub proof fn law_times_are_measured_from_the_start(
    p: ProgressView,
    states: JobStatesView,
    job: Seq<char>,
    step: Seq<char>,
    status: StepStatus,
    outcome: JobOutcomeView,
    started: Timestamp,
    now: Timestamp,
)
    ensures
        ({
            let next = advanced(
                p,
                states,
                JobMessageView::StepStarted { job_name: job, step_name: step },
                started,
            );
            let end = JobMessageView::StepCompleted { job_name: job, step_name: step, status };
            &&& started <= now ==> message_times(next, states, end, now).0 == now - started
            &&& started > now ==> message_times(next, states, end, now).0 == 0
            &&& message_times(next, states, end, now).1 == 0
            &&& ({
                let steps = worker::steps_of(states, outcome.job_name);
                let done = JobMessageView::Completed(outcome);
                &&& message_times(next, states, done, now).1 == outcome.duration
                &&& steps.len() == 0 ==> message_times(next, states, done, now).0 == 0
                &&& steps.len() > 0 && outcome.job_name == job && steps.last().name == step
                    && started <= now ==> message_times(next, states, done, now).0 == now - started
                &&& steps.len() > 0 && outcome.job_name == job && steps.last().name == step
                    ==> pending_step(next, states, job)
            })
            &&& worker::entry(p.step_starts, (job, step)) is None ==> message_times(
                p,
                states,
                end,
                now,
            ).0 == 0
        }),
{
    worker::law_entries_read_back(p.step_starts, (job, step), started, (job, step));
}

/// The lines that are shown. Each begins with how many jobs have ended and how
/// many were started, and says what happened to what.
pub proof fn law_lines_say_what_happened(
    p: ProgressView,
    states: JobStatesView,
    job: Seq<char>,
    step: Seq<char>,
    step_secs: Seq<char>,
    job_secs: Seq<char>,
)
    requires
        p.active_jobs <= p.total_jobs,
    ensures
        ({
            let done = text::decimal((p.total_jobs - p.active_jobs) as nat);
            let total = text::decimal(p.total_jobs as nat);
            let ended = |status: StepStatus|
                message_text(
                    p,
                    states,
                    JobMessageView::StepCompleted { job_name: job, step_name: step, status },
                    step_secs,
                    job_secs,
                );
            &&& message_text(
                p,
                states,
                JobMessageView::Started { job_name: job },
                step_secs,
                job_secs,
            ) =~= "["@ + done + "/"@ + text::decimal((p.total_jobs + 1) as nat) + "] "@
                + "🚀 Job started: "@ + job + "\n"@
            &&& message_text(
                p,
                states,
                JobMessageView::StepStarted { job_name: job, step_name: step },
                step_secs,
                job_secs,
            ).len() == 0
            &&& ended(StepStatus::Success) =~= "["@ + done + "/"@ + total + "] "@ + "✅"@ + " "@
                + "passed"@ + ": "@ + job + "/"@ + step + " ("@ + step_secs + "s)\n"@
            &&& ended(StepStatus::Failed { ignored: false }) =~= "["@ + done + "/"@ + total + "] "@
                + "❌"@ + " "@ + "failed"@ + ": "@ + job + "/"@ + step + " ("@ + step_secs
                + "s)\n"@
            &&& ended(StepStatus::Failed { ignored: true }) =~= "["@ + done + "/"@ + total + "] "@
                + "⚠️"@ + " "@ + "failed"@ + ": "@ + job + "/"@ + step + " ("@ + step_secs
                + "s)\n"@
            &&& ended(StepStatus::Running) =~= "["@ + done + "/"@ + total + "] "@ + "⏳"@ + " "@
                + "failed"@ + ": "@ + job + "/"@ + step + " ("@ + step_secs + "s)\n"@
        }),
{
}

/// The line for a job that ended says whether it passed, and if not why: a step
/// that counts comes before an exit status. Its output follows if there is any
/// and the merge queue runs the check, the user asked for it, or the job failed.
pub proof fn law_job_lines_say_why(
    p: ProgressView,
    states: JobStatesView,
    outcome: JobOutcomeView,
    step_secs: Seq<char>,
    job_secs: Seq<char>,
)
    requires
        0 < p.active_jobs <= p.total_jobs,
        !pending_step(p, states, outcome.job_name),
    ensures
        ({
            let steps = worker::steps_of(states, outcome.job_name);
            let counted = holds_counted_failure(steps);
            let clean = outcome.exit_code == Some(0i32) && !counted;
            let count = "["@ + text::decimal((p.total_jobs - p.active_jobs + 1) as nat) + "/"@
                + text::decimal(p.total_jobs as nat) + "] "@;
            let line = if clean {
                count + "✅ Job passed: "@ + outcome.job_name + " ("@ + job_secs + "s)\n"@
            } else if counted {
                count + "❌ Job failed: "@ + outcome.job_name + " ("@ + "step failure"@ + ", "@
                    + job_secs + "s)\n"@
            } else if outcome.exit_code is None {
                count + "❌ Job failed: "@ + outcome.job_name + " ("@ + "no exit code"@ + ", "@
                    + job_secs + "s)\n"@
            } else {
                count + "❌ Job failed: "@ + outcome.job_name + " ("@ + ("exit code: "@
                    + text::signed_decimal(outcome.exit_code->0 as int)) + ", "@ + job_secs
                    + "s)\n"@
            };
            let shown = "--- output: "@ + outcome.job_name + " ---\n"@ + outcome.output
                + "--- end output ---\n"@;
            let wanted = p.mode == CheckMode::MergeQueue || p.mode == (CheckMode::Inline {
                print_output: true,
            }) || !clean;
            message_text(
                p,
                states,
                JobMessageView::Completed(outcome),
                step_secs,
                job_secs,
            ) =~= (if wanted && outcome.output.len() > 0 {
                line + shown
            } else {
                line
            })
        }),
{
    let steps = worker::steps_of(states, outcome.job_name);
    lemma_counted_failure(steps);
    lemma_ended_failures(steps);
}

proof fn lemma_ended_failures(steps: Seq<StepLogView>)
    ensures
        protocol::any_step_failed(ended_steps(steps)) <==> protocol::any_step_failed(steps),
{
    let ended = ended_steps(steps);
    if protocol::any_step_failed(steps) {
        let i = choose|i: int|
            0 <= i < steps.len() && protocol::fails_job(#[trigger] steps[i].status);
        assert(protocol::fails_job(ended[i].status));
    }
    if protocol::any_step_failed(ended) {
        let i = choose|i: int|
            0 <= i < ended.len() && protocol::fails_job(#[trigger] ended[i].status);
        assert(protocol::fails_job(steps[i].status));
    }
}

/// A step whose end was not reported when its job ended is reported first, as
/// a success if it was still running.
pub proof fn law_pending_steps_are_reported_first(
    p: ProgressView,
    states: JobStatesView,
    outcome: JobOutcomeView,
    step_secs: Seq<char>,
    job_secs: Seq<char>,
)
    requires
        0 < p.active_jobs <= p.total_jobs,
        pending_step(p, states, outcome.job_name),
    ensures
        ({
            let last = worker::steps_of(states, outcome.job_name).last();
            let status = if last.status == StepStatus::Running {
                StepStatus::Success
            } else {
                last.status
            };
            let first = message_text(
                p,
                states,
                JobMessageView::StepCompleted {
                    job_name: outcome.job_name,
                    step_name: last.name,
                    status,
                },
                step_secs,
                job_secs,
            );
            let whole = message_text(
                p,
                states,
                JobMessageView::Completed(outcome),
                step_secs,
                job_secs,
            );
            whole.len() >= first.len() && whole.take(first.len() as int) =~= first
        }),
{
}

/// The merge queue keeps the text of every message, in order; the user's check
/// keeps none. A check ends with zero if no job failed, else with one, and what
/// was kept is its result.
pub proof fn law_texts_are_kept_for_the_queue(
    p: ProgressView,
    states: JobStatesView,
    message: JobMessageView,
    now: Timestamp,
    step_secs: Seq<char>,
    job_secs: Seq<char>,
    duration: u64,
)
    ensures
        ({
            let next = after_message(p, states, message, now, step_secs, job_secs);
            &&& p.mode == CheckMode::MergeQueue ==> next.output =~= p.output + message_text(
                p,
                states,
                message,
                step_secs,
                job_secs,
            )
            &&& p.mode is Inline ==> next.output == p.output
            &&& next.jobs == advanced(p, states, message, now).jobs
            &&& next.steps == advanced(p, states, message, now).steps
            &&& next.any_job_failed == advanced(p, states, message, now).any_job_failed
            &&& next.active_jobs == advanced(p, states, message, now).active_jobs
            &&& next.total_jobs == advanced(p, states, message, now).total_jobs
        }),
        jobs_result(p, duration).output == p.output,
        jobs_result(p, duration).steps == p.steps,
        jobs_result(p, duration).jobs == p.jobs,
        jobs_result(p, duration).duration == duration,
        jobs_result(p, duration).exit_code == Some(0i32) <==> !p.any_job_failed,
        jobs_result(p, duration).exit_code == Some(1i32) <==> p.any_job_failed,
        jobs_result(p, duration).post_clone_output is None,
        jobs_result(p, duration).post_clone_success is None,
{
}

/// A check passed if and only if it ended with zero and none of its steps failed
/// in a way that counts.
pub proof fn law_checks_pass_on_zero(result: CheckResultView)
    ensures
        passed(result) <==> result.exit_code == Some(0i32) && !holds_counted_failure(result.steps),
{
    lemma_counted_failure(result.steps);
}

/// What is known of the result of a check is what its parts hold.
pub proof fn law_results_hold_their_parts(result: CheckResult)
    ensures
        result@.output == result.output@,
        result@.steps == protocol::step_views(result.steps@),
        result@.jobs == protocol::job_views(result.jobs@),
        result@.exit_code == result.exit_code,
        result@.duration == result.duration,
        result@.post_clone_success == result.post_clone_success,
        result.post_clone_output matches Some(text) ==> result@.post_clone_output == Some(text@),
        result.post_clone_output is None ==> result@.post_clone_output is None,
{
}

/// Nothing is known of a check that has just begun.
pub proof fn law_checks_begin_with_nothing(mode: CheckMode)
    ensures
        no_progress(mode).mode == mode,
        no_progress(mode).active_jobs == 0,
        no_progress(mode).total_jobs == 0,
        no_progress(mode).output.len() == 0,
        no_progress(mode).steps.len() == 0,
        no_progress(mode).jobs.len() == 0,
        !no_progress(mode).any_job_failed,
        no_progress(mode).step_starts.len() == 0,
{
}

/// Output is printed while jobs run only where the user asked for it, and a check
/// has passed only on zero and without a step that failed in a way that counts.
pub proof fn law_output_is_printed_on_request(
    mode: CheckMode,
    printed: bool,
    result: CheckResult,
    good: bool,
)
    requires
        call_ensures(CheckMode::print_output, (&mode,), printed),
        call_ensures(check_passed, (&result,), good),
    ensures
        mode is MergeQueue ==> !printed,
        mode matches CheckMode::Inline { print_output } ==> printed == print_output,
        good <==> result.exit_code == Some(0i32) && !holds_counted_failure(
            protocol::step_views(result.steps@),
        ),
{
    law_checks_pass_on_zero(result@);
}

} // verus!
