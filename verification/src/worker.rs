//! Jobs: what runs them, what they report, and who waits for them.

use vstd::prelude::*;

use crate::config;
use crate::duct_util;
use crate::duct_util::{Cmd, CmdView};
use crate::envs;
use crate::protocol;
use crate::protocol::{
    JobControlRequest, JobControlResponse, JobControlResponseView, JobStatus, StepLogEntry,
    StepLogView, StepStatus, Timestamp,
};
use crate::revision::{ChangeId, CommitId, ResolvedRevision, ResolvedRevisionView};
use crate::script;
use crate::script::Invocation;
use crate::text;

verus! {

/// What a job is told about the check that it belongs to.
#[derive(Debug)]
pub struct JobEnv {
    /// `inline` or `mq`.
    pub run_mode: String,
    /// What was submitted.
    pub candidate: ResolvedRevision,
    /// What is tested, where that is a separate integration.
    pub tested: Option<(CommitId, ChangeId)>,
}

/// What a [`JobEnv`] holds.
pub struct JobEnvView {
    pub run_mode: Seq<char>,
    pub candidate: ResolvedRevisionView,
    pub tested: Option<(Seq<char>, Seq<char>)>,
}

impl View for JobEnv {
    type V = JobEnvView;

    open spec fn view(&self) -> JobEnvView {
        JobEnvView {
            run_mode: self.run_mode@,
            candidate: self.candidate@,
            tested: match self.tested {
                Some((commit, change)) => Some((commit@, change@)),
                None => None,
            },
        }
    }
}

impl Clone for JobEnv {
    fn clone(&self) -> (res: Self)
        ensures
            res == *self,
    {
        JobEnv {
            run_mode: self.run_mode.clone(),
            candidate: self.candidate.clone(),
            tested: match &self.tested {
                Some((commit, change)) => Some((commit.clone(), change.clone())),
                None => None,
            },
        }
    }
}

/// A job to run.
#[derive(Debug)]
pub struct RunJobRequest {
    pub base_dir: String,
    pub candidate_dir: String,
    pub job_name: String,
    pub job_full_command: Vec<String>,
    pub print_output: bool,
    pub socket_path: String,
    pub env: JobEnv,
}

/// What a [`RunJobRequest`] holds.
pub struct RunJobView {
    pub base_dir: Seq<char>,
    pub candidate_dir: Seq<char>,
    pub job_name: Seq<char>,
    pub job_full_command: Seq<Seq<char>>,
    pub print_output: bool,
    pub socket_path: Seq<char>,
    pub env: JobEnvView,
}

impl View for RunJobRequest {
    type V = RunJobView;

    open spec fn view(&self) -> RunJobView {
        RunJobView {
            base_dir: self.base_dir@,
            candidate_dir: self.candidate_dir@,
            job_name: self.job_name@,
            job_full_command: text::texts(self.job_full_command@),
            print_output: self.print_output,
            socket_path: self.socket_path@,
            env: self.env@,
        }
    }
}

/// How a job ended.
#[derive(Debug)]
pub struct RunJobOutcome {
    pub job_name: String,
    /// None where the command could not be run or was killed.
    pub exit_code: Option<i32>,
    pub output: String,
    /// In nanoseconds.
    pub duration: u64,
    pub steps: Vec<StepLogEntry>,
}

/// What a [`RunJobOutcome`] holds.
pub struct JobOutcomeView {
    pub job_name: Seq<char>,
    pub exit_code: Option<i32>,
    pub output: Seq<char>,
    pub duration: u64,
    pub steps: Seq<StepLogView>,
}

impl View for RunJobOutcome {
    type V = JobOutcomeView;

    open spec fn view(&self) -> JobOutcomeView {
        JobOutcomeView {
            job_name: self.job_name@,
            exit_code: self.exit_code,
            output: self.output@,
            duration: self.duration,
            steps: protocol::step_views(self.steps@),
        }
    }
}

/// What happens during a check.
#[derive(Debug)]
pub enum JobMessage {
    Started { job_name: String },
    StepStarted { job_name: String, step_name: String },
    StepCompleted { job_name: String, step_name: String, status: StepStatus },
    Completed(RunJobOutcome),
}

/// What a [`JobMessage`] holds.
pub enum JobMessageView {
    Started { job_name: Seq<char> },
    StepStarted { job_name: Seq<char>, step_name: Seq<char> },
    StepCompleted { job_name: Seq<char>, step_name: Seq<char>, status: StepStatus },
    Completed(JobOutcomeView),
}

impl View for JobMessage {
    type V = JobMessageView;

    open spec fn view(&self) -> JobMessageView {
        match *self {
            JobMessage::Started { job_name } => JobMessageView::Started { job_name: job_name@ },
            JobMessage::StepStarted { job_name, step_name } => JobMessageView::StepStarted {
                job_name: job_name@,
                step_name: step_name@,
            },
            JobMessage::StepCompleted { job_name, step_name, status } =>
                JobMessageView::StepCompleted {
                    job_name: job_name@,
                    step_name: step_name@,
                    status,
                },
            JobMessage::Completed(outcome) => JobMessageView::Completed(outcome@),
        }
    }
}

/// What messages hold.
pub open spec fn message_views(messages: Seq<JobMessage>) -> Seq<JobMessageView> {
    messages.map_values(|m: JobMessage| m@)
}

/// What is needed to start further jobs of a check.
#[derive(Debug)]
pub struct JobSpawnContext {
    pub base_dir: String,
    pub candidate_dir: String,
    pub command_prefix: Vec<String>,
    pub command: String,
    pub print_output: bool,
    pub socket_path: String,
    pub env: JobEnv,
}

impl JobSpawnContext {
    /// The job of the given name: every job of a check runs the same command.
    pub open spec fn job(self, name: Seq<char>) -> RunJobView {
        RunJobView {
            base_dir: self.base_dir@,
            candidate_dir: self.candidate_dir@,
            job_name: name,
            job_full_command: text::texts(self.command_prefix@).push(self.command@),
            print_output: self.print_output,
            socket_path: self.socket_path@,
            env: self.env@,
        }
    }

    /// The job of the given name.
    pub fn job_request(&self, name: &str) -> (res: RunJobRequest)
        ensures
            res@ == self.job(name@),
    {
        let mut full_command = config::copy_strings(&self.command_prefix);
        let ghost before = full_command@;
        full_command.push(self.command.clone());
        assert(text::texts(full_command@) =~= text::texts(before).push(self.command@));
        RunJobRequest {
            base_dir: self.base_dir.clone(),
            candidate_dir: self.candidate_dir.clone(),
            job_name: name.to_owned(),
            job_full_command: full_command,
            print_output: self.print_output,
            socket_path: self.socket_path.clone(),
            env: self.env.clone(),
        }
    }
}

/// The command of a job: run in the candidate's directory and told, by
/// variables, about the check. The submitted candidate and the tested
/// integration are kept apart; the older names are aliases for the tested one.
pub open spec fn job_command(job: RunJobView) -> CmdView {
    let cmd = duct_util::command_of_words(job.job_full_command).dir(job.candidate_dir).env(
        envs::SELFCI_BASE_DIR@,
        job.base_dir,
    ).env(envs::SELFCI_CANDIDATE_DIR@, job.candidate_dir).env(
        envs::SELFCI_JOB_NAME@,
        job.job_name,
    ).env(envs::SELFCI_JOB_SOCK_PATH@, job.socket_path).env(
        envs::SELFCI_RUN_MODE@,
        job.env.run_mode,
    ).env(envs::SELFCI_CANDIDATE_COMMIT_ID@, job.env.candidate.commit_id).env(
        envs::SELFCI_CANDIDATE_CHANGE_ID@,
        job.env.candidate.change_id,
    ).env(envs::SELFCI_CANDIDATE_ID@, job.env.candidate.user);
    match job.env.tested {
        Some((commit, change)) => tested_env(cmd, commit, change),
        None => cmd,
    }
}

/// The command with variables for the tested integration, under both names.
pub open spec fn tested_env(cmd: CmdView, commit: Seq<char>, change: Seq<char>) -> CmdView {
    cmd.env(envs::SELFCI_TESTED_COMMIT_ID@, commit).env(envs::SELFCI_MERGED_COMMIT_ID@, commit).env(
        envs::SELFCI_TESTED_CHANGE_ID@,
        change,
    ).env(envs::SELFCI_MERGED_CHANGE_ID@, change)
}

/// Adds variables for the tested integration, under both names.
pub fn with_tested(cmd: Cmd, commit: &str, change: &str) -> (res: Cmd)
    ensures
        res@ == tested_env(cmd@, commit@, change@),
{
    cmd.env(envs::SELFCI_TESTED_COMMIT_ID, commit).env(envs::SELFCI_MERGED_COMMIT_ID, commit).env(
        envs::SELFCI_TESTED_CHANGE_ID,
        change,
    ).env(envs::SELFCI_MERGED_CHANGE_ID, change)
}

/// How a job is run: its output and errors are read together as they come, and
/// any exit status is an ordinary end.
pub fn job_invocation(job: &RunJobRequest) -> (res: Invocation)
    requires
        job.job_full_command.len() > 0,
    ensures
        res@ == script::stream_of(job_command(job@)),
{
    let cmd = Cmd::from_words(&job.job_full_command).dir(job.candidate_dir.as_str()).env(
        envs::SELFCI_BASE_DIR,
        job.base_dir.as_str(),
    ).env(envs::SELFCI_CANDIDATE_DIR, job.candidate_dir.as_str()).env(
        envs::SELFCI_JOB_NAME,
        job.job_name.as_str(),
    ).env(envs::SELFCI_JOB_SOCK_PATH, job.socket_path.as_str()).env(
        envs::SELFCI_RUN_MODE,
        job.env.run_mode.as_str(),
    ).env(envs::SELFCI_CANDIDATE_COMMIT_ID, job.env.candidate.commit_id.as_str()).env(
        envs::SELFCI_CANDIDATE_CHANGE_ID,
        job.env.candidate.change_id.as_str(),
    ).env(envs::SELFCI_CANDIDATE_ID, job.env.candidate.user.as_str());
    let cmd = match &job.env.tested {
        Some((commit, change)) => with_tested(cmd, commit.as_str(), change.as_str()),
        None => cmd,
    };
    Invocation::stream(cmd)
}

/// What became of the command of a job.
#[derive(Debug)]
pub enum JobExecution {
    /// It could not be started.
    NotStarted(String),
    /// Its output could not be read.
    CaptureFailed,
    /// It ended.
    Finished { output: String, exit_code: Option<i32> },
}

/// How a job ended, by what became of its command.
pub open spec fn job_outcome(name: Seq<char>, run: JobExecution, duration: u64) -> JobOutcomeView {
    JobOutcomeView {
        job_name: name,
        exit_code: match run {
            JobExecution::Finished { exit_code, .. } => exit_code,
            _ => None,
        },
        output: match run {
            JobExecution::NotStarted(e) => "Failed to start command: "@ + e@,
            JobExecution::CaptureFailed => "Failed to capture output"@,
            JobExecution::Finished { output, .. } => output@,
        },
        duration,
        steps: seq![],
    }
}

/// What a worker reports of a job: that it started, and how it ended.
pub fn job_worker(job: RunJobRequest, run: JobExecution, duration: u64) -> (res: (
    JobMessage,
    JobMessage,
))
    ensures
        res.0@ == (JobMessageView::Started { job_name: job.job_name@ }),
        res.1@ == JobMessageView::Completed(job_outcome(job.job_name@, run, duration)),
{
    let started = JobMessage::Started { job_name: job.job_name.clone() };
    let steps: Vec<StepLogEntry> = Vec::new();
    assert(protocol::step_views(steps@) =~= seq![]);
    let (output, exit_code) = match run {
        JobExecution::NotStarted(e) => {
            (String::from_str("Failed to start command: ").concat(e.as_str()), None)
        },
        JobExecution::CaptureFailed => ("Failed to capture output".to_owned(), None),
        JobExecution::Finished { output, exit_code } => (output, exit_code),
    };
    let outcome = RunJobOutcome { job_name: job.job_name, exit_code, output, duration, steps };
    (started, JobMessage::Completed(outcome))
}

/// The steps of one job.
#[derive(Debug)]
pub struct JobSteps {
    pub job: String,
    pub steps: Vec<StepLogEntry>,
}

/// What is known of the jobs of a check.
#[derive(Debug)]
pub struct JobStates {
    /// The names of the jobs that were asked for.
    used: Vec<String>,
    /// The steps of the jobs that reported any.
    steps: Vec<JobSteps>,
    /// How jobs ended.
    completions: Vec<(String, JobStatus)>,
}

/// What a [`JobStates`] holds.
pub struct JobStatesView {
    pub used: Seq<Seq<char>>,
    pub steps: Seq<(Seq<char>, Seq<StepLogView>)>,
    pub completions: Seq<(Seq<char>, JobStatus)>,
}

impl View for JobStates {
    type V = JobStatesView;

    closed spec fn view(&self) -> JobStatesView {
        JobStatesView {
            used: text::texts(self.used@),
            steps: self.steps@.map_values(
                |j: JobSteps| (j.job@, protocol::step_views(j.steps@)),
            ),
            completions: self.completions@.map_values(|c: (String, JobStatus)| (c.0@, c.1)),
        }
    }
}

/// The place of the first entry under a name, or the length where there is none.
pub open spec fn place<K, T>(entries: Seq<(K, T)>, name: K) -> int
    decreases entries.len(),
{
    if entries.len() == 0 || entries[0].0 == name {
        0
    } else {
        1 + place(entries.drop_first(), name)
    }
}

pub(crate) proof fn lemma_place<K, T>(entries: Seq<(K, T)>, name: K, i: int)
    requires
        0 <= i <= entries.len(),
        forall|j: int| 0 <= j < i ==> (#[trigger] entries[j]).0 != name,
        i == entries.len() || entries[i].0 == name,
    ensures
        place(entries, name) == i,
    decreases entries.len(),
{
    if i > 0 {
        assert(entries[0].0 != name);
        let rest = entries.drop_first();
        assert forall|j: int| 0 <= j < i - 1 implies (#[trigger] rest[j]).0 != name by {
            assert(rest[j] == entries[j + 1]);
        }
        lemma_place(rest, name, i - 1);
    }
}

pub(crate) proof fn lemma_place_range<K, T>(entries: Seq<(K, T)>, name: K)
    ensures
        0 <= place(entries, name) <= entries.len(),
        place(entries, name) < entries.len() ==> entries[place(entries, name)].0 == name,
        forall|j: int| 0 <= j < place(entries, name) ==> (#[trigger] entries[j]).0 != name,
    decreases entries.len(),
{
    if entries.len() > 0 && entries[0].0 != name {
        let rest = entries.drop_first();
        lemma_place_range(rest, name);
        assert forall|j: int| 0 <= j < place(entries, name) implies (#[trigger] entries[j]).0
            != name by {
            if j > 0 {
                assert(entries[j] == rest[j - 1]);
            }
        }
    }
}

/// What stands under a name.
pub open spec fn entry<K, T>(entries: Seq<(K, T)>, name: K) -> Option<T> {
    if place(entries, name) < entries.len() {
        Some(entries[place(entries, name)].1)
    } else {
        None
    }
}

/// The entries with another value under a name; a new name goes to the end.
pub open spec fn with_entry<K, T>(
    entries: Seq<(K, T)>,
    name: K,
    value: T,
) -> Seq<(K, T)> {
    if place(entries, name) < entries.len() {
        entries.update(place(entries, name), (name, value))
    } else {
        entries.push((name, value))
    }
}

/// The entries without what stands under a name.
pub open spec fn without_entry<K, T>(entries: Seq<(K, T)>, name: K) -> Seq<(K, T)> {
    if place(entries, name) < entries.len() {
        entries.remove(place(entries, name))
    } else {
        entries
    }
}

/// Whether no name occurs twice.
pub open spec fn names_differ<K, T>(entries: Seq<(K, T)>) -> bool {
    forall|i: int, j: int|
        0 <= i < j < entries.len() ==> (#[trigger] entries[i]).0 != (#[trigger] entries[j]).0
}

/// The steps after a new one started: a step that was running is done.
pub open spec fn steps_continued(steps: Seq<StepLogView>) -> Seq<StepLogView> {
    if steps.len() > 0 && steps.last().status == StepStatus::Running {
        steps.update(
            steps.len() - 1,
            StepLogView { status: StepStatus::Success, ..steps.last() },
        )
    } else {
        steps
    }
}

/// A step that has just started.
pub open spec fn new_step(name: Seq<char>, ts: Timestamp) -> StepLogView {
    StepLogView { ts, name, status: StepStatus::Running, job_started_at: None }
}

/// The steps of a job, none where it reported none.
pub open spec fn steps_of(states: JobStatesView, job: Seq<char>) -> Seq<StepLogView> {
    match entry(states.steps, job) {
        Some(steps) => steps,
        None => seq![],
    }
}

impl JobStatesView {
    /// A new step of a job, after the one that was running.
    pub open spec fn step_started(
        self,
        job: Seq<char>,
        step: Seq<char>,
        ts: Timestamp,
    ) -> JobStatesView {
        JobStatesView {
            steps: with_entry(
                self.steps,
                job,
                steps_continued(steps_of(self, job)).push(new_step(step, ts)),
            ),
            ..self
        }
    }

    /// The last step of a job marked as failed.
    pub open spec fn step_failed(self, job: Seq<char>, ignored: bool) -> JobStatesView {
        let steps = steps_of(self, job);
        JobStatesView {
            steps: with_entry(
                self.steps,
                job,
                steps.update(
                    steps.len() - 1,
                    StepLogView { status: StepStatus::Failed { ignored }, ..steps.last() },
                ),
            ),
            ..self
        }
    }

    /// A job that was asked for.
    pub open spec fn job_used(self, job: Seq<char>) -> JobStatesView {
        JobStatesView { used: self.used.push(job), ..self }
    }

    /// A job that ended.
    pub open spec fn job_completed(self, job: Seq<char>, status: JobStatus) -> JobStatesView {
        JobStatesView { completions: with_entry(self.completions, job, status), ..self }
    }
}

/// What is known before anything happened.
pub open spec fn no_jobs() -> JobStatesView {
    JobStatesView { used: seq![], steps: seq![], completions: seq![] }
}

/// The messages that a new step gives rise to: the end of the one that was
/// running, and its own start.
pub open spec fn step_start_messages(
    states: JobStatesView,
    job: Seq<char>,
    step: Seq<char>,
) -> Seq<JobMessageView> {
    let steps = steps_of(states, job);
    let start = JobMessageView::StepStarted { job_name: job, step_name: step };
    if steps.len() > 0 && steps.last().status == StepStatus::Running {
        seq![
            JobMessageView::StepCompleted {
                job_name: job,
                step_name: steps.last().name,
                status: StepStatus::Success,
            },
        ].push(start)
    } else {
        seq![start]
    }
}

/// What the listener does about a request.
#[derive(Debug)]
pub enum ControlAction {
    /// Answer.
    Respond(JobControlResponse),
    /// Hand this job to the workers, then answer with [`job_queued`].
    Spawn(RunJobRequest),
    /// Ask again once a job has ended.
    Wait,
}

/// What a [`ControlAction`] holds.
pub enum ControlActionView {
    Respond(JobControlResponseView),
    Spawn(RunJobView),
    Wait,
}

impl View for ControlAction {
    type V = ControlActionView;

    open spec fn view(&self) -> ControlActionView {
        match *self {
            ControlAction::Respond(r) => ControlActionView::Respond(r@),
            ControlAction::Spawn(j) => ControlActionView::Spawn(j@),
            ControlAction::Wait => ControlActionView::Wait,
        }
    }
}

/// What follows from a request: the new states, the messages to the check, and
/// the action.
pub open spec fn control_step(
    states: JobStatesView,
    request: JobControlRequest,
    context: JobSpawnContext,
    now: Timestamp,
) -> (JobStatesView, Seq<JobMessageView>, ControlActionView) {
    match request {
        JobControlRequest::StartJob { name } => if states.used.contains(name@) {
            (
                states,
                seq![],
                ControlActionView::Respond(
                    JobControlResponseView::Error("Job '"@ + name@ + "' already started"@),
                ),
            )
        } else {
            (states.job_used(name@), seq![], ControlActionView::Spawn(context.job(name@)))
        },
        JobControlRequest::LogStep { job_name, step_name } => (
            states.step_started(job_name@, step_name@, now),
            step_start_messages(states, job_name@, step_name@),
            ControlActionView::Respond(JobControlResponseView::StepLogged),
        ),
        JobControlRequest::MarkStepFailed { job_name, ignore } => match entry(
            states.steps,
            job_name@,
        ) {
            None => (
                states,
                seq![],
                ControlActionView::Respond(
                    JobControlResponseView::Error("Job '"@ + job_name@ + "' not found"@),
                ),
            ),
            Some(steps) => if steps.len() == 0 {
                (
                    states,
                    seq![],
                    ControlActionView::Respond(
                        JobControlResponseView::Error(
                            "No steps found for job '"@ + job_name@ + "'"@,
                        ),
                    ),
                )
            } else {
                (
                    states.step_failed(job_name@, ignore),
                    seq![
                        JobMessageView::StepCompleted {
                            job_name: job_name@,
                            step_name: steps.last().name,
                            status: StepStatus::Failed { ignored: ignore },
                        },
                    ],
                    ControlActionView::Respond(JobControlResponseView::StepMarkedFailed),
                )
            },
        },
        JobControlRequest::WaitForJob { name } => (
            states,
            seq![],
            match entry(states.completions, name@) {
                Some(status) => ControlActionView::Respond(
                    JobControlResponseView::JobCompleted { status },
                ),
                None => if states.used.contains(name@) {
                    ControlActionView::Wait
                } else {
                    ControlActionView::Respond(JobControlResponseView::JobNotFound)
                },
            },
        ),
    }
}

impl JobStates {
    /// Nothing has happened.
    pub fn new() -> (res: Self)
        ensures
            res@ == no_jobs(),
    {
        let res = JobStates { used: Vec::new(), steps: Vec::new(), completions: Vec::new() };
        assert(res@.used =~= no_jobs().used);
        assert(res@.steps =~= no_jobs().steps);
        assert(res@.completions =~= no_jobs().completions);
        res
    }

    /// Whether a job of the given name was asked for.
    pub fn is_used(&self, name: &str) -> (res: bool)
        ensures
            res == self@.used.contains(name@),
    {
        let mut i: usize = 0;
        while i < self.used.len()
            invariant
                i <= self.used.len(),
                forall|j: int| 0 <= j < i ==> self@.used[j] != name@,
            decreases self.used.len() - i,
        {
            assert(self@.used[i as int] == self.used@[i as int]@);
            if text::same_text(self.used[i].as_str(), name) {
                assert(self@.used[i as int] == name@);
                return true;
            }
            i = i + 1;
        }
        false
    }

    /// Notes that a job was asked for.
    pub fn mark_used(&mut self, name: &str)
        ensures
            final(self)@ == old(self)@.job_used(name@),
    {
        self.used.push(name.to_owned());
        assert(self@.used =~= old(self)@.used.push(name@));
    }

    fn find_steps(&self, job: &str) -> (res: usize)
        ensures
            res == place(self@.steps, job@),
            res <= self.steps.len(),
    {
        let mut i: usize = 0;
        while i < self.steps.len()
            invariant
                i <= self.steps.len(),
                forall|j: int| 0 <= j < i ==> (#[trigger] self@.steps[j]).0 != job@,
            decreases self.steps.len() - i,
        {
            assert(self@.steps[i as int].0 == self.steps@[i as int].job@);
            if text::same_text(self.steps[i].job.as_str(), job) {
                proof {
                    lemma_place(self@.steps, job@, i as int);
                }
                return i;
            }
            i = i + 1;
        }
        proof {
            lemma_place(self@.steps, job@, i as int);
        }
        i
    }

    /// The jobs that reported steps, in the order of their first steps.
    pub fn step_jobs(&self) -> (res: &Vec<JobSteps>)
        ensures
            self@.steps == res@.map_values(
                |j: JobSteps| (j.job@, protocol::step_views(j.steps@)),
            ),
    {
        &self.steps
    }

    /// The steps of a job, none where it reported none.
    pub fn steps_for(&self, job: &str) -> (res: Vec<StepLogEntry>)
        ensures
            protocol::step_views(res@) == steps_of(self@, job@),
    {
        let p = self.find_steps(job);
        if p < self.steps.len() {
            assert(self@.steps[p as int].1 == protocol::step_views(self.steps@[p as int].steps@));
            protocol::copy_steps(&self.steps[p].steps)
        } else {
            let none: Vec<StepLogEntry> = Vec::new();
            assert(protocol::step_views(none@) =~= seq![]);
            none
        }
    }

    /// How a job ended, where it has.
    pub fn completion(&self, job: &str) -> (res: Option<JobStatus>)
        ensures
            res == entry(self@.completions, job@),
    {
        let mut i: usize = 0;
        while i < self.completions.len()
            invariant
                i <= self.completions.len(),
                forall|j: int| 0 <= j < i ==> (#[trigger] self@.completions[j]).0 != job@,
            decreases self.completions.len() - i,
        {
            assert(self@.completions[i as int] == (
                self.completions@[i as int].0@,
                self.completions@[i as int].1,
            ));
            if text::same_text(self.completions[i].0.as_str(), job) {
                proof {
                    lemma_place(self@.completions, job@, i as int);
                }
                return Some(self.completions[i].1);
            }
            i = i + 1;
        }
        proof {
            lemma_place(self@.completions, job@, i as int);
        }
        None
    }

    /// Notes how a job ended.
    pub fn complete(&mut self, job: &str, status: JobStatus)
        ensures
            final(self)@ == old(self)@.job_completed(job@, status),
    {
        let ghost before = self@;
        let mut i: usize = 0;
        while i < self.completions.len()
            invariant
                i <= self.completions.len(),
                *self == *old(self),
                before == old(self)@,
                forall|j: int| 0 <= j < i ==> (#[trigger] before.completions[j]).0 != job@,
            decreases self.completions.len() - i,
        {
            assert(before.completions[i as int] == (
                self.completions@[i as int].0@,
                self.completions@[i as int].1,
            ));
            if text::same_text(self.completions[i].0.as_str(), job) {
                proof {
                    lemma_place(before.completions, job@, i as int);
                }
                self.completions.set(i, (job.to_owned(), status));
                assert(self@.completions =~= with_entry(before.completions, job@, status));
                return;
            }
            i = i + 1;
        }
        proof {
            lemma_place(before.completions, job@, i as int);
        }
        self.completions.push((job.to_owned(), status));
        assert(self@.completions =~= with_entry(before.completions, job@, status));
    }

    /// Starts a step: a step of the same job that was running is done. The
    /// result is the messages to the check.
    pub fn start_step(&mut self, job: &str, step: &str, now: Timestamp) -> (res: Vec<JobMessage>)
        ensures
            final(self)@ == old(self)@.step_started(job@, step@, now),
            message_views(res@) == step_start_messages(old(self)@, job@, step@),
    {
        let ghost before = self@;
        let mut messages: Vec<JobMessage> = Vec::new();
        let p = self.find_steps(job);
        let mut steps = self.steps_for(job);
        let ghost old_steps = protocol::step_views(steps@);
        if steps.len() > 0 {
            let last: usize = steps.len() - 1;
            assert(old_steps[last as int] == steps@[last as int]@);
            if steps[last].status == StepStatus::Running {
                let mut done = steps[last].clone();
                done.status = StepStatus::Success;
                messages.push(
                    JobMessage::StepCompleted {
                        job_name: job.to_owned(),
                        step_name: done.name.clone(),
                        status: StepStatus::Success,
                    },
                );
                steps.set(last, done);
                assert(protocol::step_views(steps@) =~= steps_continued(old_steps));
            }
        }
        let ghost continued = protocol::step_views(steps@);
        steps.push(
            StepLogEntry {
                ts: now,
                name: step.to_owned(),
                status: StepStatus::Running,
                job_started_at: None,
            },
        );
        assert(protocol::step_views(steps@) =~= continued.push(new_step(step@, now)));
        messages.push(
            JobMessage::StepStarted { job_name: job.to_owned(), step_name: step.to_owned() },
        );
        assert(message_views(messages@) =~= step_start_messages(before, job@, step@));
        self.put_steps(p, job, steps);
        messages
    }

    fn put_steps(&mut self, p: usize, job: &str, steps: Vec<StepLogEntry>)
        requires
            p == place(old(self)@.steps, job@),
            p <= old(self)@.steps.len(),
        ensures
            final(self)@ == (JobStatesView {
                steps: with_entry(old(self)@.steps, job@, protocol::step_views(steps@)),
                ..old(self)@
            }),
    {
        let ghost before = self@;
        let entry = JobSteps { job: job.to_owned(), steps };
        if p < self.steps.len() {
            self.steps.set(p, entry);
        } else {
            self.steps.push(entry);
        }
        assert(self@.steps =~= with_entry(before.steps, job@, protocol::step_views(steps@)));
    }

    /// Marks the last step of a job as failed. The result is the step's name.
    pub fn fail_step(&mut self, job: &str, ignored: bool) -> (res: Result<String, String>)
        ensures
            match entry(old(self)@.steps, job@) {
                None => {
                    &&& final(self)@ == old(self)@
                    &&& res matches Err(e) && e@ == "Job '"@ + job@ + "' not found"@
                },
                Some(steps) => if steps.len() == 0 {
                    &&& final(self)@ == old(self)@
                    &&& res matches Err(e) && e@ == "No steps found for job '"@ + job@ + "'"@
                } else {
                    &&& final(self)@ == old(self)@.step_failed(job@, ignored)
                    &&& res matches Ok(name) && name@ == steps.last().name
                },
            },
    {
        let p = self.find_steps(job);
        if p == self.steps.len() {
            return Err(String::from_str("Job '").concat(job).concat("' not found"));
        }
        let mut steps = self.steps_for(job);
        let ghost old_steps = protocol::step_views(steps@);
        if steps.len() == 0 {
            return Err(String::from_str("No steps found for job '").concat(job).concat("'"));
        }
        let last: usize = steps.len() - 1;
        assert(old_steps[last as int] == steps@[last as int]@);
        let mut failed = steps[last].clone();
        let name = failed.name.clone();
        failed.status = StepStatus::Failed { ignored };
        steps.set(last, failed);
        assert(protocol::step_views(steps@) =~= old_steps.update(
            last as int,
            StepLogView { status: StepStatus::Failed { ignored }, ..old_steps.last() },
        ));
        self.put_steps(p, job, steps);
        Ok(name)
    }
}

/// The name of the job that a check starts with.
pub const MAIN_JOB: &'static str = "main";

/// Begins the jobs of a check: the first is the job `main`, whose name is used
/// from then on.
pub fn begin_jobs(states: &mut JobStates, context: &JobSpawnContext) -> (res: RunJobRequest)
    ensures
        final(states)@ == old(states)@.job_used(MAIN_JOB@),
        res@ == context.job(MAIN_JOB@),
{
    states.mark_used(MAIN_JOB);
    context.job_request(MAIN_JOB)
}

/// Answers a request of a job. The result is the messages to the check and
/// what to do about the request.
pub fn control_socket_listener(
    states: &mut JobStates,
    request: &JobControlRequest,
    context: &JobSpawnContext,
    now: Timestamp,
) -> (res: (Vec<JobMessage>, ControlAction))
    ensures
        (final(states)@, message_views(res.0@), res.1@) == control_step(
            old(states)@,
            *request,
            *context,
            now,
        ),
{
    let mut messages: Vec<JobMessage> = Vec::new();
    assert(message_views(messages@) =~= seq![]);
    match request {
        JobControlRequest::StartJob { name } => {
            if states.is_used(name.as_str()) {
                let error = String::from_str("Job '").concat(name.as_str()).concat(
                    "' already started",
                );
                (messages, ControlAction::Respond(JobControlResponse::Error(error)))
            } else {
                states.mark_used(name.as_str());
                (messages, ControlAction::Spawn(context.job_request(name.as_str())))
            }
        },
        JobControlRequest::LogStep { job_name, step_name } => {
            let messages = states.start_step(job_name.as_str(), step_name.as_str(), now);
            (messages, ControlAction::Respond(JobControlResponse::StepLogged))
        },
        JobControlRequest::MarkStepFailed { job_name, ignore } => {
            match states.fail_step(job_name.as_str(), *ignore) {
                Ok(step_name) => {
                    messages.push(
                        JobMessage::StepCompleted {
                            job_name: job_name.clone(),
                            step_name,
                            status: StepStatus::Failed { ignored: *ignore },
                        },
                    );
                    assert(message_views(messages@) =~= control_step(
                        old(states)@,
                        *request,
                        *context,
                        now,
                    ).1);
                    (messages, ControlAction::Respond(JobControlResponse::StepMarkedFailed))
                },
                Err(error) => (messages, ControlAction::Respond(JobControlResponse::Error(error))),
            }
        },
        JobControlRequest::WaitForJob { name } => {
            let action = match states.completion(name.as_str()) {
                Some(status) => ControlAction::Respond(JobControlResponse::JobCompleted { status }),
                None => {
                    if states.is_used(name.as_str()) {
                        ControlAction::Wait
                    } else {
                        ControlAction::Respond(JobControlResponse::JobNotFound)
                    }
                },
            };
            (messages, action)
        },
    }
}

/// The answer to the request for a job that was handed to the workers.
pub fn job_queued(sent: Result<(), String>) -> (res: JobControlResponse)
    ensures
        res@ == match sent {
            Ok(_) => JobControlResponseView::JobStarted,
            Err(e) => JobControlResponseView::Error("Failed to queue job: "@ + e@),
        },
{
    match sent {
        Ok(_) => JobControlResponse::JobStarted,
        Err(e) => JobControlResponse::Error(
            String::from_str("Failed to queue job: ").concat(e.as_str()),
        ),
    }
}

/// What is stored under a name is found under it, and nothing else changes.
pub proof fn law_entries_read_back<K, T>(
    entries: Seq<(K, T)>,
    name: K,
    value: T,
    other: K,
)
    ensures
        entry(with_entry(entries, name, value), name) == Some(value),
        other != name ==> entry(with_entry(entries, name, value), other) == entry(entries, other),
        names_differ(entries) ==> names_differ(with_entry(entries, name, value)),
{
    let after = with_entry(entries, name, value);
    let p = place(entries, name);
    let q = place(entries, other);
    lemma_place_range(entries, name);
    lemma_place_range(entries, other);
    assert forall|j: int| 0 <= j < p implies (#[trigger] after[j]).0 != name by {
        assert(after[j] == entries[j]);
    }
    lemma_place(after, name, p);
    if other == name {
    } else if q < entries.len() {
        assert forall|j: int| 0 <= j < q implies (#[trigger] after[j]).0 != other by {
            assert(entries[j].0 != other);
        }
        lemma_place(after, other, q);
    } else {
        assert forall|j: int| 0 <= j < after.len() implies (#[trigger] after[j]).0 != other by {
            if j < entries.len() {
                assert(entries[j].0 != other);
            }
        }
        lemma_place(after, other, after.len() as int);
    }
    if names_differ(entries) {
        assert forall|i: int, j: int| 0 <= i < j < after.len() implies (#[trigger] after[i]).0 != (
        #[trigger] after[j]).0 by {
            if j < entries.len() {
                assert(entries[i].0 != entries[j].0);
            } else {
                assert(entries[i].0 != name);
            }
        }
    }
}

/// Whether only the last step can be running.
pub open spec fn only_last_runs(steps: Seq<StepLogView>) -> bool {
    forall|i: int| 0 <= i < steps.len() - 1 ==> (#[trigger] steps[i]).status != StepStatus::Running
}

/// What every request keeps: no job was asked for twice, no job has two lists
/// of steps or two ends, and only the last step of a job can be running.
pub open spec fn states_in_order(states: JobStatesView) -> bool {
    &&& states.used.no_duplicates()
    &&& names_differ(states.steps)
    &&& names_differ(states.completions)
    &&& forall|i: int| 0 <= i < states.steps.len() ==> only_last_runs(#[trigger] states.steps[i].1)
}

/// Every request keeps the states in order. A job is started only under a name
/// that no job of the check has had, and the name is taken from then on.
pub proof fn law_requests_keep_order(
    states: JobStatesView,
    request: JobControlRequest,
    context: JobSpawnContext,
    now: Timestamp,
)
    requires
        states_in_order(states),
    ensures
        states_in_order(control_step(states, request, context, now).0),
        control_step(states, request, context, now).2 matches ControlActionView::Spawn(job) ==> {
            &&& !states.used.contains(job.job_name)
            &&& control_step(states, request, context, now).0.used.contains(job.job_name)
        },
{
    let (after, _, action) = control_step(states, request, context, now);
    match request {
        JobControlRequest::StartJob { name } => {
            if !states.used.contains(name@) {
                assert(after.used[states.used.len() as int] == name@);
                assert(after.used.no_duplicates());
            }
        },
        JobControlRequest::LogStep { job_name, step_name } => {
            let steps = steps_of(states, job_name@);
            lemma_place_range(states.steps, job_name@);
            if steps.len() > 0 {
                assert(only_last_runs(states.steps[place(states.steps, job_name@)].1));
            }
            lemma_order_kept(
                states.steps,
                job_name@,
                steps_continued(steps_of(states, job_name@)).push(new_step(step_name@, now)),
            );
        },
        JobControlRequest::MarkStepFailed { job_name, ignore } => {
            let steps = steps_of(states, job_name@);
            if entry(states.steps, job_name@) is Some && steps.len() > 0 {
                lemma_place_range(states.steps, job_name@);
                let p = place(states.steps, job_name@);
                assert(only_last_runs(states.steps[p].1));
                lemma_order_kept(
                    states.steps,
                    job_name@,
                    steps.update(
                        steps.len() - 1,
                        StepLogView {
                            status: StepStatus::Failed { ignored: ignore },
                            ..steps.last()
                        },
                    ),
                );
            }
        },
        JobControlRequest::WaitForJob { .. } => {},
    }
}

proof fn lemma_order_kept(
    entries: Seq<(Seq<char>, Seq<StepLogView>)>,
    name: Seq<char>,
    value: Seq<StepLogView>,
)
    requires
        names_differ(entries),
        forall|i: int| 0 <= i < entries.len() ==> only_last_runs(#[trigger] entries[i].1),
        only_last_runs(value),
    ensures
        names_differ(with_entry(entries, name, value)),
        forall|i: int|
            0 <= i < with_entry(entries, name, value).len() ==> only_last_runs(
                #[trigger] with_entry(entries, name, value)[i].1,
            ),
{
    law_entries_read_back(entries, name, value, name);
    let after = with_entry(entries, name, value);
    lemma_place_range(entries, name);
    assert forall|i: int| 0 <= i < after.len() implies only_last_runs(#[trigger] after[i].1) by {
        if i != place(entries, name) && i < entries.len() {
            assert(after[i] == entries[i]);
            assert(only_last_runs(entries[i].1));
        }
    }
}

/// Starting a step ends the one that was running as a success, leaves every
/// other step as it was, and is itself the step that runs.
pub proof fn law_step_start_completes_previous(
    states: JobStatesView,
    job: Seq<char>,
    step: Seq<char>,
    now: Timestamp,
    i: int,
)
    requires
        0 <= i < steps_of(states, job).len(),
    ensures
        steps_of(states.step_started(job, step, now), job).len() == steps_of(states, job).len() + 1,
        steps_of(states.step_started(job, step, now), job).last() == new_step(step, now),
        ({
            let old_step = steps_of(states, job)[i];
            let new_step = steps_of(states.step_started(job, step, now), job)[i];
            if i == steps_of(states, job).len() - 1 && old_step.status == StepStatus::Running {
                new_step == (StepLogView { status: StepStatus::Success, ..old_step })
            } else {
                new_step == old_step
            }
        }),
{
    let value = steps_continued(steps_of(states, job)).push(new_step(step, now));
    law_entries_read_back(states.steps, job, value, job);
}

/// A failure that counts still counts after further steps have started.
pub proof fn law_step_failure_stays(
    states: JobStatesView,
    job: Seq<char>,
    step: Seq<char>,
    now: Timestamp,
)
    requires
        protocol::any_step_failed(steps_of(states, job)),
    ensures
        protocol::any_step_failed(steps_of(states.step_started(job, step, now), job)),
{
    let steps = steps_of(states, job);
    let i = choose|i: int| 0 <= i < steps.len() && protocol::fails_job(#[trigger] steps[i].status);
    law_step_start_completes_previous(states, job, step, now, i);
    assert(protocol::fails_job(
        steps_of(states.step_started(job, step, now), job)[i].status,
    ));
}

/// A step marked as failed counts against its job unless the failure is ignored,
/// and the mark is on the step that started last.
pub proof fn law_step_fail_marks_last(
    states: JobStatesView,
    job: Seq<char>,
    ignored: bool,
)
    requires
        steps_of(states, job).len() > 0,
    ensures
        steps_of(states.step_failed(job, ignored), job).last().status == (StepStatus::Failed {
            ignored,
        }),
        !ignored ==> protocol::any_step_failed(steps_of(states.step_failed(job, ignored), job)),
{
    let steps = steps_of(states, job);
    let value = steps.update(
        steps.len() - 1,
        StepLogView { status: StepStatus::Failed { ignored }, ..steps.last() },
    );
    law_entries_read_back(states.steps, job, value, job);
    assert(value[steps.len() - 1].status == StepStatus::Failed { ignored });
}

/// Waiting is answered with how the job ended once it has, keeps waiting for a
/// job that was asked for, and is refused for any other name.
pub proof fn law_wait_answers(
    states: JobStatesView,
    name: String,
    status: JobStatus,
    context: JobSpawnContext,
    now: Timestamp,
)
    ensures
        control_step(
            states.job_completed(name@, status),
            JobControlRequest::WaitForJob { name },
            context,
            now,
        ).2 == ControlActionView::Respond(JobControlResponseView::JobCompleted { status }),
        control_step(states, JobControlRequest::WaitForJob { name }, context, now).2
            == ControlActionView::Respond(JobControlResponseView::JobNotFound) ==> {
            &&& !states.used.contains(name@)
            &&& entry(states.completions, name@) is None
        },
{
    law_entries_read_back(states.completions, name@, status, name@);
}

/// No job starts twice under one name: a name that is used stays used whatever is
/// asked for, and a job of that name is refused.
pub proof fn law_names_are_used_once(
    states: JobStatesView,
    name: String,
    request: JobControlRequest,
    context: JobSpawnContext,
    now: Timestamp,
)
    requires
        states.used.contains(name@),
    ensures
        control_step(states, request, context, now).0.used.contains(name@),
        control_step(states, JobControlRequest::StartJob { name }, context, now) == (
            states,
            Seq::<JobMessageView>::empty(),
            ControlActionView::Respond(
                JobControlResponseView::Error("Job '"@ + name@ + "' already started"@),
            ),
        ),
{
    assert forall|added: Seq<char>| #[trigger] states.used.push(added).contains(name@) by {
        let i = choose|i: int| 0 <= i < states.used.len() && states.used[i] == name@;
        assert(states.used.push(added)[i] == name@);
    }
}

/// Jobs are always told of the submitted candidate, of their own name and of
/// where they run. They are told of a tested integration, under both names, if
/// and only if there is one.
pub proof fn law_jobs_know_what_is_tested(job: RunJobView)
    ensures
        ({
            let cmd = job_command(job);
            let told = |key: Seq<char>| duct_util::variable(cmd.env_vars, key);
            &&& cmd.dir == Some(job.candidate_dir)
            &&& told(envs::SELFCI_JOB_NAME@) == Some(job.job_name)
            &&& told(envs::SELFCI_JOB_SOCK_PATH@) == Some(job.socket_path)
            &&& told(envs::SELFCI_BASE_DIR@) == Some(job.base_dir)
            &&& told(envs::SELFCI_CANDIDATE_DIR@) == Some(job.candidate_dir)
            &&& told(envs::SELFCI_RUN_MODE@) == Some(job.env.run_mode)
            &&& told(envs::SELFCI_CANDIDATE_COMMIT_ID@) == Some(job.env.candidate.commit_id)
            &&& told(envs::SELFCI_CANDIDATE_CHANGE_ID@) == Some(job.env.candidate.change_id)
            &&& told(envs::SELFCI_CANDIDATE_ID@) == Some(job.env.candidate.user)
            &&& told(envs::SELFCI_TESTED_COMMIT_ID@) == duct_util::first_part(job.env.tested)
            &&& told(envs::SELFCI_TESTED_CHANGE_ID@) == duct_util::second_part(job.env.tested)
            &&& told(envs::SELFCI_MERGED_COMMIT_ID@) == duct_util::first_part(job.env.tested)
            &&& told(envs::SELFCI_MERGED_CHANGE_ID@) == duct_util::second_part(job.env.tested)
        }),
{
    broadcast use duct_util::lemma_variable_set;

    envs::lemma_names_differ();
}

/// A job runs its command in the candidate's directory, reads its output and its
/// errors together as they come, and may fail. What it finds under each name is
/// what it was asked for with.
pub proof fn law_jobs_find_what_they_were_given(job: RunJobView, i: int)
    requires
        job.job_full_command.len() > 0,
    ensures
        ({
            let inv = script::stream_of(job_command(job));
            let told = |key: Seq<char>| duct_util::variable(inv.cmd.env_vars, key);
            &&& inv.cmd.program == job.job_full_command[0]
            &&& inv.cmd.args.len() == job.job_full_command.len() - 1
            &&& 1 <= i < job.job_full_command.len() ==> inv.cmd.args[i - 1]
                == job.job_full_command[i]
            &&& inv.cmd.dir == Some(job.candidate_dir)
            &&& inv.unchecked
            &&& inv.output == script::OutputMode::Stream
            &&& inv.stderr == script::StderrMode::ToStdout
            &&& told("SELFCI_JOB_NAME"@) == Some(job.job_name)
            &&& told("SELFCI_JOB_SOCK_PATH"@) == Some(job.socket_path)
            &&& told("SELFCI_BASE_DIR"@) == Some(job.base_dir)
            &&& told("SELFCI_CANDIDATE_DIR"@) == Some(job.candidate_dir)
            &&& told("SELFCI_RUN_MODE"@) == Some(job.env.run_mode)
            &&& told("SELFCI_CANDIDATE_COMMIT_ID"@) == Some(job.env.candidate.commit_id)
            &&& told("SELFCI_CANDIDATE_CHANGE_ID"@) == Some(job.env.candidate.change_id)
            &&& told("SELFCI_CANDIDATE_ID"@) == Some(job.env.candidate.user)
            &&& job.env.tested is Some ==> {
                &&& told("SELFCI_TESTED_COMMIT_ID"@) == Some((job.env.tested->0).0)
                &&& told("SELFCI_TESTED_CHANGE_ID"@) == Some((job.env.tested->0).1)
                &&& told("SELFCI_MERGED_COMMIT_ID"@) == Some((job.env.tested->0).0)
                &&& told("SELFCI_MERGED_CHANGE_ID"@) == Some((job.env.tested->0).1)
            }
            &&& job.env.tested is None ==> {
                &&& told("SELFCI_TESTED_COMMIT_ID"@) is None
                &&& told("SELFCI_TESTED_CHANGE_ID"@) is None
                &&& told("SELFCI_MERGED_COMMIT_ID"@) is None
                &&& told("SELFCI_MERGED_CHANGE_ID"@) is None
            }
        }),
{
    law_jobs_know_what_is_tested(job);
}

/// How a job ended is how its command did. One that could not be started, or whose
/// output could not be read, has no exit status, and its output says so.
pub proof fn law_jobs_end_as_their_commands_do(
    name: Seq<char>,
    run: JobExecution,
    duration: u64,
)
    ensures
        ({
            let end = job_outcome(name, run, duration);
            &&& end.job_name == name
            &&& end.duration == duration
            &&& end.steps.len() == 0
            &&& (run matches JobExecution::Finished { output, exit_code } ==> {
                &&& end.output == output@
                &&& end.exit_code == exit_code
            })
            &&& (run matches JobExecution::NotStarted(reason) ==> {
                &&& end.output == "Failed to start command: "@ + reason@
                &&& end.exit_code is None
            })
            &&& run is CaptureFailed ==> {
                &&& end.output == "Failed to capture output"@
                &&& end.exit_code is None
            }
        }),
{
}

/// Every job of a check runs the same command in the same directories; only the
/// name differs. The first one is called `main`.
pub proof fn law_jobs_differ_by_name(context: JobSpawnContext, name: Seq<char>, i: int)
    ensures
        MAIN_JOB@ == "main"@,
        context.job(name).job_name == name,
        context.job(name).base_dir == context.base_dir@,
        context.job(name).candidate_dir == context.candidate_dir@,
        context.job(name).job_full_command.len() == context.command_prefix@.len() + 1,
        context.job(name).job_full_command.last() == context.command@,
        0 <= i < context.command_prefix@.len() ==> context.job(name).job_full_command[i]
            == context.command_prefix@[i]@,
        context.job(name).print_output == context.print_output,
        context.job(name).socket_path == context.socket_path@,
        context.job(name).env == context.env@,
{
}

/// What each request is answered with. A new name starts a job. A step is always
/// noted, with the time, as running, and the check is told of it; the job's step
/// that was running before has succeeded. Only the last step of a job that has
/// any can be marked as failed. Waiting tells how the job ended once it has.
pub proof fn law_requests_are_answered(
    states: JobStatesView,
    context: JobSpawnContext,
    now: Timestamp,
    job: String,
    step: String,
    ignore: bool,
)
    ensures
        ({
            let (after, told, action) = control_step(
                states,
                JobControlRequest::StartJob { name: job },
                context,
                now,
            );
            &&& told.len() == 0
            &&& states.used.contains(job@) ==> {
                &&& after == states
                &&& action == ControlActionView::Respond(
                    JobControlResponseView::Error("Job '"@ + job@ + "' already started"@),
                )
            }
            &&& !states.used.contains(job@) ==> {
                &&& after.used =~= states.used.push(job@)
                &&& after.steps == states.steps
                &&& after.completions == states.completions
                &&& action == ControlActionView::Spawn(context.job(job@))
            }
        }),
        ({
            let steps = steps_of(states, job@);
            let running = steps.len() > 0 && steps.last().status == StepStatus::Running;
            let (after, told, action) = control_step(
                states,
                JobControlRequest::LogStep { job_name: job, step_name: step },
                context,
                now,
            );
            let noted = steps_of(after, job@);
            &&& action == ControlActionView::Respond(JobControlResponseView::StepLogged)
            &&& noted.len() == steps.len() + 1
            &&& noted.last().name == step@
            &&& noted.last().ts == now
            &&& noted.last().status == StepStatus::Running
            &&& noted.last().job_started_at is None
            &&& after.used == states.used
            &&& after.completions == states.completions
            &&& told.last() == (JobMessageView::StepStarted { job_name: job@, step_name: step@ })
            &&& running ==> {
                &&& told.len() == 2
                &&& told[0] == (JobMessageView::StepCompleted {
                    job_name: job@,
                    step_name: steps.last().name,
                    status: StepStatus::Success,
                })
                &&& noted[steps.len() - 1].status == StepStatus::Success
                &&& noted[steps.len() - 1].name == steps.last().name
                &&& noted[steps.len() - 1].ts == steps.last().ts
            }
            &&& !running ==> {
                &&& told.len() == 1
                &&& noted.drop_last() =~= steps
            }
        }),
        ({
            let steps = steps_of(states, job@);
            let (after, told, action) = control_step(
                states,
                JobControlRequest::MarkStepFailed { job_name: job, ignore },
                context,
                now,
            );
            &&& entry(states.steps, job@) is None ==> {
                &&& after == states
                &&& told.len() == 0
                &&& action == ControlActionView::Respond(
                    JobControlResponseView::Error("Job '"@ + job@ + "' not found"@),
                )
            }
            &&& entry(states.steps, job@) is Some && steps.len() == 0 ==> {
                &&& after == states
                &&& told.len() == 0
                &&& action == ControlActionView::Respond(
                    JobControlResponseView::Error("No steps found for job '"@ + job@ + "'"@),
                )
            }
            &&& steps.len() > 0 ==> {
                let noted = steps_of(after, job@);
                &&& noted.len() == steps.len()
                &&& noted.drop_last() =~= steps.drop_last()
                &&& noted.last().name == steps.last().name
                &&& noted.last().ts == steps.last().ts
                &&& noted.last().status == (StepStatus::Failed { ignored: ignore })
                &&& after.used == states.used
                &&& after.completions == states.completions
                &&& told =~= seq![
                    JobMessageView::StepCompleted {
                        job_name: job@,
                        step_name: steps.last().name,
                        status: StepStatus::Failed { ignored: ignore },
                    },
                ]
                &&& action == ControlActionView::Respond(JobControlResponseView::StepMarkedFailed)
            }
        }),
        ({
            let (after, told, action) = control_step(
                states,
                JobControlRequest::WaitForJob { name: job },
                context,
                now,
            );
            &&& after == states
            &&& told.len() == 0
            &&& entry(states.completions, job@) is Some ==> action == ControlActionView::Respond(
                JobControlResponseView::JobCompleted { status: entry(states.completions, job@)->0 },
            )
            &&& entry(states.completions, job@) is None && states.used.contains(job@) ==> action
                is Wait
            &&& entry(states.completions, job@) is None && !states.used.contains(job@) ==> action
                == ControlActionView::Respond(JobControlResponseView::JobNotFound)
        }),
{
    let steps = steps_of(states, job@);
    law_entries_read_back(
        states.steps,
        job@,
        steps_continued(steps).push(new_step(step@, now)),
        job@,
    );
    if steps.len() > 0 {
        law_entries_read_back(
            states.steps,
            job@,
            steps.update(
                steps.len() - 1,
                StepLogView { status: StepStatus::Failed { ignored: ignore }, ..steps.last() },
            ),
            job@,
        );
    }
}

/// What a job reports or ends with leaves every other job as it was.
pub proof fn law_jobs_leave_each_other_alone(
    states: JobStatesView,
    request: JobControlRequest,
    context: JobSpawnContext,
    now: Timestamp,
    other: Seq<char>,
    job: Seq<char>,
    status: JobStatus,
)
    requires
        request matches JobControlRequest::LogStep { job_name, .. } ==> job_name@ != other,
        request matches JobControlRequest::MarkStepFailed { job_name, .. } ==> job_name@ != other,
        job != other,
    ensures
        steps_of(control_step(states, request, context, now).0, other) == steps_of(states, other),
        entry(states.job_completed(job, status).completions, job) == Some(status),
        entry(states.job_completed(job, status).completions, other) == entry(
            states.completions,
            other,
        ),
        states.job_completed(job, status).steps == states.steps,
        states.job_completed(job, status).used == states.used,
{
    law_entries_read_back(states.completions, job, status, other);
    match request {
        JobControlRequest::LogStep { job_name, step_name } => {
            law_entries_read_back(
                states.steps,
                job_name@,
                steps_continued(steps_of(states, job_name@)).push(new_step(step_name@, now)),
                other,
            );
        },
        JobControlRequest::MarkStepFailed { job_name, ignore } => {
            let steps = steps_of(states, job_name@);
            law_entries_read_back(
                states.steps,
                job_name@,
                steps.update(
                    steps.len() - 1,
                    StepLogView { status: StepStatus::Failed { ignored: ignore }, ..steps.last() },
                ),
                other,
            );
        },
        _ => {},
    }
}

/// What stands under a name is the value of the first entry with that name, and
/// nothing where no entry has it. What is taken out is gone, and a new name
/// goes to the end.
pub proof fn law_first_entry_counts<K, T>(entries: Seq<(K, T)>, name: K, value: T, i: int)
    requires
        0 <= i <= entries.len(),
        forall|j: int| 0 <= j < i ==> (#[trigger] entries[j]).0 != name,
        i < entries.len() ==> entries[i].0 == name,
    ensures
        i < entries.len() ==> entry(entries, name) == Some(entries[i].1),
        i == entries.len() ==> entry(entries, name) is None,
        i == entries.len() ==> without_entry(entries, name) == entries,
        i < entries.len() ==> without_entry(entries, name) =~= entries.take(i) + entries.skip(
            i + 1,
        ),
        i == entries.len() ==> with_entry(entries, name, value) == entries.push((name, value)),
        i < entries.len() ==> with_entry(entries, name, value) == entries.update(
            i,
            (name, value),
        ),
{
    lemma_place(entries, name, i);
}

/// What a job, its end, a message or an answer holds is what its parts hold.
pub proof fn law_jobs_hold_their_parts(
    job: RunJobRequest,
    end: RunJobOutcome,
    message: JobMessage,
    action: ControlAction,
    messages: Seq<JobMessage>,
    i: int,
)
    requires
        0 <= i < messages.len(),
    ensures
        job@.base_dir == job.base_dir@,
        job@.candidate_dir == job.candidate_dir@,
        job@.job_name == job.job_name@,
        job@.job_full_command == text::texts(job.job_full_command@),
        job@.print_output == job.print_output,
        job@.socket_path == job.socket_path@,
        job@.env.run_mode == job.env.run_mode@,
        job@.env.candidate == job.env.candidate@,
        job@.env.tested is Some <==> job.env.tested is Some,
        job.env.tested matches Some(id) ==> job@.env.tested == Some((id.0@, id.1@)),
        end@.job_name == end.job_name@,
        end@.exit_code == end.exit_code,
        end@.output == end.output@,
        end@.duration == end.duration,
        end@.steps == protocol::step_views(end.steps@),
        message matches JobMessage::Started { job_name } ==> message@ == (JobMessageView::Started {
            job_name: job_name@,
        }),
        message matches JobMessage::StepStarted { job_name, step_name } ==> message@ == (
        JobMessageView::StepStarted { job_name: job_name@, step_name: step_name@ }),
        message matches JobMessage::StepCompleted { job_name, step_name, status } ==> message@ == (
        JobMessageView::StepCompleted { job_name: job_name@, step_name: step_name@, status }),
        message matches JobMessage::Completed(outcome) ==> message@ == JobMessageView::Completed(
            outcome@,
        ),
        action matches ControlAction::Respond(r) ==> action@ == ControlActionView::Respond(r@),
        action matches ControlAction::Spawn(j) ==> action@ == ControlActionView::Spawn(j@),
        action is Wait ==> action@ is Wait,
        message_views(messages).len() == messages.len(),
        message_views(messages)[i] == messages[i]@,
{
}

/// A worker reports that the job started and how its command ended, and a job that
/// was handed to the workers is answered as started.
pub proof fn law_workers_report_start_and_end(
    job: RunJobRequest,
    run: JobExecution,
    duration: u64,
    res: (JobMessage, JobMessage),
    sent: Result<(), String>,
    answer: JobControlResponse,
)
    requires
        call_ensures(job_worker, (job, run, duration), res),
        call_ensures(job_queued, (sent,), answer),
    ensures
        res.0@ == (JobMessageView::Started { job_name: job.job_name@ }),
        res.1@ matches JobMessageView::Completed(end) && end.job_name == job.job_name@
            && end.duration == duration && (run matches JobExecution::Finished {
            output,
            exit_code,
        } ==> end.output == output@ && end.exit_code == exit_code),
        sent is Ok ==> answer@ is JobStarted,
        sent matches Err(e) ==> answer@ == JobControlResponseView::Error(
            "Failed to queue job: "@ + e@,
        ),
{
}

} // verus!
