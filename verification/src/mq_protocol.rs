//! What clients and the merge queue daemon say to each other.

use vstd::prelude::*;

use crate::config::MergeStyle;
use crate::protocol;
use crate::protocol::{JobLogEntry, JobLogView, StepLogEntry, StepLogView, Timestamp};
use crate::revision::{ResolvedRevision, ResolvedRevisionView};
use crate::text;

verus! {

/// The number of a run.
#[derive(Debug, Clone, Copy, PartialEq, Eq, Hash, Structural)]
pub struct RunId(pub u64);

impl RunId {
    /// The number in decimal.
    pub fn display(&self) -> (res: String)
        ensures
            res@ == text::decimal(self.0 as nat),
    {
        text::decimal_of(self.0)
    }
}

/// Why a run passed.
#[derive(Debug, Clone, Copy, PartialEq, Eq, Structural)]
pub enum PassedReason {
    /// The candidate was merged into the base.
    Merged,
    /// The candidate was rebased onto the base, which moved to it.
    Rebased,
    /// The run was for validation only.
    NoMerge,
}

/// Why a run failed.
#[derive(Debug, Clone, Copy, PartialEq, Eq, Structural)]
pub enum FailedReason {
    PreClone,
    PostClone,
    TestRebase,
    TestMerge,
    Check,
    PreMerge,
    Merge,
    BaseResolve,
    /// The base was moved, and what it names could not be established.
    PublicationUnverified,
}

/// How a run stands.
#[derive(Debug, Clone, Copy, PartialEq, Eq, Structural)]
pub enum MQRunStatus {
    Queued,
    Running,
    Passed(PassedReason),
    Failed(FailedReason),
}

/// A reason in words.
pub open spec fn passed_text(reason: PassedReason) -> Seq<char> {
    match reason {
        PassedReason::Merged => "merged"@,
        PassedReason::Rebased => "rebased"@,
        PassedReason::NoMerge => "no-merge"@,
    }
}

/// A reason in words.
pub open spec fn failed_text(reason: FailedReason) -> Seq<char> {
    match reason {
        FailedReason::PreClone => "pre-clone"@,
        FailedReason::PostClone => "post-clone"@,
        FailedReason::TestRebase => "rebase"@,
        FailedReason::TestMerge => "merge"@,
        FailedReason::Check => "check"@,
        FailedReason::PreMerge => "pre-merge"@,
        FailedReason::Merge => "final-merge"@,
        FailedReason::BaseResolve => "base-resolve"@,
        FailedReason::PublicationUnverified => "publication-unverified"@,
    }
}

/// A status in words.
pub open spec fn status_text(status: MQRunStatus) -> Seq<char> {
    match status {
        MQRunStatus::Queued => "Queued"@,
        MQRunStatus::Running => "Running"@,
        MQRunStatus::Passed(reason) => "Passed: "@ + passed_text(reason),
        MQRunStatus::Failed(reason) => "Failed: "@ + failed_text(reason),
    }
}

impl MQRunStatus {
    /// The status in words.
    pub fn display(&self) -> (res: String)
        ensures
            res@ == status_text(*self),
    {
        match self {
            MQRunStatus::Queued => "Queued".to_owned(),
            MQRunStatus::Running => "Running".to_owned(),
            MQRunStatus::Passed(reason) => {
                let reason_str = match reason {
                    PassedReason::Merged => "merged",
                    PassedReason::Rebased => "rebased",
                    PassedReason::NoMerge => "no-merge",
                };
                String::from_str("Passed: ").concat(reason_str)
            },
            MQRunStatus::Failed(reason) => {
                let reason_str = match reason {
                    FailedReason::PreClone => "pre-clone",
                    FailedReason::PostClone => "post-clone",
                    FailedReason::TestRebase => "rebase",
                    FailedReason::TestMerge => "merge",
                    FailedReason::Check => "check",
                    FailedReason::PreMerge => "pre-merge",
                    FailedReason::Merge => "final-merge",
                    FailedReason::BaseResolve => "base-resolve",
                    FailedReason::PublicationUnverified => "publication-unverified",
                };
                String::from_str("Failed: ").concat(reason_str)
            },
        }
    }

    /// Whether the run passed.
    pub fn is_passed(&self) -> (res: bool)
        ensures
            res == (*self is Passed),
    {
        matches!(self, MQRunStatus::Passed(_))
    }

    /// Whether the run failed.
    pub fn is_failed(&self) -> (res: bool)
        ensures
            res == (*self is Failed),
    {
        matches!(self, MQRunStatus::Failed(_))
    }
}

/// Whether a run is over.
pub open spec fn is_terminal(status: MQRunStatus) -> bool {
    status is Passed || status is Failed
}

/// A run of the merge queue.
#[derive(Debug)]
pub struct MQRunInfo {
    pub id: RunId,
    pub candidate: ResolvedRevision,
    pub status: MQRunStatus,
    pub queued_at: Timestamp,
    pub started_at: Option<Timestamp>,
    pub completed_at: Option<Timestamp>,
    pub merge_mode: MergeStyle,
    /// The log of the test integration.
    pub test_merge_output: String,
    /// The output of hooks, of the check and of the publication.
    pub output: String,
    /// Jobs that are running, filled in for status queries.
    pub active_jobs: Vec<StepLogEntry>,
    pub completed_steps: Vec<StepLogEntry>,
    pub completed_jobs: Vec<JobLogEntry>,
    /// Whether the run is for validation only.
    pub no_merge: bool,
}

/// What an [`MQRunInfo`] holds.
pub struct MQRunView {
    pub id: RunId,
    pub candidate: ResolvedRevisionView,
    pub status: MQRunStatus,
    pub queued_at: Timestamp,
    pub started_at: Option<Timestamp>,
    pub completed_at: Option<Timestamp>,
    pub merge_mode: MergeStyle,
    pub test_merge_output: Seq<char>,
    pub output: Seq<char>,
    pub active_jobs: Seq<StepLogView>,
    pub completed_steps: Seq<StepLogView>,
    pub completed_jobs: Seq<JobLogView>,
    pub no_merge: bool,
}

impl View for MQRunInfo {
    type V = MQRunView;

    open spec fn view(&self) -> MQRunView {
        MQRunView {
            id: self.id,
            candidate: self.candidate@,
            status: self.status,
            queued_at: self.queued_at,
            started_at: self.started_at,
            completed_at: self.completed_at,
            merge_mode: self.merge_mode,
            test_merge_output: self.test_merge_output@,
            output: self.output@,
            active_jobs: protocol::step_views(self.active_jobs@),
            completed_steps: protocol::step_views(self.completed_steps@),
            completed_jobs: protocol::job_views(self.completed_jobs@),
            no_merge: self.no_merge,
        }
    }
}

impl Clone for MQRunInfo {
    fn clone(&self) -> (res: Self)
        ensures
            res@ == self@,
    {
        MQRunInfo {
            id: self.id,
            candidate: self.candidate.clone(),
            status: self.status,
            queued_at: self.queued_at,
            started_at: self.started_at,
            completed_at: self.completed_at,
            merge_mode: self.merge_mode,
            test_merge_output: self.test_merge_output.clone(),
            output: self.output.clone(),
            active_jobs: protocol::copy_steps(&self.active_jobs),
            completed_steps: protocol::copy_steps(&self.completed_steps),
            completed_jobs: protocol::copy_jobs(&self.completed_jobs),
            no_merge: self.no_merge,
        }
    }
}

/// What runs hold.
pub open spec fn run_views(runs: Seq<MQRunInfo>) -> Seq<MQRunView> {
    runs.map_values(|r: MQRunInfo| r@)
}

/// What a client asks of the daemon.
#[derive(Debug)]
pub enum MQRequest {
    Hello,
    Shutdown { expected_pid: i32 },
    Version,
    AddCandidate { candidate: String, no_merge: bool },
    List { limit: Option<usize> },
    GetStatus { run_id: RunId },
    WaitForRun { run_id: RunId },
}

/// What an [`MQRequest`] holds.
pub enum MQRequestView {
    Hello,
    Shutdown { expected_pid: i32 },
    Version,
    AddCandidate { candidate: Seq<char>, no_merge: bool },
    List { limit: Option<usize> },
    GetStatus { run_id: RunId },
    WaitForRun { run_id: RunId },
}

impl View for MQRequest {
    type V = MQRequestView;

    open spec fn view(&self) -> MQRequestView {
        match *self {
            MQRequest::Hello => MQRequestView::Hello,
            MQRequest::Shutdown { expected_pid } => MQRequestView::Shutdown { expected_pid },
            MQRequest::Version => MQRequestView::Version,
            MQRequest::AddCandidate { candidate, no_merge } => MQRequestView::AddCandidate {
                candidate: candidate@,
                no_merge,
            },
            MQRequest::List { limit } => MQRequestView::List { limit },
            MQRequest::GetStatus { run_id } => MQRequestView::GetStatus { run_id },
            MQRequest::WaitForRun { run_id } => MQRequestView::WaitForRun { run_id },
        }
    }
}

/// What the daemon answers.
#[derive(Debug)]
pub enum MQResponse {
    HelloAck { pid: i32 },
    ShutdownAck { pid: i32 },
    Version { version: String },
    CandidateAdded { run_id: RunId },
    RunList { runs: Vec<MQRunInfo> },
    RunStatus { run: Option<MQRunInfo> },
    Error(String),
}

/// What an [`MQResponse`] holds.
pub enum MQResponseView {
    HelloAck { pid: i32 },
    ShutdownAck { pid: i32 },
    Version { version: Seq<char> },
    CandidateAdded { run_id: RunId },
    RunList { runs: Seq<MQRunView> },
    RunStatus { run: Option<MQRunView> },
    Error(Seq<char>),
}

impl View for MQResponse {
    type V = MQResponseView;

    open spec fn view(&self) -> MQResponseView {
        match *self {
            MQResponse::HelloAck { pid } => MQResponseView::HelloAck { pid },
            MQResponse::ShutdownAck { pid } => MQResponseView::ShutdownAck { pid },
            MQResponse::Version { version } => MQResponseView::Version { version: version@ },
            MQResponse::CandidateAdded { run_id } => MQResponseView::CandidateAdded { run_id },
            MQResponse::RunList { runs } => MQResponseView::RunList { runs: run_views(runs@) },
            MQResponse::RunStatus { run } => MQResponseView::RunStatus {
                run: match run {
                    Some(r) => Some(r@),
                    None => None,
                },
            },
            MQResponse::Error(e) => MQResponseView::Error(e@),
        }
    }
}

/// A status is queued, running, passed or failed, and only one of them; the
/// words for it tell passed from failed.
pub proof fn law_statuses_exclude_each_other(status: MQRunStatus)
    ensures
        !(status is Passed && status is Failed),
        is_terminal(status) <==> !(status is Queued || status is Running),
        text::begins_with(status_text(status), "Passed: "@) <==> status is Passed,
        text::begins_with(status_text(status), "Failed: "@) <==> status is Failed,
{
    reveal_strlit("Passed: ");
    reveal_strlit("Failed: ");
    reveal_strlit("Queued");
    reveal_strlit("Running");
    let s = status_text(status);
    match status {
        MQRunStatus::Passed(_) => {
            assert(s.take(8) =~= "Passed: "@);
            assert(s.take(8)[0] != "Failed: "@[0]);
        },
        MQRunStatus::Failed(_) => {
            assert(s.take(8) =~= "Failed: "@);
            assert(s.take(8)[0] != "Passed: "@[0]);
        },
        _ => {},
    }
}

/// How a run stands in words: how far it is, and once it is over why it passed or
/// failed.
pub proof fn law_statuses_in_words()
    ensures
        status_text(MQRunStatus::Queued) == "Queued"@,
        status_text(MQRunStatus::Running) == "Running"@,
        status_text(MQRunStatus::Passed(PassedReason::Merged)) == "Passed: "@ + "merged"@,
        status_text(MQRunStatus::Passed(PassedReason::Rebased)) == "Passed: "@ + "rebased"@,
        status_text(MQRunStatus::Passed(PassedReason::NoMerge)) == "Passed: "@ + "no-merge"@,
        status_text(MQRunStatus::Failed(FailedReason::PreClone)) == "Failed: "@ + "pre-clone"@,
        status_text(MQRunStatus::Failed(FailedReason::PostClone)) == "Failed: "@ + "post-clone"@,
        status_text(MQRunStatus::Failed(FailedReason::TestRebase)) == "Failed: "@ + "rebase"@,
        status_text(MQRunStatus::Failed(FailedReason::TestMerge)) == "Failed: "@ + "merge"@,
        status_text(MQRunStatus::Failed(FailedReason::Check)) == "Failed: "@ + "check"@,
        status_text(MQRunStatus::Failed(FailedReason::PreMerge)) == "Failed: "@ + "pre-merge"@,
        status_text(MQRunStatus::Failed(FailedReason::Merge)) == "Failed: "@ + "final-merge"@,
        status_text(MQRunStatus::Failed(FailedReason::BaseResolve)) == "Failed: "@
            + "base-resolve"@,
        status_text(MQRunStatus::Failed(FailedReason::PublicationUnverified)) == "Failed: "@
            + "publication-unverified"@,
{
}

/// What a run holds is what its parts hold.
pub proof fn law_runs_hold_their_parts(run: MQRunInfo, runs: Seq<MQRunInfo>, i: int)
    requires
        0 <= i < runs.len(),
    ensures
        run@.id == run.id,
        run@.candidate == run.candidate@,
        run@.status == run.status,
        run@.queued_at == run.queued_at,
        run@.started_at == run.started_at,
        run@.completed_at == run.completed_at,
        run@.merge_mode == run.merge_mode,
        run@.test_merge_output == run.test_merge_output@,
        run@.output == run.output@,
        run@.active_jobs == protocol::step_views(run.active_jobs@),
        run@.completed_steps == protocol::step_views(run.completed_steps@),
        run@.completed_jobs == protocol::job_views(run.completed_jobs@),
        run@.no_merge == run.no_merge,
        run_views(runs).len() == runs.len(),
        run_views(runs)[i] == runs[i]@,
{
}

/// What a request or an answer holds is what its parts hold.
pub proof fn law_words_hold_their_parts(request: MQRequest, response: MQResponse)
    ensures
        request@ is Hello <==> request is Hello,
        request@ is Version <==> request is Version,
        request matches MQRequest::Shutdown { expected_pid } ==> request@ == (
        MQRequestView::Shutdown { expected_pid }),
        request matches MQRequest::AddCandidate { candidate, no_merge } ==> request@ == (
        MQRequestView::AddCandidate { candidate: candidate@, no_merge }),
        request matches MQRequest::List { limit } ==> request@ == (MQRequestView::List { limit }),
        request matches MQRequest::GetStatus { run_id } ==> request@ == (
        MQRequestView::GetStatus { run_id }),
        request matches MQRequest::WaitForRun { run_id } ==> request@ == (
        MQRequestView::WaitForRun { run_id }),
        response matches MQResponse::HelloAck { pid } ==> response@ == (MQResponseView::HelloAck {
            pid,
        }),
        response matches MQResponse::ShutdownAck { pid } ==> response@ == (
        MQResponseView::ShutdownAck { pid }),
        response matches MQResponse::Version { version } ==> response@ == (
        MQResponseView::Version { version: version@ }),
        response matches MQResponse::CandidateAdded { run_id } ==> response@ == (
        MQResponseView::CandidateAdded { run_id }),
        response matches MQResponse::RunList { runs } ==> response@ == (MQResponseView::RunList {
            runs: run_views(runs@),
        }),
        response matches MQResponse::RunStatus { run } ==> {
            &&& response@ matches MQResponseView::RunStatus { run: seen }
            &&& seen is Some <==> run is Some
            &&& run is Some ==> seen == Some(run->0@)
        },
        response matches MQResponse::Error(e) ==> response@ == MQResponseView::Error(e@),
{
}

/// A run has passed or failed exactly if its status says so, and runs are named by
/// their number in decimal.
pub proof fn law_statuses_tell_passed_from_failed(
    status: MQRunStatus,
    passed: bool,
    failed: bool,
    words: String,
    id: RunId,
    number: String,
)
    requires
        call_ensures(MQRunStatus::is_passed, (&status,), passed),
        call_ensures(MQRunStatus::is_failed, (&status,), failed),
        call_ensures(MQRunStatus::display, (&status,), words),
        call_ensures(RunId::display, (&id,), number),
    ensures
        passed ==> status != MQRunStatus::Queued && status != MQRunStatus::Running && !failed,
        failed ==> status != MQRunStatus::Queued && status != MQRunStatus::Running,
        status matches MQRunStatus::Passed(_) ==> passed,
        status matches MQRunStatus::Failed(_) ==> failed && !passed,
        words@ == status_text(status),
        number@ == text::decimal(id.0 as nat),
{
}

} // verus!
