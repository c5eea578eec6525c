//! What the daemon answers.
//!
//! What answering a request does next is a function of the queue and of what
//! has happened so far. The queue changes in one place only: where a candidate
//! has been resolved and becomes a run.

use vstd::prelude::*;

use crate::error;
use crate::error::VCSError;
use crate::mq_protocol::{MQRequest, MQResponse, MQResponseView, MQRunView, RunId};
use crate::protocol::Timestamp;
use crate::queue;
use crate::queue::{MQState, MQStateView, RunEntryView};
use crate::revision;
use crate::revision::ResolvedRevisionView;
use crate::script::{Invocation, InvocationView, Reply, Step, StepView};
use crate::vcs::VCS;
use crate::worker::{JobStates, JobStatesView};

verus! {

/// What has happened while a request is answered.
#[derive(Debug)]
pub struct RequestHistory {
    /// The version control system of the project.
    pub vcs: Option<Result<VCS, VCSError>>,
    /// The replies of the commands that resolve the candidate.
    pub replies: Vec<Reply>,
}

/// What answering a request does next.
#[derive(Debug)]
pub enum RequestStep {
    DetectVcs,
    Run(Invocation),
    /// Hand the run to the queue's processor, and answer whether it took it.
    Enqueue { run_id: RunId },
    /// Wait until a run completes.
    AwaitCompletion,
    Answer(MQResponse),
    /// The tool answered what it never may.
    Panic(String),
}

/// What is to be done about a request, with what is to become of the queue.
pub enum RequestView {
    DetectVcs,
    Run(InvocationView),
    Queue { candidate: ResolvedRevisionView, no_merge: bool },
    AwaitCompletion,
    Answer(MQResponseView),
    Panic(Seq<char>),
}

/// What is asked about a run: the run as it is shown, where there is one.
pub open spec fn found_run(
    state: MQStateView,
    id: RunId,
    states: Option<JobStatesView>,
    now: Timestamp,
) -> Option<MQRunView> {
    if state.has_run(id) {
        Some(queue::shown(state.run(id), states, now))
    } else {
        None
    }
}

/// What is to be done about a candidate that was submitted.
pub open spec fn candidate_step(
    state: MQStateView,
    candidate: Seq<char>,
    no_merge: bool,
    h: RequestHistory,
) -> RequestView {
    match h.vcs {
        None => RequestView::DetectVcs,
        Some(Err(e)) => RequestView::Answer(
            MQResponseView::Error("VCS error: "@ + error::vcs_error_text(e)),
        ),
        Some(Ok(vcs)) => match revision::revision_step(vcs, state.root_dir, candidate, h.replies@) {
            StepView::Run(inv) => RequestView::Run(inv),
            StepView::Done(resolved) => RequestView::Queue { candidate: resolved, no_merge },
            StepView::Fail(e) => RequestView::Answer(
                MQResponseView::Error(
                    "Failed to resolve revision '"@ + candidate + "': "@
                        + revision::revision_error_text(e),
                ),
            ),
            StepView::Panic(m) => RequestView::Panic(m),
        },
    }
}

/// What is to be done about a request. `pid` is the daemon's process.
pub open spec fn request_step(
    state: MQStateView,
    request: MQRequest,
    pid: i32,
    version: Seq<char>,
    h: RequestHistory,
    states: Option<JobStatesView>,
    now: Timestamp,
) -> RequestView {
    match request {
        MQRequest::Hello => RequestView::Answer(MQResponseView::HelloAck { pid }),
        MQRequest::Shutdown { expected_pid } => RequestView::Answer(
            if expected_pid == pid {
                MQResponseView::ShutdownAck { pid }
            } else {
                MQResponseView::Error("daemon PID does not match request"@)
            },
        ),
        MQRequest::Version => RequestView::Answer(MQResponseView::Version { version }),
        MQRequest::AddCandidate { candidate, no_merge } => candidate_step(
            state,
            candidate@,
            no_merge,
            h,
        ),
        MQRequest::List { limit } => RequestView::Answer(
            MQResponseView::RunList { runs: queue::listed(state.runs, limit) },
        ),
        MQRequest::GetStatus { run_id } => RequestView::Answer(
            MQResponseView::RunStatus { run: found_run(state, run_id, states, now) },
        ),
        MQRequest::WaitForRun { run_id } => match found_run(state, run_id, states, now) {
            Some(run) => if run.completed_at is Some {
                RequestView::Answer(MQResponseView::RunStatus { run: Some(run) })
            } else {
                RequestView::AwaitCompletion
            },
            None => RequestView::Answer(MQResponseView::RunStatus { run: None }),
        },
    }
}

/// The queue after a request: one that ends with a resolved candidate adds it
/// as the newest run, and nothing else changes anything.
pub open spec fn after_request(state: MQStateView, step: RequestView, now: Timestamp) -> MQStateView {
    match step {
        RequestView::Queue { candidate, no_merge } => MQStateView {
            runs: state.runs.push(
                RunEntryView {
                    info: queue::new_run(
                        RunId((state.runs.len() + 1) as u64),
                        candidate,
                        no_merge,
                        state.merge_mode,
                        now,
                    ),
                    followed: false,
                },
            ),
            ..state
        },
        _ => state,
    }
}

/// Whether a step does what is to be done.
pub open spec fn does(step: RequestStep, todo: RequestView, state: MQStateView) -> bool {
    match todo {
        RequestView::DetectVcs => step is DetectVcs,
        RequestView::Run(inv) => step matches RequestStep::Run(i) && i@ == inv,
        RequestView::Queue { .. } => step == RequestStep::Enqueue {
            run_id: RunId((state.runs.len() + 1) as u64),
        },
        RequestView::AwaitCompletion => step is AwaitCompletion,
        RequestView::Answer(response) => step matches RequestStep::Answer(r) && r@ == response,
        RequestView::Panic(m) => step matches RequestStep::Panic(text) && text@ == m,
    }
}

fn answer_candidate(
    state: &mut MQState,
    candidate: &String,
    no_merge: bool,
    h: &RequestHistory,
    now: Timestamp,
) -> (res: RequestStep)
    requires
        old(state)@.runs.len() < u64::MAX,
    ensures
        does(res, candidate_step(old(state)@, candidate@, no_merge, *h), old(state)@),
        final(state)@ == after_request(
            old(state)@,
            candidate_step(old(state)@, candidate@, no_merge, *h),
            now,
        ),
        old(state)@.numbered() ==> final(state)@.numbered(),
{
    let vcs = match &h.vcs {
        None => return RequestStep::DetectVcs,
        Some(Err(e)) => {
            return RequestStep::Answer(
                MQResponse::Error(String::from_str("VCS error: ").concat(e.message().as_str())),
            );
        },
        Some(Ok(vcs)) => vcs,
    };
    match revision::resolve_revision(vcs, state.root_dir(), candidate.as_str(), &h.replies) {
        Step::Run(inv) => RequestStep::Run(inv),
        Step::Done(resolved) => {
            let run = state.queue_run(resolved, no_merge, now);
            RequestStep::Enqueue { run_id: run.id }
        },
        Step::Fail(e) => RequestStep::Answer(
            MQResponse::Error(
                String::from_str("Failed to resolve revision '").concat(candidate.as_str()).concat(
                    "': ",
                ).concat(e.message().as_str()),
            ),
        ),
        Step::Panic(m) => RequestStep::Panic(m),
    }
}

/// What answering a request does next. `pid` is the daemon's process, and
/// `states` is what is known of the jobs of the run that is asked about.
pub fn handle_request(
    state: &mut MQState,
    request: &MQRequest,
    pid: i32,
    version: &str,
    h: &RequestHistory,
    states: Option<&JobStates>,
    now: Timestamp,
) -> (res: RequestStep)
    requires
        request is AddCandidate ==> old(state)@.runs.len() < u64::MAX,
    ensures
        does(
            res,
            request_step(
                old(state)@,
                *request,
                pid,
                version@,
                *h,
                queue::states_view(states),
                now,
            ),
            old(state)@,
        ),
        final(state)@ == after_request(
            old(state)@,
            request_step(
                old(state)@,
                *request,
                pid,
                version@,
                *h,
                queue::states_view(states),
                now,
            ),
            now,
        ),
        old(state)@.numbered() ==> final(state)@.numbered(),
{
    match request {
        MQRequest::Hello => RequestStep::Answer(MQResponse::HelloAck { pid }),
        MQRequest::Shutdown { expected_pid } => {
            if *expected_pid == pid {
                RequestStep::Answer(MQResponse::ShutdownAck { pid })
            } else {
                RequestStep::Answer(
                    MQResponse::Error("daemon PID does not match request".to_owned()),
                )
            }
        },
        MQRequest::Version => RequestStep::Answer(
            MQResponse::Version { version: version.to_owned() },
        ),
        MQRequest::AddCandidate { candidate, no_merge } => answer_candidate(
            state,
            candidate,
            *no_merge,
            h,
            now,
        ),
        MQRequest::List { limit } => RequestStep::Answer(
            MQResponse::RunList { runs: state.list_runs(*limit) },
        ),
        MQRequest::GetStatus { run_id } => RequestStep::Answer(
            MQResponse::RunStatus { run: state.get_run(*run_id, states, now) },
        ),
        MQRequest::WaitForRun { run_id } => {
            match state.get_run(*run_id, states, now) {
                Some(run) => {
                    if run.completed_at.is_some() {
                        RequestStep::Answer(MQResponse::RunStatus { run: Some(run) })
                    } else {
                        RequestStep::AwaitCompletion
                    }
                },
                None => RequestStep::Answer(MQResponse::RunStatus { run: None }),
            }
        },
    }
}

/// The answer about a run that was handed to the queue's processor, which may
/// have gone.
pub fn enqueued(run_id: RunId, sent: &Result<(), String>) -> (res: MQResponse)
    ensures
        res@ == match *sent {
            Ok(_) => MQResponseView::CandidateAdded { run_id },
            Err(e) => MQResponseView::Error("Failed to queue run: "@ + e@),
        },
{
    match sent {
        Ok(_) => MQResponse::CandidateAdded { run_id },
        Err(e) => MQResponse::Error(String::from_str("Failed to queue run: ").concat(e.as_str())),
    }
}

/// A request that is not a submission leaves the queue as it is, and so does a
/// submission that is refused.
pub proof fn law_only_submissions_change_the_queue(
    state: MQStateView,
    request: MQRequest,
    pid: i32,
    version: Seq<char>,
    h: RequestHistory,
    states: Option<JobStatesView>,
    now: Timestamp,
)
    ensures
        ({
            let step = request_step(state, request, pid, version, h, states, now);
            let after = after_request(state, step, now);
            &&& !(request is AddCandidate) ==> after == state
            &&& step is Answer ==> after == state
            &&& after.runs.len() >= state.runs.len()
            &&& forall|i: int| 0 <= i < state.runs.len() ==> after.runs[i] == state.runs[i]
        }),
{
}

/// A run that is submitted can be asked about: until it is begun it is queued,
/// as the newest, with the identities that were resolved.
pub proof fn law_submitted_runs_are_found(
    state: MQStateView,
    candidate: ResolvedRevisionView,
    no_merge: bool,
    states: Option<JobStatesView>,
    now: Timestamp,
)
    requires
        state.runs.len() < u64::MAX,
    ensures
        ({
            let id = RunId((state.runs.len() + 1) as u64);
            let after = after_request(state, RequestView::Queue { candidate, no_merge }, now);
            &&& found_run(after, id, states, now) == Some(
                queue::new_run(id, candidate, no_merge, state.merge_mode, now),
            )
            &&& queue::listed(after.runs, None)[0] == queue::new_run(
                id,
                candidate,
                no_merge,
                state.merge_mode,
                now,
            )
        }),
{
    let after = after_request(state, RequestView::Queue { candidate, no_merge }, now);
    assert(after.runs.len() == state.runs.len() + 1);
}

/// Waiting for a run is answered only when it has completed, or where there is
/// no such run.
pub proof fn law_waiting_is_answered_at_completion(
    state: MQStateView,
    id: RunId,
    pid: i32,
    version: Seq<char>,
    h: RequestHistory,
    states: Option<JobStatesView>,
    now: Timestamp,
)
    ensures
        request_step(
            state,
            MQRequest::WaitForRun { run_id: id },
            pid,
            version,
            h,
            states,
            now,
        ) is Answer <==> (state.has_run(id) ==> state.run(id).info.completed_at is Some),
{
}

/// What is answered right away. A greeting and a request to stop are answered with
/// the daemon's own process, the latter only where it was meant for that process.
/// A version, a list and a run are answered as they are, and a run that does not
/// exist as none.
pub proof fn law_questions_are_answered(
    step: RequestStep,
    state: MQStateView,
    request: MQRequest,
    pid: i32,
    version: Seq<char>,
    h: RequestHistory,
    states: Option<JobStatesView>,
    now: Timestamp,
)
    requires
        does(step, request_step(state, request, pid, version, h, states, now), state),
    ensures
        request is Hello ==> (step matches RequestStep::Answer(r) && r@
            == (MQResponseView::HelloAck { pid })),
        request matches MQRequest::Shutdown { expected_pid } ==> {
            &&& step is Answer
            &&& expected_pid == pid ==> step->Answer_0@ == (MQResponseView::ShutdownAck { pid })
            &&& expected_pid != pid ==> step->Answer_0@ == MQResponseView::Error(
                "daemon PID does not match request"@,
            )
        },
        request is Version ==> (step matches RequestStep::Answer(r) && r@
            == (MQResponseView::Version { version })),
        request matches MQRequest::List { limit } ==> (step matches RequestStep::Answer(r) && r@
            == (MQResponseView::RunList { runs: queue::listed(state.runs, limit) })),
        request matches MQRequest::GetStatus { run_id } ==> {
            &&& step is Answer
            &&& state.has_run(run_id) ==> step->Answer_0@ == (MQResponseView::RunStatus {
                run: Some(queue::shown(state.run(run_id), states, now)),
            })
            &&& !state.has_run(run_id) ==> step->Answer_0@ == (MQResponseView::RunStatus {
                run: None,
            })
        },
        request matches MQRequest::WaitForRun { run_id } ==> {
            &&& !state.has_run(run_id) ==> step is Answer && step->Answer_0@ == (
            MQResponseView::RunStatus { run: None })
            &&& state.has_run(run_id) && state.run(run_id).info.completed_at is None ==> step
                is AwaitCompletion
            &&& state.has_run(run_id) && state.run(run_id).info.completed_at is Some ==> step
                is Answer && step->Answer_0@ == (MQResponseView::RunStatus {
                run: Some(queue::shown(state.run(run_id), states, now)),
            })
        },
        step is Enqueue ==> request is AddCandidate,
{
}

/// A candidate is resolved as it was submitted, at the project's root and in its
/// version control system, and becomes a run, the next in number, exactly if that
/// succeeds. Else the answer says why, and the queue stays as it was.
pub proof fn law_candidates_become_runs(
    step: RequestStep,
    state: MQStateView,
    candidate: String,
    no_merge: bool,
    pid: i32,
    version: Seq<char>,
    h: RequestHistory,
    states: Option<JobStatesView>,
    now: Timestamp,
)
    requires
        state.runs.len() < u64::MAX,
        does(
            step,
            request_step(
                state,
                MQRequest::AddCandidate { candidate, no_merge },
                pid,
                version,
                h,
                states,
                now,
            ),
            state,
        ),
    ensures
        ({
            let todo = request_step(
                state,
                MQRequest::AddCandidate { candidate, no_merge },
                pid,
                version,
                h,
                states,
                now,
            );
            let after = after_request(state, todo, now);
            let known = h.vcs is Some && h.vcs->0 is Ok;
            let resolution = revision::revision_step(
                h.vcs->0->Ok_0,
                state.root_dir,
                candidate@,
                h.replies@,
            );
            &&& h.vcs is None ==> step is DetectVcs
            &&& h.vcs is Some && h.vcs->0 is Err ==> step is Answer && step->Answer_0@
                == MQResponseView::Error("VCS error: "@ + error::vcs_error_text(h.vcs->0->Err_0))
            &&& known && resolution is Run ==> step is Run && step->Run_0@ == resolution->Run_0
            &&& known && resolution is Fail ==> step is Answer && step->Answer_0@
                == MQResponseView::Error(
                "Failed to resolve revision '"@ + candidate@ + "': "@
                    + revision::revision_error_text(resolution->Fail_0),
            )
            &&& known && resolution is Done ==> {
                &&& step is Enqueue
                &&& step->run_id.0 == state.runs.len() + 1
                &&& after.runs.len() == state.runs.len() + 1
                &&& after.runs.drop_last() =~= state.runs
                &&& after.runs.last().info.id.0 == state.runs.len() + 1
                &&& after.runs.last().info.candidate == resolution->Done_0
                &&& after.runs.last().info.no_merge == no_merge
                &&& after.runs.last().info.queued_at == now
                &&& after.runs.last().info.merge_mode == state.merge_mode
                &&& !after.runs.last().followed
            }
            &&& !(known && resolution is Done) ==> after == state
            &&& after.root_dir == state.root_dir
            &&& after.base_branch == state.base_branch
            &&& after.merge_mode == state.merge_mode
            &&& after.hooks == state.hooks
        }),
{
}

/// A run that was handed on is answered with its number, and one that could not be
/// with why.
pub proof fn law_handed_on_runs_are_answered(
    run_id: RunId,
    sent: Result<(), String>,
    res: MQResponse,
)
    requires
        call_ensures(enqueued, (run_id, &sent), res),
    ensures
        sent is Ok ==> res@ == (MQResponseView::CandidateAdded { run_id }),
        sent matches Err(e) ==> res@ == MQResponseView::Error("Failed to queue run: "@ + e@),
{
}

} // verus!
