use selfci::config::{MQHooksConfig, MergeStyle};
use selfci::mq_protocol::{
    FailedReason, MQRequest, MQResponse, MQRunStatus, PassedReason, RunId,
};
use selfci::protocol::{JobStatus, StepStatus};
use selfci::queue::MQState;
use selfci::requests::{enqueued, handle_request, RequestHistory, RequestStep};
use selfci::revision::{ChangeId, CommitId, ResolvedRevision, UserRevision};
use selfci::run::{begin_queue, process_queue, QueueMessage, QueueStep};
use selfci::script::Reply;
use selfci::worker::JobStates;
use selfci::{VCSError, VCS};

fn state() -> MQState {
    MQState::new(
        "/repo".to_string(),
        "main".to_string(),
        MergeStyle::Rebase,
        MQHooksConfig {
            pre_start: None,
            post_start: None,
            pre_clone: None,
            post_clone: None,
            pre_merge: None,
            post_merge: None,
        },
    )
}

fn revision(user: &str, digit: &str) -> ResolvedRevision {
    ResolvedRevision {
        user: UserRevision::new(user),
        change_id: ChangeId::new(&digit.repeat(40)),
        commit_id: CommitId::new(&digit.repeat(40)).unwrap(),
    }
}

fn nothing() -> RequestHistory {
    RequestHistory { vcs: None, replies: vec![] }
}

#[test]
fn runs_are_numbered_in_the_order_of_submission() {
    let mut queue = state();
    assert_eq!(queue.queue_run(revision("a", "a"), false, 10).id, RunId(1));
    let second = queue.queue_run(revision("b", "b"), true, 20);
    assert_eq!(second.id, RunId(2));
    assert_eq!(second.status, MQRunStatus::Queued);
    assert_eq!(second.queued_at, 20);
    assert!(second.no_merge);
    assert_eq!(queue.get_run(RunId(1), None, 30).unwrap().candidate.user.as_str(), "a");
    assert!(queue.get_run(RunId(0), None, 30).is_none());
    assert!(queue.get_run(RunId(3), None, 30).is_none());
    assert_eq!(queue.root_dir(), "/repo");
    assert_eq!(queue.base_branch(), "main");
}

#[test]
fn lists_have_the_newest_run_first() {
    let mut queue = state();
    for digit in ["a", "b", "c"] {
        queue.queue_run(revision(digit, digit), false, 0);
    }
    let ids = |limit: Option<usize>| -> Vec<u64> {
        queue.list_runs(limit).iter().map(|run| run.id.0).collect()
    };
    assert_eq!(ids(None), vec![3, 2, 1]);
    assert_eq!(ids(Some(2)), vec![3, 2]);
    assert_eq!(ids(Some(0)), Vec::<u64>::new());
    assert_eq!(ids(Some(9)), vec![3, 2, 1]);
}

#[test]
fn runs_start_once_and_read_back_when_complete() {
    let mut queue = state();
    queue.queue_run(revision("a", "a"), false, 10);
    let (mut run, _, mode) = queue.start_run(RunId(1), 20).unwrap();
    assert_eq!(mode, MergeStyle::Rebase);
    assert_eq!(run.status, MQRunStatus::Running);
    assert_eq!(run.started_at, Some(20));
    assert!(queue.start_run(RunId(1), 30).is_none());
    assert!(queue.start_run(RunId(2), 30).is_none());

    run.status = MQRunStatus::Passed(PassedReason::Rebased);
    run.completed_at = Some(40);
    run.output = "log".to_string();
    queue.complete_run(run);
    let read = queue.get_run(RunId(1), Some(&JobStates::new()), 50).unwrap();
    assert_eq!(read.status, MQRunStatus::Passed(PassedReason::Rebased));
    assert_eq!(read.completed_at, Some(40));
    assert_eq!(read.output, "log");
}

#[test]
fn running_jobs_are_shown_with_their_running_step() {
    let mut queue = state();
    queue.queue_run(revision("a", "a"), false, 10);
    queue.start_run(RunId(1), 20);
    let mut states = JobStates::new();
    for job in ["main", "lint", "done"] {
        states.mark_used(job);
    }
    states.start_step("main", "build", 30);
    states.start_step("main", "test", 35);
    states.start_step("done", "only", 31);
    states.complete("done", JobStatus::Succeeded);
    let run = queue.get_run(RunId(1), Some(&states), 40).unwrap();
    assert_eq!(run.active_jobs.len(), 1, "{:?}", run.active_jobs);
    assert_eq!(run.active_jobs[0].name, "main/test");
    assert_eq!(run.active_jobs[0].ts, 35);
    assert_eq!(run.active_jobs[0].job_started_at, Some(30));
    assert_eq!(run.active_jobs[0].status, StepStatus::Running);
}

#[test]
fn the_processor_takes_runs_until_it_is_told_to_stop() {
    let mut queue = state();
    queue.queue_run(revision("a", "a"), false, 10);
    match process_queue(&mut queue, VCS::Git, Some(QueueMessage::Run(RunId(1))), 20) {
        QueueStep::Process { run, setup } => {
            assert_eq!(run.id, RunId(1));
            assert_eq!(setup.base_branch, "main");
            assert_eq!(setup.root_dir, "/repo");
        }
        other => panic!("{:?}", other),
    }
    assert!(matches!(
        process_queue(&mut queue, VCS::Git, Some(QueueMessage::Run(RunId(1))), 30),
        QueueStep::Skip
    ));
    assert!(matches!(process_queue(&mut queue, VCS::Git, Some(QueueMessage::Shutdown), 30), QueueStep::Stop));
    assert!(matches!(process_queue(&mut queue, VCS::Git, None, 30), QueueStep::Stop));
}

fn ask(queue: &mut MQState, request: MQRequest, h: &RequestHistory) -> RequestStep {
    handle_request(queue, &request, 77, "0.4.0 (abc1234)", h, None, 1000)
}

fn answer(step: RequestStep) -> MQResponse {
    match step {
        RequestStep::Answer(response) => response,
        other => panic!("expected an answer: {:?}", other),
    }
}

#[test]
fn the_daemon_answers_for_its_own_process() {
    let mut queue = state();
    let response = answer(ask(&mut queue, MQRequest::Hello, &nothing()));
    assert!(matches!(response, MQResponse::HelloAck { pid: 77 }));
    let response = answer(ask(&mut queue, MQRequest::Shutdown { expected_pid: 77 }, &nothing()));
    assert!(matches!(response, MQResponse::ShutdownAck { pid: 77 }));
    match answer(ask(&mut queue, MQRequest::Shutdown { expected_pid: 78 }, &nothing())) {
        MQResponse::Error(e) => assert_eq!(e, "daemon PID does not match request"),
        other => panic!("{:?}", other),
    }
    match answer(ask(&mut queue, MQRequest::Version, &nothing())) {
        MQResponse::Version { version } => assert_eq!(version, "0.4.0 (abc1234)"),
        other => panic!("{:?}", other),
    }
}

#[test]
fn submissions_are_resolved_before_they_are_queued() {
    let mut queue = state();
    let add = || MQRequest::AddCandidate { candidate: "feature".to_string(), no_merge: true };
    assert!(matches!(ask(&mut queue, add(), &nothing()), RequestStep::DetectVcs));
    let mut h = RequestHistory { vcs: Some(Ok(VCS::Git)), replies: vec![] };
    match ask(&mut queue, add(), &h) {
        RequestStep::Run(inv) => {
            assert_eq!(inv.cmd.display(), "git rev-parse feature  # in /repo");
        }
        other => panic!("{:?}", other),
    }
    assert!(queue.list_runs(None).is_empty());

    h.replies.push(Reply::Output { success: true, text: "d".repeat(40) });
    match ask(&mut queue, add(), &h) {
        RequestStep::Enqueue { run_id } => assert_eq!(run_id, RunId(1)),
        other => panic!("{:?}", other),
    }
    let run = queue.get_run(RunId(1), None, 1001).unwrap();
    assert_eq!(run.candidate.commit_id.as_str(), "d".repeat(40));
    assert_eq!(run.candidate.user.as_str(), "feature");
    assert!(run.no_merge);
    assert_eq!(run.queued_at, 1000);

    assert!(matches!(
        enqueued(RunId(1), &Ok(())),
        MQResponse::CandidateAdded { run_id: RunId(1) }
    ));
    match enqueued(RunId(1), &Err("sending on a closed channel".to_string())) {
        MQResponse::Error(e) => assert_eq!(e, "Failed to queue run: sending on a closed channel"),
        other => panic!("{:?}", other),
    }
}

#[test]
fn refused_submissions_leave_the_queue_alone() {
    let mut queue = state();
    let add = || MQRequest::AddCandidate { candidate: "nope".to_string(), no_merge: false };
    let h = RequestHistory { vcs: Some(Err(VCSError::NoVCSFound)), replies: vec![] };
    match answer(ask(&mut queue, add(), &h)) {
        MQResponse::Error(e) => assert_eq!(
            e,
            "VCS error: No supported VCS found (looking for .jj or .git directory)"
        ),
        other => panic!("{:?}", other),
    }
    let h = RequestHistory {
        vcs: Some(Ok(VCS::Git)),
        replies: vec![Reply::Failed("exit 128".to_string())],
    };
    match answer(ask(&mut queue, add(), &h)) {
        MQResponse::Error(e) => {
            assert!(e.starts_with("Failed to resolve revision 'nope': "), "{}", e);
        }
        other => panic!("{:?}", other),
    }
    assert!(queue.list_runs(None).is_empty());
}

#[test]
fn waiting_is_answered_when_the_run_completes() {
    let mut queue = state();
    queue.queue_run(revision("a", "a"), false, 10);
    let wait = |id: u64| MQRequest::WaitForRun { run_id: RunId(id) };
    assert!(matches!(ask(&mut queue, wait(1), &nothing()), RequestStep::AwaitCompletion));
    match answer(ask(&mut queue, wait(2), &nothing())) {
        MQResponse::RunStatus { run } => assert!(run.is_none()),
        other => panic!("{:?}", other),
    }
    let (mut run, _, _) = queue.start_run(RunId(1), 20).unwrap();
    run.status = MQRunStatus::Failed(FailedReason::Check);
    run.completed_at = Some(30);
    queue.complete_run(run);
    match answer(ask(&mut queue, wait(1), &nothing())) {
        MQResponse::RunStatus { run: Some(run) } => assert!(run.status.is_failed()),
        other => panic!("{:?}", other),
    }
    match answer(ask(&mut queue, MQRequest::List { limit: Some(1) }, &nothing())) {
        MQResponse::RunList { runs } => assert_eq!(runs.len(), 1),
        other => panic!("{:?}", other),
    }
    match answer(ask(&mut queue, MQRequest::GetStatus { run_id: RunId(1) }, &nothing())) {
        MQResponse::RunStatus { run: Some(run) } => assert_eq!(run.completed_at, Some(30)),
        other => panic!("{:?}", other),
    }
}

#[test]
fn statuses_are_shown_in_words() {
    let shown = [
        (MQRunStatus::Queued, "Queued"),
        (MQRunStatus::Running, "Running"),
        (MQRunStatus::Passed(PassedReason::Merged), "Passed: merged"),
        (MQRunStatus::Passed(PassedReason::Rebased), "Passed: rebased"),
        (MQRunStatus::Passed(PassedReason::NoMerge), "Passed: no-merge"),
        (MQRunStatus::Failed(FailedReason::PreClone), "Failed: pre-clone"),
        (MQRunStatus::Failed(FailedReason::PostClone), "Failed: post-clone"),
        (MQRunStatus::Failed(FailedReason::TestRebase), "Failed: rebase"),
        (MQRunStatus::Failed(FailedReason::TestMerge), "Failed: merge"),
        (MQRunStatus::Failed(FailedReason::Check), "Failed: check"),
        (MQRunStatus::Failed(FailedReason::PreMerge), "Failed: pre-merge"),
        (MQRunStatus::Failed(FailedReason::Merge), "Failed: final-merge"),
        (MQRunStatus::Failed(FailedReason::BaseResolve), "Failed: base-resolve"),
        (
            MQRunStatus::Failed(FailedReason::PublicationUnverified),
            "Failed: publication-unverified",
        ),
    ];
    for (status, words) in shown {
        assert_eq!(status.display(), words);
        assert_eq!(status.is_passed(), words.starts_with("Passed"));
        assert_eq!(status.is_failed(), words.starts_with("Failed"));
    }
}

#[test]
fn queues_are_processed_in_the_system_they_began_with() {
    assert_eq!(begin_queue(&Ok(VCS::Jujutsu)), Ok(VCS::Jujutsu));
    let line = begin_queue(&Err(VCSError::NoVCSFound)).unwrap_err();
    assert_eq!(line, format!("Failed to detect VCS: {}", VCSError::NoVCSFound.message()));
}
