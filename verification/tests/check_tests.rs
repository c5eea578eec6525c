use selfci::candidate_check::{
    check, parallelism, run_candidate_check, CheckFailure, CheckHistory, CheckSetup, CheckStep,
    InlineHistory, InlineSetup, InlineStep, SocketError,
};
use selfci::check::{check_passed, CheckMode, CheckProgress, CheckResult, ShownTimes};
use selfci::config::{CommandConfig, JobConfig, MergeStyle};
use selfci::protocol::{
    JobControlRequest, JobControlResponse, JobStatus, StepLogEntry, StepStatus,
};
use selfci::revision::{ChangeId, CommitId, ResolvedRevision, UserRevision};
use selfci::script::Reply;
use selfci::test_merge::TestMergeOutcome;
use selfci::worker::{
    begin_jobs, control_socket_listener, job_invocation, job_queued, job_worker, ControlAction,
    JobEnv, JobExecution, JobMessage, JobSpawnContext, JobStates, RunJobOutcome,
};
use selfci::{CloneMode, MainError, SelfCIConfig, VCSError, VCS};

fn revision(user: &str, digit: &str) -> ResolvedRevision {
    ResolvedRevision {
        user: UserRevision::new(user),
        change_id: ChangeId::new(&format!("change-{}", digit)),
        commit_id: CommitId::new(&digit.repeat(40)).unwrap(),
    }
}

fn times(step: &str, job: &str) -> ShownTimes {
    ShownTimes { step: step.to_string(), job: job.to_string() }
}

fn context() -> JobSpawnContext {
    JobSpawnContext {
        base_dir: "/base".to_string(),
        candidate_dir: "/candidate".to_string(),
        command_prefix: vec!["bash".to_string(), "-c".to_string()],
        command: "make check".to_string(),
        print_output: false,
        socket_path: "/tmp/sock".to_string(),
        env: JobEnv {
            run_mode: "inline".to_string(),
            candidate: revision("feature", "c"),
            tested: None,
        },
    }
}

fn outcome(job: &str, exit_code: Option<i32>, steps: Vec<StepLogEntry>) -> JobMessage {
    JobMessage::Completed(RunJobOutcome {
        job_name: job.to_string(),
        exit_code,
        output: "line\n".to_string(),
        duration: 1_500_000_000,
        steps,
    })
}

fn started(job: &str) -> JobMessage {
    JobMessage::Started { job_name: job.to_string() }
}

/// Runs a check of one job with the given steps and exit code.
fn one_job(steps: &[(&str, Option<bool>)], exit_code: Option<i32>) -> (String, CheckResult) {
    let mode = CheckMode::Inline { print_output: false };
    let mut progress = CheckProgress::new(mode);
    let mut states = JobStates::new();
    let mut printed = String::new();
    states.mark_used("main");
    printed.push_str(&progress.take(&mut states, &started("main"), 10, &times("", "")).0);
    let mut now: u64 = 20;
    for (step, failure) in steps {
        let mut requests = vec![JobControlRequest::LogStep {
            job_name: "main".to_string(),
            step_name: step.to_string(),
        }];
        if let Some(ignore) = failure {
            requests.push(JobControlRequest::MarkStepFailed {
                job_name: "main".to_string(),
                ignore: *ignore,
            });
        }
        for request in requests {
            now += 1;
            let (messages, _) = control_socket_listener(&mut states, &request, &context(), now);
            for message in messages {
                printed.push_str(&progress.take(&mut states, &message, now, &times("0.100", "")).0);
            }
        }
    }
    let done = outcome("main", exit_code, states.steps_for("main"));
    let (text, finished) = progress.take(&mut states, &done, 90, &times("0.200", "1.500"));
    assert!(finished);
    printed.push_str(&text);
    (printed, progress.finish(7))
}

#[test]
fn test_step_names_include_job_prefix() {
    let (printed, result) = one_job(&[("build", None)], Some(0));
    assert!(printed.contains("main/build"), "{}", printed);
    assert!(printed.contains("🚀 Job started: main"), "{}", printed);
    assert!(printed.contains("✅ Job passed: main (1.500s)"), "{}", printed);
    assert!(check_passed(&result));
    assert_eq!(result.duration, 7);
}

#[test]
fn test_failing_step() {
    let (printed, result) = one_job(&[("good", None), ("bad", Some(false))], Some(0));
    assert!(printed.contains("✅ passed: main/good"), "{}", printed);
    assert!(printed.contains("❌ failed: main/bad"), "{}", printed);
    assert!(printed.contains("❌ Job failed: main (step failure"), "{}", printed);
    assert!(!check_passed(&result));
}

#[test]
fn test_ignored_failing_step() {
    let (printed, result) = one_job(&[("flaky", Some(true)), ("last", None)], Some(0));
    assert!(printed.contains("⚠️"), "{}", printed);
    assert!(check_passed(&result), "{}", printed);
}

#[test]
fn exit_codes_decide_where_no_step_failed() {
    let (printed, result) = one_job(&[], Some(3));
    assert!(printed.contains("❌ Job failed: main (exit code: 3, 1.500s)"), "{}", printed);
    assert!(printed.contains("--- output: main ---\nline\n--- end output ---\n"), "{}", printed);
    assert!(!check_passed(&result));
    let (printed, result) = one_job(&[], None);
    assert!(printed.contains("(no exit code, "), "{}", printed);
    assert!(!check_passed(&result));
}

#[test]
fn checks_end_when_no_job_is_active() {
    let mut progress = CheckProgress::new(CheckMode::MergeQueue);
    let mut states = JobStates::new();
    for job in ["main", "lint"] {
        states.mark_used(job);
        let (text, finished) = progress.take(&mut states, &started(job), 1, &times("", ""));
        assert_eq!(text, "", "a check of the queue prints nothing");
        assert!(!finished);
    }
    assert_eq!(progress.active_jobs(), 2);
    assert_eq!(progress.total_jobs(), 2);
    let lint = outcome("lint", Some(1), vec![]);
    assert!(!progress.take(&mut states, &lint, 5, &times("0.001", "1.500")).1);
    let main = outcome("main", Some(0), vec![]);
    assert!(progress.take(&mut states, &main, 6, &times("0.001", "1.500")).1);
    let result = progress.finish(9);
    assert!(!check_passed(&result), "one job that failed fails the check");
    let statuses: Vec<JobStatus> = result.jobs.iter().map(|job| job.status).collect();
    assert_eq!(statuses, vec![JobStatus::Failed, JobStatus::Succeeded]);
    assert!(result.output.contains("Job passed: main"), "{}", result.output);
}

#[test]
fn durations_are_measured_from_the_starts() {
    let mode = CheckMode::Inline { print_output: true };
    assert!(mode.print_output());
    let mut progress = CheckProgress::new(mode);
    let mut states = JobStates::new();
    states.mark_used("main");
    progress.take(&mut states, &started("main"), 10, &times("", ""));
    for message in states.start_step("main", "build", 100) {
        progress.take(&mut states, &message, 100, &times("", ""));
    }
    let done = JobMessage::StepCompleted {
        job_name: "main".to_string(),
        step_name: "build".to_string(),
        status: StepStatus::Success,
    };
    assert_eq!(progress.times(&states, &done, 350).0, 250);
    assert_eq!(progress.times(&states, &outcome("main", Some(0), vec![]), 400).1, 1_500_000_000);
}

#[test]
fn checks_begin_with_the_job_main() {
    let mut states = JobStates::new();
    assert!(!states.is_used("main"));
    let job = begin_jobs(&mut states, &context());
    assert_eq!(job.job_name, "main");
    assert_eq!(job.job_full_command, vec!["bash", "-c", "make check"]);
    assert!(states.is_used("main"));
    let again = JobControlRequest::StartJob { name: "main".to_string() };
    match control_socket_listener(&mut states, &again, &context(), 1).1 {
        ControlAction::Respond(JobControlResponse::Error(e)) => {
            assert_eq!(e, "Job 'main' already started");
        }
        other => panic!("{:?}", other),
    }
}

#[test]
fn jobs_control_their_check_over_its_socket() {
    let mut states = JobStates::new();
    begin_jobs(&mut states, &context());
    let mut ask = |request: JobControlRequest, now: u64| {
        control_socket_listener(&mut states, &request, &context(), now)
    };
    let start = |name: &str| JobControlRequest::StartJob { name: name.to_string() };
    match ask(start("lint"), 1).1 {
        ControlAction::Spawn(job) => {
            assert_eq!(job.job_name, "lint");
            assert_eq!(job.job_full_command, vec!["bash", "-c", "make check"]);
        }
        other => panic!("{:?}", other),
    }
    match ask(start("lint"), 2).1 {
        ControlAction::Respond(JobControlResponse::Error(e)) => {
            assert_eq!(e, "Job 'lint' already started");
        }
        other => panic!("{:?}", other),
    }
    let fail = || JobControlRequest::MarkStepFailed { job_name: "lint".to_string(), ignore: false };
    match ask(fail(), 3).1 {
        ControlAction::Respond(JobControlResponse::Error(e)) => assert!(e.contains("lint"), "{}", e),
        other => panic!("{:?}", other),
    }
    let log = |step: &str| JobControlRequest::LogStep {
        job_name: "lint".to_string(),
        step_name: step.to_string(),
    };
    let (messages, action) = ask(log("first"), 4);
    assert!(matches!(action, ControlAction::Respond(JobControlResponse::StepLogged)));
    assert_eq!(messages.len(), 1);
    let (messages, _) = ask(log("second"), 5);
    assert_eq!(messages.len(), 2, "the step before is completed: {:?}", messages);
    assert!(matches!(
        ask(fail(), 6).1,
        ControlAction::Respond(JobControlResponse::StepMarkedFailed)
    ));
    let wait = |name: &str| JobControlRequest::WaitForJob { name: name.to_string() };
    assert!(matches!(ask(wait("lint"), 7).1, ControlAction::Wait));
    assert!(matches!(
        ask(wait("other"), 8).1,
        ControlAction::Respond(JobControlResponse::JobNotFound)
    ));
    states.complete("lint", JobStatus::Failed);
    match control_socket_listener(&mut states, &wait("lint"), &context(), 9).1 {
        ControlAction::Respond(JobControlResponse::JobCompleted { status }) => {
            assert_eq!(status, JobStatus::Failed);
        }
        other => panic!("{:?}", other),
    }
    let steps = states.steps_for("lint");
    assert_eq!(steps[0].status, StepStatus::Success);
    assert_eq!(steps[1].status, StepStatus::Failed { ignored: false });

    assert!(matches!(job_queued(Ok(())), JobControlResponse::JobStarted));
    match job_queued(Err("closed".to_string())) {
        JobControlResponse::Error(e) => assert_eq!(e, "Failed to queue job: closed"),
        other => panic!("{:?}", other),
    }
}

#[test]
fn jobs_run_in_the_candidate_with_their_environment() {
    let mut ctx = context();
    ctx.env.tested = Some((CommitId::new(&"d".repeat(40)).unwrap(), ChangeId::new("change-d")));
    let job = ctx.job_request("main");
    let shown = job_invocation(&job).cmd.display();
    for part in [
        "bash -c 'make check'".to_string(),
        "# in /candidate".to_string(),
        "SELFCI_JOB_NAME=main".to_string(),
        "SELFCI_JOB_SOCK_PATH=/tmp/sock".to_string(),
        "SELFCI_BASE_DIR=/base".to_string(),
        "SELFCI_CANDIDATE_DIR=/candidate".to_string(),
        format!("SELFCI_CANDIDATE_COMMIT_ID={}", "c".repeat(40)),
        format!("SELFCI_MERGED_COMMIT_ID={}", "d".repeat(40)),
        "SELFCI_RUN_MODE=inline".to_string(),
    ] {
        assert!(shown.contains(&part), "{} in {}", part, shown);
    }
    let run = JobExecution::Finished { output: "out".to_string(), exit_code: Some(2) };
    let (first, last) = job_worker(job, run, 11);
    assert!(matches!(first, JobMessage::Started { .. }));
    match last {
        JobMessage::Completed(o) => {
            assert_eq!(o.exit_code, Some(2));
            assert_eq!(o.output, "out");
            assert_eq!(o.duration, 11);
        }
        other => panic!("{:?}", other),
    }
    let run = JobExecution::NotStarted("no bash".to_string());
    match job_worker(context().job_request("main"), run, 1).1 {
        JobMessage::Completed(o) => assert_eq!(o.output, "Failed to start command: no bash"),
        other => panic!("{:?}", other),
    }
}

fn config(command: &str) -> SelfCIConfig {
    SelfCIConfig {
        job: JobConfig {
            command: command.to_string(),
            command_prefix: vec!["sh".to_string(), "-c".to_string()],
            clone_mode: CloneMode::Full,
        },
        mq: None,
    }
}

fn check_setup() -> CheckSetup {
    CheckSetup {
        root_dir: "/repo".to_string(),
        base: revision("main", "b"),
        tested: revision("feature", "d"),
        candidate: revision("feature", "c"),
        integrated: true,
        mode: CheckMode::Inline { print_output: false },
        post_clone: None,
        hook_env: None,
    }
}

fn no_check() -> CheckHistory {
    CheckHistory {
        vcs: None,
        root_config: None,
        base_dir: None,
        candidate_dir: None,
        exported: None,
        post_clone: None,
        attested: None,
        base_config: None,
        socket: None,
        jobs: None,
        attested_after: None,
    }
}

/// A history in which everything before the jobs has succeeded.
fn ready() -> CheckHistory {
    CheckHistory {
        vcs: Some(Ok(VCS::Git)),
        root_config: Some(Ok(config("command of the root"))),
        base_dir: Some(Ok("/base".to_string())),
        candidate_dir: Some(Ok("/candidate".to_string())),
        exported: Some(Ok(())),
        post_clone: None,
        attested: Some(Ok(true)),
        base_config: Some(Ok(config("command of the base"))),
        socket: Some(Ok("/tmp/sock".to_string())),
        jobs: None,
        attested_after: None,
    }
}

fn passing() -> CheckResult {
    CheckResult {
        output: "fine".to_string(),
        steps: vec![],
        jobs: vec![],
        exit_code: Some(0),
        duration: 1,
        post_clone_output: None,
        post_clone_success: None,
    }
}

#[test]
fn test_config_read_from_base_security() {
    match run_candidate_check(&check_setup(), &ready()) {
        CheckStep::RunJobs(ctx) => {
            assert_eq!(ctx.command, "command of the base");
            assert_eq!(ctx.candidate_dir, "/candidate");
            assert_eq!(ctx.env.tested.unwrap().0.as_str(), "d".repeat(40));
        }
        other => panic!("{:?}", other),
    }
    let mut h = ready();
    h.base_config = None;
    match run_candidate_check(&check_setup(), &h) {
        CheckStep::ReadBaseConfig { base_dir } => assert_eq!(base_dir, "/base"),
        other => panic!("{:?}", other),
    }
}

#[test]
fn checks_prepare_their_directories_in_order() {
    let mut h = no_check();
    let s = check_setup();
    assert!(matches!(run_candidate_check(&s, &h), CheckStep::DetectVcs));
    h.vcs = Some(Ok(VCS::Git));
    assert!(matches!(run_candidate_check(&s, &h), CheckStep::ReadRootConfig));
    h.root_config = ready().root_config;
    assert!(matches!(run_candidate_check(&s, &h), CheckStep::CreateBaseDir));
    h.base_dir = ready().base_dir;
    assert!(matches!(run_candidate_check(&s, &h), CheckStep::CreateCandidateDir));
    h.candidate_dir = ready().candidate_dir;
    match run_candidate_check(&s, &h) {
        CheckStep::Export { vcs, base, base_dir, tested, candidate_dir, clone_mode } => {
            assert_eq!(vcs, VCS::Git);
            assert_eq!(base.as_str(), "b".repeat(40));
            assert_eq!(tested.as_str(), "d".repeat(40));
            assert_eq!((base_dir.as_str(), candidate_dir.as_str()), ("/base", "/candidate"));
            assert_eq!(clone_mode, CloneMode::Full);
        }
        other => panic!("{:?}", other),
    }
    h.exported = Some(Ok(()));
    assert!(matches!(run_candidate_check(&s, &h), CheckStep::Attest));

    h.vcs = Some(Err(VCSError::NoVCSFound));
    assert!(matches!(
        run_candidate_check(&s, &h),
        CheckStep::Fail(CheckFailure { error: MainError::NoVCSFound, .. })
    ));
}

#[test]
fn changed_directories_fail_the_check() {
    let s = check_setup();
    let mut h = ready();
    h.attested = Some(Ok(false));
    assert!(!matches!(run_candidate_check(&s, &h), CheckStep::RunJobs(_)));

    let mut h = ready();
    h.jobs = Some(Ok(passing()));
    assert!(matches!(run_candidate_check(&s, &h), CheckStep::AttestAgain));
    h.attested_after = Some(Ok(true));
    match run_candidate_check(&s, &h) {
        CheckStep::Done(result) => assert!(check_passed(&result)),
        other => panic!("{:?}", other),
    }
    h.attested_after = Some(Ok(false));
    match run_candidate_check(&s, &h) {
        CheckStep::Done(result) => assert!(!check_passed(&result)),
        CheckStep::Fail(_) => {}
        other => panic!("{:?}", other),
    }
}

#[test]
fn post_clone_hooks_guard_the_jobs() {
    let mut s = check_setup();
    s.post_clone = Some(CommandConfig {
        command: Some("prepare".to_string()),
        command_prefix: vec!["bash".to_string(), "-c".to_string()],
    });
    let mut h = ready();
    match run_candidate_check(&s, &h) {
        CheckStep::RunHook(inv) => assert!(inv.cmd.display().contains("prepare")),
        other => panic!("{:?}", other),
    }
    h.post_clone = Some(Reply::Output { success: false, text: "broken".to_string() });
    match run_candidate_check(&s, &h) {
        CheckStep::Done(result) => {
            assert_eq!(result.post_clone_success, Some(false));
            assert_eq!(result.post_clone_output.as_deref(), Some("broken"));
            assert!(!check_passed(&result));
        }
        other => panic!("{:?}", other),
    }
    h.post_clone = Some(Reply::Output { success: true, text: "ready".to_string() });
    assert!(matches!(run_candidate_check(&s, &h), CheckStep::RunJobs(_)));

    // What the hook printed is kept whatever goes wrong after it.
    let failure = |h: &CheckHistory| match run_candidate_check(&s, h) {
        CheckStep::Fail(failure) => {
            assert_eq!(failure.post_clone_output.as_deref(), Some("ready"));
            failure
        }
        other => panic!("{:?}", other),
    };
    h.jobs = Some(Err(MainError::CheckFailed));
    assert!(failure(&h).jobs.is_none());
    h.jobs = Some(Ok(passing()));
    h.attested_after = Some(Err(MainError::CheckFailed));
    assert_eq!(failure(&h).jobs.unwrap().output, "fine");
    h.socket = Some(Err(SocketError::NoPath("full".to_string())));
    assert!(matches!(failure(&h).error, MainError::CreateFailed(_)));
    h.socket = Some(Err(SocketError::NotBound));
    assert!(matches!(failure(&h).error, MainError::CheckFailed));
    h.base_config = Some(Err(MainError::CheckFailed));
    assert!(matches!(failure(&h).error, MainError::CheckFailed));
    h.attested = Some(Err(MainError::CheckFailed));
    assert!(matches!(failure(&h).error, MainError::CheckFailed));
}

#[test]
fn sockets_that_cannot_be_opened_fail_the_check() {
    let mut h = ready();
    h.socket = Some(Err(SocketError::NotBound));
    assert!(matches!(run_candidate_check(&check_setup(), &h), CheckStep::Fail(_)));
}

fn inline() -> InlineSetup {
    InlineSetup {
        root_dir: "/repo".to_string(),
        base: None,
        candidate: None,
        print_output: false,
    }
}

fn inline_history() -> InlineHistory {
    InlineHistory {
        vcs: Some(Ok(VCS::Git)),
        base: Some(Ok(revision("main", "b"))),
        candidate: Some(Ok(revision("HEAD", "b"))),
        config: Some(Ok(config("x"))),
        test_merge: None,
        result: None,
    }
}

#[test]
fn test_git_check_same_base_candidate() {
    match check(&inline(), &inline_history()) {
        InlineStep::Check(setup) => {
            assert!(!setup.integrated);
            assert_eq!(setup.tested.commit_id.as_str(), "b".repeat(40));
        }
        other => panic!("{:?}", other),
    }
}

#[test]
fn differing_commits_are_integrated_before_they_are_checked() {
    let mut h = inline_history();
    h.candidate = Some(Ok(revision("HEAD", "c")));
    match check(&inline(), &h) {
        InlineStep::TestMerge { base, candidate, merge_mode } => {
            assert_eq!(base.commit_id.as_str(), "b".repeat(40));
            assert_eq!(candidate.commit_id.as_str(), "c".repeat(40));
            assert_eq!(merge_mode, MergeStyle::Rebase);
        }
        other => panic!("{:?}", other),
    }
    h.test_merge = Some(Ok(TestMergeOutcome {
        commit_id: CommitId::new(&"d".repeat(40)).unwrap(),
        change_id: ChangeId::new("change-d"),
        output: String::new(),
    }));
    match check(&inline(), &h) {
        InlineStep::Check(setup) => {
            assert!(setup.integrated);
            assert_eq!(setup.tested.commit_id.as_str(), "d".repeat(40));
            assert_eq!(setup.candidate.commit_id.as_str(), "c".repeat(40));
        }
        other => panic!("{:?}", other),
    }
    h.result = Some(Ok(passing()));
    assert!(matches!(check(&inline(), &h), InlineStep::Done));
    let mut failing = passing();
    failing.exit_code = Some(1);
    h.result = Some(Ok(failing));
    assert!(matches!(check(&inline(), &h), InlineStep::Fail(MainError::CheckFailed)));
    h.result = Some(Err(CheckFailure {
        error: MainError::NoVCSFound,
        post_clone_output: None,
        jobs: None,
    }));
    assert!(matches!(check(&inline(), &h), InlineStep::Fail(MainError::NoVCSFound)));
}

#[test]
fn parallelism_is_what_was_asked_for_else_what_there_is() {
    assert_eq!(parallelism(Some(3), Some(8)), 3);
    assert_eq!(parallelism(None, Some(8)), 8);
    assert!(parallelism(None, None) >= 1);
}
