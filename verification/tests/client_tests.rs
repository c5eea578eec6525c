use selfci::check::ShownTimes;
use selfci::client::{
    add_candidate, default_candidate, get_daemon_version, get_status, list_runs, print_pid,
    print_runtime_dir, run_to_show, wait_for_run, wait_for_run_id, AddHistory, AddStep, ClientStep,
    End, QueryHistory, Report, WaitStep,
};
use selfci::config::MergeStyle;
use selfci::exit_codes;
use selfci::listing::{
    active_steps, can_show, elapsed, frame_table, runs_table, show_runs, show_status, show_time,
};
use selfci::mq_protocol::{
    FailedReason, MQRequest, MQResponse, MQRunInfo, MQRunStatus, PassedReason, RunId,
};
use selfci::protocol::{JobLogEntry, JobStatus, StepLogEntry, StepStatus};
use selfci::revision::{ChangeId, CommitId, ResolvedRevision, UserRevision};
use selfci::{MainError, VCSError, VCS};

/// 2018-02-14T00:28:07Z
const TIME: u64 = 1_518_568_087_123_456_789;

fn run(id: u64, status: MQRunStatus) -> MQRunInfo {
    MQRunInfo {
        id: RunId(id),
        candidate: ResolvedRevision {
            user: UserRevision::new("feature"),
            change_id: ChangeId::new("kkkkkkkkzzzzzzzz"),
            commit_id: CommitId::new("0123456789abcdef0123456789abcdef01234567").unwrap(),
        },
        status,
        queued_at: TIME,
        started_at: None,
        completed_at: None,
        merge_mode: MergeStyle::Rebase,
        test_merge_output: String::new(),
        output: String::new(),
        active_jobs: vec![],
        completed_steps: vec![],
        completed_jobs: vec![],
        no_merge: false,
    }
}

fn step(name: &str, status: StepStatus, ts: u64) -> StepLogEntry {
    StepLogEntry { ts, name: name.to_string(), status, job_started_at: None }
}

fn asked(response: Option<Result<MQResponse, String>>) -> QueryHistory {
    QueryHistory { runtime_dir: Some(Ok(Some("/run/x".to_string()))), response }
}

fn report(step: ClientStep) -> Report {
    match step {
        ClientStep::Done(report) => report,
        other => panic!("expected a report: {:?}", other),
    }
}

fn failure(report: Report) -> MainError {
    match report.end {
        End::Fail(e) => e,
        other => panic!("expected a failure: {:?}", other),
    }
}

#[test]
fn times_are_shown_in_utc() {
    assert_eq!(show_time(TIME), "2018-02-14T00:28:07Z");
    assert_eq!(show_time(0), "1970-01-01T00:00:00Z");
    assert_eq!(show_time(951_782_400_000_000_000), "2000-02-29T00:00:00Z");
    assert_eq!(show_time(u64::MAX), "2554-07-21T23:34:33Z");
}

#[test]
fn runs_are_listed_in_a_table() {
    let runs = vec![
        run(12, MQRunStatus::Passed(PassedReason::Rebased)),
        run(3, MQRunStatus::Queued),
    ];
    let table = runs_table(&runs).to_string();
    assert_eq!(table.lines().count(), 3, "{}", table);
    let lines = show_runs(&runs);
    assert_eq!(lines.len(), 4);
    for heading in ["ID", "Status", "Change", "Commit", "Candidate", "Queued"] {
        assert!(lines[0].contains(heading), "{:?}", lines);
    }
    assert_eq!(lines[1], "-".repeat(lines[0].len()));
    let words: Vec<&str> = lines[2].split_whitespace().collect();
    assert_eq!(
        words,
        vec!["12", "Passed:", "rebased", "kkkkkkkk", "01234567", "feature", "2018-02-14T00:28:07Z"]
    );
    assert!(lines[3].contains("Queued"), "{:?}", lines);
    assert_eq!(show_runs(&vec![]), vec!["No runs in queue"]);
    assert!(frame_table("").is_empty());
    assert_eq!(frame_table("é\nrow"), vec!["é", "--", "row"]);
}

#[test]
fn changes_are_cut_between_characters_only() {
    let mut odd = run(1, MQRunStatus::Queued);
    odd.candidate.change_id = ChangeId::new("aaaaaaaé");
    assert!(!can_show(&odd));
    odd.candidate.change_id = ChangeId::new("aaaaaaé");
    assert!(can_show(&odd));
    odd.candidate.change_id = ChangeId::new("ab");
    assert!(can_show(&odd));
    assert!(show_runs(&vec![odd])[2].contains(" ab "));
}

#[test]
fn statuses_name_what_is_active_and_what_failed() {
    let mut running = run(5, MQRunStatus::Running);
    running.started_at = Some(TIME + 1_000_000_000);
    running.active_jobs = vec![
        step("main/build", StepStatus::Running, 10),
        step("lint", StepStatus::Success, 11),
        step("docs", StepStatus::Running, 12),
    ];
    let active: Vec<String> = active_steps(&running).iter().map(|s| s.name.clone()).collect();
    assert_eq!(active, vec!["main/build", "docs"]);
    let times = vec![
        ShownTimes { step: "1.0".to_string(), job: "2.5".to_string() },
        ShownTimes { step: "0.1".to_string(), job: "0.1".to_string() },
    ];
    assert_eq!(
        show_status(&running, &times),
        vec![
            "Run ID: 5",
            "Candidate: feature (commit: 0123456789abcdef0123456789abcdef01234567)",
            "Status: Running",
            "Queued at: 2018-02-14T00:28:07Z",
            "Started at: 2018-02-14T00:28:08Z",
            "Active Steps: main/build (1.0s/2.5s), docs (0.1s/0.1s)",
        ]
    );

    let mut failed = run(6, MQRunStatus::Failed(FailedReason::Check));
    failed.merge_mode = MergeStyle::Merge;
    failed.started_at = Some(TIME);
    failed.completed_at = Some(TIME + 2_000_000_000);
    failed.active_jobs = vec![step("main/build", StepStatus::Running, 10)];
    failed.test_merge_output = "merged".to_string();
    failed.output = "checked".to_string();
    failed.completed_steps = vec![
        step("main/a", StepStatus::Failed { ignored: true }, 1),
        step("main/b", StepStatus::Failed { ignored: false }, 2),
    ];
    failed.completed_jobs = vec![
        JobLogEntry { name: "main".to_string(), status: JobStatus::Failed },
        JobLogEntry { name: "lint".to_string(), status: JobStatus::Succeeded },
    ];
    let lines = show_status(&failed, &vec![]);
    assert_eq!(
        lines[4..].to_vec(),
        vec![
            "Started at: 2018-02-14T00:28:07Z",
            "Completed at: 2018-02-14T00:28:09Z",
            "\n### Pre-check Merge\n",
            "merged",
            "\n### Check Output\n",
            "checked",
            "\nFailed: main/b, main",
        ]
    );
}

#[test]
fn elapsed_times_never_run_backwards() {
    let mut entry = step("main/build", StepStatus::Running, 100);
    assert_eq!(elapsed(&entry, 150), (50, 50));
    assert_eq!(elapsed(&entry, 50), (0, 0));
    entry.job_started_at = Some(40);
    assert_eq!(elapsed(&entry, 150), (50, 110));
    entry.job_started_at = Some(200);
    assert_eq!(elapsed(&entry, 150), (50, 50));
}

#[test]
fn commands_find_the_daemon_and_ask_it() {
    let mut h = QueryHistory { runtime_dir: None, response: None };
    assert!(matches!(list_runs(Some(3), &h), ClientStep::FindRuntimeDir));
    h.runtime_dir = Some(Ok(None));
    assert!(matches!(failure(report(list_runs(Some(3), &h))), MainError::DaemonNotRunning));
    assert!(matches!(failure(report(get_status(1, &h, &vec![]))), MainError::DaemonNotRunning));
    h.runtime_dir = Some(Err(MainError::CommunicationFailed));
    assert!(matches!(failure(report(list_runs(None, &h))), MainError::CommunicationFailed));
    match list_runs(Some(3), &asked(None)) {
        ClientStep::Send { socket, request: MQRequest::List { limit }, line } => {
            assert_eq!(socket, "/run/x/mq.sock");
            assert_eq!(limit, Some(3));
            assert!(line.is_none());
        }
        other => panic!("{:?}", other),
    }
    let refused = asked(Some(Err("Connection refused".to_string())));
    assert!(matches!(failure(report(list_runs(None, &refused))), MainError::CommunicationFailed));
    let error = asked(Some(Ok(MQResponse::Error("busy".to_string()))));
    let said = report(list_runs(None, &error));
    assert_eq!(said.err, vec!["Error: busy"]);
    assert!(matches!(failure(said), MainError::CheckFailed));
    let odd = asked(Some(Ok(MQResponse::HelloAck { pid: 1 })));
    assert_eq!(report(list_runs(None, &odd)).err, vec!["Unexpected response from daemon"]);
    let none = asked(Some(Ok(MQResponse::RunList { runs: vec![] })));
    assert_eq!(report(list_runs(None, &none)).out, vec!["No runs in queue"]);
}

#[test]
fn statuses_are_reported_for_runs_that_exist() {
    let h = asked(Some(Ok(MQResponse::RunStatus { run: Some(run(4, MQRunStatus::Queued)) })));
    assert_eq!(run_to_show(&h).unwrap().id, RunId(4));
    let said = report(get_status(4, &h, &vec![]));
    assert!(matches!(said.end, End::Success));
    assert_eq!(said.out[0], "Run ID: 4");
    let h = asked(Some(Ok(MQResponse::RunStatus { run: None })));
    assert!(run_to_show(&h).is_none());
    let said = report(get_status(4, &h, &vec![]));
    assert_eq!(said.err, vec!["Run 4 not found"]);
    assert!(matches!(failure(said), MainError::CheckFailed));
}

fn add(h: &AddHistory) -> AddStep {
    add_candidate(None, false, true, h)
}

#[test]
fn submissions_start_a_daemon_where_there_is_none() {
    let mut h = AddHistory { vcs: None, runtime_dir: None, started: None, response: None };
    assert!(matches!(add(&h), AddStep::DetectVcs));
    h.vcs = Some(Ok(VCS::Jujutsu));
    assert!(matches!(add(&h), AddStep::FindRuntimeDir));
    h.runtime_dir = Some(Ok(None));
    assert!(matches!(add(&h), AddStep::AutoStart));
    h.started = Some(Ok(None));
    match add(&h) {
        AddStep::Done { report, wait_for } => {
            assert_eq!(report.err[0], "Start it with: selfci mq start --base-branch <branch>");
            assert!(wait_for.is_none());
            assert!(matches!(failure(report), MainError::DaemonNotRunning));
        }
        other => panic!("{:?}", other),
    }
    h.started = Some(Ok(Some("/run/y".to_string())));
    match add(&h) {
        AddStep::Send { socket, request: MQRequest::AddCandidate { candidate, no_merge } } => {
            assert_eq!(socket, "/run/y/mq.sock");
            assert_eq!(candidate, "@-");
            assert!(!no_merge);
        }
        other => panic!("{:?}", other),
    }
    h.response = Some(Ok(MQResponse::CandidateAdded { run_id: RunId(8) }));
    match add(&h) {
        AddStep::Done { report, wait_for } => {
            assert_eq!(report.out, vec!["Added to merge queue with run ID: 8"]);
            assert_eq!(wait_for, Some(RunId(8)));
        }
        other => panic!("{:?}", other),
    }
    match add_candidate(Some("x"), true, false, &h) {
        AddStep::Done { report, wait_for } => {
            assert_eq!(report.out, vec!["Added to merge queue with run ID: 8 (no-merge mode)"]);
            assert!(wait_for.is_none());
        }
        other => panic!("{:?}", other),
    }
    h.vcs = Some(Err(VCSError::NoVCSFound));
    match add(&h) {
        AddStep::Done { report, .. } => assert!(matches!(failure(report), MainError::NoVCSFound)),
        other => panic!("{:?}", other),
    }
    assert_eq!(default_candidate(&VCS::Git), "HEAD");
}

#[test]
fn waiting_ends_as_the_run_ends() {
    let h = asked(None);
    assert!(matches!(wait_for_run(Some(3), &h), WaitStep::WaitFor(RunId(3))));
    match wait_for_run(None, &h) {
        WaitStep::Ask(ClientStep::Send { request: MQRequest::List { limit }, .. }) => {
            assert_eq!(limit, Some(1));
        }
        other => panic!("{:?}", other),
    }
    let h = asked(Some(Ok(MQResponse::RunList { runs: vec![run(9, MQRunStatus::Queued)] })));
    assert!(matches!(wait_for_run(None, &h), WaitStep::WaitFor(RunId(9))));
    let h = asked(Some(Ok(MQResponse::RunList { runs: vec![] })));
    match wait_for_run(None, &h) {
        WaitStep::Ask(ClientStep::Done(report)) => {
            assert!(matches!(report.end, End::Exit(exit_codes::EXIT_MQ_RUN_NOT_FOUND)));
        }
        other => panic!("{:?}", other),
    }
    match wait_for_run_id(RunId(9), &asked(None)) {
        ClientStep::Send { request: MQRequest::WaitForRun { run_id }, line, .. } => {
            assert_eq!(run_id, RunId(9));
            assert_eq!(line.as_deref(), Some("Waiting for run 9 ..."));
        }
        other => panic!("{:?}", other),
    }
    let ended = |status: MQRunStatus| {
        let h = asked(Some(Ok(MQResponse::RunStatus { run: Some(run(9, status)) })));
        report(wait_for_run_id(RunId(9), &h))
    };
    let passed = ended(MQRunStatus::Passed(PassedReason::Merged));
    assert_eq!(passed.err, vec!["Run 9 completed: Passed: merged"]);
    assert!(matches!(passed.end, End::Success));
    let failed = ended(MQRunStatus::Failed(FailedReason::Check));
    assert!(matches!(failed.end, End::Exit(exit_codes::EXIT_MQ_WAIT_FAILED)));
    let gone = asked(Some(Ok(MQResponse::RunStatus { run: None })));
    assert_eq!(report(wait_for_run_id(RunId(9), &gone)).err, vec!["Run 9 not found"]);
}

#[test]
fn the_daemon_is_described() {
    assert_eq!(print_runtime_dir(&Ok(Some("/run/x".to_string()))).out, vec!["/run/x"]);
    assert!(matches!(failure(print_runtime_dir(&Ok(None))), MainError::DaemonNotRunning));

    let dir = Some(Ok(Some("/run/x".to_string())));
    match print_pid(&dir, &None) {
        ClientStep::ReadPid { path } => assert_eq!(path, "/run/x/mq.pid"),
        other => panic!("{:?}", other),
    }
    assert_eq!(report(print_pid(&dir, &Some(Ok(" 42\n".to_string())))).out, vec!["42"]);
    let unreadable = Some(Err("denied".to_string()));
    assert!(matches!(failure(report(print_pid(&dir, &unreadable))), MainError::CreateFailed(_)));

    let version = asked(Some(Ok(MQResponse::Version { version: "0.4.0".to_string() })));
    assert_eq!(report(get_daemon_version(&version)).out, vec!["selfci 0.4.0"]);
    let none = QueryHistory { runtime_dir: Some(Ok(None)), response: None };
    let said = report(get_daemon_version(&none));
    assert_eq!(said.out, vec!["Merge queue daemon is not running for this project"]);
    assert!(matches!(said.end, End::Success));
}
