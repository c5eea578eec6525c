use selfci::config::{CommandConfig, MQHooksConfig, MergeStyle, MergedMQConfig};
use selfci::daemon::{
    ensure_private_runtime_directory, get_daemon_dir_for_pid, get_project_daemon_runtime_dir,
    get_selfci_root_runtime_dir, paths_equal, verified_daemon_pid, DirFacts, ExplicitDir, FoundDir,
    FoundDirs, PrivateDirHistory, PrivateDirStep, ProjectFile,
};
use selfci::mq_protocol::{MQRequest, MQResponse};
use selfci::process_exit::{WaitOutcome, WatchState};
use selfci::script::Reply;
use selfci::startup::{
    after_accept, auto_start_daemon, check_daemon_already_running, daemonize, daemonize_background,
    daemonize_foreground, log_path, pid_file, run_daemon_loop, shutdown_requested, start_daemon,
    start_daemon_common, AcceptStep, AutoStart, DaemonAction, DaemonSetup, DaemonizeOutcome,
    DaemonizeStep, ForkSide, ServeHistory, ServeStep, StartAction, StartDaemonResult,
    StartHistory, StartSetup, StartStep,
};
use selfci::stop::{
    mq_stop_timeout, read_pid, remove_daemon_dir, remove_daemon_dir_if_pid, stop_daemon,
    FileFailure, KillFailure, RemoveStep, StopHistory, StopStep,
};
use selfci::MainError;

const UID: u32 = 1000;

fn private_dir(facts: DirFacts) -> PrivateDirStep {
    let h = PrivateDirHistory {
        created: Some(Err((true, "File exists".to_string()))),
        facts: Some(Ok(facts)),
        mode_set: None,
    };
    ensure_private_runtime_directory("/run/selfci", UID, &h)
}

fn facts() -> DirFacts {
    DirFacts { is_dir: true, is_symlink: false, uid: UID, mode: 0o700 }
}

fn refusal(step: PrivateDirStep) -> String {
    match step {
        PrivateDirStep::Fail(e) => e.message(),
        other => panic!("insecure runtime directory should be rejected: {:?}", other),
    }
}

#[test]
fn creates_private_runtime_directory() {
    let mut h = PrivateDirHistory { created: None, facts: None, mode_set: None };
    assert!(matches!(
        ensure_private_runtime_directory("/run/selfci", UID, &h),
        PrivateDirStep::Create
    ));
    h.created = Some(Ok(()));
    assert!(matches!(
        ensure_private_runtime_directory("/run/selfci", UID, &h),
        PrivateDirStep::ReadFacts
    ));
    h.facts = Some(Ok(facts()));
    let step = ensure_private_runtime_directory("/run/selfci", UID, &h);
    if matches!(step, PrivateDirStep::SetMode) {
        h.mode_set = Some(Ok(()));
    }
    assert!(matches!(
        ensure_private_runtime_directory("/run/selfci", UID, &h),
        PrivateDirStep::Done
    ));
}

#[test]
fn rejects_symlink_runtime_directory() {
    let mut link = facts();
    link.is_symlink = true;
    link.is_dir = false;
    let message = refusal(private_dir(link));
    assert!(message.contains("/run/selfci"), "{message}");
    assert!(message.contains("mode 0700"), "{message}");
}

#[test]
fn rejects_insecure_runtime_directory_permissions() {
    let mut open = facts();
    open.mode = 0o755;
    refusal(private_dir(open));
    assert!(!matches!(private_dir(facts()), PrivateDirStep::Fail(_)));
}

#[test]
fn rejects_foreign_runtime_directory_owner() {
    let mut foreign = facts();
    foreign.uid = UID.wrapping_add(1);
    refusal(private_dir(foreign));
}

#[test]
fn runtime_directories_lie_below_the_users_own() {
    assert_eq!(get_selfci_root_runtime_dir(Some("/run/user/7"), 7), vec!["/run/user/7/selfci"]);
    assert_eq!(
        get_selfci_root_runtime_dir(None, 7),
        vec!["/tmp/selfci-7".to_string(), "/tmp/selfci-7/selfci".to_string()]
    );
    assert_eq!(get_daemon_dir_for_pid("/run/user/7/selfci", 42), "/run/user/7/selfci/42");
}

#[test]
fn projects_are_compared_by_their_real_paths() {
    assert!(paths_equal("/a/link", "/b", Some("/real"), Some("/real")));
    assert!(!paths_equal("/a", "/b", Some("/a"), Some("/b")));
    assert!(paths_equal("/gone", "/gone", None, None));
    assert!(!paths_equal("/gone", "/other", None, Some("/other")));
}

fn known(dir: &str, this_project: bool, verified: bool) -> FoundDir {
    FoundDir::Known { dir: dir.to_string(), this_project, verified }
}

#[test]
fn daemons_that_answer_are_found_first() {
    let dirs = FoundDirs::Dirs(vec![
        FoundDir::Unknown,
        known("/run/1", false, true),
        known("/run/2", true, false),
        known("/run/3", true, true),
    ]);
    let found = get_project_daemon_runtime_dir(None, &dirs).unwrap();
    assert_eq!(found.as_deref(), Some("/run/3"));
    let dirs = FoundDirs::Dirs(vec![known("/run/2", true, false)]);
    let found = get_project_daemon_runtime_dir(None, &dirs).unwrap();
    assert_eq!(found.as_deref(), Some("/run/2"));
    assert!(get_project_daemon_runtime_dir(None, &FoundDirs::NoRoot).unwrap().is_none());
    let broken = FoundDirs::Unlistable("denied".to_string());
    assert!(get_project_daemon_runtime_dir(None, &broken).is_err());
}

#[test]
fn named_runtime_directories_must_belong_to_the_project() {
    let explicit = |file: ProjectFile| {
        Some(ExplicitDir { dir: "/run/x".to_string(), project: file })
    };
    let found = |file: ProjectFile| get_project_daemon_runtime_dir(explicit(file), &FoundDirs::NoRoot);
    assert_eq!(
        found(ProjectFile::Names { this_project: true }).unwrap().as_deref(),
        Some("/run/x")
    );
    assert_eq!(found(ProjectFile::Missing).unwrap().as_deref(), Some("/run/x"));
    assert!(found(ProjectFile::Names { this_project: false }).unwrap().is_none());
    assert!(found(ProjectFile::Unreadable("denied".to_string())).is_err());
}

#[test]
fn daemons_answer_under_their_recorded_process() {
    let hello = |pid: i32| Ok(MQResponse::HelloAck { pid });
    assert_eq!(verified_daemon_pid(Some("42\n"), &hello(42)), Some(42));
    assert_eq!(verified_daemon_pid(Some("42"), &hello(43)), None);
    assert_eq!(verified_daemon_pid(Some("x"), &hello(42)), None);
    assert_eq!(verified_daemon_pid(None, &hello(42)), None);
    assert_eq!(verified_daemon_pid(Some("42"), &Err("refused".to_string())), None);
}

#[test]
fn running_daemons_are_reported() {
    let lines = check_daemon_already_running(Some("/run/3"), Some(42), false, true).unwrap();
    assert_eq!(
        lines.unwrap(),
        vec![
            "Merge queue daemon is already running (PID: 42)",
            "Runtime directory: /run/3",
            "Use 'selfci mq stop' to stop it",
        ]
    );
    assert!(check_daemon_already_running(Some("/run/3"), None, false, true).unwrap().is_none());
    assert!(check_daemon_already_running(Some("/run/3"), None, true, false).unwrap().is_none());
    assert!(matches!(
        check_daemon_already_running(Some("/run/3"), None, true, true),
        Err(MainError::CommunicationFailed)
    ));
    assert!(check_daemon_already_running(None, None, true, true).unwrap().is_none());
}

fn daemon_setup() -> DaemonSetup {
    DaemonSetup {
        daemon_dir: "/run/x".to_string(),
        base_branch: "main".to_string(),
        log_file: None,
        pid: 9,
    }
}

#[test]
fn foreground_daemon_reports_failed_runtime_path_and_reason() {
    let done = vec![Err("Not a directory (os error 20)".to_string())];
    match daemonize_foreground(&daemon_setup(), &done) {
        DaemonizeStep::Fail { error, line } => {
            let message = error.message();
            assert!(message.contains("/run/x"), "{message}");
            assert!(message.contains("Not a directory (os error 20)"), "{message}");
            assert!(line.is_none());
        }
        other => panic!("runtime below a file should fail: {:?}", other),
    }
}

#[test]
fn daemons_listen_before_they_can_be_found() {
    let mut done: Vec<Result<(), String>> = vec![];
    let mut actions: Vec<DaemonAction> = vec![];
    loop {
        match daemonize(true, &daemon_setup(), &done, &None, &vec![]) {
            DaemonizeStep::Do(action) => {
                actions.push(action);
                done.push(Ok(()));
            }
            DaemonizeStep::Child { lines } => {
                assert_eq!(
                    lines,
                    vec![
                        "Merge queue daemon started for base branch: main",
                        "Runtime directory: /run/x",
                    ]
                );
                break;
            }
            other => panic!("{:?}", other),
        }
    }
    assert_eq!(
        actions,
        vec![
            DaemonAction::CreateDir,
            DaemonAction::BindSocket,
            DaemonAction::WriteProject,
            DaemonAction::WritePid,
        ]
    );
}

#[test]
fn the_forked_process_writes_its_own_pid() {
    let setup = daemon_setup();
    let before: Vec<Result<(), String>> = vec![Ok(()), Ok(()), Ok(())];
    match daemonize_background(&setup, &before, &None, &vec![]) {
        DaemonizeStep::Fork { line } => assert_eq!(line, "Runtime directory: /run/x"),
        other => panic!("{:?}", other),
    }
    assert!(matches!(
        daemonize_background(&setup, &before, &Some(ForkSide::Parent), &vec![]),
        DaemonizeStep::Parent
    ));
    let refused = Some(ForkSide::Failed("no memory".to_string()));
    match daemonize_background(&setup, &before, &refused, &vec![]) {
        DaemonizeStep::GiveUp { line } => assert_eq!(line, "Failed to fork: no memory"),
        other => panic!("{:?}", other),
    }
    let mut after: Vec<Result<(), String>> = vec![];
    let mut actions: Vec<DaemonAction> = vec![];
    while let DaemonizeStep::Do(action) =
        daemonize_background(&setup, &before, &Some(ForkSide::Child), &after)
    {
        actions.push(action);
        after.push(Ok(()));
    }
    assert!(actions.contains(&DaemonAction::WritePid));
    assert_eq!(actions[0], DaemonAction::NewSession);
    match daemonize_background(&setup, &before, &Some(ForkSide::Child), &after) {
        DaemonizeStep::Child { lines } => {
            assert_eq!(lines[0], "Daemon process started successfully");
            assert_eq!(lines[1], "PID: 9");
        }
        other => panic!("{:?}", other),
    }
    let failing = vec![Err("EPERM".to_string())];
    match daemonize_background(&setup, &before, &Some(ForkSide::Child), &failing) {
        DaemonizeStep::Fail { error, .. } => {
            assert!(error.message().ends_with("Failed to become session leader"));
        }
        other => panic!("{:?}", other),
    }
    let mut log_failure: Vec<Result<(), String>> = vec![];
    while actions[log_failure.len()] != DaemonAction::OpenLog {
        log_failure.push(Ok(()));
    }
    log_failure.push(Err("denied".to_string()));
    match daemonize_background(&setup, &before, &Some(ForkSide::Child), &log_failure) {
        DaemonizeStep::Fail { line, .. } => {
            assert_eq!(line.unwrap(), "ERROR: Failed to open log file /run/x/mq.log: denied");
        }
        other => panic!("{:?}", other),
    }
    let mut elsewhere = daemon_setup();
    elsewhere.log_file = Some("/var/log/mq".to_string());
    assert_eq!(log_path(&elsewhere), "/var/log/mq");
}

fn hook(command: &str) -> Option<CommandConfig> {
    Some(CommandConfig {
        command: Some(command.to_string()),
        command_prefix: vec!["bash".to_string(), "-c".to_string()],
    })
}

fn merged(pre_start: Option<CommandConfig>, post_start: Option<CommandConfig>) -> MergedMQConfig {
    MergedMQConfig {
        base_branch: None,
        merge_mode: MergeStyle::Rebase,
        hooks: MQHooksConfig {
            pre_start,
            post_start,
            pre_clone: None,
            post_clone: None,
            pre_merge: None,
            post_merge: None,
        },
    }
}

fn start(branch: Option<&str>) -> StartSetup {
    StartSetup { root_dir: "/repo".to_string(), base_branch: branch.map(|b| b.to_string()) }
}

fn start_history() -> StartHistory {
    StartHistory {
        config_branch: Some(Some("trunk".to_string())),
        running: Some(Ok(false)),
        config: Some(Ok(merged(hook("unlock"), None))),
        pre_start: Some(said(true, "")),
        daemonized: None,
    }
}

fn said(success: bool, text: &str) -> Reply {
    Reply::Output { success, text: text.to_string() }
}

#[test]
fn test_pre_start_hook_execution() {
    let mut h = start_history();
    h.pre_start = None;
    match start_daemon_common(&start(Some("main")), &h) {
        StartStep::RunHook(inv) => assert!(inv.cmd.display().contains("unlock")),
        other => panic!("{:?}", other),
    }
    match start_daemon_common(&start(Some("main")), &start_history()) {
        StartStep::Daemonize { base_branch } => assert_eq!(base_branch, "main"),
        other => panic!("{:?}", other),
    }
    match start_daemon_common(&start(None), &start_history()) {
        StartStep::Daemonize { base_branch } => assert_eq!(base_branch, "trunk"),
        other => panic!("{:?}", other),
    }
}

#[test]
fn test_pre_start_hook_failure() {
    let mut h = start_history();
    h.pre_start = Some(said(false, ""));
    match start_daemon_common(&start(Some("main")), &h) {
        StartStep::Fail { error, lines } => {
            assert!(matches!(error, MainError::CheckFailed));
            assert_eq!(lines, vec!["Pre-start hook failed, aborting daemon startup"]);
        }
        other => panic!("{:?}", other),
    }
    h.pre_start = Some(Reply::Failed("no bash".to_string()));
    match start_daemon_common(&start(Some("main")), &h) {
        StartStep::Fail { lines, .. } => {
            assert_eq!(lines[0], "Failed to execute pre-start hook: no bash");
        }
        other => panic!("{:?}", other),
    }
}

#[test]
fn test_invalid_local_config_fails_daemon_start() {
    let mut h = start_history();
    h.config = Some(Err(MainError::ParseFailed("local.yaml".to_string())));
    match start_daemon_common(&start(Some("main")), &h) {
        StartStep::Fail { error: MainError::ParseFailed(e), .. } => assert_eq!(e, "local.yaml"),
        other => panic!("{:?}", other),
    }
}

#[test]
fn starting_needs_a_branch_and_no_other_daemon() {
    let mut h = start_history();
    h.config_branch = Some(None);
    let result = match start_daemon_common(&start(None), &h) {
        StartStep::Done(result) => result,
        other => panic!("{:?}", other),
    };
    assert!(matches!(result.outcome, DaemonizeOutcome::NoBranch));
    match start_daemon(result) {
        StartAction::Fail { error, lines } => {
            assert!(matches!(error, MainError::CheckFailed));
            assert_eq!(
                lines[0],
                "Error: --base-branch not specified and mq.base-branch not set in config"
            );
        }
        other => panic!("{:?}", other),
    }
    let mut h = start_history();
    h.running = Some(Ok(true));
    match start_daemon_common(&start(None), &h) {
        StartStep::Done(result) => assert!(matches!(start_daemon(result), StartAction::Return)),
        other => panic!("{:?}", other),
    }
    let result = |outcome: DaemonizeOutcome| StartDaemonResult {
        outcome,
        base_branch: "main".to_string(),
    };
    let parent = || DaemonizeOutcome::Parent { daemon_dir: "/run/x".to_string() };
    let child = || DaemonizeOutcome::Child { daemon_dir: "/run/x".to_string() };
    assert!(matches!(start_daemon(result(parent())), StartAction::Exit));
    assert!(matches!(start_daemon(result(child())), StartAction::Serve { .. }));
    assert!(matches!(
        auto_start_daemon(result(DaemonizeOutcome::NoBranch)),
        AutoStart::NotStarted
    ));
    assert!(matches!(auto_start_daemon(result(parent())), AutoStart::Started { .. }));
    assert!(matches!(auto_start_daemon(result(child())), AutoStart::Serve { .. }));
}

#[test]
fn test_post_start_hook_execution() {
    let mut h = ServeHistory { config: None, post_start: None };
    assert!(matches!(run_daemon_loop("/repo", "main", &h), ServeStep::ReadConfig));
    h.config = Some(Ok(merged(None, hook("announce"))));
    match run_daemon_loop("/repo", "main", &h) {
        ServeStep::RunHook(inv) => assert!(inv.cmd.display().contains("announce")),
        other => panic!("{:?}", other),
    }
    h.post_start = Some(said(true, "announced"));
    match run_daemon_loop("/repo", "main", &h) {
        ServeStep::Serve { state, lines } => {
            assert_eq!(lines, vec!["Post-start hook output:\nannounced"]);
            assert_eq!(state.base_branch(), "main");
            assert!(state.list_runs(None).is_empty());
        }
        other => panic!("{:?}", other),
    }
}

#[test]
fn test_post_start_hook_failure() {
    let h = ServeHistory {
        config: Some(Ok(merged(None, hook("announce")))),
        post_start: Some(said(false, "oops")),
    };
    match run_daemon_loop("/repo", "main", &h) {
        ServeStep::Fail { error, lines } => {
            assert!(matches!(error, MainError::CheckFailed));
            assert_eq!(
                lines,
                vec![
                    "Post-start hook output:\noops",
                    "Post-start hook failed, aborting daemon startup",
                ]
            );
        }
        other => panic!("{:?}", other),
    }
}

#[test]
fn shutting_down_comes_before_what_was_accepted() {
    assert_eq!(after_accept(true, true), AcceptStep::Stop);
    assert_eq!(after_accept(false, true), AcceptStep::Answer);
    assert_eq!(after_accept(false, false), AcceptStep::Retry);
    assert!(shutdown_requested(&MQRequest::Shutdown { expected_pid: 9 }, 9));
    assert!(!shutdown_requested(&MQRequest::Shutdown { expected_pid: 8 }, 9));
    assert!(!shutdown_requested(&MQRequest::Hello, 9));
}

fn stop_history() -> StopHistory {
    StopHistory {
        runtime_dir: Some(Ok(Some("/run/x".to_string()))),
        pid_file: Some(Ok("42\n".to_string())),
        hello: Some(Ok(MQResponse::HelloAck { pid: 42 })),
        watch: Some(Ok(WatchState::Watching)),
        shutdown: Some(Ok(MQResponse::ShutdownAck { pid: 42 })),
        grace: Some(Ok(WaitOutcome::Exited)),
        recheck: None,
        kill: None,
        killed: None,
        removed: None,
    }
}

fn control(step: StopStep) -> String {
    match step {
        StopStep::Fail(e) => e.message(),
        other => panic!("{:?}", other),
    }
}

#[test]
fn test_mq_stop_via_command() {
    match stop_daemon(&stop_history()) {
        StopStep::Done { message } => {
            assert_eq!(message.as_deref(), Some("Daemon stopped successfully"));
        }
        other => panic!("{:?}", other),
    }
    let mut h = stop_history();
    h.runtime_dir = Some(Ok(None));
    match stop_daemon(&h) {
        StopStep::Done { message } => assert_eq!(
            message.as_deref(),
            Some("Merge queue daemon is not running for this project")
        ),
        other => panic!("{:?}", other),
    }
}

#[test]
fn test_mq_stop_foreground_via_command() {
    let runtime_dir = "/repo/.selfci-mq-runtime";
    let daemon = DaemonSetup { daemon_dir: runtime_dir.to_string(), ..daemon_setup() };
    let ready = vec![Ok(()), Ok(()), Ok(()), Ok(())];
    match daemonize_foreground(&daemon, &ready) {
        DaemonizeStep::Child { lines } => {
            assert!(lines.contains(&format!("Runtime directory: {}", runtime_dir)), "{:?}", lines);
        }
        other => panic!("{:?}", other),
    }

    let named = ExplicitDir {
        dir: runtime_dir.to_string(),
        project: ProjectFile::Names { this_project: true },
    };
    let mut h = stop_history();
    h.runtime_dir = Some(get_project_daemon_runtime_dir(Some(named), &FoundDirs::NoRoot));
    h.pid_file = Some(Ok(pid_file(&daemon)));
    h.hello = Some(Ok(MQResponse::HelloAck { pid: 9 }));
    h.shutdown = Some(Ok(MQResponse::ShutdownAck { pid: 9 }));
    match stop_daemon(&h) {
        StopStep::Done { message } => {
            assert_eq!(message.as_deref(), Some("Daemon stopped successfully"));
        }
        other => panic!("{:?}", other),
    }
    h.shutdown = None;
    match stop_daemon(&h) {
        StopStep::SendShutdown { socket, pid } => {
            assert_eq!(pid, 9);
            assert!(socket.starts_with(runtime_dir), "{}", socket);
        }
        other => panic!("{:?}", other),
    }
}

#[test]
fn signals_are_the_last_resort() {
    let mut h = stop_history();
    h.grace = Some(Ok(WaitOutcome::TimedOut));
    assert!(matches!(stop_daemon(&h), StopStep::Recheck));
    h.recheck = Some(Ok(WaitOutcome::TimedOut));
    assert!(matches!(stop_daemon(&h), StopStep::Kill { pid: 42 }));
    h.kill = Some(Err(KillFailure { no_such_process: true, reason: "ESRCH".to_string() }));
    assert!(matches!(stop_daemon(&h), StopStep::WaitKilled));
    h.killed = Some(Ok(WaitOutcome::TimedOut));
    assert_eq!(
        control(stop_daemon(&h)),
        "Failed to wait for force-killed daemon: daemon remained alive after SIGKILL"
    );
    h.killed = Some(Ok(WaitOutcome::Exited));
    match stop_daemon(&h) {
        StopStep::RemoveIfPid { dir, pid, .. } => assert_eq!((dir.as_str(), pid), ("/run/x", 42)),
        other => panic!("{:?}", other),
    }
    h.removed = Some(Ok(()));
    match stop_daemon(&h) {
        StopStep::Done { message } => {
            assert_eq!(message.as_deref(), Some("Daemon forcefully terminated"));
        }
        other => panic!("{:?}", other),
    }
    h.kill = Some(Err(KillFailure { no_such_process: false, reason: "EPERM".to_string() }));
    assert_eq!(control(stop_daemon(&h)), "Failed to send SIGKILL to daemon: EPERM");
}

#[test]
fn strangers_are_not_stopped() {
    let mut h = stop_history();
    h.hello = Some(Ok(MQResponse::HelloAck { pid: 43 }));
    assert_eq!(
        control(stop_daemon(&h)),
        "Failed to verify daemon identity: daemon socket PID does not match mq.pid"
    );
    let mut h = stop_history();
    h.pid_file = Some(Ok("-42".to_string()));
    assert_eq!(
        control(stop_daemon(&h)),
        "Failed to validate daemon PID: daemon PID must be a positive platform process ID"
    );
    let mut h = stop_history();
    h.shutdown = Some(Ok(MQResponse::Error("no".to_string())));
    assert!(matches!(stop_daemon(&h), StopStep::Fail(MainError::CommunicationFailed)));
    let mut h = stop_history();
    h.watch = None;
    h.shutdown = None;
    assert!(matches!(stop_daemon(&h), StopStep::Arm { pid: 42 }));
}

#[test]
fn dead_daemons_are_cleaned_up() {
    let mut h = stop_history();
    h.hello = Some(Err("Connection refused".to_string()));
    h.watch = Some(Ok(WatchState::AlreadyExited));
    assert!(matches!(stop_daemon(&h), StopStep::RemoveIfPid { .. }));
    h.watch = Some(Ok(WatchState::Watching));
    assert_eq!(
        control(stop_daemon(&h)),
        "Failed to verify daemon identity: Connection refused"
    );

    let failure = |not_found: bool| FileFailure { not_found, reason: "denied".to_string() };
    assert!(matches!(remove_daemon_dir_if_pid(&Ok("42\n".to_string()), 42), RemoveStep::Remove));
    assert!(matches!(remove_daemon_dir_if_pid(&Ok("43".to_string()), 42), RemoveStep::Keep));
    assert!(matches!(remove_daemon_dir_if_pid(&Err(failure(true)), 42), RemoveStep::Keep));
    assert!(matches!(remove_daemon_dir_if_pid(&Err(failure(false)), 42), RemoveStep::Fail(_)));
    assert!(remove_daemon_dir(&Ok(())).is_ok());
    assert!(remove_daemon_dir(&Err(failure(true))).is_ok());
    assert_eq!(
        remove_daemon_dir(&Err(failure(false))).unwrap_err().message(),
        "Failed to remove stale daemon runtime directory: denied"
    );
}

#[test]
fn stop_timeouts_can_be_set_in_debug_builds_only() {
    assert_eq!(mq_stop_timeout(true, Some("250"), 30_000), 250);
    assert_eq!(mq_stop_timeout(true, Some("soon"), 30_000), 30_000);
    assert_eq!(mq_stop_timeout(false, Some("250"), 30_000), 30_000);
    assert_eq!(mq_stop_timeout(true, None, 30_000), 30_000);
    assert_eq!(read_pid(" 42\n"), Some(42));
    assert_eq!(read_pid("0"), None);
}

#[test]
fn pid_files_read_back() {
    let mut setup = daemon_setup();
    for pid in [1u32, 4711, i32::MAX as u32] {
        setup.pid = pid;
        assert_eq!(pid_file(&setup), format!("{}", pid));
        assert_eq!(read_pid(&pid_file(&setup)), Some(pid as i32));
    }
}
