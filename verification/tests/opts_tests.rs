use selfci::client::End;
use selfci::error::{MainError, MergeError};
use selfci::exit_codes;
use selfci::hooks::{hook_reply, interactive_reply, run_hook};
use selfci::opts::{
    error_report, init_report, job_report, job_request, mq_action, step_report, step_request,
    JobCommands, MQAction, MQCommands, StepCommands,
};
use selfci::protocol::{JobControlRequest, JobControlResponse, JobStatus};
use selfci::revision::RevisionError;
use selfci::script::Reply;
use selfci::step::{log_step, read_step_log, StepLog, StepLogEntry};
use selfci::InitResult;

#[test]
fn queue_commands_come_to_actions() {
    match mq_action(Some(MQCommands::Check { candidate: None, wait: true }), None) {
        MQAction::Add { candidate, no_merge, wait } => {
            assert!(candidate.is_none() && no_merge && wait);
        }
        other => panic!("{:?}", other),
    }
    assert!(matches!(mq_action(None, Some(7)), MQAction::Status { run_id: 7 }));
    assert!(matches!(mq_action(None, None), MQAction::List { limit: None }));
    assert!(matches!(mq_action(Some(MQCommands::Stop), Some(7)), MQAction::Stop));
}

#[test]
fn step_commands_need_their_environment() {
    let start = StepCommands::Start { name: "build".to_string() };
    let missing = step_request(None, Some("/sock"), &start).unwrap_err();
    assert_eq!(missing.err, vec!["Error: SELFCI_JOB_NAME environment variable not set"]);
    assert!(matches!(missing.end, End::Exit(1)));
    let missing = step_request(Some("main"), None, &start).unwrap_err();
    assert_eq!(missing.err, vec!["Error: SELFCI_JOB_SOCK_PATH environment variable not set"]);
    match step_request(Some("main"), Some("/sock"), &start).unwrap() {
        (socket, JobControlRequest::LogStep { job_name, step_name }) => {
            assert_eq!((socket.as_str(), job_name.as_str(), step_name.as_str()), ("/sock", "main", "build"));
        }
        other => panic!("{:?}", other),
    }
    let fail = StepCommands::Fail { ignore: true };
    match step_request(Some("main"), Some("/sock"), &fail).unwrap().1 {
        JobControlRequest::MarkStepFailed { ignore, .. } => assert!(ignore),
        other => panic!("{:?}", other),
    }

    assert!(matches!(step_report(&start, &Ok(JobControlResponse::StepLogged)).end, End::Success));
    let error = Ok(JobControlResponse::Error("no job".to_string()));
    assert_eq!(step_report(&start, &error).err, vec!["Error logging step: no job"]);
    assert_eq!(step_report(&fail, &error).err, vec!["Error marking step as failed: no job"]);
    assert_eq!(
        step_report(&fail, &Ok(JobControlResponse::StepLogged)).err,
        vec!["Unexpected response from control socket"]
    );
    assert_eq!(
        step_report(&start, &Err("refused".to_string())).err,
        vec!["Error communicating with control socket: refused"]
    );
}

#[test]
fn job_waits_exit_as_the_job_ended() {
    let wait = |success: bool| JobCommands::Wait { name: "lint".to_string(), success };
    let ended = |success: bool, status: JobStatus| {
        job_report(&wait(success), &Ok(JobControlResponse::JobCompleted { status }))
    };
    assert!(matches!(ended(true, JobStatus::Succeeded).end, End::Exit(0)));
    assert!(matches!(ended(false, JobStatus::Failed).end, End::Exit(0)));
    let failed = ended(true, JobStatus::Failed);
    assert_eq!(failed.err, vec!["Job 'lint' failed"]);
    assert!(matches!(failed.end, End::Exit(exit_codes::EXIT_JOB_WAIT_FAILED)));
    assert_eq!(ended(false, JobStatus::Running).err, vec!["Job 'lint' is still running"]);
    let gone = job_report(&wait(false), &Ok(JobControlResponse::JobNotFound));
    assert!(matches!(gone.end, End::Exit(exit_codes::EXIT_JOB_NOT_FOUND)));

    let start = JobCommands::Start { name: "lint".to_string() };
    assert!(job_request(None, &start).is_err());
    assert!(matches!(
        job_request(Some("/sock"), &start).unwrap().1,
        JobControlRequest::StartJob { .. }
    ));
    assert!(matches!(
        job_request(Some("/sock"), &wait(true)).unwrap().1,
        JobControlRequest::WaitForJob { .. }
    ));
    assert!(matches!(job_report(&start, &Ok(JobControlResponse::JobStarted)).end, End::Success));
    let error = Ok(JobControlResponse::Error("Job 'lint' already started".to_string()));
    assert_eq!(
        job_report(&start, &error).err,
        vec!["Error starting job: Job 'lint' already started"]
    );
}

#[test]
fn initializing_says_what_it_found() {
    assert_eq!(
        init_report(&InitResult::Created).out,
        vec![
            "Initialized selfci config at .config/selfci/ci.yaml",
            "Edit this file to configure your CI command.",
        ]
    );
    assert!(init_report(&InitResult::AlreadyExists).out[0].contains("already exists"));
}

#[test]
fn errors_are_told_with_their_cause_and_exit_code() {
    let said = error_report(&MainError::ParseFailed("line 3".to_string()));
    assert_eq!(said.err, vec!["Error: Failed to parse config file", "Caused by: line 3"]);
    assert!(matches!(said.end, End::Exit(exit_codes::EXIT_CONFIG_PARSE_FAILED)));

    let merge = || MergeError::MergeFailed("conflict".to_string());
    let revision = || RevisionError::InvalidOutput { vcs: "git".to_string(), output: "x".to_string() };
    let text = || "reason".to_string();
    let all = [
        (MainError::NoVCSFound, exit_codes::EXIT_NO_VCS_FOUND),
        (MainError::InvalidVCSType, exit_codes::EXIT_INVALID_VCS_TYPE),
        (MainError::CreateFailed(text()), exit_codes::EXIT_WORKDIR_CREATE_FAILED),
        (
            MainError::CreateWorkDirectoryFailed { path: text(), reason: text() },
            exit_codes::EXIT_WORKDIR_CREATE_FAILED,
        ),
        (MainError::CommandFailed(text()), exit_codes::EXIT_VCS_COMMAND_FAILED),
        (MainError::NotInitialized, exit_codes::EXIT_NOT_INITIALIZED),
        (MainError::ReadFailed(text()), exit_codes::EXIT_CONFIG_READ_FAILED),
        (MainError::CheckFailed, exit_codes::EXIT_CHECK_FAILED),
        (MainError::ResolutionFailed(revision()), exit_codes::EXIT_REVISION_INVALID_OUTPUT),
        (MainError::TestMergeFailed(merge()), exit_codes::EXIT_TEST_MERGE_FAILED),
        (MainError::DaemonNotRunning, exit_codes::EXIT_MQ_DAEMON_NOT_RUNNING),
        (MainError::CommunicationFailed, exit_codes::EXIT_MQ_COMMUNICATION_FAILED),
        (
            MainError::ProcessControl { operation: text(), reason: text() },
            exit_codes::EXIT_MQ_PROCESS_CONTROL_FAILED,
        ),
    ];
    for (error, code) in all {
        assert_eq!(error.exit_code(), code, "{:?}", error);
        assert_ne!(code, 0);
        assert_eq!(error.clone().message(), error.message());
    }
    let said = error_report(&MainError::TestMergeFailed(merge()));
    assert_eq!(said.err, vec!["Error: Failed to merge", "Caused by: conflict"]);

    let unresolved = RevisionError::ResolutionFailed {
        vcs: "git".to_string(),
        revision: "nope".to_string(),
        source: "exit 128".to_string(),
    };
    let said = error_report(&MainError::ResolutionFailed(unresolved));
    assert_eq!(
        said.err,
        vec![
            "Error: Failed to resolve revision",
            "Caused by: Failed to resolve revision 'nope' using git: exit 128",
            "Caused by: exit 128",
        ]
    );
}

#[test]
fn steps_are_added_to_their_log() {
    let entry = StepLogEntry::new("first".to_string(), 5);
    assert_eq!((entry.name.as_str(), entry.ts), ("first", 5));
    let log = StepLog::Parsed(vec![entry]);
    let steps = log_step(Some("/log"), log, "second".to_string(), 9).unwrap();
    assert_eq!(steps.len(), 2);
    assert_eq!((steps[1].name.as_str(), steps[1].ts), ("second", 9));
    assert_eq!(
        log_step(None, StepLog::Missing, "x".to_string(), 1).unwrap_err(),
        "SELFCI_STEP_LOG_PATH environment variable not set"
    );
    assert!(read_step_log(StepLog::Missing).unwrap().is_empty());
    assert_eq!(
        read_step_log(StepLog::Unreadable("denied".to_string())).unwrap_err(),
        "Failed to read step log: denied"
    );
    assert_eq!(
        log_step(Some("/log"), StepLog::Unparsable("eof".to_string()), "x".to_string(), 1).unwrap_err(),
        "Failed to parse step log: eof"
    );
}

#[test]
fn hooks_report_what_they_printed() {
    assert!(run_hook(&None, "/repo").is_none());
    let said = hook_reply(&Reply::Output { success: true, text: "done".to_string() });
    assert!(said.success);
    assert_eq!(said.output, "done");
    let said = hook_reply(&Reply::Failed("no bash".to_string()));
    assert!(!said.success);
    assert_eq!(said.output, "Failed to execute hook: no bash");
    let (success, message) = interactive_reply("pre-start", &Reply::Failed("no bash".to_string()));
    assert!(!success);
    assert_eq!(message.as_deref(), Some("Failed to execute pre-start hook: no bash"));
}
