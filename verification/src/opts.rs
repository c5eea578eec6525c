//! The command line, and what its commands come to.

use vstd::prelude::*;

use crate::client;
use crate::client::{End, EndView, Report, ReportView};
use crate::config::InitResult;
use crate::envs;
use crate::error;
use crate::error::{MainError, MainErrorView};
use crate::exit_codes;
use crate::protocol::{
    JobControlRequest, JobControlResponse, JobControlResponseView, JobStatus,
};

verus! {

/// The command line.
#[derive(Debug)]
pub struct Cli {
    /// The version control system to use.
    pub vcs: Option<String>,
    pub command: Commands,
}

/// A command.
#[derive(Debug)]
pub enum Commands {
    Init,
    Check {
        root: Option<String>,
        base: Option<String>,
        candidate: Option<String>,
        print_output: bool,
        jobs: Option<usize>,
    },
    Step { step_command: StepCommands },
    Job { job_command: JobCommands },
    Mq { command: Option<MQCommands>, run_id: Option<u64> },
}

/// A command about the step of a job.
#[derive(Debug)]
pub enum StepCommands {
    Start { name: String },
    Fail { ignore: bool },
}

/// A command about a job.
#[derive(Debug)]
pub enum JobCommands {
    Start { name: String },
    Wait { name: String, success: bool },
}

/// A command about the merge queue.
#[derive(Debug)]
pub enum MQCommands {
    Start { base_branch: Option<String>, foreground: bool, log_file: Option<String> },
    Add { candidate: Option<String>, no_merge: bool, wait: bool },
    Check { candidate: Option<String>, wait: bool },
    List { limit: Option<usize> },
    Status { run_id: u64 },
    Wait { run_id: Option<u64> },
    Stop,
    RuntimeDir,
    Pid,
    Version,
}

// ---------------------------------------------------------------------------
// The merge queue

/// What is done about the merge queue.
#[derive(Debug)]
pub enum MQAction {
    Start { base_branch: Option<String>, foreground: bool, log_file: Option<String> },
    Add { candidate: Option<String>, no_merge: bool, wait: bool },
    List { limit: Option<usize> },
    Status { run_id: u64 },
    Wait { run_id: Option<u64> },
    Stop,
    RuntimeDir,
    Pid,
    Version,
}

/// What a command about the merge queue asks for: a check is a submission that
/// is not merged. Without a command it is the status of the run that is
/// numbered, else the list of runs.
pub fn mq_action(command: Option<MQCommands>, run_id: Option<u64>) -> (res: MQAction)
    ensures
        res == match command {
            Some(MQCommands::Start { base_branch, foreground, log_file }) => MQAction::Start {
                base_branch,
                foreground,
                log_file,
            },
            Some(MQCommands::Add { candidate, no_merge, wait }) => MQAction::Add {
                candidate,
                no_merge,
                wait,
            },
            Some(MQCommands::Check { candidate, wait }) => MQAction::Add {
                candidate,
                no_merge: true,
                wait,
            },
            Some(MQCommands::List { limit }) => MQAction::List { limit },
            Some(MQCommands::Status { run_id: id }) => MQAction::Status { run_id: id },
            Some(MQCommands::Wait { run_id: id }) => MQAction::Wait { run_id: id },
            Some(MQCommands::Stop) => MQAction::Stop,
            Some(MQCommands::RuntimeDir) => MQAction::RuntimeDir,
            Some(MQCommands::Pid) => MQAction::Pid,
            Some(MQCommands::Version) => MQAction::Version,
            None => match run_id {
                Some(id) => MQAction::Status { run_id: id },
                None => MQAction::List { limit: None },
            },
        },
{
    match command {
        Some(MQCommands::Start { base_branch, foreground, log_file }) => MQAction::Start {
            base_branch,
            foreground,
            log_file,
        },
        Some(MQCommands::Add { candidate, no_merge, wait }) => MQAction::Add {
            candidate,
            no_merge,
            wait,
        },
        Some(MQCommands::Check { candidate, wait }) => MQAction::Add {
            candidate,
            no_merge: true,
            wait,
        },
        Some(MQCommands::List { limit }) => MQAction::List { limit },
        Some(MQCommands::Status { run_id: id }) => MQAction::Status { run_id: id },
        Some(MQCommands::Wait { run_id: id }) => MQAction::Wait { run_id: id },
        Some(MQCommands::Stop) => MQAction::Stop,
        Some(MQCommands::RuntimeDir) => MQAction::RuntimeDir,
        Some(MQCommands::Pid) => MQAction::Pid,
        Some(MQCommands::Version) => MQAction::Version,
        None => match run_id {
            Some(id) => MQAction::Status { run_id: id },
            None => MQAction::List { limit: None },
        },
    }
}

// ---------------------------------------------------------------------------
// Steps and jobs

/// A report of one line on standard error that ends the program.
pub open spec fn exit_with(line: Seq<char>, code: i32) -> ReportView {
    client::complained(line, EndView::Exit(code))
}

fn exit_saying(line: String, code: i32) -> (res: Report)
    ensures
        res@ == exit_with(line@, code),
{
    let mut err: Vec<String> = Vec::new();
    err.push(line);
    let res = Report { out: Vec::new(), err, end: End::Exit(code) };
    assert(res@.out =~= seq![]);
    assert(res@.err =~= seq![line@]);
    res
}

fn end_silently(end: End) -> (res: Report)
    ensures
        res@ == client::silent(end@),
{
    let res = Report { out: Vec::new(), err: Vec::new(), end };
    assert(res@.out =~= seq![]);
    assert(res@.err =~= seq![]);
    res
}

/// The report that a variable of the environment is missing.
pub open spec fn missing_variable(name: Seq<char>) -> ReportView {
    exit_with("Error: "@ + name + " environment variable not set"@, 1)
}

fn lack_variable(name: &str) -> (res: Report)
    ensures
        res@ == missing_variable(name@),
{
    exit_saying(
        String::from_str("Error: ").concat(name).concat(" environment variable not set"),
        1,
    )
}

/// The request of a step command, and the socket to send it to. A job knows its
/// name and its check's socket from the environment.
pub fn step_request(
    job_name: Option<&str>,
    socket_path: Option<&str>,
    command: &StepCommands,
) -> (res: Result<(String, JobControlRequest), Report>)
    ensures
        match (job_name, socket_path) {
            (None, _) => res matches Err(r) && r@ == missing_variable(envs::SELFCI_JOB_NAME@),
            (Some(_), None) => res matches Err(r) && r@ == missing_variable(
                envs::SELFCI_JOB_SOCK_PATH@,
            ),
            (Some(job), Some(path)) => {
                &&& res matches Ok((socket, request))
                &&& socket@ == path@
                &&& match *command {
                    StepCommands::Start { name } => request matches JobControlRequest::LogStep {
                        job_name: j,
                        step_name: s,
                    } && j@ == job@ && s@ == name@,
                    StepCommands::Fail { ignore } =>
                        request matches JobControlRequest::MarkStepFailed {
                        job_name: j,
                        ignore: i,
                    } && j@ == job@ && i == ignore,
                }
            },
        },
{
    let job = match job_name {
        Some(job) => job,
        None => return Err(lack_variable(envs::SELFCI_JOB_NAME)),
    };
    let path = match socket_path {
        Some(path) => path,
        None => return Err(lack_variable(envs::SELFCI_JOB_SOCK_PATH)),
    };
    let request = match command {
        StepCommands::Start { name } => JobControlRequest::LogStep {
            job_name: job.to_owned(),
            step_name: name.clone(),
        },
        StepCommands::Fail { ignore } => JobControlRequest::MarkStepFailed {
            job_name: job.to_owned(),
            ignore: *ignore,
        },
    };
    Ok((path.to_owned(), request))
}

/// The request of a job command, and the socket to send it to.
pub fn job_request(socket_path: Option<&str>, command: &JobCommands) -> (res: Result<
    (String, JobControlRequest),
    Report,
>)
    ensures
        match socket_path {
            None => res matches Err(r) && r@ == missing_variable(envs::SELFCI_JOB_SOCK_PATH@),
            Some(path) => {
                &&& res matches Ok((socket, request))
                &&& socket@ == path@
                &&& match *command {
                    JobCommands::Start { name } => request matches JobControlRequest::StartJob {
                        name: n,
                    } && n@ == name@,
                    JobCommands::Wait { name, .. } => request matches JobControlRequest::WaitForJob {
                        name: n,
                    } && n@ == name@,
                }
            },
        },
{
    let path = match socket_path {
        Some(path) => path,
        None => return Err(lack_variable(envs::SELFCI_JOB_SOCK_PATH)),
    };
    let request = match command {
        JobCommands::Start { name } => JobControlRequest::StartJob { name: name.clone() },
        JobCommands::Wait { name, .. } => JobControlRequest::WaitForJob { name: name.clone() },
    };
    Ok((path.to_owned(), request))
}

/// What is reported about an answer that is not the one hoped for. `doing` says
/// what was attempted.
pub open spec fn unhappy(
    reply: Result<JobControlResponseView, Seq<char>>,
    doing: Seq<char>,
) -> ReportView {
    match reply {
        Ok(JobControlResponseView::Error(e)) => exit_with("Error "@ + doing + ": "@ + e, 1),
        Ok(_) => exit_with("Unexpected response from control socket"@, 1),
        Err(e) => exit_with("Error communicating with control socket: "@ + e, 1),
    }
}

/// What a reply holds.
pub open spec fn reply_view(reply: Result<JobControlResponse, String>) -> Result<
    JobControlResponseView,
    Seq<char>,
> {
    match reply {
        Ok(response) => Ok(response@),
        Err(e) => Err(e@),
    }
}

fn report_unhappy(reply: &Result<JobControlResponse, String>, doing: &str) -> (res: Report)
    ensures
        res@ == unhappy(reply_view(*reply), doing@),
{
    match reply {
        Ok(JobControlResponse::Error(e)) => exit_saying(
            String::from_str("Error ").concat(doing).concat(": ").concat(e.as_str()),
            1,
        ),
        Ok(_) => exit_saying("Unexpected response from control socket".to_owned(), 1),
        Err(e) => exit_saying(
            String::from_str("Error communicating with control socket: ").concat(e.as_str()),
            1,
        ),
    }
}

/// What a step command reports about the reply: nothing where it is the one
/// that belongs to the command.
pub open spec fn step_outcome(
    command: StepCommands,
    reply: Result<JobControlResponseView, Seq<char>>,
) -> ReportView {
    match command {
        StepCommands::Start { .. } => if reply == Ok::<JobControlResponseView, Seq<char>>(
            JobControlResponseView::StepLogged,
        ) {
            client::silent(EndView::Success)
        } else {
            unhappy(reply, "logging step"@)
        },
        StepCommands::Fail { .. } => if reply == Ok::<JobControlResponseView, Seq<char>>(
            JobControlResponseView::StepMarkedFailed,
        ) {
            client::silent(EndView::Success)
        } else {
            unhappy(reply, "marking step as failed"@)
        },
    }
}

/// What a step command reports about the reply.
pub fn step_report(command: &StepCommands, reply: &Result<JobControlResponse, String>) -> (res:
    Report)
    ensures
        res@ == step_outcome(*command, reply_view(*reply)),
{
    match (command, reply) {
        (StepCommands::Start { .. }, Ok(JobControlResponse::StepLogged)) => {
            end_silently(End::Success)
        },
        (StepCommands::Start { .. }, _) => report_unhappy(reply, "logging step"),
        (StepCommands::Fail { .. }, Ok(JobControlResponse::StepMarkedFailed)) => {
            end_silently(End::Success)
        },
        (StepCommands::Fail { .. }, _) => report_unhappy(reply, "marking step as failed"),
    }
}

/// What waiting for a job reports about how it ended.
pub open spec fn wait_outcome(
    name: Seq<char>,
    success: bool,
    reply: Result<JobControlResponseView, Seq<char>>,
) -> ReportView {
    match reply {
        Ok(JobControlResponseView::JobCompleted { status }) => match status {
            JobStatus::Succeeded => client::silent(EndView::Exit(0)),
            JobStatus::Failed => if success {
                exit_with("Job '"@ + name + "' failed"@, exit_codes::EXIT_JOB_WAIT_FAILED)
            } else {
                client::silent(EndView::Exit(0))
            },
            JobStatus::Running => exit_with("Job '"@ + name + "' is still running"@, 1),
        },
        Ok(JobControlResponseView::JobNotFound) => exit_with(
            "Job '"@ + name + "' not found"@,
            exit_codes::EXIT_JOB_NOT_FOUND,
        ),
        other => unhappy(other, "waiting for job"@),
    }
}

/// What a job command reports about the reply.
pub open spec fn job_outcome(
    command: JobCommands,
    reply: Result<JobControlResponseView, Seq<char>>,
) -> ReportView {
    match command {
        JobCommands::Start { .. } => if reply == Ok::<JobControlResponseView, Seq<char>>(
            JobControlResponseView::JobStarted,
        ) {
            client::silent(EndView::Success)
        } else {
            unhappy(reply, "starting job"@)
        },
        JobCommands::Wait { name, success } => wait_outcome(name@, success, reply),
    }
}

/// What a job command reports about the reply.
pub fn job_report(command: &JobCommands, reply: &Result<JobControlResponse, String>) -> (res: Report)
    ensures
        res@ == job_outcome(*command, reply_view(*reply)),
{
    match command {
        JobCommands::Start { .. } => match reply {
            Ok(JobControlResponse::JobStarted) => end_silently(End::Success),
            _ => report_unhappy(reply, "starting job"),
        },
        JobCommands::Wait { name, success } => match reply {
            Ok(JobControlResponse::JobCompleted { status }) => match status {
                JobStatus::Succeeded => end_silently(End::Exit(0)),
                JobStatus::Failed => {
                    if *success {
                        exit_saying(
                            String::from_str("Job '").concat(name.as_str()).concat("' failed"),
                            exit_codes::EXIT_JOB_WAIT_FAILED,
                        )
                    } else {
                        end_silently(End::Exit(0))
                    }
                },
                JobStatus::Running => exit_saying(
                    String::from_str("Job '").concat(name.as_str()).concat("' is still running"),
                    1,
                ),
            },
            Ok(JobControlResponse::JobNotFound) => exit_saying(
                String::from_str("Job '").concat(name.as_str()).concat("' not found"),
                exit_codes::EXIT_JOB_NOT_FOUND,
            ),
            _ => report_unhappy(reply, "waiting for job"),
        },
    }
}

/// Waiting for a job exits with zero exactly where the job is known to be over
/// and, if success was asked for, succeeded.
pub proof fn law_job_wait_exit(
    name: Seq<char>,
    success: bool,
    reply: Result<JobControlResponseView, Seq<char>>,
)
    ensures
        wait_outcome(name, success, reply).end == EndView::Exit(0) <==> (
        reply matches Ok(JobControlResponseView::JobCompleted { status }) && (status
            == JobStatus::Succeeded || (status == JobStatus::Failed && !success))),
        !(wait_outcome(name, success, reply).end is Success),
{
}

// ---------------------------------------------------------------------------
// The program

/// What is said once a project was initialized.
pub open spec fn init_lines(result: InitResult) -> Seq<Seq<char>> {
    match result {
        InitResult::Created => seq!["Initialized selfci config at .config/selfci/ci.yaml"@],
        InitResult::AlreadyExists => seq!["selfci config already exists at .config/selfci/ci.yaml"@],
    }.push("Edit this file to configure your CI command."@)
}

/// What is said once a project was initialized.
pub fn init_report(result: &InitResult) -> (res: Report)
    ensures
        res@ == (ReportView { out: init_lines(*result), err: seq![], end: EndView::Success }),
{
    let mut out: Vec<String> = Vec::new();
    let first = match result {
        InitResult::Created => "Initialized selfci config at .config/selfci/ci.yaml",
        InitResult::AlreadyExists => "selfci config already exists at .config/selfci/ci.yaml",
    };
    out.push(first.to_owned());
    out.push("Edit this file to configure your CI command.".to_owned());
    let res = Report { out, err: Vec::new(), end: End::Success };
    assert(res@.out =~= init_lines(*result));
    assert(res@.err =~= seq![]);
    res
}

/// The lines with one for a cause, where there is one.
pub open spec fn with_cause(lines: Seq<Seq<char>>, cause: Option<Seq<char>>) -> Seq<Seq<char>> {
    match cause {
        Some(source) => lines.push("Caused by: "@ + source),
        None => lines,
    }
}

/// What the program says about an error, from the error to its last cause.
pub open spec fn error_lines(e: MainErrorView) -> Seq<Seq<char>> {
    let lines = with_cause(
        seq!["Error: "@ + error::main_error_text(e)],
        error::main_error_source(e),
    );
    match e {
        MainErrorView::ResolutionFailed(r) => with_cause(
            lines,
            crate::revision::revision_error_source(r),
        ),
        _ => lines,
    }
}

fn push_cause(lines: &mut Vec<String>, cause: Option<String>)
    ensures
        crate::text::texts(final(lines)@) == with_cause(
            crate::text::texts(old(lines)@),
            cause.deep_view(),
        ),
{
    match cause {
        Some(source) => {
            let line = String::from_str("Caused by: ").concat(source.as_str());
            lines.push(line);
            assert(crate::text::texts(lines@) =~= crate::text::texts(old(lines)@).push(line@));
        },
        None => {},
    }
}

/// How the program ends with an error.
pub fn error_report(e: &MainError) -> (res: Report)
    ensures
        res@ == (ReportView {
            out: seq![],
            err: error_lines(e@),
            end: EndView::Exit(error::exit_code_for(e@)),
        }),
{
    let mut err: Vec<String> = Vec::new();
    err.push(String::from_str("Error: ").concat(e.message().as_str()));
    assert(crate::text::texts(err@) =~= seq!["Error: "@ + error::main_error_text(e@)]);
    push_cause(&mut err, e.source());
    match e {
        MainError::ResolutionFailed(r) => push_cause(&mut err, r.source()),
        _ => {},
    }
    let res = Report { out: Vec::new(), err, end: End::Exit(e.exit_code()) };
    assert(res@.out =~= seq![]);
    assert(res@.err =~= error_lines(e@));
    res
}

/// What a step command reports: nothing where the check did what was asked, and
/// else what went wrong, with a failing exit.
pub proof fn law_step_commands_report_failures(
    command: StepCommands,
    reply: Result<JobControlResponseView, Seq<char>>,
)
    ensures
        ({
            let report = step_outcome(command, reply);
            let done = (command is Start && reply == Ok::<JobControlResponseView, Seq<char>>(
                JobControlResponseView::StepLogged,
            )) || (command is Fail && reply == Ok::<JobControlResponseView, Seq<char>>(
                JobControlResponseView::StepMarkedFailed,
            ));
            &&& report.out.len() == 0
            &&& done <==> report.end == EndView::Success
            &&& done ==> report.err.len() == 0
            &&& !done ==> report.end == EndView::Exit(1)
            &&& !done && (reply matches Ok(JobControlResponseView::Error(e))) ==> report.err
                =~= seq![
                (if command is Start {
                    "Error "@ + "logging step"@
                } else {
                    "Error "@ + "marking step as failed"@
                }) + ": "@ + reply->Ok_0->Error_0,
            ]
            &&& !done && reply is Ok && !(reply->Ok_0 is Error) ==> report.err =~= seq![
                "Unexpected response from control socket"@,
            ]
            &&& reply is Err ==> report.err =~= seq![
                "Error communicating with control socket: "@ + reply->Err_0,
            ]
        }),
{
}

/// What a job command reports. A job that started is not spoken of. Waiting ends
/// with how the job did, if success was asked for, and says which job is meant.
pub proof fn law_job_commands_report_the_job(
    command: JobCommands,
    reply: Result<JobControlResponseView, Seq<char>>,
)
    ensures
        ({
            let report = job_outcome(command, reply);
            let doing = if command is Start {
                "starting job"@
            } else {
                "waiting for job"@
            };
            &&& report.out.len() == 0
            &&& (reply matches Ok(JobControlResponseView::Error(e)) ==> {
                &&& report.err =~= seq!["Error "@ + doing + ": "@ + e]
                &&& report.end == EndView::Exit(1)
            })
            &&& reply is Err ==> {
                &&& report.err =~= seq![
                    "Error communicating with control socket: "@ + reply->Err_0,
                ]
                &&& report.end == EndView::Exit(1)
            }
            &&& command is Start && reply == Ok::<JobControlResponseView, Seq<char>>(
                JobControlResponseView::JobStarted,
            ) ==> report.err.len() == 0 && report.end == EndView::Success
            &&& command is Start && reply is Ok && !(reply->Ok_0 is JobStarted)
                && !(reply->Ok_0 is Error) ==> {
                &&& report.err =~= seq!["Unexpected response from control socket"@]
                &&& report.end == EndView::Exit(1)
            }
            &&& (command matches JobCommands::Wait { name, success } ==> {
                &&& (reply matches Ok(JobControlResponseView::JobCompleted { status }) ==> {
                    &&& status == JobStatus::Succeeded ==> report.err.len() == 0 && report.end
                        == EndView::Exit(0)
                    &&& status == JobStatus::Failed && !success ==> report.err.len() == 0
                        && report.end == EndView::Exit(0)
                    &&& status == JobStatus::Failed && success ==> report.err =~= seq![
                        "Job '"@ + name@ + "' failed"@,
                    ] && report.end == EndView::Exit(12)
                    &&& status == JobStatus::Running ==> report.err =~= seq![
                        "Job '"@ + name@ + "' is still running"@,
                    ] && report.end == EndView::Exit(1)
                })
                &&& reply == Ok::<JobControlResponseView, Seq<char>>(
                    JobControlResponseView::JobNotFound,
                ) ==> {
                    &&& report.err =~= seq!["Job '"@ + name@ + "' not found"@]
                    &&& report.end == EndView::Exit(13)
                }
                &&& reply is Ok && !(reply->Ok_0 is JobCompleted) && !(reply->Ok_0 is JobNotFound)
                    && !(reply->Ok_0 is Error) ==> {
                    &&& report.err =~= seq!["Unexpected response from control socket"@]
                    &&& report.end == EndView::Exit(1)
                }
            })
        }),
{
}

/// What is said where a job's variable is missing, and once a project was
/// initialized.
pub proof fn law_commands_say_what_is_missing(name: Seq<char>, result: InitResult)
    ensures
        missing_variable(name).err =~= seq!["Error: "@ + name + " environment variable not set"@],
        missing_variable(name).out.len() == 0,
        missing_variable(name).end == EndView::Exit(1),
        result == InitResult::Created ==> init_lines(result) =~= seq![
            "Initialized selfci config at .config/selfci/ci.yaml"@,
            "Edit this file to configure your CI command."@,
        ],
        result == InitResult::AlreadyExists ==> init_lines(result) =~= seq![
            "selfci config already exists at .config/selfci/ci.yaml"@,
            "Edit this file to configure your CI command."@,
        ],
{
}

/// What the program says about an error: the error itself first, and then each
/// cause that is known, down to the last.
pub proof fn law_errors_are_told_with_their_causes(e: MainErrorView)
    ensures
        error_lines(e)[0] == "Error: "@ + error::main_error_text(e),
        error::main_error_source(e) is None ==> error_lines(e).len() == 1,
        error::main_error_source(e) matches Some(cause) ==> error_lines(e).len() >= 2
            && error_lines(e)[1] == "Caused by: "@ + cause,
        error_lines(e).len() > 2 <==> (e matches MainErrorView::ResolutionFailed(r)
            && crate::revision::revision_error_source(r) is Some),
        e matches MainErrorView::ResolutionFailed(r) ==> (
        crate::revision::revision_error_source(r) matches Some(cause) ==> error_lines(e).len() == 3
            && error_lines(e)[2] == "Caused by: "@ + cause),
{
}

/// A command about the merge queue asks for what it says. A check is a submission
/// that is not merged. Without a command, a number asks for the status of that run
/// and nothing for the list.
pub proof fn law_queue_commands_ask_for_what_they_say(
    command: Option<MQCommands>,
    run_id: Option<u64>,
    res: MQAction,
)
    requires
        call_ensures(mq_action, (command, run_id), res),
    ensures
        match command {
            Some(MQCommands::Start { base_branch, foreground, log_file }) => res == (
            MQAction::Start { base_branch, foreground, log_file }),
            Some(MQCommands::Add { candidate, no_merge, wait }) => res == (MQAction::Add {
                candidate,
                no_merge,
                wait,
            }),
            Some(MQCommands::Check { candidate, wait }) => res == (MQAction::Add {
                candidate,
                no_merge: true,
                wait,
            }),
            Some(MQCommands::List { limit }) => res == (MQAction::List { limit }),
            Some(MQCommands::Status { run_id: id }) => res == (MQAction::Status { run_id: id }),
            Some(MQCommands::Wait { run_id: id }) => res == (MQAction::Wait { run_id: id }),
            Some(MQCommands::Stop) => res is Stop,
            Some(MQCommands::RuntimeDir) => res is RuntimeDir,
            Some(MQCommands::Pid) => res is Pid,
            Some(MQCommands::Version) => res is Version,
            None => {
                &&& run_id matches Some(id) ==> res == (MQAction::Status { run_id: id })
                &&& run_id is None ==> res == (MQAction::List { limit: None })
            },
        },
{
}

/// A job's commands go to the socket of its check, a step's under the name of the
/// job. Without these variables nothing is asked, and the missing one is named.
pub proof fn law_job_commands_go_to_the_check(
    job_name: Option<&str>,
    socket_path: Option<&str>,
    step: StepCommands,
    step_res: Result<(String, JobControlRequest), Report>,
    job: JobCommands,
    job_res: Result<(String, JobControlRequest), Report>,
)
    requires
        call_ensures(step_request, (job_name, socket_path, &step), step_res),
        call_ensures(job_request, (socket_path, &job), job_res),
    ensures
        step_res is Ok <==> job_name is Some && socket_path is Some,
        job_res is Ok <==> socket_path is Some,
        job_name is None ==> step_res->Err_0@.err =~= seq![
            "Error: "@ + "SELFCI_JOB_NAME"@ + " environment variable not set"@,
        ],
        job_name is Some && socket_path is None ==> step_res->Err_0@.err =~= seq![
            "Error: "@ + "SELFCI_JOB_SOCK_PATH"@ + " environment variable not set"@,
        ],
        socket_path is None ==> job_res->Err_0@.err =~= seq![
            "Error: "@ + "SELFCI_JOB_SOCK_PATH"@ + " environment variable not set"@,
        ],
        step_res is Ok ==> {
            let request = (step_res->Ok_0).1;
            &&& (step_res->Ok_0).0@ == socket_path->0@
            &&& (step matches StepCommands::Start { name } ==> request is LogStep
                && request->LogStep_job_name@ == job_name->0@ && request->LogStep_step_name@
                == name@)
            &&& (step matches StepCommands::Fail { ignore } ==> request is MarkStepFailed
                && request->MarkStepFailed_job_name@ == job_name->0@
                && request->MarkStepFailed_ignore == ignore)
        },
        job_res is Ok ==> {
            let request = (job_res->Ok_0).1;
            &&& (job_res->Ok_0).0@ == socket_path->0@
            &&& (job matches JobCommands::Start { name } ==> request is StartJob
                && request->StartJob_name@ == name@)
            &&& (job matches JobCommands::Wait { name, .. } ==> request is WaitForJob
                && request->WaitForJob_name@ == name@)
        },
{
}

/// The program ends with the exit code of its error and says so on standard error
/// alone; an initialized project is told about on standard output.
pub proof fn law_errors_end_the_program(
    e: MainError,
    res: Report,
    result: InitResult,
    init: Report,
)
    requires
        call_ensures(error_report, (&e,), res),
        call_ensures(init_report, (&result,), init),
    ensures
        res@.out.len() == 0,
        res@.err.len() > 0,
        res@.err[0] == "Error: "@ + error::main_error_text(e@),
        res@.end == EndView::Exit(error::exit_code_for(e@)),
        init@.err.len() == 0,
        init@.out == init_lines(result),
        init@.end == EndView::Success,
{
    law_errors_are_told_with_their_causes(e@);
}

} // verus!
