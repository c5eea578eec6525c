//! Starting the daemon.

use vstd::prelude::*;

use crate::config::{MergedMQConfig, MergedMQConfigView};
use crate::constants;
use crate::error::{MainError, MainErrorView};
use crate::hooks;
use crate::mq_protocol::MQRequest;
use crate::queue::{MQState, MQStateView};
use crate::script::{Invocation, InvocationView, Reply};
use crate::text;

verus! {

/// Whether a daemon is running, and what is said about it.
pub open spec fn running_lines(pid: i32, dir: Seq<char>) -> Seq<Seq<char>> {
    seq!["Merge queue daemon is already running (PID: "@ + text::signed_decimal(pid as int) + ")"@].push(
        "Runtime directory: "@ + dir,
    ).push("Use 'selfci mq stop' to stop it"@)
}

/// Whether a daemon is already running: the lines to print if it is. A runtime
/// directory that was named, has something in it and does not answer is an
/// error: it may be in use.
pub fn check_daemon_already_running(
    existing_dir: Option<&str>,
    verified_pid: Option<i32>,
    explicit: bool,
    has_runtime_state: bool,
) -> (res: Result<Option<Vec<String>>, MainError>)
    ensures
        match (existing_dir, verified_pid) {
            (None, _) => res == Ok::<Option<Vec<String>>, MainError>(None),
            (Some(dir), Some(pid)) => res matches Ok(Some(lines)) && text::texts(lines@)
                == running_lines(pid, dir@),
            (Some(_), None) => if explicit && has_runtime_state {
                res matches Err(e) && e@ == MainErrorView::CommunicationFailed
            } else {
                res == Ok::<Option<Vec<String>>, MainError>(None)
            },
        },
{
    let dir = match existing_dir {
        Some(dir) => dir,
        None => return Ok(None),
    };
    match verified_pid {
        Some(pid) => {
            let mut lines: Vec<String> = Vec::new();
            lines.push(
                String::from_str("Merge queue daemon is already running (PID: ").concat(
                    text::signed_decimal_of(pid).as_str(),
                ).concat(")"),
            );
            lines.push(String::from_str("Runtime directory: ").concat(dir));
            lines.push("Use 'selfci mq stop' to stop it".to_owned());
            assert(text::texts(lines@) =~= running_lines(pid, dir@));
            Ok(Some(lines))
        },
        None => {
            if explicit && has_runtime_state {
                Err(MainError::CommunicationFailed)
            } else {
                Ok(None)
            }
        },
    }
}

// ---------------------------------------------------------------------------
// Becoming a daemon

/// One thing that is done to become a daemon.
#[derive(Debug, Clone, Copy, PartialEq, Eq, Structural)]
pub enum DaemonAction {
    CreateDir,
    BindSocket,
    /// Write which project the daemon is for. It can be found from here on.
    WriteProject,
    NewSession,
    OpenNull,
    RedirectStdin,
    EnterRoot,
    SetUmask,
    WritePid,
    OpenLog,
    RedirectStdout,
    RedirectStderr,
}

/// What a daemon is made from.
#[derive(Debug)]
pub struct DaemonSetup {
    /// Its runtime directory.
    pub daemon_dir: String,
    pub base_branch: String,
    /// Where it writes its log, if not in its runtime directory.
    pub log_file: Option<String>,
    /// This process.
    pub pid: u32,
}

/// Where the process came out of a fork.
#[derive(Debug)]
pub enum ForkSide {
    Parent,
    Child,
    Failed(String),
}

/// What becoming a daemon does next.
#[derive(Debug)]
pub enum DaemonizeStep {
    Do(DaemonAction),
    /// Print this line, and fork.
    Fork { line: String },
    /// Remove the runtime directory, print this line as an error, and fail.
    GiveUp { line: String },
    /// This process is the one that started the daemon.
    Parent,
    /// This process is the daemon: print these lines, and serve.
    Child { lines: Vec<String> },
    /// Print the line, where there is one, as an error, and fail.
    Fail { error: MainError, line: Option<String> },
}

/// What a [`DaemonizeStep`] holds.
pub enum DaemonizeView {
    Do(DaemonAction),
    Fork { line: Seq<char> },
    GiveUp { line: Seq<char> },
    Parent,
    Child { lines: Seq<Seq<char>> },
    Fail { error: MainErrorView, line: Option<Seq<char>> },
}

impl View for DaemonizeStep {
    type V = DaemonizeView;

    open spec fn view(&self) -> DaemonizeView {
        match *self {
            DaemonizeStep::Do(action) => DaemonizeView::Do(action),
            DaemonizeStep::Fork { line } => DaemonizeView::Fork { line: line@ },
            DaemonizeStep::GiveUp { line } => DaemonizeView::GiveUp { line: line@ },
            DaemonizeStep::Parent => DaemonizeView::Parent,
            DaemonizeStep::Child { lines } => DaemonizeView::Child { lines: text::texts(lines@) },
            DaemonizeStep::Fail { error, line } => DaemonizeView::Fail {
                error: error@,
                line: line.deep_view(),
            },
        }
    }
}

/// What is done before a fork: the socket is bound before the project is
/// written, so that a daemon that can be found can be talked to.
pub open spec fn plan_before_fork() -> Seq<DaemonAction> {
    seq![DaemonAction::CreateDir].push(DaemonAction::BindSocket).push(DaemonAction::WriteProject)
}

/// What the daemon does after a fork.
pub open spec fn plan_after_fork() -> Seq<DaemonAction> {
    seq![DaemonAction::NewSession].push(DaemonAction::OpenNull).push(
        DaemonAction::RedirectStdin,
    ).push(DaemonAction::EnterRoot).push(DaemonAction::SetUmask).push(DaemonAction::WritePid).push(
        DaemonAction::OpenLog,
    ).push(DaemonAction::RedirectStdout).push(DaemonAction::RedirectStderr)
}

/// What is done without a fork.
pub open spec fn plan_in_foreground() -> Seq<DaemonAction> {
    plan_before_fork().push(DaemonAction::WritePid)
}

/// Where a daemon in the background writes its log.
pub open spec fn log_path_of(setup: DaemonSetup) -> Seq<char> {
    match setup.log_file {
        Some(path) => path@,
        None => text::joined_path(setup.daemon_dir@, constants::MQ_LOG_FILENAME@),
    }
}

/// Where a daemon in the background writes its log.
pub fn log_path(setup: &DaemonSetup) -> (res: String)
    ensures
        res@ == log_path_of(*setup),
{
    match &setup.log_file {
        Some(path) => path.clone(),
        None => text::join_path(setup.daemon_dir.as_str(), constants::MQ_LOG_FILENAME),
    }
}

/// What the PID file of a daemon holds.
pub open spec fn pid_file_of(setup: DaemonSetup) -> Seq<char> {
    text::decimal(setup.pid as nat)
}

/// What the PID file of a daemon holds.
pub fn pid_file(setup: &DaemonSetup) -> (res: String)
    ensures
        res@ == pid_file_of(*setup),
{
    text::decimal_of(setup.pid as u64)
}

/// The PID file of a daemon reads back as its process.
pub proof fn law_pid_file_reads_back(setup: DaemonSetup)
    requires
        0 < setup.pid <= i32::MAX,
    ensures
        crate::stop::recorded_pid(pid_file_of(setup)) == Some(setup.pid as i32),
{
    text::lemma_decimal(setup.pid as nat);
    text::law_decimal_reads_back(setup.pid as nat, i32::MAX as nat);
    let s = pid_file_of(setup);
    assert(text::is_digit(s[0]) && text::is_digit(s.last()));
    assert(s.skip(0) =~= s);
    assert(text::trimmed(s) == s);
}

/// The error for an action that failed.
pub open spec fn action_error(
    setup: DaemonSetup,
    action: DaemonAction,
    reason: Seq<char>,
) -> MainErrorView {
    match action {
        DaemonAction::CreateDir => MainErrorView::CreateWorkDirectoryFailed {
            path: setup.daemon_dir@,
            reason,
        },
        DaemonAction::NewSession => MainErrorView::CreateFailed(
            "Failed to become session leader"@,
        ),
        DaemonAction::RedirectStdin => MainErrorView::CreateFailed(
            "Failed to redirect stdin to /dev/null"@,
        ),
        DaemonAction::RedirectStdout => MainErrorView::CreateFailed("Failed to redirect stdout"@),
        DaemonAction::RedirectStderr => MainErrorView::CreateFailed("Failed to redirect stderr"@),
        _ => MainErrorView::CreateFailed(reason),
    }
}

/// What is said of an action that failed, beside the error.
pub open spec fn action_line(
    setup: DaemonSetup,
    action: DaemonAction,
    reason: Seq<char>,
) -> Option<Seq<char>> {
    if action == DaemonAction::OpenLog {
        Some("ERROR: Failed to open log file "@ + log_path_of(setup) + ": "@ + reason)
    } else {
        None
    }
}

/// How far a plan has come, given what came of its actions: the next one, the
/// error of the one that failed, or what follows once all are done.
pub open spec fn plan_step(
    setup: DaemonSetup,
    plan: Seq<DaemonAction>,
    done: Seq<Result<(), String>>,
    end: DaemonizeView,
) -> DaemonizeView
    decreases plan.len(),
{
    if plan.len() == 0 {
        end
    } else if done.len() == 0 {
        DaemonizeView::Do(plan[0])
    } else {
        match done[0] {
            Err(e) => DaemonizeView::Fail {
                error: action_error(setup, plan[0], e@),
                line: action_line(setup, plan[0], e@),
            },
            Ok(_) => plan_step(setup, plan.drop_first(), done.drop_first(), end),
        }
    }
}

/// What a daemon in the background says in its log.
pub open spec fn background_lines(setup: DaemonSetup) -> Seq<Seq<char>> {
    seq!["Daemon process started successfully"@].push(
        "PID: "@ + text::decimal(setup.pid as nat),
    ).push("Runtime directory: "@ + setup.daemon_dir@)
}

/// What a daemon in the foreground says.
pub open spec fn foreground_lines(setup: DaemonSetup) -> Seq<Seq<char>> {
    seq!["Merge queue daemon started for base branch: "@ + setup.base_branch@].push(
        "Runtime directory: "@ + setup.daemon_dir@,
    )
}

/// What becoming a daemon in the background does next.
pub open spec fn background_step(
    setup: DaemonSetup,
    before: Seq<Result<(), String>>,
    fork: Option<ForkSide>,
    after: Seq<Result<(), String>>,
) -> DaemonizeView {
    plan_step(
        setup,
        plan_before_fork(),
        before,
        match fork {
            None => DaemonizeView::Fork { line: "Runtime directory: "@ + setup.daemon_dir@ },
            Some(ForkSide::Failed(e)) => DaemonizeView::GiveUp { line: "Failed to fork: "@ + e@ },
            Some(ForkSide::Parent) => DaemonizeView::Parent,
            Some(ForkSide::Child) => plan_step(
                setup,
                plan_after_fork(),
                after,
                DaemonizeView::Child { lines: background_lines(setup) },
            ),
        },
    )
}

/// What becoming a daemon in the foreground does next.
pub open spec fn foreground_step(
    setup: DaemonSetup,
    done: Seq<Result<(), String>>,
) -> DaemonizeView {
    plan_step(
        setup,
        plan_in_foreground(),
        done,
        DaemonizeView::Child { lines: foreground_lines(setup) },
    )
}

fn fail_action(setup: &DaemonSetup, action: DaemonAction, reason: &String) -> (res: DaemonizeStep)
    ensures
        res@ == (DaemonizeView::Fail {
            error: action_error(*setup, action, reason@),
            line: action_line(*setup, action, reason@),
        }),
{
    let error = match action {
        DaemonAction::CreateDir => MainError::CreateWorkDirectoryFailed {
            path: setup.daemon_dir.clone(),
            reason: reason.clone(),
        },
        DaemonAction::NewSession => MainError::CreateFailed(
            "Failed to become session leader".to_owned(),
        ),
        DaemonAction::RedirectStdin => MainError::CreateFailed(
            "Failed to redirect stdin to /dev/null".to_owned(),
        ),
        DaemonAction::RedirectStdout => MainError::CreateFailed(
            "Failed to redirect stdout".to_owned(),
        ),
        DaemonAction::RedirectStderr => MainError::CreateFailed(
            "Failed to redirect stderr".to_owned(),
        ),
        _ => MainError::CreateFailed(reason.clone()),
    };
    let line = match action {
        DaemonAction::OpenLog => Some(
            String::from_str("ERROR: Failed to open log file ").concat(
                log_path(setup).as_str(),
            ).concat(": ").concat(reason.as_str()),
        ),
        _ => None,
    };
    DaemonizeStep::Fail { error, line }
}

fn run_plan(setup: &DaemonSetup, plan: &Vec<DaemonAction>, done: &Vec<Result<(), String>>) -> (res:
    Option<DaemonizeStep>)
    ensures
        forall|end: DaemonizeView|
            #![trigger plan_step(*setup, plan@, done@, end)]
            plan_step(*setup, plan@, done@, end) == match res {
                Some(step) => step@,
                None => end,
            },
{
    let mut i: usize = 0;
    assert(plan@.skip(0) =~= plan@);
    assert(done@.skip(0) =~= done@);
    while i < plan.len()
        invariant
            i <= plan.len(),
            i <= done.len(),
            forall|end: DaemonizeView|
                #![trigger plan_step(*setup, plan@, done@, end)]
                plan_step(*setup, plan@, done@, end) == plan_step(
                    *setup,
                    plan@.skip(i as int),
                    done@.skip(i as int),
                    end,
                ),
        decreases plan.len() - i,
    {
        assert(plan@.skip(i as int)[0] == plan@[i as int]);
        if i == done.len() {
            return Some(DaemonizeStep::Do(plan[i]));
        }
        proof {
            assert(done@.skip(i as int)[0] == done@[i as int]);
            assert(plan@.skip(i as int).drop_first() =~= plan@.skip(i + 1));
            assert(done@.skip(i as int).drop_first() =~= done@.skip(i + 1));
        }
        match &done[i] {
            Err(e) => return Some(fail_action(setup, plan[i], e)),
            Ok(_) => {},
        }
        i = i + 1;
    }
    None
}

fn before_fork() -> (res: Vec<DaemonAction>)
    ensures
        res@ == plan_before_fork(),
{
    let mut plan: Vec<DaemonAction> = Vec::new();
    plan.push(DaemonAction::CreateDir);
    plan.push(DaemonAction::BindSocket);
    plan.push(DaemonAction::WriteProject);
    assert(plan@ =~= plan_before_fork());
    plan
}

fn after_fork() -> (res: Vec<DaemonAction>)
    ensures
        res@ == plan_after_fork(),
{
    let mut plan: Vec<DaemonAction> = Vec::new();
    plan.push(DaemonAction::NewSession);
    plan.push(DaemonAction::OpenNull);
    plan.push(DaemonAction::RedirectStdin);
    plan.push(DaemonAction::EnterRoot);
    plan.push(DaemonAction::SetUmask);
    plan.push(DaemonAction::WritePid);
    plan.push(DaemonAction::OpenLog);
    plan.push(DaemonAction::RedirectStdout);
    plan.push(DaemonAction::RedirectStderr);
    assert(plan@ =~= plan_after_fork());
    plan
}

/// What becoming a daemon in the background does next, given what came of the
/// actions before the fork, of the fork, and of those after it.
pub fn daemonize_background(
    setup: &DaemonSetup,
    before: &Vec<Result<(), String>>,
    fork: &Option<ForkSide>,
    after: &Vec<Result<(), String>>,
) -> (res: DaemonizeStep)
    ensures
        res@ == background_step(*setup, before@, *fork, after@),
{
    match run_plan(setup, &before_fork(), before) {
        Some(step) => return step,
        None => {},
    }
    match fork {
        None => DaemonizeStep::Fork {
            line: String::from_str("Runtime directory: ").concat(setup.daemon_dir.as_str()),
        },
        Some(ForkSide::Failed(e)) => DaemonizeStep::GiveUp {
            line: String::from_str("Failed to fork: ").concat(e.as_str()),
        },
        Some(ForkSide::Parent) => DaemonizeStep::Parent,
        Some(ForkSide::Child) => match run_plan(setup, &after_fork(), after) {
            Some(step) => step,
            None => {
                let mut lines: Vec<String> = Vec::new();
                lines.push("Daemon process started successfully".to_owned());
                lines.push(
                    String::from_str("PID: ").concat(text::decimal_of(setup.pid as u64).as_str()),
                );
                lines.push(
                    String::from_str("Runtime directory: ").concat(setup.daemon_dir.as_str()),
                );
                assert(text::texts(lines@) =~= background_lines(*setup));
                DaemonizeStep::Child { lines }
            },
        },
    }
}

/// What becoming a daemon in the foreground does next.
pub fn daemonize_foreground(setup: &DaemonSetup, done: &Vec<Result<(), String>>) -> (res:
    DaemonizeStep)
    ensures
        res@ == foreground_step(*setup, done@),
{
    let mut plan = before_fork();
    plan.push(DaemonAction::WritePid);
    assert(plan@ =~= plan_in_foreground());
    match run_plan(setup, &plan, done) {
        Some(step) => step,
        None => {
            let mut lines: Vec<String> = Vec::new();
            lines.push(
                String::from_str("Merge queue daemon started for base branch: ").concat(
                    setup.base_branch.as_str(),
                ),
            );
            lines.push(String::from_str("Runtime directory: ").concat(setup.daemon_dir.as_str()));
            assert(text::texts(lines@) =~= foreground_lines(*setup));
            DaemonizeStep::Child { lines }
        },
    }
}

/// What becoming a daemon does next, in the foreground or in the background.
pub fn daemonize(
    foreground: bool,
    setup: &DaemonSetup,
    before: &Vec<Result<(), String>>,
    fork: &Option<ForkSide>,
    after: &Vec<Result<(), String>>,
) -> (res: DaemonizeStep)
    ensures
        res@ == (if foreground {
            foreground_step(*setup, before@)
        } else {
            background_step(*setup, before@, *fork, after@)
        }),
{
    if foreground {
        daemonize_foreground(setup, before)
    } else {
        daemonize_background(setup, before, fork, after)
    }
}

/// A daemon that can be found can be talked to: which project it is for is
/// written only after its directory was made and its socket bound. Its PID is
/// written, in the background, only by the process that the fork made.
pub proof fn law_found_daemons_listen(
    setup: DaemonSetup,
    before: Seq<Result<(), String>>,
    fork: Option<ForkSide>,
    after: Seq<Result<(), String>>,
)
    ensures
        background_step(setup, before, fork, after) == DaemonizeView::Do(
            DaemonAction::WriteProject,
        ) ==> before.len() == 2 && before[0] is Ok && before[1] is Ok,
        foreground_step(setup, before) == DaemonizeView::Do(DaemonAction::WriteProject)
            ==> before.len() == 2 && before[0] is Ok && before[1] is Ok,
        background_step(setup, before, fork, after) == DaemonizeView::Do(DaemonAction::WritePid)
            ==> fork == Some(ForkSide::Child),
{
    reveal_with_fuel(plan_step, 10);
}

// ---------------------------------------------------------------------------
// Starting

/// How the attempt to start a daemon came out.
#[derive(Debug)]
pub enum DaemonizeOutcome {
    /// There is no base branch to start with.
    NoBranch,
    AlreadyRunning,
    /// This process is the one that started the daemon.
    Parent { daemon_dir: String },
    /// This process is the daemon.
    Child { daemon_dir: String },
}

/// What a [`DaemonizeOutcome`] holds.
pub enum OutcomeView {
    NoBranch,
    AlreadyRunning,
    Parent { daemon_dir: Seq<char> },
    Child { daemon_dir: Seq<char> },
}

impl View for DaemonizeOutcome {
    type V = OutcomeView;

    open spec fn view(&self) -> OutcomeView {
        match *self {
            DaemonizeOutcome::NoBranch => OutcomeView::NoBranch,
            DaemonizeOutcome::AlreadyRunning => OutcomeView::AlreadyRunning,
            DaemonizeOutcome::Parent { daemon_dir } => OutcomeView::Parent {
                daemon_dir: daemon_dir@,
            },
            DaemonizeOutcome::Child { daemon_dir } => OutcomeView::Child {
                daemon_dir: daemon_dir@,
            },
        }
    }
}

impl Clone for DaemonizeOutcome {
    fn clone(&self) -> (res: Self)
        ensures
            res == *self,
    {
        match self {
            DaemonizeOutcome::NoBranch => DaemonizeOutcome::NoBranch,
            DaemonizeOutcome::AlreadyRunning => DaemonizeOutcome::AlreadyRunning,
            DaemonizeOutcome::Parent { daemon_dir } => DaemonizeOutcome::Parent {
                daemon_dir: daemon_dir.clone(),
            },
            DaemonizeOutcome::Child { daemon_dir } => DaemonizeOutcome::Child {
                daemon_dir: daemon_dir.clone(),
            },
        }
    }
}

/// What starting ends with.
#[derive(Debug)]
pub struct StartDaemonResult {
    pub outcome: DaemonizeOutcome,
    pub base_branch: String,
}

/// What a [`StartDaemonResult`] holds.
pub struct StartResultView {
    pub outcome: OutcomeView,
    pub base_branch: Seq<char>,
}

impl View for StartDaemonResult {
    type V = StartResultView;

    open spec fn view(&self) -> StartResultView {
        StartResultView { outcome: self.outcome@, base_branch: self.base_branch@ }
    }
}

/// What was asked for.
#[derive(Debug)]
pub struct StartSetup {
    pub root_dir: String,
    pub base_branch: Option<String>,
}

/// What has happened while starting.
#[derive(Debug)]
pub struct StartHistory {
    /// The base branch of the configuration.
    pub config_branch: Option<Option<String>>,
    /// Whether a daemon is running already.
    pub running: Option<Result<bool, MainError>>,
    pub config: Option<Result<MergedMQConfig, MainError>>,
    /// The reply of the pre-start hook.
    pub pre_start: Option<Reply>,
    /// What came of becoming a daemon.
    pub daemonized: Option<Result<DaemonizeOutcome, MainError>>,
}

/// What starting does next.
#[derive(Debug)]
pub enum StartStep {
    ReadConfigBranch,
    CheckRunning,
    ReadConfig,
    /// Run the pre-start hook, which talks to the user.
    RunHook(Invocation),
    /// Become a daemon for this branch.
    Daemonize { base_branch: String },
    Done(StartDaemonResult),
    /// Print these lines as errors, and fail.
    Fail { error: MainError, lines: Vec<String> },
}

/// What a [`StartStep`] holds.
pub enum StartView {
    ReadConfigBranch,
    CheckRunning,
    ReadConfig,
    RunHook(InvocationView),
    Daemonize { base_branch: Seq<char> },
    Done(StartResultView),
    Fail { error: MainErrorView, lines: Seq<Seq<char>> },
}

impl View for StartStep {
    type V = StartView;

    open spec fn view(&self) -> StartView {
        match *self {
            StartStep::ReadConfigBranch => StartView::ReadConfigBranch,
            StartStep::CheckRunning => StartView::CheckRunning,
            StartStep::ReadConfig => StartView::ReadConfig,
            StartStep::RunHook(inv) => StartView::RunHook(inv@),
            StartStep::Daemonize { base_branch } => StartView::Daemonize {
                base_branch: base_branch@,
            },
            StartStep::Done(result) => StartView::Done(result@),
            StartStep::Fail { error, lines } => StartView::Fail {
                error: error@,
                lines: text::texts(lines@),
            },
        }
    }
}

/// What follows once the pre-start hook has succeeded.
pub open spec fn daemonize_stage(branch: Seq<char>, h: StartHistory) -> StartView {
    match h.daemonized {
        None => StartView::Daemonize { base_branch: branch },
        Some(Err(e)) => StartView::Fail { error: e@, lines: seq![] },
        Some(Ok(outcome)) => StartView::Done(
            StartResultView { outcome: outcome@, base_branch: branch },
        ),
    }
}

/// What the pre-start hook decides.
pub open spec fn hook_stage(
    setup: StartSetup,
    branch: Seq<char>,
    config: MergedMQConfigView,
    h: StartHistory,
) -> StartView {
    let abort = "Pre-start hook failed, aborting daemon startup"@;
    match hooks::interactive_run(config.hooks.pre_start, setup.root_dir@) {
        None => daemonize_stage(branch, h),
        Some(inv) => match h.pre_start {
            None => StartView::RunHook(inv),
            Some(Reply::Output { success, .. }) => if success {
                daemonize_stage(branch, h)
            } else {
                StartView::Fail { error: MainErrorView::CheckFailed, lines: seq![abort] }
            },
            Some(Reply::Failed(e)) => StartView::Fail {
                error: MainErrorView::CheckFailed,
                lines: seq!["Failed to execute pre-start hook: "@ + e@].push(abort),
            },
        },
    }
}

/// What follows once the base branch is known.
pub open spec fn branch_stage(
    setup: StartSetup,
    branch: Seq<char>,
    h: StartHistory,
) -> StartView {
    match h.running {
        None => StartView::CheckRunning,
        Some(Err(e)) => StartView::Fail { error: e@, lines: seq![] },
        Some(Ok(true)) => StartView::Done(
            StartResultView { outcome: OutcomeView::AlreadyRunning, base_branch: branch },
        ),
        Some(Ok(false)) => match h.config {
            None => StartView::ReadConfig,
            Some(Err(e)) => StartView::Fail { error: e@, lines: seq![] },
            Some(Ok(config)) => hook_stage(setup, branch, config@, h),
        },
    }
}

/// What starting does next. The base branch that was asked for comes before
/// that of the configuration.
pub open spec fn start_step(setup: StartSetup, h: StartHistory) -> StartView {
    match setup.base_branch {
        Some(branch) => branch_stage(setup, branch@, h),
        None => match h.config_branch {
            None => StartView::ReadConfigBranch,
            Some(None) => StartView::Done(
                StartResultView { outcome: OutcomeView::NoBranch, base_branch: seq![] },
            ),
            Some(Some(branch)) => branch_stage(setup, branch@, h),
        },
    }
}

fn fail_start(error: MainError) -> (res: StartStep)
    ensures
        res@ == (StartView::Fail { error: error@, lines: seq![] }),
{
    let lines: Vec<String> = Vec::new();
    assert(text::texts(lines@) =~= seq![]);
    StartStep::Fail { error, lines }
}

fn after_branch(setup: &StartSetup, branch: &String, h: &StartHistory) -> (res: StartStep)
    ensures
        res@ == branch_stage(*setup, branch@, *h),
{
    match &h.running {
        None => return StartStep::CheckRunning,
        Some(Err(e)) => return fail_start(e.clone()),
        Some(Ok(running)) => {
            if *running {
                return StartStep::Done(
                    StartDaemonResult {
                        outcome: DaemonizeOutcome::AlreadyRunning,
                        base_branch: branch.clone(),
                    },
                );
            }
        },
    }
    let config = match &h.config {
        None => return StartStep::ReadConfig,
        Some(Err(e)) => return fail_start(e.clone()),
        Some(Ok(config)) => config,
    };
    match hooks::run_hook_interactive(&config.hooks.pre_start, setup.root_dir.as_str()) {
        None => {},
        Some(inv) => match &h.pre_start {
            None => return StartStep::RunHook(inv),
            Some(reply) => {
                let (success, message) = hooks::interactive_reply("pre-start", reply);
                if !success {
                    let mut lines: Vec<String> = Vec::new();
                    match message {
                        Some(m) => {
                            lines.push(m);
                        },
                        None => {},
                    }
                    lines.push("Pre-start hook failed, aborting daemon startup".to_owned());
                    proof {
                        reveal_strlit("Failed to execute pre-start hook: ");
                        reveal_strlit("Failed to execute ");
                        reveal_strlit("pre-start");
                        reveal_strlit(" hook: ");
                        assert("Failed to execute pre-start hook: "@ =~= "Failed to execute "@
                            + "pre-start"@ + " hook: "@);
                        let wanted = hook_stage(*setup, branch@, config@, *h);
                        assert(text::texts(lines@) =~= wanted->lines);
                    }
                    return StartStep::Fail { error: MainError::CheckFailed, lines };
                }
            },
        },
    }
    match &h.daemonized {
        None => StartStep::Daemonize { base_branch: branch.clone() },
        Some(Err(e)) => fail_start(e.clone()),
        Some(Ok(outcome)) => StartStep::Done(
            StartDaemonResult { outcome: outcome.clone(), base_branch: branch.clone() },
        ),
    }
}

/// What starting does next, given what has happened so far.
pub fn start_daemon_common(setup: &StartSetup, h: &StartHistory) -> (res: StartStep)
    ensures
        res@ == start_step(*setup, *h),
{
    match &setup.base_branch {
        Some(branch) => after_branch(setup, branch, h),
        None => match &h.config_branch {
            None => StartStep::ReadConfigBranch,
            Some(None) => StartStep::Done(
                StartDaemonResult {
                    outcome: DaemonizeOutcome::NoBranch,
                    base_branch: String::new(),
                },
            ),
            Some(Some(branch)) => after_branch(setup, branch, h),
        },
    }
}

/// What the command that starts a daemon does with what starting ended with.
#[derive(Debug)]
pub enum StartAction {
    /// Print these lines as errors, and fail.
    Fail { error: MainError, lines: Vec<String> },
    Return,
    /// Exit successfully: the daemon runs on in its own process.
    Exit,
    /// Serve.
    Serve { daemon_dir: String, base_branch: String },
}

/// What a [`StartAction`] holds.
pub enum StartActionView {
    Fail { error: MainErrorView, lines: Seq<Seq<char>> },
    Return,
    Exit,
    Serve { daemon_dir: Seq<char>, base_branch: Seq<char> },
}

impl View for StartAction {
    type V = StartActionView;

    open spec fn view(&self) -> StartActionView {
        match *self {
            StartAction::Fail { error, lines } => StartActionView::Fail {
                error: error@,
                lines: text::texts(lines@),
            },
            StartAction::Return => StartActionView::Return,
            StartAction::Exit => StartActionView::Exit,
            StartAction::Serve { daemon_dir, base_branch } => StartActionView::Serve {
                daemon_dir: daemon_dir@,
                base_branch: base_branch@,
            },
        }
    }
}

/// What is said when there is no base branch to start with.
pub open spec fn no_branch_lines() -> Seq<Seq<char>> {
    seq!["Error: --base-branch not specified and mq.base-branch not set in config"@].push(
        "Either specify --base-branch or add mq.base-branch to .config/selfci/ci.yaml"@,
    )
}

/// What the command that starts a daemon does with what starting ended with.
pub fn start_daemon(result: StartDaemonResult) -> (res: StartAction)
    ensures
        res@ == match result@.outcome {
            OutcomeView::NoBranch => StartActionView::Fail {
                error: MainErrorView::CheckFailed,
                lines: no_branch_lines(),
            },
            OutcomeView::AlreadyRunning => StartActionView::Return,
            OutcomeView::Parent { .. } => StartActionView::Exit,
            OutcomeView::Child { daemon_dir } => StartActionView::Serve {
                daemon_dir,
                base_branch: result@.base_branch,
            },
        },
{
    match result.outcome {
        DaemonizeOutcome::NoBranch => {
            let mut lines: Vec<String> = Vec::new();
            lines.push(
                "Error: --base-branch not specified and mq.base-branch not set in config".to_owned(),
            );
            lines.push(
                "Either specify --base-branch or add mq.base-branch to .config/selfci/ci.yaml".to_owned(),
            );
            assert(text::texts(lines@) =~= no_branch_lines());
            StartAction::Fail { error: MainError::CheckFailed, lines }
        },
        DaemonizeOutcome::AlreadyRunning => StartAction::Return,
        DaemonizeOutcome::Parent { .. } => StartAction::Exit,
        DaemonizeOutcome::Child { daemon_dir } => StartAction::Serve {
            daemon_dir,
            base_branch: result.base_branch,
        },
    }
}

/// What is said when a daemon is started because it is needed.
pub const AUTO_START_LINE: &'static str = "Auto-starting merge queue daemon...";

/// What a command that needs a daemon does with what starting one ended with.
#[derive(Debug)]
pub enum AutoStart {
    /// None was started.
    NotStarted,
    /// One runs with this runtime directory.
    Started { daemon_dir: String },
    /// This process is the daemon: serve, and exit.
    Serve { daemon_dir: String, base_branch: String },
}

/// What an [`AutoStart`] holds.
pub enum AutoStartView {
    NotStarted,
    Started { daemon_dir: Seq<char> },
    Serve { daemon_dir: Seq<char>, base_branch: Seq<char> },
}

impl View for AutoStart {
    type V = AutoStartView;

    open spec fn view(&self) -> AutoStartView {
        match *self {
            AutoStart::NotStarted => AutoStartView::NotStarted,
            AutoStart::Started { daemon_dir } => AutoStartView::Started { daemon_dir: daemon_dir@ },
            AutoStart::Serve { daemon_dir, base_branch } => AutoStartView::Serve {
                daemon_dir: daemon_dir@,
                base_branch: base_branch@,
            },
        }
    }
}

/// What a command that needs a daemon does with what starting one ended with.
/// Nothing is started without a base branch in the configuration.
pub fn auto_start_daemon(result: StartDaemonResult) -> (res: AutoStart)
    ensures
        res@ == match result@.outcome {
            OutcomeView::NoBranch => AutoStartView::NotStarted,
            OutcomeView::AlreadyRunning => AutoStartView::NotStarted,
            OutcomeView::Parent { daemon_dir } => AutoStartView::Started { daemon_dir },
            OutcomeView::Child { daemon_dir } => AutoStartView::Serve {
                daemon_dir,
                base_branch: result@.base_branch,
            },
        },
{
    match result.outcome {
        DaemonizeOutcome::NoBranch => AutoStart::NotStarted,
        DaemonizeOutcome::AlreadyRunning => AutoStart::NotStarted,
        DaemonizeOutcome::Parent { daemon_dir } => AutoStart::Started { daemon_dir },
        DaemonizeOutcome::Child { daemon_dir } => AutoStart::Serve {
            daemon_dir,
            base_branch: result.base_branch,
        },
    }
}

/// A daemon is started only if none is running and the pre-start hook, where
/// there is one, has succeeded.
pub proof fn law_pre_start_guards_startup(setup: StartSetup, h: StartHistory)
    ensures
        start_step(setup, h) is Daemonize ==> {
            &&& h.running == Some(Ok::<bool, MainError>(false))
            &&& h.config matches Some(Ok(config))
            &&& (config@.hooks.pre_start matches Some(hook) && hook.command is Some ==> (
            h.pre_start matches Some(Reply::Output { success, .. }) && success))
        },
{
}

/// The base branch that was asked for comes before that of the configuration.
pub proof fn law_given_branch_comes_first(setup: StartSetup, h: StartHistory)
    requires
        setup.base_branch is Some,
    ensures
        start_step(setup, h) matches StartView::Daemonize { base_branch } ==> base_branch
            == setup.base_branch->0@,
        start_step(setup, h) matches StartView::Done(result) ==> result.base_branch
            == setup.base_branch->0@,
        !(start_step(setup, h) is ReadConfigBranch),
{
}

// ---------------------------------------------------------------------------
// Serving

/// What has happened before serving.
#[derive(Debug)]
pub struct ServeHistory {
    pub config: Option<Result<MergedMQConfig, MainError>>,
    /// The reply of the post-start hook.
    pub post_start: Option<Reply>,
}

/// What comes before serving.
#[derive(Debug)]
pub enum ServeStep {
    ReadConfig,
    RunHook(Invocation),
    /// Print these lines and serve with this queue.
    Serve { state: MQState, lines: Vec<String> },
    Fail { error: MainError, lines: Vec<String> },
}

/// What a [`ServeStep`] holds.
pub enum ServeView {
    ReadConfig,
    RunHook(InvocationView),
    Serve { state: MQStateView, lines: Seq<Seq<char>> },
    Fail { error: MainErrorView, lines: Seq<Seq<char>> },
}

impl View for ServeStep {
    type V = ServeView;

    open spec fn view(&self) -> ServeView {
        match *self {
            ServeStep::ReadConfig => ServeView::ReadConfig,
            ServeStep::RunHook(inv) => ServeView::RunHook(inv@),
            ServeStep::Serve { state, lines } => ServeView::Serve {
                state: state@,
                lines: text::texts(lines@),
            },
            ServeStep::Fail { error, lines } => ServeView::Fail {
                error: error@,
                lines: text::texts(lines@),
            },
        }
    }
}

/// What is said of the output of the post-start hook.
pub open spec fn hook_lines(output: Seq<char>) -> Seq<Seq<char>> {
    if output.len() > 0 {
        seq!["Post-start hook output:\n"@ + output]
    } else {
        seq![]
    }
}

/// What comes before serving: the configuration is read again, and its
/// post-start hook must succeed.
pub open spec fn serve_step(
    root_dir: Seq<char>,
    base_branch: Seq<char>,
    h: ServeHistory,
) -> ServeView {
    match h.config {
        None => ServeView::ReadConfig,
        Some(Err(e)) => ServeView::Fail { error: e@, lines: seq![] },
        Some(Ok(config)) => {
            let run = hooks::hook_run(config@.hooks.post_start, root_dir, None);
            if run is Some && h.post_start is None {
                ServeView::RunHook(run->0)
            } else {
                let r = hooks::hook_outcome(run, h.post_start);
                if r.success {
                    ServeView::Serve {
                        state: MQStateView {
                            root_dir,
                            base_branch,
                            merge_mode: config@.merge_mode,
                            hooks: config@.hooks,
                            runs: seq![],
                        },
                        lines: hook_lines(r.output),
                    }
                } else {
                    ServeView::Fail {
                        error: MainErrorView::CheckFailed,
                        lines: hook_lines(r.output).push(
                            "Post-start hook failed, aborting daemon startup"@,
                        ),
                    }
                }
            }
        },
    }
}

/// What comes before serving, given what has happened so far.
pub fn run_daemon_loop(root_dir: &str, base_branch: &str, h: &ServeHistory) -> (res: ServeStep)
    ensures
        res@ == serve_step(root_dir@, base_branch@, *h),
{
    let mut lines: Vec<String> = Vec::new();
    assert(text::texts(lines@) =~= seq![]);
    let config = match &h.config {
        None => return ServeStep::ReadConfig,
        Some(Err(e)) => return ServeStep::Fail { error: e.clone(), lines },
        Some(Ok(config)) => config,
    };
    match hooks::run_hook(&config.hooks.post_start, root_dir) {
        None => {},
        Some(inv) => match &h.post_start {
            None => return ServeStep::RunHook(inv),
            Some(reply) => {
                let r = hooks::hook_reply(reply);
                assert(r@ == hooks::hook_outcome(Some(inv@), Some(*reply)));
                if !r.output.as_str().is_empty() {
                    lines.push(
                        String::from_str("Post-start hook output:\n").concat(r.output.as_str()),
                    );
                }
                assert(text::texts(lines@) =~= hook_lines(r.output@));
                if !r.success {
                    lines.push("Post-start hook failed, aborting daemon startup".to_owned());
                    assert(text::texts(lines@) =~= hook_lines(r.output@).push(
                        "Post-start hook failed, aborting daemon startup"@,
                    ));
                    return ServeStep::Fail { error: MainError::CheckFailed, lines };
                }
            },
        },
    }
    let state = MQState::new(
        root_dir.to_owned(),
        base_branch.to_owned(),
        config.merge_mode,
        config.hooks.clone(),
    );
    ServeStep::Serve { state, lines }
}

/// What the daemon does after it waited for a connection.
#[derive(Debug, Clone, Copy, PartialEq, Eq, Structural)]
pub enum AcceptStep {
    /// Stop taking requests, let the queue finish, and exit.
    Stop,
    /// Answer the connection.
    Answer,
    /// Wait for the next one.
    Retry,
}

/// What the daemon does after it waited for a connection: a request to stop
/// comes before anything that was accepted.
pub fn after_accept(shutdown: bool, accepted: bool) -> (res: AcceptStep)
    ensures
        res == (if shutdown {
            AcceptStep::Stop
        } else if accepted {
            AcceptStep::Answer
        } else {
            AcceptStep::Retry
        }),
{
    if shutdown {
        AcceptStep::Stop
    } else if accepted {
        AcceptStep::Answer
    } else {
        AcceptStep::Retry
    }
}

/// Whether a request makes the daemon stop: one that names its own process.
pub fn shutdown_requested(request: &MQRequest, pid: i32) -> (res: bool)
    ensures
        res == (*request matches MQRequest::Shutdown { expected_pid } && expected_pid == pid),
{
    match request {
        MQRequest::Shutdown { expected_pid } => *expected_pid == pid,
        _ => false,
    }
}

/// The daemon serves only after its post-start hook, where there is one, has
/// succeeded, and then with no runs.
pub proof fn law_post_start_guards_serving(
    root_dir: Seq<char>,
    base_branch: Seq<char>,
    h: ServeHistory,
)
    ensures
        serve_step(root_dir, base_branch, h) matches ServeView::Serve { state, .. } ==> {
            &&& h.config matches Some(Ok(config))
            &&& (config@.hooks.post_start matches Some(hook) && hook.command is Some ==> (
            h.post_start matches Some(Reply::Output { success, .. }) && success))
            &&& state.runs.len() == 0
            &&& state.numbered()
        },
{
}

/// A plan is carried out one action after the other. It stops at the first that
/// fails, with an error for that action, and comes to its end once all are done.
pub proof fn law_plans_go_in_order(
    setup: DaemonSetup,
    plan: Seq<DaemonAction>,
    done: Seq<Result<(), String>>,
    end: DaemonizeView,
    k: int,
)
    requires
        0 <= k <= plan.len(),
        k <= done.len(),
        forall|j: int| 0 <= j < k ==> (#[trigger] done[j]) is Ok,
    ensures
        k == plan.len() ==> plan_step(setup, plan, done, end) == end,
        k < plan.len() && k == done.len() ==> plan_step(setup, plan, done, end)
            == DaemonizeView::Do(plan[k]),
        k < plan.len() && k < done.len() && done[k] is Err ==> plan_step(setup, plan, done, end)
            == (DaemonizeView::Fail {
            error: action_error(setup, plan[k], done[k]->Err_0@),
            line: action_line(setup, plan[k], done[k]->Err_0@),
        }),
    decreases plan.len(),
{
    if k > 0 {
        assert(done[0] is Ok);
        assert forall|j: int| 0 <= j < k - 1 implies (#[trigger] done.drop_first()[j]) is Ok by {
            assert(done[j + 1] is Ok);
        }
        law_plans_go_in_order(setup, plan.drop_first(), done.drop_first(), end, k - 1);
    }
}

/// What is done to become a daemon, in this order. The directory comes first, then
/// the socket, then which project it is for. In the background the process that
/// the fork made leaves its session and its terminal behind, writes its process
/// down and then writes to its log.
pub proof fn law_daemons_are_made_in_order()
    ensures
        plan_before_fork() =~= seq![
            DaemonAction::CreateDir,
            DaemonAction::BindSocket,
            DaemonAction::WriteProject,
        ],
        plan_after_fork() =~= seq![
            DaemonAction::NewSession,
            DaemonAction::OpenNull,
            DaemonAction::RedirectStdin,
            DaemonAction::EnterRoot,
            DaemonAction::SetUmask,
            DaemonAction::WritePid,
            DaemonAction::OpenLog,
            DaemonAction::RedirectStdout,
            DaemonAction::RedirectStderr,
        ],
        plan_in_foreground() =~= seq![
            DaemonAction::CreateDir,
            DaemonAction::BindSocket,
            DaemonAction::WriteProject,
            DaemonAction::WritePid,
        ],
{
}

/// What becoming a daemon comes to. In the foreground the process itself is the
/// daemon. In the background it forks once it can be found; the one that started
/// it goes its own way, the new one is the daemon, and where there is no new one
/// all is given up.
pub proof fn law_daemons_serve_once_made(
    setup: DaemonSetup,
    before: Seq<Result<(), String>>,
    fork: Option<ForkSide>,
    after: Seq<Result<(), String>>,
)
    requires
        forall|j: int| 0 <= j < before.len() ==> (#[trigger] before[j]) is Ok,
        forall|j: int| 0 <= j < after.len() ==> (#[trigger] after[j]) is Ok,
    ensures
        before.len() < 3 ==> background_step(setup, before, fork, after) == DaemonizeView::Do(
            plan_before_fork()[before.len() as int],
        ),
        before.len() >= 3 ==> {
            let step = background_step(setup, before, fork, after);
            &&& fork is None ==> step == (DaemonizeView::Fork {
                line: "Runtime directory: "@ + setup.daemon_dir@,
            })
            &&& (fork matches Some(ForkSide::Failed(e)) ==> step == (DaemonizeView::GiveUp {
                line: "Failed to fork: "@ + e@,
            }))
            &&& fork == Some(ForkSide::Parent) ==> step is Parent
            &&& fork == Some(ForkSide::Child) && after.len() < 9 ==> step == DaemonizeView::Do(
                plan_after_fork()[after.len() as int],
            )
            &&& fork == Some(ForkSide::Child) && after.len() >= 9 ==> step is Child
                && step->Child_lines =~= seq![
                "Daemon process started successfully"@,
                "PID: "@ + text::decimal(setup.pid as nat),
                "Runtime directory: "@ + setup.daemon_dir@,
            ]
        },
        before.len() < 4 ==> foreground_step(setup, before) == DaemonizeView::Do(
            plan_in_foreground()[before.len() as int],
        ),
        before.len() >= 4 ==> {
            let step = foreground_step(setup, before);
            step is Child && step->Child_lines =~= seq![
                "Merge queue daemon started for base branch: "@ + setup.base_branch@,
                "Runtime directory: "@ + setup.daemon_dir@,
            ]
        },
{
    let end = match fork {
        None => DaemonizeView::Fork { line: "Runtime directory: "@ + setup.daemon_dir@ },
        Some(ForkSide::Failed(e)) => DaemonizeView::GiveUp { line: "Failed to fork: "@ + e@ },
        Some(ForkSide::Parent) => DaemonizeView::Parent,
        Some(ForkSide::Child) => plan_step(
            setup,
            plan_after_fork(),
            after,
            DaemonizeView::Child { lines: background_lines(setup) },
        ),
    };
    let n = before.len() as int;
    let m = after.len() as int;
    law_plans_go_in_order(
        setup,
        plan_before_fork(),
        before,
        end,
        if n < 3 {
            n
        } else {
            3
        },
    );
    law_plans_go_in_order(
        setup,
        plan_after_fork(),
        after,
        DaemonizeView::Child { lines: background_lines(setup) },
        if m < 9 {
            m
        } else {
            9
        },
    );
    law_plans_go_in_order(
        setup,
        plan_in_foreground(),
        before,
        DaemonizeView::Child { lines: foreground_lines(setup) },
        if n < 4 {
            n
        } else {
            4
        },
    );
}

/// What is said of an action that failed. The directory and the log are named, and
/// so is what could not be left behind; of anything else the reason is enough.
pub proof fn law_failed_actions_say_why(setup: DaemonSetup, reason: Seq<char>)
    ensures
        action_error(setup, DaemonAction::CreateDir, reason) == (
        MainErrorView::CreateWorkDirectoryFailed { path: setup.daemon_dir@, reason }),
        action_error(setup, DaemonAction::BindSocket, reason) == MainErrorView::CreateFailed(
            reason,
        ),
        action_error(setup, DaemonAction::WriteProject, reason) == MainErrorView::CreateFailed(
            reason,
        ),
        action_error(setup, DaemonAction::NewSession, reason) == MainErrorView::CreateFailed(
            "Failed to become session leader"@,
        ),
        action_error(setup, DaemonAction::OpenNull, reason) == MainErrorView::CreateFailed(reason),
        action_error(setup, DaemonAction::RedirectStdin, reason) == MainErrorView::CreateFailed(
            "Failed to redirect stdin to /dev/null"@,
        ),
        action_error(setup, DaemonAction::EnterRoot, reason) == MainErrorView::CreateFailed(
            reason,
        ),
        action_error(setup, DaemonAction::WritePid, reason) == MainErrorView::CreateFailed(reason),
        action_error(setup, DaemonAction::OpenLog, reason) == MainErrorView::CreateFailed(reason),
        action_error(setup, DaemonAction::RedirectStdout, reason) == MainErrorView::CreateFailed(
            "Failed to redirect stdout"@,
        ),
        action_error(setup, DaemonAction::RedirectStderr, reason) == MainErrorView::CreateFailed(
            "Failed to redirect stderr"@,
        ),
        setup.log_file matches Some(path) ==> log_path_of(setup) == path@,
        setup.log_file is None ==> log_path_of(setup) == text::joined_path(
            setup.daemon_dir@,
            "mq.log"@,
        ),
        action_line(setup, DaemonAction::OpenLog, reason) == Some(
            "ERROR: Failed to open log file "@ + log_path_of(setup) + ": "@ + reason,
        ),
        forall|action: DaemonAction|
            action != DaemonAction::OpenLog ==> #[trigger] action_line(setup, action, reason)
                is None,
{
}

/// What is said of a daemon that is running already.
pub proof fn law_running_daemons_are_told_about(pid: i32, dir: Seq<char>)
    ensures
        running_lines(pid, dir) =~= seq![
            "Merge queue daemon is already running (PID: "@ + text::signed_decimal(pid as int)
                + ")"@,
            "Runtime directory: "@ + dir,
            "Use 'selfci mq stop' to stop it"@,
        ],
        no_branch_lines() =~= seq![
            "Error: --base-branch not specified and mq.base-branch not set in config"@,
            "Either specify --base-branch or add mq.base-branch to .config/selfci/ci.yaml"@,
        ],
        AUTO_START_LINE@ == "Auto-starting merge queue daemon..."@,
{
}

/// Whether the base branch to start with is known.
pub open spec fn knows_branch(setup: StartSetup, h: StartHistory) -> bool {
    setup.base_branch is Some || (h.config_branch is Some && h.config_branch->0 is Some)
}

/// The base branch to start with: the one that was asked for, else that of the
/// configuration.
pub open spec fn known_branch(setup: StartSetup, h: StartHistory) -> Seq<char> {
    if setup.base_branch is Some {
        setup.base_branch->0@
    } else {
        (h.config_branch->0->0)@
    }
}

/// Whether no daemon is running and the configuration is known.
pub open spec fn may_start(setup: StartSetup, h: StartHistory) -> bool {
    &&& knows_branch(setup, h)
    &&& h.running == Some(Ok::<bool, MainError>(false))
    &&& h.config is Some && h.config->0 is Ok
}

/// The pre-start hook of the configuration, where it does anything.
pub open spec fn starts_with_hook(h: StartHistory) -> bool {
    let hook = h.config->0->Ok_0@.hooks.pre_start;
    hook is Some && hook->0.command is Some
}

/// Whether the pre-start hook replied with success.
pub open spec fn hook_allows(h: StartHistory) -> bool {
    h.pre_start matches Some(Reply::Output { success: true, .. })
}

/// Starting does one thing after the other, each exactly when all before it went
/// well: the base branch where none was asked for, whether a daemon runs, the
/// configuration, the pre-start hook, and becoming a daemon for that branch.
#[verifier::spinoff_prover]
pub proof fn law_starting_goes_in_order(setup: StartSetup, h: StartHistory)
    ensures
        ({
            let step = start_step(setup, h);
            &&& step is ReadConfigBranch <==> setup.base_branch is None && h.config_branch is None
            &&& step is CheckRunning <==> knows_branch(setup, h) && h.running is None
            &&& step is ReadConfig <==> knows_branch(setup, h) && h.running == Some(
                Ok::<bool, MainError>(false),
            ) && h.config is None
            &&& step is RunHook <==> may_start(setup, h) && starts_with_hook(h) && h.pre_start
                is None
            &&& step is RunHook ==> Some(step->RunHook_0) == hooks::interactive_run(
                h.config->0->Ok_0@.hooks.pre_start,
                setup.root_dir@,
            )
            &&& step is Daemonize <==> may_start(setup, h) && (starts_with_hook(h) ==> hook_allows(
                h,
            )) && h.daemonized is None
            &&& step is Daemonize ==> step->Daemonize_base_branch == known_branch(setup, h)
        }),
{
}

/// What starting ends with: that there is no branch, that a daemon runs, or what
/// became of this process. A pre-start hook that failed, or could not be run, is
/// told about, and so is any other error.
#[verifier::spinoff_prover]
pub proof fn law_starting_ends_with_what_became(setup: StartSetup, h: StartHistory)
    ensures
        ({
            let step = start_step(setup, h);
            let ready = may_start(setup, h) && (starts_with_hook(h) ==> hook_allows(h));
            let running = knows_branch(setup, h) && h.running == Some(Ok::<bool, MainError>(true));
            let no_branch = setup.base_branch is None && h.config_branch is Some
                && h.config_branch->0 is None;
            &&& step is Done <==> no_branch || running || (ready && h.daemonized is Some
                && h.daemonized->0 is Ok)
            &&& no_branch ==> step->Done_0.outcome is NoBranch
            &&& running ==> step->Done_0.outcome is AlreadyRunning
            &&& step is Done && ready ==> step->Done_0.outcome == h.daemonized->0->Ok_0@
            &&& step is Done && knows_branch(setup, h) ==> step->Done_0.base_branch
                == known_branch(setup, h)
            &&& step is Fail ==> {
                let e = step->Fail_error;
                let lines = step->Fail_lines;
                ||| h.running is Some && h.running->0 is Err && e == h.running->0->Err_0@
                    && lines.len() == 0
                ||| h.config is Some && h.config->0 is Err && e == h.config->0->Err_0@
                    && lines.len() == 0
                ||| ready && h.daemonized->0 is Err && e == h.daemonized->0->Err_0@ && lines.len()
                    == 0
                ||| may_start(setup, h) && starts_with_hook(h) && (
                h.pre_start matches Some(Reply::Output { success: false, .. })) && e
                    == MainErrorView::CheckFailed && lines =~= seq![
                    "Pre-start hook failed, aborting daemon startup"@,
                ]
                ||| may_start(setup, h) && starts_with_hook(h) && (
                h.pre_start matches Some(Reply::Failed(reason)) && e == MainErrorView::CheckFailed
                    && lines =~= seq![
                    "Failed to execute pre-start hook: "@ + reason@,
                    "Pre-start hook failed, aborting daemon startup"@,
                ])
            }
        }),
{
}

/// The daemon serves, with the configuration of the moment and without any runs,
/// exactly if its post-start hook did not fail. What the hook printed is told
/// either way.
#[verifier::spinoff_prover]
pub proof fn law_serving_follows_the_hook(
    root_dir: Seq<char>,
    base_branch: Seq<char>,
    h: ServeHistory,
)
    ensures
        ({
            let step = serve_step(root_dir, base_branch, h);
            let config = h.config->0->Ok_0@;
            let known = h.config is Some && h.config->0 is Ok;
            let hook = config.hooks.post_start;
            let set = hook is Some && hook->0.command is Some;
            let well = h.post_start matches Some(Reply::Output { success: true, .. });
            let said = hooks::printed(h.post_start->0);
            let shown = if set && said.len() > 0 {
                seq!["Post-start hook output:\n"@ + said]
            } else {
                Seq::empty()
            };
            &&& step is ReadConfig <==> h.config is None
            &&& step is RunHook <==> known && set && h.post_start is None
            &&& step is RunHook ==> Some(step->RunHook_0) == hooks::hook_run(hook, root_dir, None)
            &&& step is Serve <==> known && (set ==> well)
            &&& step is Serve ==> {
                let state = step->Serve_state;
                &&& state.root_dir == root_dir
                &&& state.base_branch == base_branch
                &&& state.merge_mode == config.merge_mode
                &&& state.hooks == config.hooks
                &&& state.runs.len() == 0
                &&& step->Serve_lines =~= shown
            }
            &&& step is Fail <==> (h.config is Some && h.config->0 is Err) || (known && set
                && h.post_start is Some && !well)
            &&& step is Fail && known ==> {
                &&& step->Fail_error is CheckFailed
                &&& step->Fail_lines =~= shown.push(
                    "Post-start hook failed, aborting daemon startup"@,
                )
            }
            &&& step is Fail && !known ==> {
                &&& step->Fail_error == h.config->0->Err_0@
                &&& step->Fail_lines.len() == 0
            }
        }),
{
}

/// What starting ends with holds what its parts hold.
pub proof fn law_start_results_hold_their_parts(
    result: StartDaemonResult,
    outcome: DaemonizeOutcome,
    auto: AutoStart,
)
    ensures
        result@.outcome == result.outcome@,
        result@.base_branch == result.base_branch@,
        outcome@ is NoBranch <==> outcome is NoBranch,
        outcome@ is AlreadyRunning <==> outcome is AlreadyRunning,
        outcome matches DaemonizeOutcome::Parent { daemon_dir } ==> outcome@ == (
        OutcomeView::Parent { daemon_dir: daemon_dir@ }),
        outcome matches DaemonizeOutcome::Child { daemon_dir } ==> outcome@ == (
        OutcomeView::Child { daemon_dir: daemon_dir@ }),
        auto@ is NotStarted <==> auto is NotStarted,
        auto matches AutoStart::Started { daemon_dir } ==> auto@ == (AutoStartView::Started {
            daemon_dir: daemon_dir@,
        }),
        auto matches AutoStart::Serve { daemon_dir, base_branch } ==> auto@ == (
        AutoStartView::Serve { daemon_dir: daemon_dir@, base_branch: base_branch@ }),
{
}

/// A daemon that answers in the directory that was found is running. One that does
/// not is an error where that directory was named and is in use, and nothing
/// otherwise.
pub proof fn law_answering_daemons_are_running(
    existing_dir: Option<&str>,
    verified_pid: Option<i32>,
    explicit: bool,
    has_runtime_state: bool,
    res: Result<Option<Vec<String>>, MainError>,
)
    requires
        call_ensures(
            check_daemon_already_running,
            (existing_dir, verified_pid, explicit, has_runtime_state),
            res,
        ),
    ensures
        existing_dir is Some && verified_pid is Some ==> res is Ok && res->Ok_0 is Some
            && text::texts(res->Ok_0->0@) == running_lines(verified_pid->0, existing_dir->0@),
        existing_dir is Some && verified_pid is None && explicit && has_runtime_state ==> res is Err
            && res->Err_0@ is CommunicationFailed,
        existing_dir is None || (verified_pid is None && !(explicit && has_runtime_state)) ==> res
            is Ok && res->Ok_0 is None,
{
}

/// What the user's command does with what starting ended with, and what a command
/// does that only needs a daemon. Only the process that is the daemon serves, for
/// the branch that it was started with.
pub proof fn law_only_the_daemon_serves(
    result: StartDaemonResult,
    started: StartAction,
    auto: AutoStart,
)
    requires
        call_ensures(start_daemon, (result,), started),
        call_ensures(auto_start_daemon, (result,), auto),
    ensures
        result.outcome is NoBranch ==> {
            &&& started@ == (StartActionView::Fail {
                error: MainErrorView::CheckFailed,
                lines: no_branch_lines(),
            })
            &&& auto@ is NotStarted
        },
        result.outcome is AlreadyRunning ==> started@ is Return && auto@ is NotStarted,
        result.outcome matches DaemonizeOutcome::Parent { daemon_dir } ==> {
            &&& started@ is Exit
            &&& auto@ == (AutoStartView::Started { daemon_dir: daemon_dir@ })
        },
        result.outcome matches DaemonizeOutcome::Child { daemon_dir } ==> {
            &&& started@ == (StartActionView::Serve {
                daemon_dir: daemon_dir@,
                base_branch: result.base_branch@,
            })
            &&& auto@ == (AutoStartView::Serve {
                daemon_dir: daemon_dir@,
                base_branch: result.base_branch@,
            })
        },
{
}

/// A request to stop comes before anything that was accepted, and only one that
/// names the daemon's own process is such a request.
pub proof fn law_stopping_comes_before_answering(
    shutdown: bool,
    accepted: bool,
    step: AcceptStep,
    request: MQRequest,
    pid: i32,
    stops: bool,
)
    requires
        call_ensures(after_accept, (shutdown, accepted), step),
        call_ensures(shutdown_requested, (&request, pid), stops),
    ensures
        step == AcceptStep::Stop <==> shutdown,
        step == AcceptStep::Answer <==> accepted && !shutdown,
        step == AcceptStep::Retry <==> !accepted && !shutdown,
        stops <==> request == (MQRequest::Shutdown { expected_pid: pid }),
{
}

/// A daemon is made in the foreground exactly if that was asked for.
pub proof fn law_daemons_are_made_as_asked_for(
    foreground: bool,
    setup: DaemonSetup,
    before: Vec<Result<(), String>>,
    fork: Option<ForkSide>,
    after: Vec<Result<(), String>>,
    res: DaemonizeStep,
)
    requires
        call_ensures(daemonize, (foreground, &setup, &before, &fork, &after), res),
    ensures
        foreground ==> res@ == foreground_step(setup, before@),
        !foreground ==> res@ == background_step(setup, before@, fork, after@),
{
}

} // verus!
