//! A candidate check from beginning to end, and the check that the user runs.
//!
//! What a check does next is a function of what has happened in it so far. The
//! driver does what is asked for, notes what came of it, and asks again.

use vstd::prelude::*;

use crate::check;
use crate::check::{CheckMode, CheckResult, CheckResultView};
use crate::config;
use crate::config::{CloneMode, CommandConfig, CommandConfigView, MergeStyle, SelfCIConfig};
use crate::error;
use crate::error::{MainError, MainErrorView, MergeError, VCSError};
use crate::hooks;
use crate::hooks::{CandidateHookEnv, HookEnvView};
use crate::protocol;
use crate::protocol::{JobLogEntry, StepLogEntry};
use crate::revision::{CommitId, ResolvedRevision, ResolvedRevisionView, RevisionError};
use crate::script::{Invocation, InvocationView, Reply};
use crate::test_merge::TestMergeOutcome;
use crate::text;
use crate::vcs::VCS;
use crate::worker::{JobEnv, JobSpawnContext};

verus! {

/// What is checked, and how.
#[derive(Debug)]
pub struct CheckSetup {
    pub root_dir: String,
    pub base: ResolvedRevision,
    /// What the jobs run in.
    pub tested: ResolvedRevision,
    /// What was submitted.
    pub candidate: ResolvedRevision,
    /// Whether what is tested is a separate integration.
    pub integrated: bool,
    pub mode: CheckMode,
    /// The hook that is run once both directories exist.
    pub post_clone: Option<CommandConfig>,
    /// What that hook is told.
    pub hook_env: Option<CandidateHookEnv>,
}

/// What a [`CheckSetup`] holds.
pub struct CheckSetupView {
    pub root_dir: Seq<char>,
    pub base: ResolvedRevisionView,
    pub tested: ResolvedRevisionView,
    pub candidate: ResolvedRevisionView,
    pub integrated: bool,
    pub mode: CheckMode,
    pub post_clone: Option<CommandConfigView>,
    pub hook_env: Option<HookEnvView>,
}

impl View for CheckSetup {
    type V = CheckSetupView;

    open spec fn view(&self) -> CheckSetupView {
        CheckSetupView {
            root_dir: self.root_dir@,
            base: self.base@,
            tested: self.tested@,
            candidate: self.candidate@,
            integrated: self.integrated,
            mode: self.mode,
            post_clone: self.post_clone.deep_view(),
            hook_env: match self.hook_env {
                Some(env) => Some(env@),
                None => None,
            },
        }
    }
}

/// Why there is no control socket.
#[derive(Debug)]
pub enum SocketError {
    /// There is no path for it.
    NoPath(String),
    /// It could not be bound.
    NotBound,
}

/// What has happened in a check.
#[derive(Debug)]
pub struct CheckHistory {
    pub vcs: Option<Result<VCS, VCSError>>,
    /// The configuration at the root.
    pub root_config: Option<Result<SelfCIConfig, MainError>>,
    /// The directory for the base.
    pub base_dir: Option<Result<String, String>>,
    /// The directory for what is tested.
    pub candidate_dir: Option<Result<String, String>>,
    /// Whether both revisions were exported.
    pub exported: Option<Result<(), MainError>>,
    /// The reply of the post-clone hook.
    pub post_clone: Option<Reply>,
    /// Whether the directories held what was exported before the jobs.
    pub attested: Option<Result<bool, MainError>>,
    /// The configuration in the directory of the base.
    pub base_config: Option<Result<SelfCIConfig, MainError>>,
    /// The path of the control socket.
    pub socket: Option<Result<String, SocketError>>,
    /// What came of the jobs, where the first could be started.
    pub jobs: Option<Result<CheckResult, MainError>>,
    /// Whether the directories held what was exported after the jobs.
    pub attested_after: Option<Result<bool, MainError>>,
}

/// A check that could not be made, with what is known of it by then.
#[derive(Debug)]
pub struct CheckFailure {
    pub error: MainError,
    /// The output of the post-clone hook, where it was run.
    pub post_clone_output: Option<String>,
    /// What came of the jobs, where they have ended.
    pub jobs: Option<CheckResult>,
}

/// What a [`CheckFailure`] holds.
pub struct CheckFailureView {
    pub error: MainErrorView,
    pub post_clone_output: Option<Seq<char>>,
    pub jobs: Option<CheckResultView>,
}

impl View for CheckFailure {
    type V = CheckFailureView;

    open spec fn view(&self) -> CheckFailureView {
        CheckFailureView {
            error: self.error@,
            post_clone_output: self.post_clone_output.deep_view(),
            jobs: match self.jobs {
                Some(result) => Some(result@),
                None => None,
            },
        }
    }
}

/// What a check does next.
#[derive(Debug)]
pub enum CheckStep {
    DetectVcs,
    ReadRootConfig,
    CreateBaseDir,
    CreateCandidateDir,
    /// Export both revisions, each into its directory.
    Export {
        vcs: VCS,
        base: CommitId,
        base_dir: String,
        tested: CommitId,
        candidate_dir: String,
        clone_mode: CloneMode,
    },
    RunHook(Invocation),
    Attest,
    ReadBaseConfig { base_dir: String },
    OpenSocket,
    /// Start the job `main` and follow the jobs until all have ended.
    RunJobs(JobSpawnContext),
    AttestAgain,
    Done(CheckResult),
    Fail(CheckFailure),
}

/// What a [`CheckStep`] holds.
pub enum CheckStepView {
    DetectVcs,
    ReadRootConfig,
    CreateBaseDir,
    CreateCandidateDir,
    Export {
        vcs: VCS,
        base: Seq<char>,
        base_dir: Seq<char>,
        tested: Seq<char>,
        candidate_dir: Seq<char>,
        clone_mode: CloneMode,
    },
    RunHook(InvocationView),
    Attest,
    ReadBaseConfig { base_dir: Seq<char> },
    OpenSocket,
    RunJobs(SpawnView),
    AttestAgain,
    Done(CheckResultView),
    Fail(CheckFailureView),
}

/// What a [`JobSpawnContext`] holds.
pub struct SpawnView {
    pub base_dir: Seq<char>,
    pub candidate_dir: Seq<char>,
    pub command_prefix: Seq<Seq<char>>,
    pub command: Seq<char>,
    pub print_output: bool,
    pub socket_path: Seq<char>,
    pub env: crate::worker::JobEnvView,
}

impl View for JobSpawnContext {
    type V = SpawnView;

    open spec fn view(&self) -> SpawnView {
        SpawnView {
            base_dir: self.base_dir@,
            candidate_dir: self.candidate_dir@,
            command_prefix: text::texts(self.command_prefix@),
            command: self.command@,
            print_output: self.print_output,
            socket_path: self.socket_path@,
            env: self.env@,
        }
    }
}

impl View for CheckStep {
    type V = CheckStepView;

    open spec fn view(&self) -> CheckStepView {
        match *self {
            CheckStep::DetectVcs => CheckStepView::DetectVcs,
            CheckStep::ReadRootConfig => CheckStepView::ReadRootConfig,
            CheckStep::CreateBaseDir => CheckStepView::CreateBaseDir,
            CheckStep::CreateCandidateDir => CheckStepView::CreateCandidateDir,
            CheckStep::Export { vcs, base, base_dir, tested, candidate_dir, clone_mode } =>
                CheckStepView::Export {
                    vcs,
                    base: base@,
                    base_dir: base_dir@,
                    tested: tested@,
                    candidate_dir: candidate_dir@,
                    clone_mode,
                },
            CheckStep::RunHook(inv) => CheckStepView::RunHook(inv@),
            CheckStep::Attest => CheckStepView::Attest,
            CheckStep::ReadBaseConfig { base_dir } => CheckStepView::ReadBaseConfig {
                base_dir: base_dir@,
            },
            CheckStep::OpenSocket => CheckStepView::OpenSocket,
            CheckStep::RunJobs(context) => CheckStepView::RunJobs(context@),
            CheckStep::AttestAgain => CheckStepView::AttestAgain,
            CheckStep::Done(result) => CheckStepView::Done(result@),
            CheckStep::Fail(failure) => CheckStepView::Fail(failure@),
        }
    }
}

/// What the post-clone hook is told: the run's variables and the directories.
pub open spec fn post_clone_env(
    s: CheckSetupView,
    base_dir: Seq<char>,
    candidate_dir: Seq<char>,
) -> Option<HookEnvView> {
    match s.hook_env {
        Some(env) => Some(HookEnvView { worktrees: Some((base_dir, candidate_dir)), ..env }),
        None => None,
    }
}

/// What jobs are told about the check.
pub open spec fn job_env(s: CheckSetupView) -> crate::worker::JobEnvView {
    crate::worker::JobEnvView {
        run_mode: match s.mode {
            CheckMode::Inline { .. } => "inline"@,
            CheckMode::MergeQueue => "mq"@,
        },
        candidate: s.candidate,
        tested: if s.integrated {
            Some((s.tested.commit_id, s.tested.change_id))
        } else {
            None
        },
    }
}

/// The result with what came of the post-clone hook.
pub open spec fn with_hook(
    result: CheckResultView,
    hook: Option<(Seq<char>, bool)>,
) -> CheckResultView {
    match hook {
        Some((output, success)) => CheckResultView {
            post_clone_output: Some(output),
            post_clone_success: Some(success),
            ..result
        },
        None => CheckResultView { post_clone_output: None, post_clone_success: None, ..result },
    }
}

/// The result of a check that ended before its jobs.
pub open spec fn no_jobs_result(exit_code: Option<i32>, output: Seq<char>) -> CheckResultView {
    CheckResultView {
        output,
        steps: seq![],
        jobs: seq![],
        exit_code,
        duration: 0,
        post_clone_output: None,
        post_clone_success: None,
    }
}

/// A check that could not be made before its jobs were.
pub open spec fn early_failure(
    error: MainErrorView,
    hook: Option<(Seq<char>, bool)>,
) -> CheckFailureView {
    CheckFailureView {
        error,
        post_clone_output: match hook {
            Some((output, _)) => Some(output),
            None => None,
        },
        jobs: None,
    }
}

/// What is said of directories that hold something else than was exported.
pub const TREES_CHANGED: &'static str =
    "Exported worktrees no longer match the prepared revisions\n";

/// The jobs, and the directories after them.
pub open spec fn jobs_stage(
    s: CheckSetupView,
    base_dir: Seq<char>,
    candidate_dir: Seq<char>,
    hook: Option<(Seq<char>, bool)>,
    h: CheckHistory,
) -> CheckStepView {
    match h.base_config {
        None => CheckStepView::ReadBaseConfig { base_dir },
        Some(Err(e)) => CheckStepView::Fail(early_failure(e@, hook)),
        Some(Ok(config)) => match h.socket {
            None => CheckStepView::OpenSocket,
            Some(Err(SocketError::NoPath(e))) => CheckStepView::Fail(
                early_failure(MainErrorView::CreateFailed(e@), hook),
            ),
            Some(Err(SocketError::NotBound)) => CheckStepView::Fail(
                early_failure(MainErrorView::CheckFailed, hook),
            ),
            Some(Ok(socket)) => match h.jobs {
                None => CheckStepView::RunJobs(
                    SpawnView {
                        base_dir,
                        candidate_dir,
                        command_prefix: text::texts(config.job.command_prefix@),
                        command: config.job.command@,
                        print_output: s.mode == CheckMode::Inline { print_output: true },
                        socket_path: socket@,
                        env: job_env(s),
                    },
                ),
                Some(Err(e)) => CheckStepView::Fail(early_failure(e@, hook)),
                Some(Ok(result)) => match h.attested_after {
                    None => CheckStepView::AttestAgain,
                    Some(Err(e)) => CheckStepView::Fail(
                        CheckFailureView { jobs: Some(result@), ..early_failure(e@, hook) },
                    ),
                    Some(Ok(same)) => CheckStepView::Done(
                        with_hook(
                            if same {
                                result@
                            } else {
                                CheckResultView {
                                    exit_code: Some(1i32),
                                    output: result@.output + TREES_CHANGED@,
                                    ..result@
                                }
                            },
                            hook,
                        ),
                    ),
                },
            },
        },
    }
}

/// The post-clone hook, and the directories after it.
pub open spec fn exported_stage(
    s: CheckSetupView,
    base_dir: Seq<char>,
    candidate_dir: Seq<char>,
    h: CheckHistory,
) -> CheckStepView {
    let run = hooks::hook_run(
        s.post_clone,
        s.root_dir,
        post_clone_env(s, base_dir, candidate_dir),
    );
    if run is Some && h.post_clone is None {
        CheckStepView::RunHook(run->0)
    } else {
        let r = hooks::hook_outcome(run, h.post_clone);
        let hook = if run is Some {
            Some((r.output, r.success))
        } else {
            None
        };
        if !r.success {
            CheckStepView::Done(with_hook(no_jobs_result(None, seq![]), hook))
        } else {
            match h.attested {
                None => CheckStepView::Attest,
                Some(Err(e)) => CheckStepView::Fail(early_failure(e@, hook)),
                Some(Ok(same)) => if same {
                    jobs_stage(s, base_dir, candidate_dir, hook, h)
                } else {
                    CheckStepView::Done(
                        with_hook(no_jobs_result(Some(1i32), TREES_CHANGED@), hook),
                    )
                },
            }
        }
    }
}

/// What a check does next.
pub open spec fn check_step(s: CheckSetupView, h: CheckHistory) -> CheckStepView {
    match h.vcs {
        None => CheckStepView::DetectVcs,
        Some(Err(e)) => CheckStepView::Fail(early_failure(error::vcs_main_error(e), None)),
        Some(Ok(vcs)) => match h.root_config {
            None => CheckStepView::ReadRootConfig,
            Some(Err(e)) => CheckStepView::Fail(early_failure(e@, None)),
            Some(Ok(config)) => match h.base_dir {
                None => CheckStepView::CreateBaseDir,
                Some(Err(e)) => CheckStepView::Fail(
                    early_failure(MainErrorView::CreateFailed(e@), None),
                ),
                Some(Ok(base_dir)) => match h.candidate_dir {
                    None => CheckStepView::CreateCandidateDir,
                    Some(Err(e)) => CheckStepView::Fail(
                    early_failure(MainErrorView::CreateFailed(e@), None),
                ),
                    Some(Ok(candidate_dir)) => match h.exported {
                        None => CheckStepView::Export {
                            vcs,
                            base: s.base.commit_id,
                            base_dir: base_dir@,
                            tested: s.tested.commit_id,
                            candidate_dir: candidate_dir@,
                            clone_mode: config.job.clone_mode,
                        },
                        Some(Err(e)) => CheckStepView::Fail(early_failure(e@, None)),
                        Some(Ok(_)) => exported_stage(s, base_dir@, candidate_dir@, h),
                    },
                },
            },
        },
    }
}

fn copy_result(result: &CheckResult) -> (res: CheckResult)
    ensures
        res@ == result@,
{
    CheckResult {
        output: result.output.clone(),
        steps: protocol::copy_steps(&result.steps),
        jobs: protocol::copy_jobs(&result.jobs),
        exit_code: result.exit_code,
        duration: result.duration,
        post_clone_output: config::copy_option(&result.post_clone_output),
        post_clone_success: result.post_clone_success,
    }
}

fn empty_result(exit_code: Option<i32>, output: &str) -> (res: CheckResult)
    ensures
        res@ == no_jobs_result(exit_code, output@),
{
    let steps: Vec<StepLogEntry> = Vec::new();
    let jobs: Vec<JobLogEntry> = Vec::new();
    assert(protocol::step_views(steps@) =~= seq![]);
    assert(protocol::job_views(jobs@) =~= seq![]);
    CheckResult {
        output: output.to_owned(),
        steps,
        jobs,
        exit_code,
        duration: 0,
        post_clone_output: None,
        post_clone_success: None,
    }
}

/// What is known of a post-clone hook that was run.
pub open spec fn hook_view(hook: Option<(String, bool)>) -> Option<(Seq<char>, bool)> {
    match hook {
        Some((output, success)) => Some((output@, success)),
        None => None,
    }
}

fn note_hook(result: CheckResult, hook: Option<(String, bool)>) -> (res: CheckResult)
    ensures
        res@ == with_hook(result@, hook_view(hook)),
{
    let mut result = result;
    match hook {
        Some((output, success)) => {
            result.post_clone_output = Some(output);
            result.post_clone_success = Some(success);
        },
        None => {
            result.post_clone_output = None;
            result.post_clone_success = None;
        },
    }
    result
}

fn fail(error: MainError, hook: Option<(String, bool)>) -> (res: CheckStep)
    ensures
        res@ == CheckStepView::Fail(early_failure(error@, hook_view(hook))),
{
    CheckStep::Fail(
        CheckFailure {
            error,
            post_clone_output: match hook {
                Some((output, _)) => Some(output),
                None => None,
            },
            jobs: None,
        },
    )
}

fn make_job_env(s: &CheckSetup) -> (res: JobEnv)
    ensures
        res@ == job_env(s@),
{
    JobEnv {
        run_mode: match s.mode {
            CheckMode::Inline { .. } => "inline".to_owned(),
            CheckMode::MergeQueue => "mq".to_owned(),
        },
        candidate: s.candidate.clone(),
        tested: if s.integrated {
            Some((s.tested.commit_id.clone(), s.tested.change_id.clone()))
        } else {
            None
        },
    }
}

fn run_jobs(
    s: &CheckSetup,
    base_dir: &str,
    candidate_dir: &str,
    hook: Option<(String, bool)>,
    h: &CheckHistory,
) -> (res: CheckStep)
    ensures
        res@ == jobs_stage(s@, base_dir@, candidate_dir@, hook_view(hook), *h),
{
    let config = match &h.base_config {
        None => return CheckStep::ReadBaseConfig { base_dir: base_dir.to_owned() },
        Some(Err(e)) => return fail(e.clone(), hook),
        Some(Ok(config)) => config,
    };
    let socket = match &h.socket {
        None => return CheckStep::OpenSocket,
        Some(Err(SocketError::NoPath(e))) => {
            return fail(MainError::CreateFailed(e.clone()), hook);
        },
        Some(Err(SocketError::NotBound)) => return fail(MainError::CheckFailed, hook),
        Some(Ok(socket)) => socket,
    };
    let result = match &h.jobs {
        None => {
            return CheckStep::RunJobs(
                JobSpawnContext {
                    base_dir: base_dir.to_owned(),
                    candidate_dir: candidate_dir.to_owned(),
                    command_prefix: config::copy_strings(&config.job.command_prefix),
                    command: config.job.command.clone(),
                    print_output: s.mode.print_output(),
                    socket_path: socket.clone(),
                    env: make_job_env(s),
                },
            );
        },
        Some(Err(e)) => return fail(e.clone(), hook),
        Some(Ok(result)) => result,
    };
    match &h.attested_after {
        None => CheckStep::AttestAgain,
        Some(Err(e)) => CheckStep::Fail(
            CheckFailure {
                error: e.clone(),
                post_clone_output: match hook {
                    Some((output, _)) => Some(output),
                    None => None,
                },
                jobs: Some(copy_result(result)),
            },
        ),
        Some(Ok(same)) => {
            let mut result = copy_result(result);
            if !*same {
                result.exit_code = Some(1);
                result.output.append(TREES_CHANGED);
            }
            CheckStep::Done(note_hook(result, hook))
        },
    }
}

fn after_export(s: &CheckSetup, base_dir: &str, candidate_dir: &str, h: &CheckHistory) -> (res:
    CheckStep)
    ensures
        res@ == exported_stage(s@, base_dir@, candidate_dir@, *h),
{
    let env: Option<CandidateHookEnv> = match &s.hook_env {
        Some(env) => Some(
            CandidateHookEnv {
                candidate: env.candidate.clone(),
                base_branch: env.base_branch.clone(),
                tested: match &env.tested {
                    Some(id) => Some(id.clone()),
                    None => None,
                },
                landed: match &env.landed {
                    Some(id) => Some(id.clone()),
                    None => None,
                },
                worktrees: Some((base_dir.to_owned(), candidate_dir.to_owned())),
            },
        ),
        None => None,
    };
    let hook: Option<(String, bool)> = match hooks::run_hook_with_env(
        &s.post_clone,
        s.root_dir.as_str(),
        env.as_ref(),
    ) {
        Some(inv) => match &h.post_clone {
            None => return CheckStep::RunHook(inv),
            Some(reply) => {
                let r = hooks::hook_reply(reply);
                assert(r@ == hooks::hook_outcome(Some(inv@), Some(*reply)));
                if !r.success {
                    proof {
                        reveal_strlit("");
                        assert(""@ =~= seq![]);
                    }
                    return CheckStep::Done(
                        note_hook(empty_result(None, ""), Some((r.output, false))),
                    );
                }
                Some((r.output, true))
            },
        },
        None => None,
    };
    match &h.attested {
        None => CheckStep::Attest,
        Some(Err(e)) => fail(e.clone(), hook),
        Some(Ok(same)) => {
            if *same {
                run_jobs(s, base_dir, candidate_dir, hook, h)
            } else {
                CheckStep::Done(note_hook(empty_result(Some(1), TREES_CHANGED), hook))
            }
        },
    }
}

/// What a check does next, given what has happened in it so far.
pub fn run_candidate_check(s: &CheckSetup, h: &CheckHistory) -> (res: CheckStep)
    ensures
        res@ == check_step(s@, *h),
{
    let vcs = match h.vcs {
        None => return CheckStep::DetectVcs,
        Some(Err(e)) => return fail(e.into_main(), None),
        Some(Ok(vcs)) => vcs,
    };
    let config = match &h.root_config {
        None => return CheckStep::ReadRootConfig,
        Some(Err(e)) => return fail(e.clone(), None),
        Some(Ok(config)) => config,
    };
    let base_dir = match &h.base_dir {
        None => return CheckStep::CreateBaseDir,
        Some(Err(e)) => return fail(MainError::CreateFailed(e.clone()), None),
        Some(Ok(dir)) => dir,
    };
    let candidate_dir = match &h.candidate_dir {
        None => return CheckStep::CreateCandidateDir,
        Some(Err(e)) => return fail(MainError::CreateFailed(e.clone()), None),
        Some(Ok(dir)) => dir,
    };
    match &h.exported {
        None => CheckStep::Export {
            vcs,
            base: s.base.commit_id.clone(),
            base_dir: base_dir.clone(),
            tested: s.tested.commit_id.clone(),
            candidate_dir: candidate_dir.clone(),
            clone_mode: config.job.clone_mode,
        },
        Some(Err(e)) => fail(e.clone(), None),
        Some(Ok(_)) => after_export(s, base_dir.as_str(), candidate_dir.as_str(), h),
    }
}

/// The command of a check is the base's: jobs are started with the command and
/// prefix of the configuration in the base's directory, whatever else is
/// configured, and in the directory of what is tested.
pub proof fn law_base_selects_the_command(s: CheckSetupView, h: CheckHistory)
    ensures
        check_step(s, h) matches CheckStepView::RunJobs(context) ==> {
            &&& h.base_config matches Some(Ok(config))
            &&& context.command == config.job.command@
            &&& context.command_prefix == text::texts(config.job.command_prefix@)
            &&& h.candidate_dir matches Some(Ok(dir))
            &&& context.candidate_dir == dir@
            &&& h.base_dir matches Some(Ok(base))
            &&& context.base_dir == base@
        },
        check_step(s, h) matches CheckStepView::ReadBaseConfig { base_dir } ==> {
            &&& h.base_dir matches Some(Ok(base))
            &&& base_dir == base@
        },
{
}

/// What is exported is exactly the base and what is tested, each into its own
/// directory.
pub proof fn law_what_is_tested_is_exported(s: CheckSetupView, h: CheckHistory)
    ensures
        check_step(s, h) matches CheckStepView::Export {
            base,
            base_dir,
            tested,
            candidate_dir,
            ..
        } ==> {
            &&& base == s.base.commit_id
            &&& tested == s.tested.commit_id
            &&& h.base_dir matches Some(Ok(b))
            &&& base_dir == b@
            &&& h.candidate_dir matches Some(Ok(c))
            &&& candidate_dir == c@
        },
{
}

/// Jobs start only after a successful post-clone hook and on directories that
/// hold exactly what was exported.
pub proof fn law_jobs_run_on_attested_trees(s: CheckSetupView, h: CheckHistory)
    ensures
        check_step(s, h) is RunJobs ==> {
            &&& h.attested == Some(Ok::<bool, MainError>(true))
            &&& h.exported is Some && h.exported->0 is Ok
            &&& (s.post_clone matches Some(hook) && hook.command is Some ==> (
            h.post_clone matches Some(Reply::Output { success, .. }) && success))
        },
{
}

/// A check passes only if its jobs passed and the directories, before and after
/// them, held exactly what was exported.
pub proof fn law_changed_trees_fail_the_check(s: CheckSetupView, h: CheckHistory)
    ensures
        check_step(s, h) matches CheckStepView::Done(result) ==> (check::passed(result) ==> {
            &&& h.attested == Some(Ok::<bool, MainError>(true))
            &&& h.attested_after == Some(Ok::<bool, MainError>(true))
            &&& h.jobs matches Some(Ok(jobs)) && check::passed(jobs@)
        }),
{
}

/// What the post-clone hook printed is part of what a check comes to, whether it
/// ends with a result or could not be made.
pub proof fn law_post_clone_output_is_kept(s: CheckSetupView, h: CheckHistory)
    requires
        check_step(s, CheckHistory { post_clone: None, ..h }) is RunHook,
        h.post_clone is Some,
    ensures
        check_step(s, h) matches CheckStepView::Done(result) ==> result.post_clone_output == Some(
            hooks::printed(h.post_clone->0),
        ),
        check_step(s, h) matches CheckStepView::Fail(failure) ==> failure.post_clone_output == Some(
            hooks::printed(h.post_clone->0),
        ),
{
}

// ---------------------------------------------------------------------------
// The check that the user runs

/// What the user asked for.
#[derive(Debug)]
pub struct InlineSetup {
    pub root_dir: String,
    pub base: Option<String>,
    pub candidate: Option<String>,
    pub print_output: bool,
}

/// What has happened in a check that the user runs.
#[derive(Debug)]
pub struct InlineHistory {
    pub vcs: Option<Result<VCS, VCSError>>,
    pub base: Option<Result<ResolvedRevision, RevisionError>>,
    pub candidate: Option<Result<ResolvedRevision, RevisionError>>,
    pub config: Option<Result<SelfCIConfig, MainError>>,
    pub test_merge: Option<Result<TestMergeOutcome, MergeError>>,
    pub result: Option<Result<CheckResult, CheckFailure>>,
}

/// What a check that the user runs does next.
#[derive(Debug)]
pub enum InlineStep {
    DetectVcs,
    ResolveBase { revision: String },
    ResolveCandidate { revision: String },
    ReadConfig,
    TestMerge { base: ResolvedRevision, candidate: ResolvedRevision, merge_mode: MergeStyle },
    Check(CheckSetup),
    Done,
    Fail(MainError),
}

/// The candidate where none is given.
pub open spec fn default_candidate(vcs: VCS) -> Seq<char> {
    match vcs {
        VCS::Jujutsu => "@"@,
        VCS::Git => "HEAD"@,
    }
}

/// The candidate as the user wrote it.
pub open spec fn candidate_name(s: InlineSetup, vcs: VCS) -> Seq<char> {
    match s.candidate {
        Some(name) => name@,
        None => default_candidate(vcs),
    }
}

/// The base as the user wrote it: the candidate where none is given.
pub open spec fn base_name(s: InlineSetup, vcs: VCS) -> Seq<char> {
    match s.base {
        Some(name) => name@,
        None => candidate_name(s, vcs),
    }
}

/// The integration mode of a configuration.
pub open spec fn configured_mode(config: SelfCIConfig) -> MergeStyle {
    match config.mq {
        Some(mq) => mq.merge_mode,
        None => MergeStyle::Rebase,
    }
}

/// Whether a step checks exactly this.
pub open spec fn checks(
    step: InlineStep,
    s: InlineSetup,
    base: ResolvedRevision,
    candidate: ResolvedRevision,
    tested: ResolvedRevisionView,
    integrated: bool,
) -> bool {
    &&& step matches InlineStep::Check(setup)
    &&& setup@ == (CheckSetupView {
        root_dir: s.root_dir@,
        base: base@,
        tested,
        candidate: candidate@,
        integrated,
        mode: CheckMode::Inline { print_output: s.print_output },
        post_clone: None,
        hook_env: None,
    })
}

/// Whether a step ends the check the way its result demands.
pub open spec fn ends(
    step: InlineStep,
    result: Result<CheckResult, CheckFailure>,
) -> bool {
    match result {
        Err(failure) => step matches InlineStep::Fail(f) && f@ == failure@.error,
        Ok(r) => if check::passed(r@) {
            step is Done
        } else {
            step matches InlineStep::Fail(f) && f@ == MainErrorView::CheckFailed
        },
    }
}

/// Whether a step is the right one once both revisions are known: commits that
/// differ are integrated first and the integration is tested; else the
/// candidate is tested as it is.
pub open spec fn resolved_next(
    step: InlineStep,
    s: InlineSetup,
    base: ResolvedRevision,
    candidate: ResolvedRevision,
    h: InlineHistory,
) -> bool {
    if base@.commit_id == candidate@.commit_id {
        match h.result {
            None => checks(step, s, base, candidate, candidate@, false),
            Some(result) => ends(step, result),
        }
    } else {
        match h.config {
            None => step is ReadConfig,
            Some(Err(e)) => step matches InlineStep::Fail(f) && f@ == e@,
            Some(Ok(config)) => match h.test_merge {
                None => {
                    &&& step matches InlineStep::TestMerge { base: b, candidate: c, merge_mode }
                    &&& b@ == base@
                    &&& c@ == candidate@
                    &&& merge_mode == configured_mode(config)
                },
                Some(Err(e)) => step matches InlineStep::Fail(f) && f@
                    == MainErrorView::TestMergeFailed(e@),
                Some(Ok(merged)) => match h.result {
                    None => checks(
                        step,
                        s,
                        base,
                        candidate,
                        ResolvedRevisionView {
                            user: candidate@.user,
                            change_id: merged@.change_id,
                            commit_id: merged@.commit_id,
                        },
                        true,
                    ),
                    Some(result) => ends(step, result),
                },
            },
        }
    }
}

/// Whether a step is the right one.
pub open spec fn inline_next(step: InlineStep, s: InlineSetup, h: InlineHistory) -> bool {
    match h.vcs {
        None => step is DetectVcs,
        Some(Err(e)) => step matches InlineStep::Fail(f) && f@ == error::vcs_main_error(e),
        Some(Ok(vcs)) => match h.base {
            None => step matches InlineStep::ResolveBase { revision } && revision@ == base_name(
                s,
                vcs,
            ),
            Some(Err(e)) => step matches InlineStep::Fail(f) && f@
                == MainErrorView::ResolutionFailed(e@),
            Some(Ok(base)) => match h.candidate {
                None => step matches InlineStep::ResolveCandidate { revision } && revision@
                    == candidate_name(s, vcs),
                Some(Err(e)) => step matches InlineStep::Fail(f) && f@
                    == MainErrorView::ResolutionFailed(e@),
                Some(Ok(candidate)) => resolved_next(step, s, base, candidate, h),
            },
        },
    }
}

fn name_candidate(s: &InlineSetup, vcs: VCS) -> (res: String)
    ensures
        res@ == candidate_name(*s, vcs),
{
    match &s.candidate {
        Some(name) => name.clone(),
        None => match vcs {
            VCS::Jujutsu => "@".to_owned(),
            VCS::Git => "HEAD".to_owned(),
        },
    }
}

fn make_check(
    s: &InlineSetup,
    base: &ResolvedRevision,
    candidate: &ResolvedRevision,
    tested: ResolvedRevision,
    integrated: bool,
) -> (res: InlineStep)
    ensures
        checks(res, *s, *base, *candidate, tested@, integrated),
{
    InlineStep::Check(
        CheckSetup {
            root_dir: s.root_dir.clone(),
            base: base.clone(),
            tested,
            candidate: candidate.clone(),
            integrated,
            mode: CheckMode::Inline { print_output: s.print_output },
            post_clone: None,
            hook_env: None,
        },
    )
}

fn end_check(result: &Result<CheckResult, CheckFailure>) -> (res: InlineStep)
    ensures
        ends(res, *result),
{
    match result {
        Err(failure) => InlineStep::Fail(failure.error.clone()),
        Ok(r) => {
            if check::check_passed(r) {
                InlineStep::Done
            } else {
                InlineStep::Fail(MainError::CheckFailed)
            }
        },
    }
}

/// What a check that the user runs does next, given what has happened in it so far.
pub fn check(s: &InlineSetup, h: &InlineHistory) -> (res: InlineStep)
    ensures
        inline_next(res, *s, *h),
{
    let vcs = match h.vcs {
        None => return InlineStep::DetectVcs,
        Some(Err(e)) => return InlineStep::Fail(e.into_main()),
        Some(Ok(vcs)) => vcs,
    };
    let base = match &h.base {
        None => {
            let revision = match &s.base {
                Some(name) => name.clone(),
                None => name_candidate(s, vcs),
            };
            return InlineStep::ResolveBase { revision };
        },
        Some(Err(e)) => return InlineStep::Fail(MainError::ResolutionFailed(e.clone())),
        Some(Ok(base)) => base,
    };
    let candidate = match &h.candidate {
        None => return InlineStep::ResolveCandidate { revision: name_candidate(s, vcs) },
        Some(Err(e)) => return InlineStep::Fail(MainError::ResolutionFailed(e.clone())),
        Some(Ok(candidate)) => candidate,
    };
    if text::same_text(base.commit_id.as_str(), candidate.commit_id.as_str()) {
        return match &h.result {
            None => make_check(s, base, candidate, candidate.clone(), false),
            Some(result) => end_check(result),
        };
    }
    let config = match &h.config {
        None => return InlineStep::ReadConfig,
        Some(Err(e)) => return InlineStep::Fail(e.clone()),
        Some(Ok(config)) => config,
    };
    let merge_mode = match &config.mq {
        Some(mq) => mq.merge_mode,
        None => config::default_merge_style(),
    };
    match &h.test_merge {
        None => InlineStep::TestMerge {
            base: base.clone(),
            candidate: candidate.clone(),
            merge_mode,
        },
        Some(Err(e)) => InlineStep::Fail(MainError::TestMergeFailed(e.clone())),
        Some(Ok(merged)) => match &h.result {
            None => {
                let tested = ResolvedRevision {
                    user: candidate.user.clone(),
                    change_id: merged.change_id.clone(),
                    commit_id: merged.commit_id.clone(),
                };
                make_check(s, base, candidate, tested, true)
            },
            Some(result) => end_check(result),
        },
    }
}

/// How many jobs run at once: as many as asked for, else as the machine has
/// room for, else one.
pub fn parallelism(jobs: Option<usize>, available: Option<usize>) -> (res: usize)
    ensures
        res == match (jobs, available) {
            (Some(n), _) => n,
            (None, Some(n)) => n,
            (None, None) => 1usize,
        },
{
    match jobs {
        Some(n) => n,
        None => match available {
            Some(n) => n,
            None => 1,
        },
    }
}

/// A candidate that is its own base is tested as it is; any other is tested as
/// its integration with the base. Jobs are told of a tested integration only
/// where there is one.
pub proof fn law_differing_commits_are_integrated(
    step: InlineStep,
    s: InlineSetup,
    h: InlineHistory,
)
    requires
        inline_next(step, s, h),
    ensures
        step matches InlineStep::Check(setup) ==> {
            &&& setup.integrated <==> setup.base@.commit_id != setup.candidate@.commit_id
            &&& !setup.integrated ==> setup.tested@ == setup.candidate@ && job_env(setup@).tested
                is None
            &&& setup.integrated ==> {
                &&& h.test_merge matches Some(Ok(merged))
                &&& setup.tested@.commit_id == merged@.commit_id
                &&& job_env(setup@).tested == Some((merged@.commit_id, merged@.change_id))
            }
            &&& job_env(setup@).candidate == setup.candidate@
        },
{
}

/// What the user names is what is resolved: the candidate under the very name that
/// the user gave, and the base under its own. Without a name for the candidate it
/// is the commit that is checked out, and without one for the base it is whatever
/// the candidate is.
pub proof fn law_the_user_names_what_is_checked(
    step: InlineStep,
    s: InlineSetup,
    h: InlineHistory,
)
    requires
        inline_next(step, s, h),
    ensures
        step matches InlineStep::ResolveCandidate { revision } ==> {
            &&& s.candidate matches Some(name) ==> revision@ == name@
            &&& s.candidate is None && h.vcs == Some(Ok::<VCS, VCSError>(VCS::Git)) ==> revision@
                == "HEAD"@
            &&& s.candidate is None && h.vcs == Some(Ok::<VCS, VCSError>(VCS::Jujutsu))
                ==> revision@ == "@"@
        },
        step matches InlineStep::ResolveBase { revision } ==> {
            &&& s.base matches Some(name) ==> revision@ == name@
            &&& s.base is None ==> {
                &&& s.candidate matches Some(name) ==> revision@ == name@
                &&& s.candidate is None && h.vcs == Some(Ok::<VCS, VCSError>(VCS::Git))
                    ==> revision@ == "HEAD"@
                &&& s.candidate is None && h.vcs == Some(Ok::<VCS, VCSError>(VCS::Jujutsu))
                    ==> revision@ == "@"@
            }
        },
        step is ResolveCandidate || step is ResolveBase ==> h.vcs is Some && h.vcs->0 is Ok,
{
}

/// Whether both revisions of the user's check are known.
pub open spec fn both_resolved(h: InlineHistory) -> bool {
    &&& h.vcs is Some && h.vcs->0 is Ok
    &&& h.base is Some && h.base->0 is Ok
    &&& h.candidate is Some && h.candidate->0 is Ok
}

/// Whether what the user's check tests is known: both revisions are the same
/// commit, or they were integrated.
pub open spec fn tested_is_known(h: InlineHistory) -> bool {
    &&& both_resolved(h)
    &&& h.base->0->Ok_0.commit_id@ == h.candidate->0->Ok_0.commit_id@ || (h.config is Some
        && h.config->0 is Ok && h.test_merge is Some && h.test_merge->0 is Ok)
}

/// The user's check does one thing after the other, each exactly when all before
/// it went well: it finds the version control system, the base and the candidate.
/// If they are different commits it reads the configuration and integrates them.
/// Then it checks, and it is done if and only if the check passed.
pub proof fn law_the_users_check_goes_in_order(
    step: InlineStep,
    s: InlineSetup,
    h: InlineHistory,
)
    requires
        inline_next(step, s, h),
    ensures
        step is DetectVcs <==> h.vcs is None,
        step is ResolveBase <==> h.vcs is Some && h.vcs->0 is Ok && h.base is None,
        step is ResolveCandidate <==> h.vcs is Some && h.vcs->0 is Ok && h.base is Some
            && h.base->0 is Ok && h.candidate is None,
        step is ReadConfig <==> both_resolved(h) && h.base->0->Ok_0.commit_id@
            != h.candidate->0->Ok_0.commit_id@ && h.config is None,
        step is TestMerge <==> both_resolved(h) && h.base->0->Ok_0.commit_id@
            != h.candidate->0->Ok_0.commit_id@ && h.config is Some && h.config->0 is Ok
            && h.test_merge is None,
        step is Check <==> tested_is_known(h) && h.result is None,
        step is Done <==> {
            &&& tested_is_known(h)
            &&& h.result is Some && h.result->0 is Ok
            &&& h.result->0->Ok_0.exit_code == Some(0i32)
            &&& !check::holds_counted_failure(h.result->0->Ok_0@.steps)
        },
{
    if h.result is Some && h.result->0 is Ok {
        check::law_checks_pass_on_zero(h.result->0->Ok_0@);
    }
}

/// The user's check integrates the two revisions that it found, in the mode of
/// the configuration or else by rebasing, and checks the two revisions that it
/// found, at the root that it was given and without a hook. What it tests keeps
/// the name that the user gave to the candidate.
pub proof fn law_the_users_check_tests_what_it_found(
    step: InlineStep,
    s: InlineSetup,
    h: InlineHistory,
)
    requires
        inline_next(step, s, h),
    ensures
        step matches InlineStep::TestMerge { base, candidate, merge_mode } ==> {
            &&& base@ == h.base->0->Ok_0@
            &&& candidate@ == h.candidate->0->Ok_0@
            &&& h.config->0->Ok_0.mq matches Some(mq) ==> merge_mode == mq.merge_mode
            &&& h.config->0->Ok_0.mq is None ==> merge_mode == MergeStyle::Rebase
        },
        step matches InlineStep::Check(setup) ==> {
            &&& setup.root_dir@ == s.root_dir@
            &&& setup.base@ == h.base->0->Ok_0@
            &&& setup.candidate@ == h.candidate->0->Ok_0@
            &&& setup.mode == (CheckMode::Inline { print_output: s.print_output })
            &&& setup@.post_clone is None
            &&& setup@.hook_env is None
            &&& setup.tested@.user == h.candidate->0->Ok_0@.user
            &&& setup.base@.commit_id == setup.candidate@.commit_id ==> {
                &&& setup.tested@ == setup.candidate@
                &&& !setup.integrated
            }
            &&& setup.base@.commit_id != setup.candidate@.commit_id ==> {
                &&& setup.tested@.commit_id == h.test_merge->0->Ok_0@.commit_id
                &&& setup.tested@.change_id == h.test_merge->0->Ok_0@.change_id
                &&& setup.integrated
            }
        },
{
}

/// The user's check fails with the first thing that went wrong, as it was told,
/// and with a failed check where the check was made and did not pass.
pub proof fn law_the_users_check_fails_with_what_went_wrong(
    step: InlineStep,
    s: InlineSetup,
    h: InlineHistory,
)
    requires
        inline_next(step, s, h),
        step is Fail,
    ensures
        ({
            let e = step->Fail_0@;
            ||| h.vcs is Some && h.vcs->0 is Err && e == error::vcs_main_error(h.vcs->0->Err_0)
            ||| h.base is Some && h.base->0 is Err && e == MainErrorView::ResolutionFailed(
                h.base->0->Err_0@,
            )
            ||| h.base is Some && h.base->0 is Ok && h.candidate is Some && h.candidate->0 is Err
                && e == MainErrorView::ResolutionFailed(h.candidate->0->Err_0@)
            ||| both_resolved(h) && h.config is Some && h.config->0 is Err && e
                == h.config->0->Err_0@
            ||| both_resolved(h) && h.test_merge is Some && h.test_merge->0 is Err && e
                == MainErrorView::TestMergeFailed(h.test_merge->0->Err_0@)
            ||| tested_is_known(h) && h.result is Some && h.result->0 is Err && e
                == h.result->0->Err_0.error@
            ||| tested_is_known(h) && h.result is Some && h.result->0 is Ok && e
                == MainErrorView::CheckFailed
        }),
{
}

/// Whether both directories exist and hold what was exported into them.
pub open spec fn is_exported(h: CheckHistory) -> bool {
    &&& h.vcs is Some && h.vcs->0 is Ok
    &&& h.root_config is Some && h.root_config->0 is Ok
    &&& h.base_dir is Some && h.base_dir->0 is Ok
    &&& h.candidate_dir is Some && h.candidate_dir->0 is Ok
    &&& h.exported is Some && h.exported->0 is Ok
}

/// Whether a check has a post-clone hook that does something.
pub open spec fn has_hook(s: CheckSetupView) -> bool {
    s.post_clone is Some && s.post_clone->0.command is Some
}

/// Whether the directories are ready for the jobs: they were exported, the
/// post-clone hook succeeded where there is one, and they still hold what was
/// exported.
pub open spec fn is_ready(s: CheckSetupView, h: CheckHistory) -> bool {
    &&& is_exported(h)
    &&& has_hook(s) ==> (h.post_clone matches Some(Reply::Output { success: true, .. }))
    &&& h.attested == Some(Ok::<bool, MainError>(true))
}

/// Whether the jobs of a check have ended.
pub open spec fn jobs_are_done(s: CheckSetupView, h: CheckHistory) -> bool {
    &&& is_ready(s, h)
    &&& h.base_config is Some && h.base_config->0 is Ok
    &&& h.socket is Some && h.socket->0 is Ok
    &&& h.jobs is Some && h.jobs->0 is Ok
}

/// A check does one thing after the other, each exactly when all before it went
/// well: the version control system, the configuration at the root, the two
/// directories, the export.
pub proof fn law_checks_prepare_in_order(s: CheckSetupView, h: CheckHistory)
    ensures
        check_step(s, h) is DetectVcs <==> h.vcs is None,
        check_step(s, h) is ReadRootConfig <==> h.vcs is Some && h.vcs->0 is Ok && h.root_config
            is None,
        check_step(s, h) is CreateBaseDir <==> h.vcs is Some && h.vcs->0 is Ok && h.root_config
            is Some && h.root_config->0 is Ok && h.base_dir is None,
        check_step(s, h) is CreateCandidateDir <==> h.vcs is Some && h.vcs->0 is Ok
            && h.root_config is Some && h.root_config->0 is Ok && h.base_dir is Some
            && h.base_dir->0 is Ok && h.candidate_dir is None,
        check_step(s, h) is Export <==> h.vcs is Some && h.vcs->0 is Ok && h.root_config is Some
            && h.root_config->0 is Ok && h.base_dir is Some && h.base_dir->0 is Ok
            && h.candidate_dir is Some && h.candidate_dir->0 is Ok && h.exported is None,
        check_step(s, h) matches CheckStepView::Export { vcs, clone_mode, .. } ==> {
            &&& vcs == h.vcs->0->Ok_0
            &&& clone_mode == h.root_config->0->Ok_0.job.clone_mode
        },
        check_step(s, h) is RunHook <==> is_exported(h) && has_hook(s) && h.post_clone is None,
        check_step(s, h) matches CheckStepView::RunHook(inv) ==> {
            let env = match s.hook_env {
                Some(env) => Some(
                    HookEnvView {
                        candidate: env.candidate,
                        base_branch: env.base_branch,
                        tested: env.tested,
                        landed: env.landed,
                        worktrees: Some((h.base_dir->0->Ok_0@, h.candidate_dir->0->Ok_0@)),
                    },
                ),
                None => None,
            };
            hooks::hook_run(s.post_clone, s.root_dir, env) == Some(inv)
        },
{
}

/// Once both directories hold what was exported, a check makes sure of it, reads
/// the base's configuration, opens a socket, runs the jobs and makes sure once
/// more. Each comes exactly when all before it went well.
pub proof fn law_checks_run_in_order(s: CheckSetupView, h: CheckHistory)
    ensures
        check_step(s, h) is Attest <==> is_exported(h) && (has_hook(s) ==> (
        h.post_clone matches Some(Reply::Output { success: true, .. }))) && h.attested is None,
        check_step(s, h) is ReadBaseConfig <==> is_ready(s, h) && h.base_config is None,
        check_step(s, h) is OpenSocket <==> is_ready(s, h) && h.base_config is Some
            && h.base_config->0 is Ok && h.socket is None,
        check_step(s, h) is RunJobs <==> is_ready(s, h) && h.base_config is Some
            && h.base_config->0 is Ok && h.socket is Some && h.socket->0 is Ok && h.jobs is None,
        check_step(s, h) is AttestAgain <==> jobs_are_done(s, h) && h.attested_after is None,
        check_step(s, h) is Done <==> {
            ||| jobs_are_done(s, h) && h.attested_after is Some && h.attested_after->0 is Ok
            ||| is_exported(h) && has_hook(s) && h.post_clone is Some && !(
            h.post_clone matches Some(Reply::Output { success: true, .. }))
            ||| is_exported(h) && (has_hook(s) ==> (h.post_clone matches Some(
                Reply::Output { success: true, .. },
            ))) && h.attested == Some(Ok::<bool, MainError>(false))
        },
{
}

/// Jobs run in the directories that were made for them, with the socket that was
/// opened, and print what they do only where the user asked for it. They are told
/// who runs the check, what was submitted, and what is tested instead where that
/// is a separate integration.
pub proof fn law_jobs_are_told_about_the_check(s: CheckSetupView, h: CheckHistory)
    ensures
        check_step(s, h) matches CheckStepView::RunJobs(context) ==> {
            &&& context.base_dir == h.base_dir->0->Ok_0@
            &&& context.candidate_dir == h.candidate_dir->0->Ok_0@
            &&& context.socket_path == h.socket->0->Ok_0@
            &&& context.command == h.base_config->0->Ok_0.job.command@
            &&& context.command_prefix == text::texts(
                h.base_config->0->Ok_0.job.command_prefix@,
            )
            &&& context.print_output <==> s.mode == (CheckMode::Inline { print_output: true })
            &&& s.mode is MergeQueue ==> context.env.run_mode == "mq"@
            &&& s.mode is Inline ==> context.env.run_mode == "inline"@
            &&& context.env.candidate == s.candidate
            &&& s.integrated ==> context.env.tested == Some(
                (s.tested.commit_id, s.tested.change_id),
            )
            &&& !s.integrated ==> context.env.tested is None
        },
{
}

/// What a check comes to. It is what its jobs came to if the directories are
/// unchanged. Changed directories end it with one and a line that says so, and a
/// failed post-clone hook without any status. The hook is noted exactly where
/// it was run.
pub proof fn law_results_are_those_of_the_jobs(s: CheckSetupView, h: CheckHistory)
    requires
        check_step(s, h) is Done,
    ensures
        ({
            let result = check_step(s, h)->Done_0;
            let changed = "Exported worktrees no longer match the prepared revisions\n"@;
            &&& has_hook(s) ==> {
                &&& result.post_clone_output is Some
                &&& result.post_clone_success == Some(
                    (h.post_clone matches Some(Reply::Output { success: true, .. })),
                )
            }
            &&& !has_hook(s) ==> {
                &&& result.post_clone_output is None
                &&& result.post_clone_success is None
            }
            &&& has_hook(s) && !(h.post_clone matches Some(Reply::Output { success: true, .. }))
                ==> {
                &&& result.exit_code is None
                &&& result.output.len() == 0
                &&& result.steps.len() == 0
                &&& result.jobs.len() == 0
                &&& result.duration == 0
            }
            &&& !is_ready(s, h) && (has_hook(s) ==> (h.post_clone matches Some(
                Reply::Output { success: true, .. },
            ))) ==> {
                &&& result.exit_code == Some(1i32)
                &&& result.output == changed
                &&& result.steps.len() == 0
                &&& result.jobs.len() == 0
                &&& result.duration == 0
            }
            &&& is_ready(s, h) ==> {
                let jobs = h.jobs->0->Ok_0@;
                &&& result.steps == jobs.steps
                &&& result.jobs == jobs.jobs
                &&& result.duration == jobs.duration
                &&& h.attested_after == Some(Ok::<bool, MainError>(true)) ==> {
                    &&& result.exit_code == jobs.exit_code
                    &&& result.output == jobs.output
                }
                &&& h.attested_after != Some(Ok::<bool, MainError>(true)) ==> {
                    &&& result.exit_code == Some(1i32)
                    &&& result.output =~= jobs.output + changed
                }
            }
        }),
{
}

/// A check that cannot be made fails with the first thing that went wrong. What
/// its jobs came to is kept only where they had ended.
pub proof fn law_checks_fail_with_what_went_wrong(s: CheckSetupView, h: CheckHistory)
    requires
        check_step(s, h) is Fail,
    ensures
        ({
            let e = check_step(s, h)->Fail_0.error;
            let jobs = check_step(s, h)->Fail_0.jobs;
            ||| h.vcs is Some && h.vcs->0 is Err && e == error::vcs_main_error(h.vcs->0->Err_0)
                && jobs is None
            ||| h.root_config is Some && h.root_config->0 is Err && e == h.root_config->0->Err_0@
                && jobs is None
            ||| h.base_dir is Some && h.base_dir->0 is Err && e == MainErrorView::CreateFailed(
                h.base_dir->0->Err_0@,
            ) && jobs is None
            ||| h.candidate_dir is Some && h.candidate_dir->0 is Err && e
                == MainErrorView::CreateFailed(h.candidate_dir->0->Err_0@) && jobs is None
            ||| h.exported is Some && h.exported->0 is Err && e == h.exported->0->Err_0@ && jobs
                is None
            ||| is_exported(h) && h.attested is Some && h.attested->0 is Err && e
                == h.attested->0->Err_0@ && jobs is None
            ||| is_ready(s, h) && h.base_config is Some && h.base_config->0 is Err && e
                == h.base_config->0->Err_0@ && jobs is None
            ||| is_ready(s, h) && (h.socket matches Some(Err(SocketError::NoPath(reason))) && e
                == MainErrorView::CreateFailed(reason@)) && jobs is None
            ||| is_ready(s, h) && (h.socket matches Some(Err(SocketError::NotBound))) && e
                == MainErrorView::CheckFailed && jobs is None
            ||| is_ready(s, h) && h.jobs is Some && h.jobs->0 is Err && e == h.jobs->0->Err_0@
                && jobs is None
            ||| jobs_are_done(s, h) && h.attested_after is Some && h.attested_after->0 is Err && e
                == h.attested_after->0->Err_0@ && jobs == Some(h.jobs->0->Ok_0@)
        }),
        check_step(s, h)->Fail_0.post_clone_output is Some <==> is_exported(h) && has_hook(s),
{
}

/// What a check is asked for is what its parts hold.
pub proof fn law_check_setups_hold_their_parts(s: CheckSetup, failure: CheckFailure)
    ensures
        s@.root_dir == s.root_dir@,
        s@.base == s.base@,
        s@.tested == s.tested@,
        s@.candidate == s.candidate@,
        s@.integrated == s.integrated,
        s@.mode == s.mode,
        s@.post_clone is Some <==> s.post_clone is Some,
        s.post_clone matches Some(hook) ==> s@.post_clone == Some(hook@),
        s@.hook_env is Some <==> s.hook_env is Some,
        s.hook_env matches Some(env) ==> s@.hook_env == Some(env@),
        failure@.error == failure.error@,
        failure.post_clone_output matches Some(text) ==> failure@.post_clone_output == Some(text@),
        failure@.post_clone_output is Some <==> failure.post_clone_output is Some,
        failure.jobs matches Some(jobs) ==> failure@.jobs == Some(jobs@),
        failure@.jobs is Some <==> failure.jobs is Some,
{
}

/// As many jobs run at once as were asked for; else as many as the machine has
/// room for, and one where that is not known.
pub proof fn law_as_many_jobs_run_as_asked_for(
    jobs: Option<usize>,
    available: Option<usize>,
    res: usize,
)
    requires
        call_ensures(parallelism, (jobs, available), res),
    ensures
        jobs matches Some(n) ==> res == n,
        jobs is None ==> (available matches Some(n) ==> res == n),
        jobs is None && available is None ==> res == 1,
{
}

/// What a check that the user runs asks for is named by the user, as given on the
/// fields of what was asked for.
pub proof fn law_the_users_names_are_handed_on(
    s: InlineSetup,
    h: InlineHistory,
    res: InlineStep,
)
    requires
        call_ensures(self::check, (&s, &h), res),
    ensures
        res matches InlineStep::ResolveCandidate { revision } ==> (s.candidate matches Some(name)
            ==> revision@ == name@),
        res matches InlineStep::ResolveBase { revision } ==> {
            &&& s.base matches Some(name) ==> revision@ == name@
            &&& s.base is None ==> (s.candidate matches Some(name) ==> revision@ == name@)
        },
        res is Done <==> tested_is_known(h) && h.result is Some && h.result->0 is Ok
            && h.result->0->Ok_0.exit_code == Some(0i32) && !check::holds_counted_failure(
            h.result->0->Ok_0@.steps,
        ),
{
    law_the_user_names_what_is_checked(res, s, h);
    law_the_users_check_goes_in_order(res, s, h);
}

} // verus!
