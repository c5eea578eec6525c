//! Processing one run of the merge queue.
//!
//! What a run does next is a function of what has happened in it so far. The
//! driver does what is asked for, notes what came of it in the [`RunHistory`],
//! and asks again until the run is complete.

use vstd::prelude::*;

use crate::candidate_check;
use crate::candidate_check::{
    CheckFailure, CheckFailureView, CheckHistory, CheckSetup, CheckSetupView, CheckStepView,
};
use crate::check;
use crate::check::{CheckMode, CheckResult, CheckResultView};
use crate::config;
use crate::config::{MQHooksConfig, MQHooksView, MergeStyle};
use crate::error;
use crate::error::{MergeError, VCSError};
use crate::hooks;
use crate::hooks::{CandidateHookEnv, HookEnvView, HookResult, Identity};
use crate::mq_protocol;
use crate::mq_protocol::{FailedReason, MQRunInfo, MQRunStatus, MQRunView, PassedReason, RunId};
use crate::protocol;
use crate::protocol::{StepLogEntry, Timestamp};
use crate::publish::{PublicationOutcome, PublicationView};
use crate::queue;
use crate::queue::MQState;
use crate::revision;
use crate::revision::{CommitId, ResolvedRevision, ResolvedRevisionView, RevisionError};
use crate::script::{Invocation, InvocationView, Reply};
use crate::test_merge::{TestMergeOutcome, TestMergeView};
use crate::text;
use crate::vcs::VCS;

verus! {

/// What has happened in a run, each with the time when it was known.
#[derive(Debug)]
pub struct RunHistory {
    /// The reply of the pre-clone hook.
    pub pre_clone: Option<(Reply, Timestamp)>,
    /// What the base branch resolved to.
    pub base: Option<(Result<ResolvedRevision, RevisionError>, Timestamp)>,
    /// What the test integration made.
    pub test_merge: Option<(Result<TestMergeOutcome, MergeError>, Timestamp)>,
    /// What came of the check.
    pub check: Option<(Result<CheckResult, CheckFailure>, Timestamp)>,
    /// The reply of the pre-merge hook.
    pub pre_merge: Option<Reply>,
    /// What came of the publication.
    pub publication: Option<Result<PublicationOutcome, MergeError>>,
    /// The reply of the post-merge hook.
    pub post_merge: Option<Reply>,
}

/// What a run is processed with.
#[derive(Debug)]
pub struct RunSetup {
    pub vcs: VCS,
    pub root_dir: String,
    pub base_branch: String,
    pub hooks: MQHooksConfig,
    pub merge_mode: MergeStyle,
}

/// What a [`RunSetup`] holds.
pub struct RunSetupView {
    pub vcs: VCS,
    pub root_dir: Seq<char>,
    pub base_branch: Seq<char>,
    pub hooks: MQHooksView,
    pub merge_mode: MergeStyle,
}

impl View for RunSetup {
    type V = RunSetupView;

    open spec fn view(&self) -> RunSetupView {
        RunSetupView {
            vcs: self.vcs,
            root_dir: self.root_dir@,
            base_branch: self.base_branch@,
            hooks: self.hooks@,
            merge_mode: self.merge_mode,
        }
    }
}

/// Which of a run's hooks is meant. The post-clone hook belongs to the check.
#[derive(Debug, Clone, Copy, PartialEq, Eq, Structural)]
pub enum HookSlot {
    PreClone,
    PreMerge,
    PostMerge,
}

/// What a run does next.
#[derive(Debug)]
pub enum RunStep {
    /// Run a hook and note its reply under its slot.
    RunHook { slot: HookSlot, invocation: Invocation },
    /// Resolve the base branch to a commit.
    ResolveBase { vcs: VCS, revision: String },
    /// Integrate the candidate with the base for testing.
    TestMerge { base: ResolvedRevision, candidate: ResolvedRevision, merge_mode: MergeStyle },
    /// Check the integration.
    Check(CheckSetup),
    /// Publish the integration under a branch, if that still names the expected
    /// commit.
    Publish { branch: String, expected_base: CommitId, prepared: ResolvedRevision },
    /// Store the run: it is over.
    Complete(MQRunInfo),
}

/// What a [`RunStep`] holds.
pub enum RunStepView {
    RunHook { slot: HookSlot, invocation: InvocationView },
    ResolveBase { vcs: VCS, revision: Seq<char> },
    TestMerge {
        base: ResolvedRevisionView,
        candidate: ResolvedRevisionView,
        merge_mode: MergeStyle,
    },
    Check(CheckSetupView),
    Publish { branch: Seq<char>, expected_base: Seq<char>, prepared: ResolvedRevisionView },
    Complete(MQRunView),
}

impl View for RunStep {
    type V = RunStepView;

    open spec fn view(&self) -> RunStepView {
        match *self {
            RunStep::RunHook { slot, invocation } => RunStepView::RunHook {
                slot,
                invocation: invocation@,
            },
            RunStep::ResolveBase { vcs, revision } => RunStepView::ResolveBase {
                vcs,
                revision: revision@,
            },
            RunStep::TestMerge { base, candidate, merge_mode } => RunStepView::TestMerge {
                base: base@,
                candidate: candidate@,
                merge_mode,
            },
            RunStep::Check(check) => RunStepView::Check(check@),
            RunStep::Publish { branch, expected_base, prepared } => RunStepView::Publish {
                branch: branch@,
                expected_base: expected_base@,
                prepared: prepared@,
            },
            RunStep::Complete(info) => RunStepView::Complete(info@),
        }
    }
}

/// What a hook is told.
pub open spec fn hook_env(
    run: MQRunView,
    setup: RunSetupView,
    tested: Option<(Seq<char>, Seq<char>)>,
    landed: Option<(Seq<char>, Seq<char>)>,
) -> HookEnvView {
    HookEnvView {
        candidate: run.candidate,
        base_branch: setup.base_branch,
        tested,
        landed,
        worktrees: None,
    }
}

/// The run with text added to its output.
pub open spec fn noted(run: MQRunView, text: Seq<char>) -> MQRunView {
    MQRunView { output: run.output + text, ..run }
}

/// The run, failed.
pub open spec fn failed(run: MQRunView, reason: FailedReason) -> MQRunView {
    MQRunView { status: MQRunStatus::Failed(reason), ..run }
}

/// The run, completed at the given time.
pub open spec fn completed(run: MQRunView, at: Timestamp) -> MQRunView {
    MQRunView { completed_at: Some(at), ..run }
}

/// The run with the output of a hook that runs before the check, where it has any.
pub open spec fn with_section(run: MQRunView, header: Seq<char>, output: Seq<char>) -> MQRunView {
    if output.len() > 0 {
        noted(noted(noted(run, header), output), "\n"@)
    } else {
        run
    }
}

/// The run with the output of a hook that runs after the check, where it has any.
pub open spec fn with_late_section(
    run: MQRunView,
    header: Seq<char>,
    output: Seq<char>,
) -> MQRunView {
    if output.len() > 0 {
        noted(noted(run, header), output)
    } else {
        run
    }
}

/// The end of a run that was published. A post-merge hook that failed is
/// noted; the run has passed all the same.
pub open spec fn landed_step(
    run: MQRunView,
    setup: RunSetupView,
    tested: (Seq<char>, Seq<char>),
    landed: (Seq<char>, Seq<char>),
    output: Seq<char>,
    h: RunHistory,
) -> RunStepView {
    let header = match setup.merge_mode {
        MergeStyle::Rebase => "### Final Rebase"@,
        MergeStyle::Merge => "### Final Merge"@,
    };
    let run = noted(noted(noted(noted(run, "\n\n"@), header), "\n\n"@), output);
    let hook = hooks::hook_run(
        setup.hooks.post_merge,
        setup.root_dir,
        Some(hook_env(run, setup, Some(tested), Some(landed))),
    );
    if hook is Some && h.post_merge is None {
        RunStepView::RunHook { slot: HookSlot::PostMerge, invocation: hook->0 }
    } else {
        let r = hooks::hook_outcome(hook, h.post_merge);
        let run = with_late_section(run, "\n\n### Post-Merge Hook\n\n"@, r.output);
        let run = if r.success {
            run
        } else {
            noted(run, "\n\nPost-merge hook failed\n"@)
        };
        RunStepView::Complete(
            MQRunView {
                status: MQRunStatus::Passed(
                    match setup.merge_mode {
                        MergeStyle::Rebase => PassedReason::Rebased,
                        MergeStyle::Merge => PassedReason::Merged,
                    },
                ),
                ..run
            },
        )
    }
}

/// Publication, for a run whose check and pre-merge hook have passed.
pub open spec fn publish_stage(
    run: MQRunView,
    setup: RunSetupView,
    base: ResolvedRevisionView,
    tested: ResolvedRevisionView,
    h: RunHistory,
) -> RunStepView {
    match h.publication {
        None => RunStepView::Publish {
            branch: setup.base_branch,
            expected_base: base.commit_id,
            prepared: tested,
        },
        Some(Ok(outcome)) => match outcome@ {
            PublicationView::Verified { commit_id, change_id, output } => landed_step(
                run,
                setup,
                (tested.commit_id, tested.change_id),
                (commit_id, change_id),
                output,
                h,
            ),
            PublicationView::AppliedUnverified { commit_id, output } => RunStepView::Complete(
                failed(
                    noted(
                        noted(
                            noted(run, "\n\n### Publication Applied but Unverified\n\n"@),
                            output,
                        ),
                        "\nSelfCI requested publication of checked commit "@ + commit_id
                            + ", but could not verify the resulting bookmark identity. Inspect the repository before retrying.\n"@,
                    ),
                    FailedReason::PublicationUnverified,
                ),
            ),
        },
        Some(Err(e)) => RunStepView::Complete(
            failed(
                noted(run, "\n\n### Merge Failed\n\n"@ + error::merge_error_text(e@)),
                FailedReason::Merge,
            ),
        ),
    }
}

/// What follows a check that passed: a run for validation only is over; any
/// other has its pre-merge hook run and, if that succeeds, is published.
pub open spec fn passed_stage(
    run: MQRunView,
    setup: RunSetupView,
    base: ResolvedRevisionView,
    tested: ResolvedRevisionView,
    h: RunHistory,
) -> RunStepView {
    if run.no_merge {
        RunStepView::Complete(
            MQRunView { status: MQRunStatus::Passed(PassedReason::NoMerge), ..run },
        )
    } else {
        let hook = hooks::hook_run(
            setup.hooks.pre_merge,
            setup.root_dir,
            Some(hook_env(run, setup, Some((tested.commit_id, tested.change_id)), None)),
        );
        if hook is Some && h.pre_merge is None {
            RunStepView::RunHook { slot: HookSlot::PreMerge, invocation: hook->0 }
        } else {
            let r = hooks::hook_outcome(hook, h.pre_merge);
            let run = with_late_section(run, "\n\n### Pre-Merge Hook\n\n"@, r.output);
            if r.success {
                publish_stage(run, setup, base, tested, h)
            } else {
                RunStepView::Complete(
                    failed(
                        noted(run, "\n\nPre-merge hook failed, skipping merge\n"@),
                        FailedReason::PreMerge,
                    ),
                )
            }
        }
    }
}

/// The run with the output of its post-clone hook, where that has any.
pub open spec fn after_post_clone(run: MQRunView, output: Option<Seq<char>>) -> MQRunView {
    match output {
        Some(output) => with_section(run, "### Post-Clone Hook\n\n"@, output),
        None => run,
    }
}

/// The run with what came of its jobs.
pub open spec fn with_result(run: MQRunView, result: CheckResultView, at: Timestamp) -> MQRunView {
    MQRunView {
        output: run.output + result.output,
        active_jobs: seq![],
        completed_steps: result.steps,
        completed_jobs: result.jobs,
        completed_at: Some(at),
        ..run
    }
}

/// What follows a check: its post-clone hook counts first, then its jobs.
pub open spec fn checked_stage(
    run: MQRunView,
    setup: RunSetupView,
    base: ResolvedRevisionView,
    tested: ResolvedRevisionView,
    result: CheckResultView,
    at: Timestamp,
    h: RunHistory,
) -> RunStepView {
    let run = after_post_clone(run, result.post_clone_output);
    if result.post_clone_success == Some(false) {
        RunStepView::Complete(
            completed(
                failed(noted(run, "\nPost-clone hook failed\n"@), FailedReason::PostClone),
                at,
            ),
        )
    } else {
        let run = with_result(run, result, at);
        if check::passed(result) {
            passed_stage(run, setup, base, tested, h)
        } else {
            RunStepView::Complete(failed(run, FailedReason::Check))
        }
    }
}

/// What is checked: the integration, under the name that the user gave.
pub open spec fn tested_revision(run: MQRunView, merged: TestMergeView) -> ResolvedRevisionView {
    ResolvedRevisionView {
        user: run.candidate.user,
        change_id: merged.change_id,
        commit_id: merged.commit_id,
    }
}

/// The check of a run: of the integration, on the base, with the run's own
/// post-clone hook. Jobs are told of the integration only where base and
/// candidate differ.
pub open spec fn run_check(
    run: MQRunView,
    setup: RunSetupView,
    base: ResolvedRevisionView,
    tested: ResolvedRevisionView,
) -> CheckSetupView {
    CheckSetupView {
        root_dir: setup.root_dir,
        base,
        tested,
        candidate: run.candidate,
        integrated: base.commit_id != run.candidate.commit_id,
        mode: CheckMode::MergeQueue,
        post_clone: setup.hooks.post_clone,
        hook_env: Some(hook_env(run, setup, Some((tested.commit_id, tested.change_id)), None)),
    }
}

/// The run whose check could not be made: what was known of the check by then
/// is kept, and the error comes after it.
pub open spec fn with_failure(
    run: MQRunView,
    failure: CheckFailureView,
    at: Timestamp,
) -> MQRunView {
    let run = after_post_clone(run, failure.post_clone_output);
    let run = match failure.jobs {
        Some(result) => with_result(run, result, at),
        None => run,
    };
    completed(
        failed(
            noted(run, "Check failed: "@ + error::main_error_text(failure.error)),
            FailedReason::Check,
        ),
        at,
    )
}

/// The check of the integration.
pub open spec fn check_stage(
    run: MQRunView,
    setup: RunSetupView,
    base: ResolvedRevisionView,
    merged: TestMergeView,
    h: RunHistory,
) -> RunStepView {
    let run = MQRunView { test_merge_output: merged.output, ..run };
    let tested = tested_revision(run, merged);
    match h.check {
        None => RunStepView::Check(run_check(run, setup, base, tested)),
        Some((Err(failure), at)) => RunStepView::Complete(with_failure(run, failure@, at)),
        Some((Ok(result), at)) => checked_stage(run, setup, base, tested, result@, at, h),
    }
}

/// The base and the test integration.
pub open spec fn base_stage(run: MQRunView, setup: RunSetupView, h: RunHistory) -> RunStepView {
    match h.base {
        None => RunStepView::ResolveBase { vcs: setup.vcs, revision: setup.base_branch },
        Some((Err(e), at)) => RunStepView::Complete(
            completed(
                failed(
                    noted(
                        run,
                        "Failed to resolve base branch '"@ + setup.base_branch + "': "@
                            + revision::revision_error_text(e@),
                    ),
                    FailedReason::BaseResolve,
                ),
                at,
            ),
        ),
        Some((Ok(base), _)) => match h.test_merge {
            None => RunStepView::TestMerge {
                base: base@,
                candidate: run.candidate,
                merge_mode: setup.merge_mode,
            },
            Some((Err(e), at)) => RunStepView::Complete(
                completed(
                    failed(
                        noted(
                            run,
                            "Failed to create test merge/rebase of candidate onto base: "@
                                + error::merge_error_text(e@),
                        ),
                        match setup.merge_mode {
                            MergeStyle::Rebase => FailedReason::TestRebase,
                            MergeStyle::Merge => FailedReason::TestMerge,
                        },
                    ),
                    at,
                ),
            ),
            Some((Ok(merged), _)) => check_stage(run, setup, base@, merged@, h),
        },
    }
}

/// What a run does next.
pub open spec fn run_step(run: MQRunView, setup: RunSetupView, h: RunHistory) -> RunStepView {
    let hook = hooks::hook_run(
        setup.hooks.pre_clone,
        setup.root_dir,
        Some(hook_env(run, setup, None, None)),
    );
    if hook is Some && h.pre_clone is None {
        RunStepView::RunHook { slot: HookSlot::PreClone, invocation: hook->0 }
    } else {
        let r = hooks::hook_outcome(
            hook,
            match h.pre_clone {
                Some((reply, _)) => Some(reply),
                None => None,
            },
        );
        let run = with_section(run, "### Pre-Clone Hook\n\n"@, r.output);
        if r.success {
            base_stage(run, setup, h)
        } else {
            RunStepView::Complete(
                completed(
                    failed(noted(run, "\nPre-clone hook failed\n"@), FailedReason::PreClone),
                    (h.pre_clone->0).1,
                ),
            )
        }
    }
}

/// What a hook comes to, or what has to be run first.
fn settle_hook(hook: Option<Invocation>, reply: Option<&Reply>) -> (res: Result<
    HookResult,
    Invocation,
>)
    ensures
        match hook {
            Some(inv) => match reply {
                Some(r) => res matches Ok(result) && result@ == hooks::hook_outcome(
                    Some(inv@),
                    Some(*r),
                ),
                None => res matches Err(i) && i@ == inv@,
            },
            None => res matches Ok(result) && result@ == hooks::hook_outcome(None, None)
                && result.success,
        },
{
    match hook {
        Some(inv) => match reply {
            Some(r) => Ok(hooks::hook_reply(r)),
            None => Err(inv),
        },
        None => Ok(HookResult { success: true, output: String::new() }),
    }
}

fn note(info: &mut MQRunInfo, text: &str)
    ensures
        final(info)@ == noted(old(info)@, text@),
        final(info).no_merge == old(info).no_merge,
{
    info.output.append(text);
}

fn note_section(info: &mut MQRunInfo, header: &str, output: &str)
    ensures
        final(info)@ == with_section(old(info)@, header@, output@),
{
    if !output.is_empty() {
        note(info, header);
        note(info, output);
        note(info, "\n");
    }
}

fn note_late_section(info: &mut MQRunInfo, header: &str, output: &str)
    ensures
        final(info)@ == with_late_section(old(info)@, header@, output@),
{
    if !output.is_empty() {
        note(info, header);
        note(info, output);
    }
}

fn make_env(
    info: &MQRunInfo,
    setup: &RunSetup,
    tested: Option<Identity>,
    landed: Option<Identity>,
) -> (res: CandidateHookEnv)
    ensures
        res@ == hook_env(
            info@,
            setup@,
            hooks::identity_view(tested),
            hooks::identity_view(landed),
        ),
{
    CandidateHookEnv {
        candidate: info.candidate.clone(),
        base_branch: setup.base_branch.clone(),
        tested,
        landed,
        worktrees: None,
    }
}

fn identity_of(revision: &ResolvedRevision) -> (res: Option<Identity>)
    ensures
        hooks::identity_view(res) == Some((revision@.commit_id, revision@.change_id)),
{
    Some(
        Identity {
            commit_id: revision.commit_id.clone(),
            change_id: revision.change_id.clone(),
        },
    )
}

/// A reference to what was noted, without its time.
fn reply_of(noted: &Option<(Reply, Timestamp)>) -> (res: Option<&Reply>)
    ensures
        res == match *noted {
            Some((reply, _)) => Some(&reply),
            None => None,
        },
{
    match noted {
        Some((reply, _)) => Some(reply),
        None => None,
    }
}

fn finish_landed(
    info: MQRunInfo,
    setup: &RunSetup,
    tested: &ResolvedRevision,
    landed: Option<Identity>,
    output: &str,
    h: &RunHistory,
) -> (res: RunStep)
    requires
        landed is Some,
    ensures
        res@ == landed_step(
            info@,
            setup@,
            (tested@.commit_id, tested@.change_id),
            hooks::identity_view(landed)->0,
            output@,
            *h,
        ),
{
    let mut info = info;
    let header = match setup.merge_mode {
        MergeStyle::Rebase => "### Final Rebase",
        MergeStyle::Merge => "### Final Merge",
    };
    note(&mut info, "\n\n");
    note(&mut info, header);
    note(&mut info, "\n\n");
    note(&mut info, output);
    let env = make_env(&info, setup, identity_of(tested), landed);
    let hook = hooks::run_hook_with_env(
        &setup.hooks.post_merge,
        setup.root_dir.as_str(),
        Some(&env),
    );
    let result = match settle_hook(hook, h.post_merge.as_ref()) {
        Ok(result) => result,
        Err(invocation) => return RunStep::RunHook { slot: HookSlot::PostMerge, invocation },
    };
    note_late_section(&mut info, "\n\n### Post-Merge Hook\n\n", result.output.as_str());
    if !result.success {
        note(&mut info, "\n\nPost-merge hook failed\n");
    }
    info.status = MQRunStatus::Passed(
        match setup.merge_mode {
            MergeStyle::Rebase => PassedReason::Rebased,
            MergeStyle::Merge => PassedReason::Merged,
        },
    );
    RunStep::Complete(info)
}

fn publish_run(
    info: MQRunInfo,
    setup: &RunSetup,
    base: &ResolvedRevision,
    tested: ResolvedRevision,
    h: &RunHistory,
) -> (res: RunStep)
    ensures
        res@ == publish_stage(info@, setup@, base@, tested@, *h),
{
    let mut info = info;
    match &h.publication {
        None => RunStep::Publish {
            branch: setup.base_branch.clone(),
            expected_base: base.commit_id.clone(),
            prepared: tested,
        },
        Some(Ok(PublicationOutcome::Verified(landing))) => {
            let landed = Some(
                Identity {
                    commit_id: landing.commit_id.clone(),
                    change_id: landing.change_id.clone(),
                },
            );
            finish_landed(info, setup, &tested, landed, landing.output.as_str(), h)
        },
        Some(Ok(PublicationOutcome::AppliedUnverified { commit_id, output })) => {
            note(&mut info, "\n\n### Publication Applied but Unverified\n\n");
            note(&mut info, output.as_str());
            let warning = String::from_str(
                "\nSelfCI requested publication of checked commit ",
            ).concat(commit_id.as_str()).concat(
                ", but could not verify the resulting bookmark identity. Inspect the repository before retrying.\n",
            );
            note(&mut info, warning.as_str());
            info.status = MQRunStatus::Failed(FailedReason::PublicationUnverified);
            RunStep::Complete(info)
        },
        Some(Err(e)) => {
            let message = String::from_str("\n\n### Merge Failed\n\n").concat(
                e.message().as_str(),
            );
            note(&mut info, message.as_str());
            info.status = MQRunStatus::Failed(FailedReason::Merge);
            RunStep::Complete(info)
        },
    }
}

fn after_passed_check(
    info: MQRunInfo,
    setup: &RunSetup,
    base: &ResolvedRevision,
    tested: ResolvedRevision,
    h: &RunHistory,
) -> (res: RunStep)
    ensures
        res@ == passed_stage(info@, setup@, base@, tested@, *h),
{
    let mut info = info;
    if info.no_merge {
        info.status = MQRunStatus::Passed(PassedReason::NoMerge);
        return RunStep::Complete(info);
    }
    let env = make_env(&info, setup, identity_of(&tested), None);
    let hook = hooks::run_hook_with_env(
        &setup.hooks.pre_merge,
        setup.root_dir.as_str(),
        Some(&env),
    );
    let result = match settle_hook(hook, h.pre_merge.as_ref()) {
        Ok(result) => result,
        Err(invocation) => return RunStep::RunHook { slot: HookSlot::PreMerge, invocation },
    };
    note_late_section(&mut info, "\n\n### Pre-Merge Hook\n\n", result.output.as_str());
    if !result.success {
        note(&mut info, "\n\nPre-merge hook failed, skipping merge\n");
        info.status = MQRunStatus::Failed(FailedReason::PreMerge);
        return RunStep::Complete(info);
    }
    publish_run(info, setup, base, tested, h)
}

fn note_post_clone(info: &mut MQRunInfo, output: &Option<String>)
    ensures
        final(info)@ == after_post_clone(old(info)@, output.deep_view()),
{
    match output {
        Some(output) => {
            note_section(info, "### Post-Clone Hook\n\n", output.as_str());
        },
        None => {},
    }
}

fn note_result(info: &mut MQRunInfo, result: &CheckResult, at: Timestamp)
    ensures
        final(info)@ == with_result(old(info)@, result@, at),
{
    note(info, result.output.as_str());
    let none: Vec<StepLogEntry> = Vec::new();
    assert(protocol::step_views(none@) =~= seq![]);
    info.active_jobs = none;
    info.completed_steps = protocol::copy_steps(&result.steps);
    info.completed_jobs = protocol::copy_jobs(&result.jobs);
    info.completed_at = Some(at);
}

fn after_failure(info: MQRunInfo, failure: &CheckFailure, at: Timestamp) -> (res: RunStep)
    ensures
        res@ == RunStepView::Complete(with_failure(info@, failure@, at)),
{
    let mut info = info;
    note_post_clone(&mut info, &failure.post_clone_output);
    match &failure.jobs {
        Some(result) => {
            note_result(&mut info, result, at);
        },
        None => {},
    }
    let message = String::from_str("Check failed: ").concat(failure.error.message().as_str());
    note(&mut info, message.as_str());
    info.status = MQRunStatus::Failed(FailedReason::Check);
    info.completed_at = Some(at);
    RunStep::Complete(info)
}

fn make_check(
    info: &MQRunInfo,
    setup: &RunSetup,
    base: &ResolvedRevision,
    tested: ResolvedRevision,
) -> (res: CheckSetup)
    ensures
        res@ == run_check(info@, setup@, base@, tested@),
{
    let env = make_env(info, setup, identity_of(&tested), None);
    CheckSetup {
        root_dir: setup.root_dir.clone(),
        base: base.clone(),
        tested,
        candidate: info.candidate.clone(),
        integrated: !text::same_text(base.commit_id.as_str(), info.candidate.commit_id.as_str()),
        mode: CheckMode::MergeQueue,
        post_clone: config::copy_hook(&setup.hooks.post_clone),
        hook_env: Some(env),
    }
}

fn after_check(
    info: MQRunInfo,
    setup: &RunSetup,
    base: &ResolvedRevision,
    tested: ResolvedRevision,
    result: &CheckResult,
    at: Timestamp,
    h: &RunHistory,
) -> (res: RunStep)
    ensures
        res@ == checked_stage(info@, setup@, base@, tested@, result@, at, *h),
{
    let mut info = info;
    note_post_clone(&mut info, &result.post_clone_output);
    match result.post_clone_success {
        Some(success) => {
            if !success {
                note(&mut info, "\nPost-clone hook failed\n");
                info.status = MQRunStatus::Failed(FailedReason::PostClone);
                info.completed_at = Some(at);
                return RunStep::Complete(info);
            }
        },
        None => {},
    }
    note_result(&mut info, result, at);
    if check::check_passed(result) {
        after_passed_check(info, setup, base, tested, h)
    } else {
        info.status = MQRunStatus::Failed(FailedReason::Check);
        RunStep::Complete(info)
    }
}

/// What a run does next, given what has happened in it so far.
pub fn process_run(run: &MQRunInfo, setup: &RunSetup, h: &RunHistory) -> (res: RunStep)
    ensures
        res@ == run_step(run@, setup@, *h),
{
    let mut info = run.clone();
    let env = make_env(&info, setup, None, None);
    let hook = hooks::run_hook_with_env(
        &setup.hooks.pre_clone,
        setup.root_dir.as_str(),
        Some(&env),
    );
    let result = match settle_hook(hook, reply_of(&h.pre_clone)) {
        Ok(result) => result,
        Err(invocation) => return RunStep::RunHook { slot: HookSlot::PreClone, invocation },
    };
    note_section(&mut info, "### Pre-Clone Hook\n\n", result.output.as_str());
    if !result.success {
        note(&mut info, "\nPre-clone hook failed\n");
        info.status = MQRunStatus::Failed(FailedReason::PreClone);
        match &h.pre_clone {
            Some((_, at)) => {
                info.completed_at = Some(*at);
            },
            None => {},
        }
        return RunStep::Complete(info);
    }
    let base = match &h.base {
        None => {
            return RunStep::ResolveBase { vcs: setup.vcs, revision: setup.base_branch.clone() };
        },
        Some((Err(e), at)) => {
            let message = String::from_str("Failed to resolve base branch '").concat(
                setup.base_branch.as_str(),
            ).concat("': ").concat(e.message().as_str());
            note(&mut info, message.as_str());
            info.status = MQRunStatus::Failed(FailedReason::BaseResolve);
            info.completed_at = Some(*at);
            return RunStep::Complete(info);
        },
        Some((Ok(base), _)) => base,
    };
    let merged = match &h.test_merge {
        None => {
            return RunStep::TestMerge {
                base: base.clone(),
                candidate: info.candidate.clone(),
                merge_mode: setup.merge_mode,
            };
        },
        Some((Err(e), at)) => {
            let message = String::from_str(
                "Failed to create test merge/rebase of candidate onto base: ",
            ).concat(e.message().as_str());
            note(&mut info, message.as_str());
            info.status = MQRunStatus::Failed(
                match setup.merge_mode {
                    MergeStyle::Rebase => FailedReason::TestRebase,
                    MergeStyle::Merge => FailedReason::TestMerge,
                },
            );
            info.completed_at = Some(*at);
            return RunStep::Complete(info);
        },
        Some((Ok(merged), _)) => merged,
    };
    info.test_merge_output = merged.output.clone();
    let tested = ResolvedRevision {
        user: info.candidate.user.clone(),
        change_id: merged.change_id.clone(),
        commit_id: merged.commit_id.clone(),
    };
    match &h.check {
        None => RunStep::Check(make_check(&info, setup, base, tested)),
        Some((Err(failure), at)) => after_failure(info, failure, *at),
        Some((Ok(result), at)) => after_check(info, setup, base, tested, result, *at, h),
    }
}

/// What the queue processor is told.
#[derive(Debug, Clone, Copy, PartialEq, Eq, Structural)]
pub enum QueueMessage {
    /// Process a run.
    Run(RunId),
    /// Process what was queued before, and stop.
    Shutdown,
}

/// What the queue processor does about a message.
#[derive(Debug)]
pub enum QueueStep {
    /// Stop.
    Stop,
    /// Wait for the next message: the run is unknown or was begun before.
    Skip,
    /// Process this run.
    Process { run: MQRunInfo, setup: RunSetup },
}

/// Begins to process the queue, in the version control system that the project
/// has then. Where it has none, the line to print: no run is ever processed.
pub fn begin_queue(vcs: &Result<VCS, VCSError>) -> (res: Result<VCS, String>)
    ensures
        match *vcs {
            Ok(v) => res == Ok::<VCS, String>(v),
            Err(e) => res matches Err(line) && line@ == "Failed to detect VCS: "@
                + error::vcs_error_text(e),
        },
{
    match vcs {
        Ok(v) => Ok(*v),
        Err(e) => Err(String::from_str("Failed to detect VCS: ").concat(e.message().as_str())),
    }
}

/// Takes up the next message; none means that no more will come. Runs are
/// processed one at a time, in the order of their messages.
pub fn process_queue(
    state: &mut MQState,
    vcs: VCS,
    message: Option<QueueMessage>,
    now: Timestamp,
) -> (res: QueueStep)
    ensures
        match message {
            Some(QueueMessage::Run(id)) => if old(state)@.has_run(id) && old(state)@.run(
                id,
            ).info.started_at is None {
                &&& res matches QueueStep::Process { run, setup }
                &&& run@ == queue::started(old(state)@.run(id).info, now)
                &&& setup@ == (RunSetupView {
                    vcs,
                    root_dir: old(state)@.root_dir,
                    base_branch: old(state)@.base_branch,
                    hooks: old(state)@.hooks,
                    merge_mode: old(state)@.merge_mode,
                })
                &&& final(state)@ == old(state)@.with_run(
                    id,
                    queue::RunEntryView { info: run@, followed: true },
                )
            } else {
                res is Skip && final(state)@ == old(state)@
            },
            _ => res is Stop && final(state)@ == old(state)@,
        },
        old(state)@.numbered() ==> final(state)@.numbered(),
{
    match message {
        Some(QueueMessage::Run(id)) => match state.start_run(id, now) {
            Some((run, hooks, merge_mode)) => {
                let setup = RunSetup {
                    vcs,
                    root_dir: state.root_dir().to_owned(),
                    base_branch: state.base_branch().to_owned(),
                    hooks,
                    merge_mode,
                };
                QueueStep::Process { run, setup }
            },
            None => QueueStep::Skip,
        },
        _ => QueueStep::Stop,
    }
}

/// Whether the check of a run has passed, post-clone hook and all.
pub open spec fn check_has_passed(h: RunHistory) -> bool {
    &&& h.check matches Some((Ok(result), _))
    &&& check::passed(result@)
    &&& result@.post_clone_success != Some(false)
}

/// Whether a hook has replied with success.
pub open spec fn succeeded(reply: Option<Reply>) -> bool {
    reply matches Some(Reply::Output { success, .. }) && success
}

/// Whether the publication of a run was verified.
pub open spec fn publication_verified(h: RunHistory) -> bool {
    h.publication matches Some(Ok(outcome)) && outcome@ is Verified
}

/// What is published is exactly what was checked, against exactly the base
/// that it was checked against, and only for a run that is meant to land and
/// whose check has passed.
pub proof fn law_only_passing_runs_are_published(
    run: MQRunView,
    setup: RunSetupView,
    h: RunHistory,
)
    ensures
        run_step(run, setup, h) matches RunStepView::Publish { branch, expected_base, prepared }
            ==> {
            &&& !run.no_merge
            &&& branch == setup.base_branch
            &&& check_has_passed(h)
            &&& h.base matches Some((Ok(base), _))
            &&& expected_base == base@.commit_id
            &&& h.test_merge matches Some((Ok(merged), _))
            &&& prepared == tested_revision(run, merged@)
        },
{
}

/// The pre-merge hook guards publication: where it is configured, a run is
/// published only after it has replied with success.
pub proof fn law_pre_merge_hook_guards_publication(
    run: MQRunView,
    setup: RunSetupView,
    h: RunHistory,
)
    requires
        setup.hooks.pre_merge matches Some(hook) && hook.command is Some,
    ensures
        run_step(run, setup, h) is Publish ==> succeeded(h.pre_merge),
{
}

/// What is integrated for testing is the submitted candidate with the resolved
/// base, in the mode of the queue.
pub proof fn law_the_candidate_is_integrated(run: MQRunView, setup: RunSetupView, h: RunHistory)
    ensures
        run_step(run, setup, h) matches RunStepView::TestMerge { base, candidate, merge_mode } ==> {
            &&& h.base matches Some((Ok(b), _))
            &&& base == b@
            &&& candidate == run.candidate
            &&& merge_mode == setup.merge_mode
        },
{
}

/// What is checked is exactly what the test integration made, on the resolved
/// base, for the submitted candidate, at the project's root. Jobs are told of a
/// tested integration only where base and candidate differ; the post-clone hook
/// is always told.
pub proof fn law_the_integration_is_checked(run: MQRunView, setup: RunSetupView, h: RunHistory)
    ensures
        run_step(run, setup, h) matches RunStepView::Check(check) ==> {
            &&& h.base matches Some((Ok(b), _))
            &&& check.base == b@
            &&& h.test_merge matches Some((Ok(merged), _))
            &&& check.tested == tested_revision(run, merged@)
            &&& check.candidate == run.candidate
            &&& check.root_dir == setup.root_dir
            &&& check.mode == CheckMode::MergeQueue
            &&& check.integrated <==> b@.commit_id != run.candidate.commit_id
            &&& check.hook_env matches Some(env)
            &&& env.candidate == run.candidate
            &&& env.tested == Some((merged@.commit_id, merged@.change_id))
        },
{
}

/// The post-clone hook guards the jobs of a run: where it is configured, they
/// start only after it has replied with success, and where it fails, so does the
/// run, for that reason.
pub proof fn law_post_clone_hook_guards_the_jobs(
    run: MQRunView,
    setup: RunSetupView,
    h: RunHistory,
    check: CheckSetupView,
    c: CheckHistory,
)
    requires
        setup.hooks.post_clone matches Some(hook) && hook.command is Some,
        run_step(run, setup, RunHistory { check: None, ..h }) == RunStepView::Check(check),
    ensures
        candidate_check::check_step(check, c) is RunJobs ==> succeeded(c.post_clone),
        candidate_check::check_step(check, CheckHistory { post_clone: None, ..c }) is RunHook
            && c.post_clone is Some && !succeeded(c.post_clone) ==> {
            &&& candidate_check::check_step(check, c) matches CheckStepView::Done(result)
            &&& (h.check matches Some((Ok(r), _)) && r@ == result) ==> (run_step(run, setup, h)
                matches RunStepView::Complete(done) && done.status == MQRunStatus::Failed(
                FailedReason::PostClone,
            ))
        },
{
}

/// A run that is complete has passed or failed and says when; its number, its
/// candidate and what was asked of it are as they were.
pub proof fn law_complete_runs_are_over(run: MQRunView, setup: RunSetupView, h: RunHistory)
    ensures
        run_step(run, setup, h) matches RunStepView::Complete(done) ==> {
            &&& mq_protocol::is_terminal(done.status)
            &&& done.completed_at is Some
            &&& done.id == run.id
            &&& done.candidate == run.candidate
            &&& done.queued_at == run.queued_at
            &&& done.started_at == run.started_at
            &&& done.merge_mode == run.merge_mode
            &&& done.no_merge == run.no_merge
        },
{
}

/// A run has passed only if its check has. Then it was either meant for
/// validation only, or its publication was verified.
pub proof fn law_passed_means_checked(run: MQRunView, setup: RunSetupView, h: RunHistory)
    ensures
        run_step(run, setup, h) matches RunStepView::Complete(done) ==> {
            &&& done.status is Passed ==> check_has_passed(h)
            &&& done.status == MQRunStatus::Passed(PassedReason::NoMerge) <==> done.status is Passed
                && run.no_merge
            &&& done.status is Passed && !run.no_merge ==> publication_verified(h)
                && done.status == MQRunStatus::Passed(
                match setup.merge_mode {
                    MergeStyle::Rebase => PassedReason::Rebased,
                    MergeStyle::Merge => PassedReason::Merged,
                },
            )
        },
{
}

/// A publication that was applied and could not be verified fails the run under
/// a reason of its own, and no hook is run after it.
pub proof fn law_unverified_publication_fails(run: MQRunView, setup: RunSetupView, h: RunHistory)
    requires
        run_step(run, setup, RunHistory { publication: None, ..h }) is Publish,
        h.publication matches Some(Ok(outcome)) && outcome@ is AppliedUnverified,
    ensures
        run_step(run, setup, h) matches RunStepView::Complete(done) && done.status
            == MQRunStatus::Failed(FailedReason::PublicationUnverified),
{
}

/// Once a publication was verified nothing undoes it: whatever the post-merge
/// hook replies, the run has passed.
pub proof fn law_post_merge_failure_keeps_pass(run: MQRunView, setup: RunSetupView, h: RunHistory)
    requires
        run_step(run, setup, RunHistory { publication: None, ..h }) is Publish,
        publication_verified(h),
    ensures
        match run_step(run, setup, h) {
            RunStepView::RunHook { slot, .. } => slot == HookSlot::PostMerge && h.post_merge is None,
            RunStepView::Complete(done) => done.status is Passed,
            _ => false,
        },
{
}

/// Hooks come in order, each under its own slot and at most once: pre-clone
/// before anything else, pre-merge only after the check of a run that is meant
/// to land has passed, and post-merge only after its publication was verified.
pub proof fn law_hooks_come_in_order(run: MQRunView, setup: RunSetupView, h: RunHistory)
    ensures
        run_step(run, setup, h) matches RunStepView::RunHook { slot, .. } ==> match slot {
            HookSlot::PreClone => h.pre_clone is None && setup.hooks.pre_clone is Some,
            HookSlot::PreMerge => h.pre_merge is None && setup.hooks.pre_merge is Some
                && check_has_passed(h) && !run.no_merge,
            HookSlot::PostMerge => h.post_merge is None && setup.hooks.post_merge is Some
                && publication_verified(h) && !run.no_merge,
        },
{
}

/// Whether the output of a run holds what a hook printed, under a header.
pub open spec fn shows(run: MQRunView, header: Seq<char>, output: Seq<char>) -> bool {
    output.len() > 0 ==> text::holds_text(run.output, header + output)
}

proof fn lemma_sections_show(run: MQRunView, header: Seq<char>, output: Seq<char>)
    ensures
        shows(with_section(run, header, output), header, output),
        shows(with_late_section(run, header, output), header, output),
{
    broadcast use text::lemma_holds_appended;

    text::lemma_holds_added(run.output, header, output);
}

proof fn lemma_landed_step_keeps(
    run: MQRunView,
    setup: RunSetupView,
    tested: (Seq<char>, Seq<char>),
    landed: (Seq<char>, Seq<char>),
    output: Seq<char>,
    h: RunHistory,
    needle: Seq<char>,
)
    requires
        text::holds_text(run.output, needle),
    ensures
        landed_step(run, setup, tested, landed, output, h) matches RunStepView::Complete(done)
            ==> text::holds_text(done.output, needle),
{
    broadcast use text::lemma_holds_appended;

}

proof fn lemma_publish_stage_keeps(
    run: MQRunView,
    setup: RunSetupView,
    base: ResolvedRevisionView,
    tested: ResolvedRevisionView,
    h: RunHistory,
    needle: Seq<char>,
)
    requires
        text::holds_text(run.output, needle),
    ensures
        publish_stage(run, setup, base, tested, h) matches RunStepView::Complete(done)
            ==> text::holds_text(done.output, needle),
{
    broadcast use text::lemma_holds_appended;

    match h.publication {
        Some(Ok(outcome)) => match outcome@ {
            PublicationView::Verified { commit_id, change_id, output } => {
                lemma_landed_step_keeps(
                    run,
                    setup,
                    (tested.commit_id, tested.change_id),
                    (commit_id, change_id),
                    output,
                    h,
                    needle,
                );
            },
            PublicationView::AppliedUnverified { .. } => {},
        },
        _ => {},
    }
}

proof fn lemma_passed_stage_keeps(
    run: MQRunView,
    setup: RunSetupView,
    base: ResolvedRevisionView,
    tested: ResolvedRevisionView,
    h: RunHistory,
    needle: Seq<char>,
)
    requires
        text::holds_text(run.output, needle),
    ensures
        passed_stage(run, setup, base, tested, h) matches RunStepView::Complete(done)
            ==> text::holds_text(done.output, needle),
{
    broadcast use text::lemma_holds_appended;

    let hook = hooks::hook_run(
        setup.hooks.pre_merge,
        setup.root_dir,
        Some(hook_env(run, setup, Some((tested.commit_id, tested.change_id)), None)),
    );
    let r = hooks::hook_outcome(hook, h.pre_merge);
    let run = with_late_section(run, "\n\n### Pre-Merge Hook\n\n"@, r.output);
    assert(text::holds_text(run.output, needle));
    lemma_publish_stage_keeps(run, setup, base, tested, h, needle);
}

proof fn lemma_checked_stage_keeps(
    run: MQRunView,
    setup: RunSetupView,
    base: ResolvedRevisionView,
    tested: ResolvedRevisionView,
    result: CheckResultView,
    at: Timestamp,
    h: RunHistory,
    needle: Seq<char>,
)
    requires
        text::holds_text(run.output, needle),
    ensures
        checked_stage(run, setup, base, tested, result, at, h) matches RunStepView::Complete(done)
            ==> text::holds_text(done.output, needle),
{
    broadcast use text::lemma_holds_appended;

    let hooked = after_post_clone(run, result.post_clone_output);
    assert(text::holds_text(hooked.output, needle));
    let checked = with_result(hooked, result, at);
    assert(text::holds_text(checked.output, needle));
    lemma_passed_stage_keeps(checked, setup, base, tested, h, needle);
}

proof fn lemma_failure_keeps(
    run: MQRunView,
    failure: CheckFailureView,
    at: Timestamp,
    needle: Seq<char>,
)
    requires
        text::holds_text(run.output, needle),
    ensures
        text::holds_text(with_failure(run, failure, at).output, needle),
{
    broadcast use crate::text::lemma_holds_appended;

    let hooked = after_post_clone(run, failure.post_clone_output);
    assert(text::holds_text(hooked.output, needle));
    match failure.jobs {
        Some(result) => {
            assert(text::holds_text(with_result(hooked, result, at).output, needle));
        },
        None => {},
    }
}

proof fn lemma_failure_shows(run: MQRunView, failure: CheckFailureView, at: Timestamp)
    ensures
        failure.post_clone_output matches Some(output) ==> shows(
            with_failure(run, failure, at),
            "### Post-Clone Hook\n\n"@,
            output,
        ),
{
    broadcast use crate::text::lemma_holds_appended;

    match failure.post_clone_output {
        Some(output) => {
            let needle = "### Post-Clone Hook\n\n"@ + output;
            let hooked = after_post_clone(run, failure.post_clone_output);
            lemma_sections_show(run, "### Post-Clone Hook\n\n"@, output);
            if output.len() > 0 {
                assert(text::holds_text(hooked.output, needle));
                match failure.jobs {
                    Some(result) => {
                        assert(text::holds_text(with_result(hooked, result, at).output, needle));
                    },
                    None => {},
                }
            }
        },
        None => {},
    }
}

proof fn lemma_base_stage_keeps(
    run: MQRunView,
    setup: RunSetupView,
    h: RunHistory,
    needle: Seq<char>,
)
    requires
        text::holds_text(run.output, needle),
    ensures
        base_stage(run, setup, h) matches RunStepView::Complete(done) ==> text::holds_text(
            done.output,
            needle,
        ),
{
    broadcast use text::lemma_holds_appended;

    match (h.base, h.test_merge, h.check) {
        (Some((Ok(base), _)), Some((Ok(merged), _)), Some((Ok(result), at))) => {
            let run = MQRunView { test_merge_output: merged@.output, ..run };
            let tested = tested_revision(run, merged@);
            lemma_checked_stage_keeps(run, setup, base@, tested, result@, at, h, needle);
        },
        (Some((Ok(base), _)), Some((Ok(merged), _)), Some((Err(failure), at))) => {
            let run = MQRunView { test_merge_output: merged@.output, ..run };
            lemma_failure_keeps(run, failure@, at, needle);
        },
        _ => {},
    }
}

proof fn lemma_landed_step_shows(
    run: MQRunView,
    setup: RunSetupView,
    tested: (Seq<char>, Seq<char>),
    landed: (Seq<char>, Seq<char>),
    output: Seq<char>,
    h: RunHistory,
)
    ensures
        landed_step(run, setup, tested, landed, output, h) matches RunStepView::Complete(done) ==> (
        landed_step(run, setup, tested, landed, output, RunHistory { post_merge: None, ..h })
            is RunHook ==> shows(
            done,
            "\n\n### Post-Merge Hook\n\n"@,
            hooks::printed(h.post_merge->0),
        )),
{
    broadcast use text::lemma_holds_appended;

    let header = match setup.merge_mode {
        MergeStyle::Rebase => "### Final Rebase"@,
        MergeStyle::Merge => "### Final Merge"@,
    };
    let run = noted(noted(noted(noted(run, "\n\n"@), header), "\n\n"@), output);
    lemma_sections_show(
        run,
        "\n\n### Post-Merge Hook\n\n"@,
        hooks::printed(h.post_merge->0),
    );
}

proof fn lemma_passed_stage_shows(
    run: MQRunView,
    setup: RunSetupView,
    base: ResolvedRevisionView,
    tested: ResolvedRevisionView,
    h: RunHistory,
)
    ensures
        passed_stage(run, setup, base, tested, h) matches RunStepView::Complete(done) ==> {
            &&& passed_stage(run, setup, base, tested, RunHistory { pre_merge: None, ..h })
                is RunHook ==> shows(
                done,
                "\n\n### Pre-Merge Hook\n\n"@,
                hooks::printed(h.pre_merge->0),
            )
            &&& passed_stage(run, setup, base, tested, RunHistory { post_merge: None, ..h })
                is RunHook ==> shows(
                done,
                "\n\n### Post-Merge Hook\n\n"@,
                hooks::printed(h.post_merge->0),
            )
        },
{
    broadcast use text::lemma_holds_appended;

    let header = "\n\n### Pre-Merge Hook\n\n"@;
    let hook = hooks::hook_run(
        setup.hooks.pre_merge,
        setup.root_dir,
        Some(hook_env(run, setup, Some((tested.commit_id, tested.change_id)), None)),
    );
    let r = hooks::hook_outcome(hook, h.pre_merge);
    let hooked = with_late_section(run, header, r.output);
    lemma_sections_show(run, header, r.output);
    if r.output.len() > 0 {
        lemma_publish_stage_keeps(hooked, setup, base, tested, h, header + r.output);
    }
    match h.publication {
        Some(Ok(outcome)) => match outcome@ {
            PublicationView::Verified { commit_id, change_id, output } => {
                lemma_landed_step_shows(
                    hooked,
                    setup,
                    (tested.commit_id, tested.change_id),
                    (commit_id, change_id),
                    output,
                    h,
                );
            },
            PublicationView::AppliedUnverified { .. } => {},
        },
        _ => {},
    }
}

proof fn lemma_checked_stage_shows(
    run: MQRunView,
    setup: RunSetupView,
    base: ResolvedRevisionView,
    tested: ResolvedRevisionView,
    result: CheckResultView,
    at: Timestamp,
    h: RunHistory,
)
    ensures
        checked_stage(run, setup, base, tested, result, at, h) matches RunStepView::Complete(done)
            ==> {
            &&& result.post_clone_output matches Some(output) ==> shows(
                done,
                "### Post-Clone Hook\n\n"@,
                output,
            )
            &&& checked_stage(
                run,
                setup,
                base,
                tested,
                result,
                at,
                RunHistory { pre_merge: None, ..h },
            ) is RunHook ==> shows(
                done,
                "\n\n### Pre-Merge Hook\n\n"@,
                hooks::printed(h.pre_merge->0),
            )
            &&& checked_stage(
                run,
                setup,
                base,
                tested,
                result,
                at,
                RunHistory { post_merge: None, ..h },
            ) is RunHook ==> shows(
                done,
                "\n\n### Post-Merge Hook\n\n"@,
                hooks::printed(h.post_merge->0),
            )
        },
{
    broadcast use text::lemma_holds_appended;

    let hooked = after_post_clone(run, result.post_clone_output);
    let checked = with_result(hooked, result, at);
    lemma_passed_stage_shows(checked, setup, base, tested, h);
    match result.post_clone_output {
        Some(output) => {
            let header = "### Post-Clone Hook\n\n"@;
            lemma_sections_show(run, header, output);
            if output.len() > 0 {
                assert(text::holds_text(hooked.output, header + output));
                assert(text::holds_text(checked.output, header + output));
                lemma_passed_stage_keeps(checked, setup, base, tested, h, header + output);
            }
        },
        None => {},
    }
}

/// The output of a post-clone hook, as the check of a run handed it on.
pub open spec fn post_clone_output(check: Result<CheckResult, CheckFailure>) -> Option<Seq<char>> {
    match check {
        Ok(result) => result@.post_clone_output,
        Err(failure) => failure@.post_clone_output,
    }
}

/// The output of a run that is over shows what its hooks printed, each under a
/// header of its own, whatever the run came to.
pub proof fn law_hook_output_is_shown(run: MQRunView, setup: RunSetupView, h: RunHistory)
    ensures
        run_step(run, setup, h) matches RunStepView::Complete(done) ==> {
            &&& run_step(run, setup, RunHistory { pre_clone: None, ..h }) is RunHook ==> shows(
                done,
                "### Pre-Clone Hook\n\n"@,
                hooks::printed((h.pre_clone->0).0),
            )
            &&& run_step(run, setup, RunHistory { check: None, ..h }) is Check ==> (
            h.check matches Some((came, _)) && (post_clone_output(came) matches Some(output)
                ==> shows(done, "### Post-Clone Hook\n\n"@, output)))
            &&& run_step(run, setup, RunHistory { pre_merge: None, ..h }) is RunHook ==> shows(
                done,
                "\n\n### Pre-Merge Hook\n\n"@,
                hooks::printed(h.pre_merge->0),
            )
            &&& run_step(run, setup, RunHistory { post_merge: None, ..h }) is RunHook ==> shows(
                done,
                "\n\n### Post-Merge Hook\n\n"@,
                hooks::printed(h.post_merge->0),
            )
        },
{
    let header = "### Pre-Clone Hook\n\n"@;
    let hook = hooks::hook_run(
        setup.hooks.pre_clone,
        setup.root_dir,
        Some(hook_env(run, setup, None, None)),
    );
    let r = hooks::hook_outcome(
        hook,
        match h.pre_clone {
            Some((reply, _)) => Some(reply),
            None => None,
        },
    );
    let begun = with_section(run, header, r.output);
    lemma_sections_show(run, header, r.output);
    if r.output.len() > 0 {
        lemma_base_stage_keeps(begun, setup, h, header + r.output);
        text::lemma_holds_appended(
            begun.output,
            "\nPre-clone hook failed\n"@,
            header + r.output,
        );
    }
    match (h.base, h.test_merge, h.check) {
        (Some((Ok(base), _)), Some((Ok(merged), _)), Some((Ok(result), at))) => {
            let ready = MQRunView { test_merge_output: merged@.output, ..begun };
            let tested = tested_revision(ready, merged@);
            lemma_checked_stage_shows(ready, setup, base@, tested, result@, at, h);
        },
        (Some((Ok(base), _)), Some((Ok(merged), _)), Some((Err(failure), at))) => {
            let ready = MQRunView { test_merge_output: merged@.output, ..begun };
            lemma_failure_shows(ready, failure@, at);
        },
        _ => {},
    }
}

/// Whether there is anything to run for a hook.
pub open spec fn is_set(hook: Option<config::CommandConfigView>) -> bool {
    hook is Some && hook->0.command is Some
}

/// Whether the pre-clone hook does not stand in the way: there is none, or it has
/// replied with success.
pub open spec fn pre_clone_allows(setup: RunSetupView, h: RunHistory) -> bool {
    is_set(setup.hooks.pre_clone) ==> h.pre_clone is Some && succeeded(Some((h.pre_clone->0).0))
}

/// Whether the candidate of a run was integrated with its base.
pub open spec fn is_integrated(setup: RunSetupView, h: RunHistory) -> bool {
    &&& pre_clone_allows(setup, h)
    &&& h.base is Some && (h.base->0).0 is Ok
    &&& h.test_merge is Some && (h.test_merge->0).0 is Ok
}

/// Whether a check ended with zero, no step of it failed in a way that counts,
/// and its post-clone hook did not fail.
pub open spec fn is_clean(result: CheckResultView) -> bool {
    &&& result.exit_code == Some(0i32)
    &&& !check::holds_counted_failure(result.steps)
    &&& result.post_clone_success != Some(false)
}

/// Whether the check of a run was clean.
pub open spec fn is_checked(setup: RunSetupView, h: RunHistory) -> bool {
    &&& is_integrated(setup, h)
    &&& h.check is Some && (h.check->0).0 is Ok
    &&& is_clean((h.check->0).0->Ok_0@)
}

/// Whether nothing stands in the way of publishing a run.
pub open spec fn may_publish(run: MQRunView, setup: RunSetupView, h: RunHistory) -> bool {
    &&& is_checked(setup, h)
    &&& !run.no_merge
    &&& is_set(setup.hooks.pre_merge) ==> succeeded(h.pre_merge)
}

/// A run does one thing after the other, each exactly when all before it went
/// well: the pre-clone hook, the base, the integration, the check, the pre-merge
/// hook, the publication, the post-merge hook.
#[verifier::spinoff_prover]
pub proof fn law_runs_go_in_order(run: MQRunView, setup: RunSetupView, h: RunHistory)
    ensures
        ({
            let step = run_step(run, setup, h);
            let slot = step->RunHook_slot;
            &&& step is RunHook && slot == HookSlot::PreClone <==> is_set(setup.hooks.pre_clone)
                && h.pre_clone is None
            &&& step is ResolveBase <==> pre_clone_allows(setup, h) && h.base is None
            &&& step is TestMerge <==> pre_clone_allows(setup, h) && h.base is Some && (
            h.base->0).0 is Ok && h.test_merge is None
            &&& step is Check <==> is_integrated(setup, h) && h.check is None
            &&& step is RunHook && slot == HookSlot::PreMerge <==> is_checked(setup, h)
                && !run.no_merge && is_set(setup.hooks.pre_merge) && h.pre_merge is None
            &&& step is Publish <==> may_publish(run, setup, h) && h.publication is None
            &&& step is RunHook && slot == HookSlot::PostMerge <==> may_publish(run, setup, h)
                && publication_verified(h) && is_set(setup.hooks.post_merge) && h.post_merge is None
        }),
{
    if h.check is Some && (h.check->0).0 is Ok {
        check::law_checks_pass_on_zero((h.check->0).0->Ok_0@);
    }
}

/// What a run asks for. The base branch is resolved as it is named, in the
/// project's version control system. The candidate is integrated as it was
/// submitted, and published only over the base that it was integrated with.
pub proof fn law_runs_ask_for_what_was_submitted(
    run: MQRunView,
    setup: RunSetupView,
    h: RunHistory,
)
    ensures
        match run_step(run, setup, h) {
            RunStepView::ResolveBase { vcs, revision } => {
                &&& vcs == setup.vcs
                &&& revision == setup.base_branch
            },
            RunStepView::TestMerge { base, candidate, merge_mode } => {
                &&& base == (h.base->0).0->Ok_0@
                &&& candidate == run.candidate
                &&& merge_mode == setup.merge_mode
            },
            RunStepView::Check(asked) => {
                let base = (h.base->0).0->Ok_0@;
                let merged = (h.test_merge->0).0->Ok_0@;
                &&& asked.root_dir == setup.root_dir
                &&& asked.base == base
                &&& asked.candidate == run.candidate
                &&& asked.tested.user == run.candidate.user
                &&& asked.tested.commit_id == merged.commit_id
                &&& asked.tested.change_id == merged.change_id
                &&& asked.integrated <==> base.commit_id != run.candidate.commit_id
                &&& asked.mode == CheckMode::MergeQueue
                &&& asked.post_clone == setup.hooks.post_clone
                &&& asked.hook_env == Some(
                    HookEnvView {
                        candidate: run.candidate,
                        base_branch: setup.base_branch,
                        tested: Some((merged.commit_id, merged.change_id)),
                        landed: None,
                        worktrees: None,
                    },
                )
            },
            RunStepView::Publish { branch, expected_base, prepared } => {
                let merged = (h.test_merge->0).0->Ok_0@;
                &&& branch == setup.base_branch
                &&& expected_base == (h.base->0).0->Ok_0@.commit_id
                &&& prepared.user == run.candidate.user
                &&& prepared.commit_id == merged.commit_id
                &&& prepared.change_id == merged.change_id
            },
            _ => true,
        },
{
}

/// Each hook of a run is the one that is configured for its place, run at the
/// project's root. All are told of the candidate and the base branch; the one
/// before publication also of what was tested, and the one after it also of
/// what landed.
#[verifier::spinoff_prover]
pub proof fn law_hooks_are_told_what_is_known(
    run: MQRunView,
    setup: RunSetupView,
    h: RunHistory,
)
    ensures
        run_step(run, setup, h) matches RunStepView::RunHook { slot, invocation } ==> {
            let merged = (h.test_merge->0).0->Ok_0@;
            let tested = Some((merged.commit_id, merged.change_id));
            let told = |tested: Option<(Seq<char>, Seq<char>)>, landed: Option<
                (Seq<char>, Seq<char>),
            >|
                Some(
                    HookEnvView {
                        candidate: run.candidate,
                        base_branch: setup.base_branch,
                        tested,
                        landed,
                        worktrees: None,
                    },
                );
            &&& slot == HookSlot::PreClone ==> Some(invocation) == hooks::hook_run(
                setup.hooks.pre_clone,
                setup.root_dir,
                told(None, None),
            )
            &&& slot == HookSlot::PreMerge ==> Some(invocation) == hooks::hook_run(
                setup.hooks.pre_merge,
                setup.root_dir,
                told(tested, None),
            )
            &&& slot == HookSlot::PostMerge ==> {
                let landed = h.publication->0->Ok_0@;
                Some(invocation) == hooks::hook_run(
                    setup.hooks.post_merge,
                    setup.root_dir,
                    told(
                        tested,
                        Some((landed->Verified_commit_id, landed->Verified_change_id)),
                    ),
                )
            }
        },
{
}

/// How a run ends says what happened in it: each reason for failure comes exactly
/// where that very thing failed, and a run passes exactly if its check was clean
/// and it was either meant for validation only or seen to land.
#[verifier::spinoff_prover]
pub proof fn law_endings_say_what_happened(run: MQRunView, setup: RunSetupView, h: RunHistory)
    requires
        run_step(run, setup, h) is Complete,
    ensures
        ({
            let status = run_step(run, setup, h)->Complete_0.status;
            let check_ended = is_integrated(setup, h) && h.check is Some;
            let result = (h.check->0).0->Ok_0@;
            &&& status == MQRunStatus::Failed(FailedReason::PreClone) <==> !pre_clone_allows(
                setup,
                h,
            )
            &&& status == MQRunStatus::Failed(FailedReason::BaseResolve) <==> pre_clone_allows(
                setup,
                h,
            ) && h.base is Some && (h.base->0).0 is Err
            &&& (status == MQRunStatus::Failed(FailedReason::TestRebase) || status
                == MQRunStatus::Failed(FailedReason::TestMerge)) <==> pre_clone_allows(setup, h)
                && h.base is Some && (h.base->0).0 is Ok && h.test_merge is Some && (
            h.test_merge->0).0 is Err
            &&& status == MQRunStatus::Failed(FailedReason::TestRebase) ==> setup.merge_mode
                == MergeStyle::Rebase
            &&& status == MQRunStatus::Failed(FailedReason::TestMerge) ==> setup.merge_mode
                == MergeStyle::Merge
            &&& status == MQRunStatus::Failed(FailedReason::PostClone) <==> check_ended && (
            h.check->0).0 is Ok && result.post_clone_success == Some(false)
            &&& status == MQRunStatus::Failed(FailedReason::Check) <==> check_ended && ((
            h.check->0).0 is Err || (result.post_clone_success != Some(false) && !is_clean(result)))
            &&& status == MQRunStatus::Failed(FailedReason::PreMerge) <==> is_checked(setup, h)
                && !run.no_merge && !may_publish(run, setup, h)
            &&& status == MQRunStatus::Failed(FailedReason::Merge) <==> may_publish(run, setup, h)
                && h.publication->0 is Err
            &&& status == MQRunStatus::Failed(FailedReason::PublicationUnverified)
                <==> may_publish(run, setup, h) && h.publication->0 is Ok
                && h.publication->0->Ok_0@ is AppliedUnverified
            &&& status == MQRunStatus::Passed(PassedReason::NoMerge) <==> is_checked(setup, h)
                && run.no_merge
            &&& status == MQRunStatus::Passed(PassedReason::Rebased) <==> may_publish(
                run,
                setup,
                h,
            ) && publication_verified(h) && setup.merge_mode == MergeStyle::Rebase
            &&& status == MQRunStatus::Passed(PassedReason::Merged) <==> may_publish(
                run,
                setup,
                h,
            ) && publication_verified(h) && setup.merge_mode == MergeStyle::Merge
        }),
{
    if h.check is Some && (h.check->0).0 is Ok {
        check::law_checks_pass_on_zero((h.check->0).0->Ok_0@);
    }
}

/// A run ends when the thing that decided it was known, at the latest when its
/// check was. What its jobs came to is kept with it where they have ended.
#[verifier::spinoff_prover]
pub proof fn law_endings_keep_times_and_jobs(run: MQRunView, setup: RunSetupView, h: RunHistory)
    requires
        run_step(run, setup, h) is Complete,
    ensures
        ({
            let done = run_step(run, setup, h)->Complete_0;
            &&& !pre_clone_allows(setup, h) ==> done.completed_at == Some((h.pre_clone->0).1)
            &&& pre_clone_allows(setup, h) && (h.base->0).0 is Err ==> done.completed_at == Some(
                (h.base->0).1,
            )
            &&& pre_clone_allows(setup, h) && (h.base->0).0 is Ok && (h.test_merge->0).0 is Err
                ==> done.completed_at == Some((h.test_merge->0).1)
            &&& is_integrated(setup, h) ==> {
                &&& done.completed_at == Some((h.check->0).1)
                &&& done.test_merge_output == (h.test_merge->0).0->Ok_0@.output
            }
            &&& is_integrated(setup, h) && (h.check->0).0 is Ok && (
            h.check->0).0->Ok_0@.post_clone_success != Some(false) ==> {
                &&& done.completed_steps == (h.check->0).0->Ok_0@.steps
                &&& done.completed_jobs == (h.check->0).0->Ok_0@.jobs
                &&& done.active_jobs.len() == 0
            }
            &&& is_integrated(setup, h) && (h.check->0).0 is Err && (
            h.check->0).0->Err_0@.jobs is Some ==> {
                &&& done.completed_steps == ((h.check->0).0->Err_0@.jobs->0).steps
                &&& done.completed_jobs == ((h.check->0).0->Err_0@.jobs->0).jobs
                &&& done.active_jobs.len() == 0
            }
            &&& done.id == run.id
            &&& done.candidate == run.candidate
            &&& done.queued_at == run.queued_at
            &&& done.started_at == run.started_at
            &&& done.merge_mode == run.merge_mode
            &&& done.no_merge == run.no_merge
        }),
{
}

/// What a hook before the check adds to the output of its run.
pub open spec fn early_text(header: Seq<char>, output: Seq<char>) -> Seq<char> {
    if output.len() > 0 {
        header + output + "\n"@
    } else {
        Seq::empty()
    }
}

/// What a hook after the check adds to the output of its run.
pub open spec fn late_text(header: Seq<char>, output: Seq<char>) -> Seq<char> {
    if output.len() > 0 {
        header + output
    } else {
        Seq::empty()
    }
}

/// What the pre-clone hook of a run adds to its output.
pub open spec fn pre_clone_text(setup: RunSetupView, h: RunHistory) -> Seq<char> {
    if is_set(setup.hooks.pre_clone) {
        early_text("### Pre-Clone Hook\n\n"@, hooks::printed((h.pre_clone->0).0))
    } else {
        Seq::empty()
    }
}

/// The output of a run that ended before its check is what it was, what the
/// pre-clone hook printed, and why it ended.
#[verifier::spinoff_prover]
pub proof fn law_early_endings_are_explained(run: MQRunView, setup: RunSetupView, h: RunHistory)
    requires
        run_step(run, setup, h) is Complete,
    ensures
        ({
            let done = run_step(run, setup, h)->Complete_0;
            let before = run.output + pre_clone_text(setup, h);
            &&& !pre_clone_allows(setup, h) ==> done.output =~= before
                + "\nPre-clone hook failed\n"@
            &&& pre_clone_allows(setup, h) && (h.base->0).0 is Err ==> done.output =~= before
                + "Failed to resolve base branch '"@ + setup.base_branch + "': "@
                + revision::revision_error_text((h.base->0).0->Err_0@)
            &&& pre_clone_allows(setup, h) && (h.base->0).0 is Ok && (h.test_merge->0).0 is Err
                ==> done.output =~= before
                + "Failed to create test merge/rebase of candidate onto base: "@
                + error::merge_error_text((h.test_merge->0).0->Err_0@)
        }),
{
}

/// What the check of a run, with its post-clone hook, adds to its output.
pub open spec fn check_text(check: Result<CheckResult, CheckFailure>) -> Seq<char> {
    let hook = match post_clone_output(check) {
        Some(output) => early_text("### Post-Clone Hook\n\n"@, output),
        None => Seq::empty(),
    };
    match check {
        Ok(result) => if result.post_clone_success == Some(false) {
            hook + "\nPost-clone hook failed\n"@
        } else {
            hook + result.output@
        },
        Err(failure) => hook + (match failure.jobs {
            Some(result) => result.output@,
            None => Seq::empty(),
        }) + "Check failed: "@ + error::main_error_text(failure.error@),
    }
}

/// What a publication that was made, or not, adds to the output of its run, with
/// the post-merge hook after it.
pub open spec fn publication_text(setup: RunSetupView, h: RunHistory) -> Seq<char> {
    match h.publication->0 {
        Ok(outcome) => match outcome@ {
            PublicationView::Verified { output, .. } => {
                let header = if setup.merge_mode == MergeStyle::Rebase {
                    "\n\n"@ + "### Final Rebase"@ + "\n\n"@
                } else {
                    "\n\n"@ + "### Final Merge"@ + "\n\n"@
                };
                let after = if is_set(setup.hooks.post_merge) {
                    late_text("\n\n### Post-Merge Hook\n\n"@, hooks::printed(h.post_merge->0))
                } else {
                    Seq::empty()
                };
                let end = if is_set(setup.hooks.post_merge) && !succeeded(h.post_merge) {
                    "\n\nPost-merge hook failed\n"@
                } else {
                    Seq::empty()
                };
                header + output + after + end
            },
            PublicationView::AppliedUnverified { commit_id, output } =>
                "\n\n### Publication Applied but Unverified\n\n"@ + output
                    + "\nSelfCI requested publication of checked commit "@ + commit_id
                    + ", but could not verify the resulting bookmark identity. Inspect the repository before retrying.\n"@,
        },
        Err(e) => "\n\n### Merge Failed\n\n"@ + error::merge_error_text(e@),
    }
}

/// What follows a clean check in the output of a run: nothing where it was for
/// validation only, else the pre-merge hook and, if that did not fail, the
/// publication.
pub open spec fn landing_text(run: MQRunView, setup: RunSetupView, h: RunHistory) -> Seq<char> {
    let hook = if is_set(setup.hooks.pre_merge) {
        late_text("\n\n### Pre-Merge Hook\n\n"@, hooks::printed(h.pre_merge->0))
    } else {
        Seq::empty()
    };
    if run.no_merge {
        Seq::empty()
    } else if is_set(setup.hooks.pre_merge) && !succeeded(h.pre_merge) {
        hook + "\n\nPre-merge hook failed, skipping merge\n"@
    } else {
        hook + publication_text(setup, h)
    }
}

proof fn lemma_sections_add(run: MQRunView, header: Seq<char>, output: Seq<char>)
    ensures
        with_section(run, header, output).output =~= run.output + early_text(header, output),
        with_late_section(run, header, output).output =~= run.output + late_text(header, output),
{
}

#[verifier::spinoff_prover]
proof fn lemma_landed_output(
    run: MQRunView,
    setup: RunSetupView,
    tested: (Seq<char>, Seq<char>),
    landed: (Seq<char>, Seq<char>),
    output: Seq<char>,
    h: RunHistory,
)
    requires
        h.publication matches Some(Ok(outcome)) && (outcome@ matches PublicationView::Verified {
            output: text,
            ..
        } && text == output),
    ensures
        landed_step(run, setup, tested, landed, output, h) matches RunStepView::Complete(done)
            ==> done.output == run.output + publication_text(setup, h),
{
    let header = match setup.merge_mode {
        MergeStyle::Rebase => "### Final Rebase"@,
        MergeStyle::Merge => "### Final Merge"@,
    };
    let before = noted(noted(noted(noted(run, "\n\n"@), header), "\n\n"@), output);
    let begin = "\n\n"@ + header + "\n\n"@ + output;
    assert(before.output =~= run.output + begin);
    let printed = hooks::printed(h.post_merge->0);
    lemma_sections_add(before, "\n\n### Post-Merge Hook\n\n"@, printed);
    lemma_sections_add(before, "\n\n### Post-Merge Hook\n\n"@, Seq::empty());
    let after = late_text("\n\n### Post-Merge Hook\n\n"@, printed);
    let end = "\n\nPost-merge hook failed\n"@;
    assert(run.output + begin + after + end =~= run.output + (begin + after + end));
    assert(run.output + begin + after =~= run.output + (begin + after + Seq::empty()));
    assert(run.output + begin =~= run.output + (begin + Seq::empty() + Seq::empty()));
}

#[verifier::spinoff_prover]
proof fn lemma_publish_output(
    run: MQRunView,
    setup: RunSetupView,
    base: ResolvedRevisionView,
    tested: ResolvedRevisionView,
    h: RunHistory,
)
    ensures
        publish_stage(run, setup, base, tested, h) matches RunStepView::Complete(done)
            ==> done.output == run.output + publication_text(setup, h),
{
    match h.publication {
        Some(Ok(outcome)) => match outcome@ {
            PublicationView::Verified { commit_id, change_id, output } => {
                lemma_landed_output(
                    run,
                    setup,
                    (tested.commit_id, tested.change_id),
                    (commit_id, change_id),
                    output,
                    h,
                );
            },
            PublicationView::AppliedUnverified { commit_id, output } => {
                let first = "\n\n### Publication Applied but Unverified\n\n"@;
                let second = "\nSelfCI requested publication of checked commit "@;
                let third =
                    ", but could not verify the resulting bookmark identity. Inspect the repository before retrying.\n"@;
                assert(run.output + first + output + (second + commit_id + third) =~= run.output
                    + (first + output + second + commit_id + third));
            },
        },
        _ => {},
    }
}

#[verifier::spinoff_prover]
proof fn lemma_passed_output(
    run: MQRunView,
    setup: RunSetupView,
    base: ResolvedRevisionView,
    tested: ResolvedRevisionView,
    h: RunHistory,
)
    ensures
        passed_stage(run, setup, base, tested, h) matches RunStepView::Complete(done)
            ==> done.output == run.output + landing_text(run, setup, h),
{
    let header = "\n\n### Pre-Merge Hook\n\n"@;
    let output = if is_set(setup.hooks.pre_merge) {
        hooks::printed(h.pre_merge->0)
    } else {
        Seq::empty()
    };
    let hook = late_text(header, output);
    lemma_sections_add(run, header, output);
    lemma_publish_output(with_late_section(run, header, output), setup, base, tested, h);
    let end = "\n\nPre-merge hook failed, skipping merge\n"@;
    assert(run.output + hook + end =~= run.output + (hook + end));
    assert(run.output + hook + publication_text(setup, h) =~= run.output + (hook
        + publication_text(setup, h)));
    assert(run.output + Seq::empty() =~= run.output);
}

#[verifier::spinoff_prover]
proof fn lemma_check_output(
    run: MQRunView,
    setup: RunSetupView,
    base: ResolvedRevisionView,
    merged: TestMergeView,
    h: RunHistory,
)
    ensures
        check_stage(run, setup, base, merged, h) matches RunStepView::Complete(done)
            ==> done.output == (if (h.check->0).0 is Ok && is_clean((h.check->0).0->Ok_0@) {
            run.output + check_text((h.check->0).0) + landing_text(run, setup, h)
        } else {
            run.output + check_text((h.check->0).0)
        }),
{
    let run1 = MQRunView { test_merge_output: merged.output, ..run };
    let tested = tested_revision(run1, merged);
    let header = "### Post-Clone Hook\n\n"@;
    match h.check {
        None => {},
        Some((Ok(result), at)) => {
            let view = result@;
            check::law_checks_pass_on_zero(view);
            let run2 = after_post_clone(run1, view.post_clone_output);
            let hook = match view.post_clone_output {
                Some(output) => early_text(header, output),
                None => Seq::empty(),
            };
            lemma_sections_add(run1, header, view.post_clone_output->0);
            assert(run2.output =~= run.output + hook);
            let end = "\nPost-clone hook failed\n"@;
            assert(run.output + hook + end =~= run.output + (hook + end));
            assert(run.output + hook + result.output@ =~= run.output + (hook + result.output@));
            let run3 = with_result(run2, view, at);
            lemma_passed_output(run3, setup, base, tested, h);
        },
        Some((Err(failure), at)) => {
            let view = failure@;
            let run2 = after_post_clone(run1, view.post_clone_output);
            let hook = match view.post_clone_output {
                Some(output) => early_text(header, output),
                None => Seq::empty(),
            };
            lemma_sections_add(run1, header, view.post_clone_output->0);
            assert(run2.output =~= run.output + hook);
            let jobs = match failure.jobs {
                Some(result) => result.output@,
                None => Seq::empty(),
            };
            let run3 = match view.jobs {
                Some(result) => with_result(run2, result, at),
                None => run2,
            };
            assert(run3.output =~= run.output + hook + jobs);
            let why = error::main_error_text(failure.error@);
            assert(run.output + hook + jobs + ("Check failed: "@ + why) =~= run.output + (hook
                + jobs + "Check failed: "@ + why));
        },
    }
}

/// The output of a run whose check ended is what it was, what the pre-clone hook
/// printed, what the check came to, and then, if the check was clean, what the
/// hooks and the publication came to, in the order in which they happened.
#[verifier::spinoff_prover]
pub proof fn law_late_endings_are_explained(run: MQRunView, setup: RunSetupView, h: RunHistory)
    requires
        run_step(run, setup, h) is Complete,
        is_integrated(setup, h),
    ensures
        ({
            let done = run_step(run, setup, h)->Complete_0;
            let before = run.output + pre_clone_text(setup, h) + check_text((h.check->0).0);
            &&& !is_checked(setup, h) ==> done.output == before
            &&& is_checked(setup, h) ==> done.output == before + landing_text(run, setup, h)
        }),
{
    let header = "### Pre-Clone Hook\n\n"@;
    let output = if is_set(setup.hooks.pre_clone) {
        hooks::printed((h.pre_clone->0).0)
    } else {
        Seq::empty()
    };
    lemma_sections_add(run, header, output);
    let begun = with_section(run, header, output);
    assert(begun.output =~= run.output + pre_clone_text(setup, h));
    lemma_check_output(begun, setup, (h.base->0).0->Ok_0@, (h.test_merge->0).0->Ok_0@, h);
}

/// What a run is processed with is what its parts hold, and what it does next
/// too.
pub proof fn law_run_steps_hold_their_parts(setup: RunSetup, step: RunStep)
    ensures
        setup@.vcs == setup.vcs,
        setup@.root_dir == setup.root_dir@,
        setup@.base_branch == setup.base_branch@,
        setup@.hooks == setup.hooks@,
        setup@.merge_mode == setup.merge_mode,
        match step {
            RunStep::RunHook { slot, invocation } => step@ == (RunStepView::RunHook {
                slot,
                invocation: invocation@,
            }),
            RunStep::ResolveBase { vcs, revision } => step@ == (RunStepView::ResolveBase {
                vcs,
                revision: revision@,
            }),
            RunStep::TestMerge { base, candidate, merge_mode } => step@ == (
            RunStepView::TestMerge { base: base@, candidate: candidate@, merge_mode }),
            RunStep::Check(asked) => step@ == RunStepView::Check(asked@),
            RunStep::Publish { branch, expected_base, prepared } => step@ == (
            RunStepView::Publish {
                branch: branch@,
                expected_base: expected_base@,
                prepared: prepared@,
            }),
            RunStep::Complete(done) => step@ == RunStepView::Complete(done@),
        },
{
}

/// The queue is processed in the version control system that was found, and not at
/// all without one.
pub proof fn law_queues_need_version_control(
    vcs: Result<VCS, VCSError>,
    res: Result<VCS, String>,
)
    requires
        call_ensures(begin_queue, (&vcs,), res),
    ensures
        vcs matches Ok(found) ==> res == Ok::<VCS, String>(found),
        vcs matches Err(e) ==> res is Err && res->Err_0@ == "Failed to detect VCS: "@
            + error::vcs_error_text(e),
{
}

/// What a run does next is what its history asks for.
pub proof fn law_runs_do_what_comes_next(
    run: MQRunInfo,
    setup: RunSetup,
    h: RunHistory,
    res: RunStep,
)
    requires
        call_ensures(process_run, (&run, &setup, &h), res),
    ensures
        res is RunHook && res->slot == HookSlot::PreClone <==> is_set(setup@.hooks.pre_clone)
            && h.pre_clone is None,
        res is Publish <==> may_publish(run@, setup@, h) && h.publication is None,
        res is Publish ==> {
            &&& res->branch@ == setup.base_branch@
            &&& res->expected_base@ == (h.base->0).0->Ok_0@.commit_id
            &&& res->prepared@.commit_id == (h.test_merge->0).0->Ok_0@.commit_id
        },
        res matches RunStep::Complete(done) ==> {
            &&& done.id == run.id
            &&& done.status is Passed ==> is_checked(setup@, h) && (run.no_merge
                || publication_verified(h))
        },
{
    law_runs_go_in_order(run@, setup@, h);
    law_runs_ask_for_what_was_submitted(run@, setup@, h);
    if res is Complete {
        law_endings_say_what_happened(run@, setup@, h);
        law_complete_runs_are_over(run@, setup@, h);
    }
}

} // verus!
