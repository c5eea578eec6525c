use selfci::candidate_check::{
    run_candidate_check, CheckFailure, CheckHistory, CheckSetup, CheckStep,
};
use selfci::check::{CheckMode, CheckResult};
use selfci::config::{
    CloneMode, CommandConfig, JobConfig, MQHooksConfig, MergeStyle, SelfCIConfig,
};
use selfci::mq_protocol::{FailedReason, MQRunInfo, MQRunStatus, PassedReason, RunId};
use selfci::publish::{LandingOutcome, PublicationOutcome};
use selfci::revision::{ChangeId, CommitId, ResolvedRevision, RevisionError, UserRevision};
use selfci::run::{process_run, HookSlot, RunHistory, RunSetup, RunStep};
use selfci::script::Reply;
use selfci::test_merge::TestMergeOutcome;
use selfci::{MainError, MergeError, VCS};

fn commit(digit: &str) -> CommitId {
    CommitId::new(&digit.repeat(40)).unwrap()
}

fn revision(user: &str, digit: &str) -> ResolvedRevision {
    ResolvedRevision {
        user: UserRevision::new(user),
        change_id: ChangeId::new(&format!("change-{}", digit)),
        commit_id: commit(digit),
    }
}

fn run(no_merge: bool) -> MQRunInfo {
    MQRunInfo {
        id: RunId(1),
        candidate: revision("feature", "c"),
        status: MQRunStatus::Running,
        queued_at: 1,
        started_at: Some(2),
        completed_at: None,
        merge_mode: MergeStyle::Rebase,
        test_merge_output: String::new(),
        output: String::new(),
        active_jobs: vec![],
        completed_steps: vec![],
        completed_jobs: vec![],
        no_merge,
    }
}

fn hook(command: &str) -> Option<CommandConfig> {
    Some(CommandConfig {
        command: Some(command.to_string()),
        command_prefix: vec!["bash".to_string(), "-c".to_string()],
    })
}

fn setup() -> RunSetup {
    RunSetup {
        vcs: VCS::Git,
        root_dir: "/repo".to_string(),
        base_branch: "main".to_string(),
        hooks: MQHooksConfig {
            pre_start: None,
            post_start: None,
            pre_clone: hook("pre clone"),
            post_clone: None,
            pre_merge: hook("pre merge"),
            post_merge: hook("post merge"),
        },
        merge_mode: MergeStyle::Rebase,
    }
}

fn empty() -> RunHistory {
    RunHistory {
        pre_clone: None,
        base: None,
        test_merge: None,
        check: None,
        pre_merge: None,
        publication: None,
        post_merge: None,
    }
}

fn said(success: bool, text: &str) -> Reply {
    Reply::Output { success, text: text.to_string() }
}

fn checked(exit_code: Option<i32>) -> CheckResult {
    CheckResult {
        output: "checked\n".to_string(),
        steps: vec![],
        jobs: vec![],
        exit_code,
        duration: 5,
        post_clone_output: None,
        post_clone_success: None,
    }
}

/// A history in which everything up to the check has succeeded.
fn until_check(exit_code: Option<i32>) -> RunHistory {
    RunHistory {
        pre_clone: Some((said(true, ""), 3)),
        base: Some((Ok(revision("main", "b")), 4)),
        test_merge: Some((
            Ok(TestMergeOutcome {
                commit_id: commit("d"),
                change_id: ChangeId::new("change-d"),
                output: "integrated\n".to_string(),
            }),
            5,
        )),
        check: Some((Ok(checked(exit_code)), 6)),
        ..empty()
    }
}

fn landed() -> Option<Result<PublicationOutcome, MergeError>> {
    Some(Ok(PublicationOutcome::Verified(LandingOutcome {
        commit_id: commit("d"),
        change_id: ChangeId::new("change-d"),
        output: "moved\n".to_string(),
    })))
}

fn over(step: RunStep) -> MQRunInfo {
    match step {
        RunStep::Complete(run) => run,
        other => panic!("expected the end of the run: {:?}", other),
    }
}

fn hook_of(step: RunStep) -> String {
    match step {
        RunStep::RunHook { slot, invocation } => {
            let command = invocation.cmd.display();
            let name = match slot {
                HookSlot::PreClone => "pre clone",
                HookSlot::PreMerge => "pre merge",
                HookSlot::PostMerge => "post merge",
            };
            assert!(command.contains(name), "{:?}: {}", slot, command);
            command
        }
        other => panic!("expected a hook: {:?}", other),
    }
}

#[test]
fn test_mq_hooks_execution() {
    let mut h = empty();
    let asked = hook_of(process_run(&run(false), &setup(), &h));
    assert!(asked.contains("bash -c 'pre clone'"), "{}", asked);
    h.pre_clone = Some((said(true, "cloning"), 3));
    assert!(matches!(process_run(&run(false), &setup(), &h), RunStep::ResolveBase { .. }));
    h.base = Some((Ok(revision("main", "b")), 4));
    match process_run(&run(false), &setup(), &h) {
        RunStep::TestMerge { base, candidate, merge_mode } => {
            assert_eq!(base.commit_id.as_str(), "b".repeat(40));
            assert_eq!(candidate.commit_id.as_str(), "c".repeat(40));
            assert_eq!(merge_mode, MergeStyle::Rebase);
        }
        other => panic!("{:?}", other),
    }
    h.test_merge = until_check(Some(0)).test_merge;
    match process_run(&run(false), &setup(), &h) {
        RunStep::Check(check) => {
            assert_eq!(check.base.commit_id.as_str(), "b".repeat(40));
            assert_eq!(check.tested.commit_id.as_str(), "d".repeat(40));
            assert_eq!(check.candidate.commit_id.as_str(), "c".repeat(40));
            let hook_env = check.hook_env.unwrap();
            assert_eq!(hook_env.candidate.commit_id.as_str(), "c".repeat(40));
            assert_eq!(hook_env.tested.unwrap().commit_id.as_str(), "d".repeat(40));
        }
        other => panic!("{:?}", other),
    }
    h.check = Some((Ok(checked(Some(0))), 6));
    let asked = hook_of(process_run(&run(false), &setup(), &h));
    assert!(asked.contains("bash -c 'pre merge'"), "{}", asked);
    assert!(!asked.contains("SELFCI_LANDED_COMMIT_ID"), "{}", asked);
    h.pre_merge = Some(said(true, "merging"));
    match process_run(&run(false), &setup(), &h) {
        RunStep::Publish { branch, expected_base, prepared } => {
            assert_eq!(branch, "main");
            assert_eq!(expected_base.as_str(), "b".repeat(40));
            assert_eq!(prepared.commit_id.as_str(), "d".repeat(40));
        }
        other => panic!("{:?}", other),
    }
    h.publication = landed();
    let asked = hook_of(process_run(&run(false), &setup(), &h));
    assert!(asked.contains("bash -c 'post merge'"), "{}", asked);
    assert!(asked.contains(&format!("SELFCI_LANDED_COMMIT_ID={}", "d".repeat(40))), "{}", asked);
    h.post_merge = Some(said(true, "merged"));
    let done = over(process_run(&run(false), &setup(), &h));
    assert_eq!(done.status, MQRunStatus::Passed(PassedReason::Rebased));
    assert_eq!(done.completed_at, Some(6));
    assert_eq!(done.test_merge_output, "integrated\n");
    for section in [
        "### Pre-Clone Hook\n\ncloning",
        "checked\n",
        "### Pre-Merge Hook\n\nmerging",
        "### Final Rebase\n\nmoved\n",
        "### Post-Merge Hook\n\nmerged",
    ] {
        assert!(done.output.contains(section), "{:?} in {}", section, done.output);
    }
}

#[test]
fn test_pre_clone_hook_failure() {
    let mut h = empty();
    h.pre_clone = Some((said(false, "no"), 3));
    let done = over(process_run(&run(false), &setup(), &h));
    assert_eq!(done.status, MQRunStatus::Failed(FailedReason::PreClone));
    assert_eq!(done.completed_at, Some(3));
    assert!(done.output.contains("Pre-clone hook failed"), "{}", done.output);
}

#[test]
fn test_pre_merge_hook_failure() {
    let mut h = until_check(Some(0));
    h.pre_merge = Some(said(false, "no"));
    let done = over(process_run(&run(false), &setup(), &h));
    assert_eq!(done.status, MQRunStatus::Failed(FailedReason::PreMerge));
    assert!(done.output.contains("Pre-merge hook failed, skipping merge"), "{}", done.output);

    h.pre_merge = Some(Reply::Failed("no such file".to_string()));
    let done = over(process_run(&run(false), &setup(), &h));
    assert_eq!(done.status, MQRunStatus::Failed(FailedReason::PreMerge));
    assert!(done.output.contains("Failed to execute hook: no such file"), "{}", done.output);
}

#[test]
fn test_hook_env_vars() {
    let mut h = until_check(Some(0));
    let asked = hook_of(process_run(&run(false), &setup(), &h));
    for variable in [
        format!("SELFCI_CANDIDATE_COMMIT_ID={}", "c".repeat(40)),
        "SELFCI_CANDIDATE_CHANGE_ID=change-c".to_string(),
        "SELFCI_CANDIDATE_ID=feature".to_string(),
        "SELFCI_MQ_BASE_BRANCH=main".to_string(),
        format!("SELFCI_TESTED_COMMIT_ID={}", "d".repeat(40)),
        format!("SELFCI_MERGED_COMMIT_ID={}", "d".repeat(40)),
        "SELFCI_MERGED_CHANGE_ID=change-d".to_string(),
        "SELFCI_RUN_MODE=mq".to_string(),
    ] {
        assert!(asked.contains(&variable), "{} in {}", variable, asked);
    }
    h.pre_clone = None;
    let asked = hook_of(process_run(&run(false), &setup(), &h));
    assert!(asked.contains("pre clone"), "{}", asked);
    assert!(!asked.contains("SELFCI_TESTED_COMMIT_ID"), "{}", asked);
}

#[test]
fn failing_checks_are_never_published() {
    let mut h = until_check(Some(1));
    h.pre_merge = Some(said(true, ""));
    h.publication = landed();
    let done = over(process_run(&run(false), &setup(), &h));
    assert_eq!(done.status, MQRunStatus::Failed(FailedReason::Check));

    h.check = Some((Err(failure(None, None)), 6));
    let done = over(process_run(&run(false), &setup(), &h));
    assert_eq!(done.status, MQRunStatus::Failed(FailedReason::Check));
    assert_eq!(done.completed_at, Some(6));
    assert_eq!(done.output, "Check failed: Check command failed");
}

fn failure(post_clone_output: Option<&str>, jobs: Option<CheckResult>) -> CheckFailure {
    CheckFailure {
        error: MainError::CheckFailed,
        post_clone_output: post_clone_output.map(|s| s.to_string()),
        jobs,
    }
}

#[test]
fn checks_that_could_not_be_made_leave_what_was_known() {
    let mut h = until_check(Some(0));
    h.pre_clone = Some((said(true, "cloning"), 3));
    h.check = Some((Err(failure(None, None)), 6));
    let done = over(process_run(&run(false), &setup(), &h));
    assert_eq!(done.status, MQRunStatus::Failed(FailedReason::Check));
    assert_eq!(done.completed_at, Some(6));
    assert_eq!(
        done.output,
        "### Pre-Clone Hook\n\ncloning\nCheck failed: Check command failed"
    );
    assert_eq!(done.test_merge_output, "integrated\n");

    h.check = Some((Err(failure(Some("cloned"), Some(checked(Some(0))))), 6));
    let done = over(process_run(&run(false), &setup(), &h));
    assert_eq!(done.status, MQRunStatus::Failed(FailedReason::Check));
    assert_eq!(
        done.output,
        "### Pre-Clone Hook\n\ncloning\n### Post-Clone Hook\n\ncloned\nchecked\n\
         Check failed: Check command failed"
    );
}

/// The check that a run asks for on the given base.
fn asked_check(setup: &RunSetup, base: &str) -> CheckSetup {
    let mut h = until_check(Some(0));
    h.base = Some((Ok(revision("main", base)), 4));
    h.check = None;
    match process_run(&run(false), setup, &h) {
        RunStep::Check(check) => check,
        other => panic!("{:?}", other),
    }
}

#[test]
fn runs_are_checked_with_their_own_post_clone_hook() {
    let mut setup = setup();
    setup.hooks.post_clone = hook("post clone");
    let check = asked_check(&setup, "b");
    assert_eq!(check.root_dir, "/repo");
    assert_eq!(check.mode, CheckMode::MergeQueue);
    let exported = CheckHistory {
        vcs: Some(Ok(VCS::Git)),
        root_config: Some(Ok(SelfCIConfig {
            job: JobConfig {
                command: "true".to_string(),
                command_prefix: vec![],
                clone_mode: CloneMode::Partial,
            },
            mq: None,
        })),
        base_dir: Some(Ok("/base".to_string())),
        candidate_dir: Some(Ok("/candidate".to_string())),
        exported: Some(Ok(())),
        post_clone: None,
        attested: Some(Ok(true)),
        base_config: None,
        socket: None,
        jobs: None,
        attested_after: None,
    };
    match run_candidate_check(&check, &exported) {
        CheckStep::RunHook(inv) => {
            let command = inv.cmd.display();
            assert!(command.contains("bash -c 'post clone'"), "{}", command);
            assert!(command.contains("SELFCI_BASE_DIR=/base"), "{}", command);
        }
        other => panic!("{:?}", other),
    }
}

#[test]
fn jobs_of_a_run_are_told_of_an_integration_where_commits_differ() {
    assert!(asked_check(&setup(), "b").integrated);
    let check = asked_check(&setup(), "c");
    assert!(!check.integrated);
    assert_eq!(check.tested.commit_id.as_str(), "d".repeat(40));
}

#[test]
fn validation_runs_pass_without_being_published() {
    let done = over(process_run(&run(true), &setup(), &until_check(Some(0))));
    assert_eq!(done.status, MQRunStatus::Passed(PassedReason::NoMerge));
}

#[test]
fn post_clone_hooks_that_fail_fail_the_run() {
    let mut h = until_check(Some(0));
    let mut result = checked(Some(0));
    result.post_clone_output = Some("cloned badly".to_string());
    result.post_clone_success = Some(false);
    h.check = Some((Ok(result), 6));
    let done = over(process_run(&run(false), &setup(), &h));
    assert_eq!(done.status, MQRunStatus::Failed(FailedReason::PostClone));
    assert!(done.output.contains("cloned badly"), "{}", done.output);
}

#[test]
fn bases_and_integrations_that_fail_end_the_run() {
    let mut h = until_check(Some(0));
    h.base = Some((Err(RevisionError::InvalidCommitId("x".to_string())), 4));
    let done = over(process_run(&run(false), &setup(), &h));
    assert_eq!(done.status, MQRunStatus::Failed(FailedReason::BaseResolve));
    assert!(done.output.starts_with("Failed to resolve base branch 'main': "), "{}", done.output);

    for (mode, reason) in [
        (MergeStyle::Rebase, FailedReason::TestRebase),
        (MergeStyle::Merge, FailedReason::TestMerge),
    ] {
        let mut h = until_check(Some(0));
        h.test_merge = Some((Err(MergeError::RebaseFailed("conflict".to_string())), 5));
        let mut setup = setup();
        setup.merge_mode = mode;
        let done = over(process_run(&run(false), &setup, &h));
        assert_eq!(done.status, MQRunStatus::Failed(reason));
    }
}

#[test]
fn unverified_publications_fail_under_a_reason_of_their_own() {
    let mut h = until_check(Some(0));
    h.pre_merge = Some(said(true, ""));
    h.publication = Some(Ok(PublicationOutcome::AppliedUnverified {
        commit_id: commit("d"),
        output: "odd\n".to_string(),
    }));
    let done = over(process_run(&run(false), &setup(), &h));
    assert_eq!(done.status, MQRunStatus::Failed(FailedReason::PublicationUnverified));
    assert!(done.output.contains("Inspect the repository before retrying."), "{}", done.output);

    h.publication = Some(Err(MergeError::BranchUpdateFailed("moved".to_string())));
    let done = over(process_run(&run(false), &setup(), &h));
    assert_eq!(done.status, MQRunStatus::Failed(FailedReason::Merge));
    assert!(done.output.ends_with("### Merge Failed\n\nFailed to update branch"), "{}", done.output);
}

#[test]
fn post_merge_hooks_that_fail_do_not_undo_a_pass() {
    let mut h = until_check(Some(0));
    h.pre_merge = Some(said(true, ""));
    h.publication = landed();
    h.post_merge = Some(said(false, ""));
    let done = over(process_run(&run(false), &setup(), &h));
    assert_eq!(done.status, MQRunStatus::Passed(PassedReason::Rebased));
    assert!(done.output.contains("Post-merge hook failed"), "{}", done.output);
}

#[test]
fn runs_without_hooks_go_straight_on() {
    let mut plain = setup();
    plain.hooks.pre_clone = None;
    plain.hooks.pre_merge = None;
    plain.hooks.post_merge = None;
    assert!(matches!(process_run(&run(false), &plain, &empty()), RunStep::ResolveBase { .. }));
    let mut h = until_check(Some(0));
    assert!(matches!(process_run(&run(false), &plain, &h), RunStep::Publish { .. }));
    h.publication = landed();
    plain.merge_mode = MergeStyle::Merge;
    let done = over(process_run(&run(false), &plain, &h));
    assert_eq!(done.status, MQRunStatus::Passed(PassedReason::Merged));
}
