use selfci::check::CheckResult;
use selfci::config::{CloneMode, MQHooksConfig, MergeStyle};
use selfci::mq_protocol::{MQRequest, MQRunInfo, MQRunStatus, PassedReason, RunId};
use selfci::publish::publish_prepared_candidate;
use selfci::queue::MQState;
use selfci::requests::{handle_request, RequestHistory, RequestStep};
use selfci::revision::{resolve_revision, ResolvedRevision};
use selfci::run::{process_queue, process_run, QueueMessage, QueueStep, RunHistory, RunStep};
use selfci::script::{Invocation, OutputMode, Reply, Step};
use selfci::test_merge::create_test_merge;
use selfci::workdirs::{
    attest_workdirs, copy_revisions_to_workdirs, Export, ExportHistory, ExportStep,
};
use selfci::VCS;

/// Runs a command as the program does.
fn perform(inv: &Invocation) -> Reply {
    let expression = inv.to_expression();
    match inv.output {
        OutputMode::Read => match expression.read() {
            Ok(text) => Reply::Output { success: true, text },
            Err(e) => Reply::Failed(e.to_string()),
        },
        _ => match expression.run() {
            Ok(done) => Reply::Output {
                success: done.status.success(),
                text: String::from_utf8_lossy(&done.stdout).to_string(),
            },
            Err(e) => Reply::Failed(e.to_string()),
        },
    }
}

/// Runs a procedure to its end.
fn drive<T, E>(step: impl Fn(&Vec<Reply>) -> Step<T, E>) -> Result<T, E> {
    let mut replies: Vec<Reply> = Vec::new();
    loop {
        match step(&replies) {
            Step::Run(inv) => replies.push(perform(&inv)),
            Step::Done(value) => return Ok(value),
            Step::Fail(e) => return Err(e),
            Step::Panic(m) => panic!("{}", m),
        }
    }
}

fn sh(dir: &str, script: &str) -> String {
    duct::cmd("sh", ["-ec", script]).dir(dir).stderr_null().read().expect(script)
}

/// A repository with one commit on `main`, and a file that is not committed.
fn setup_git_base_repo(merge_style: &str) -> tempfile::TempDir {
    let repo = tempfile::tempdir().unwrap();
    sh(
        repo.path().to_str().unwrap(),
        &format!(
            "git init --quiet
             git config user.name 'Test User'
             git config user.email test@example.com
             mkdir -p .config/selfci
             printf 'job:\\n  command: \"true\"\\nmq:\\n  base-branch: main\\n' > .config/selfci/ci.yaml
             printf '  merge-style: {}\\n' >> .config/selfci/ci.yaml
             printf 'main content' > main.txt
             git add .
             git commit --quiet -m 'Initial commit'
             git branch -M main
             printf 'working on something else' > working.txt",
            merge_style
        ),
    );
    repo
}

/// A branch with three commits that starts at `main`, and its last commit.
fn create_git_candidate(root: &str, number: usize) -> String {
    sh(root, &format!("git checkout --quiet -b feature-{} main", number));
    for commit in 1..=3 {
        sh(
            root,
            &format!(
                "printf 'feature {0} commit {1}' > feature{0}_{1}.txt
                 git add feature{0}_{1}.txt
                 git commit --quiet -m 'Feature {0} commit {1}'",
                number, commit
            ),
        );
    }
    let commit = sh(root, "git rev-parse HEAD");
    sh(root, "git checkout --quiet main");
    commit
}

/// Submits a candidate to the queue.
fn submit(queue: &mut MQState, commit: &str, now: u64) -> RunId {
    let request = MQRequest::AddCandidate { candidate: commit.to_string(), no_merge: false };
    let mut h = RequestHistory { vcs: None, replies: vec![] };
    loop {
        match handle_request(queue, &request, 1, "1", &h, None, now) {
            RequestStep::DetectVcs => h.vcs = Some(Ok(VCS::Git)),
            RequestStep::Run(inv) => h.replies.push(perform(&inv)),
            RequestStep::Enqueue { run_id } => return run_id,
            other => panic!("{:?}", other),
        }
    }
}

/// Exports both revisions and runs the job, which is `true`, in the candidate's.
fn check(root: &str, base: &ResolvedRevision, tested: &ResolvedRevision) -> CheckResult {
    let base_workdir = tempfile::tempdir().unwrap();
    let candidate_workdir = tempfile::tempdir().unwrap();
    let export = Export {
        root_dir: root.to_string(),
        base_workdir: base_workdir.path().to_str().unwrap().to_string(),
        base_revision: base.commit_id.clone(),
        candidate_workdir: candidate_workdir.path().to_str().unwrap().to_string(),
        candidate_revision: tested.commit_id.clone(),
        clone_mode: CloneMode::Partial,
        suffix: "1-1".to_string(),
    };
    let mut h = ExportHistory {
        listing: None,
        processes: None,
        deletions: Vec::new(),
        replies: Vec::new(),
    };
    loop {
        match copy_revisions_to_workdirs(&VCS::Git, &export, &h) {
            ExportStep::Run(inv) => h.replies.push(perform(&inv)),
            ExportStep::Done => break,
            other => panic!("{:?}", other),
        }
    }
    assert!(drive(|replies| attest_workdirs(&export, replies)).unwrap());
    sh(candidate_workdir.path().to_str().unwrap(), "true");
    CheckResult {
        output: String::new(),
        steps: vec![],
        jobs: vec![],
        exit_code: Some(0),
        duration: 1,
        post_clone_output: None,
        post_clone_success: None,
    }
}

/// Processes the next run of the queue to its end.
fn process(queue: &mut MQState, id: RunId, now: u64) -> MQRunInfo {
    let (run, setup) = match process_queue(queue, VCS::Git, Some(QueueMessage::Run(id)), now) {
        QueueStep::Process { run, setup } => (run, setup),
        other => panic!("{:?}", other),
    };
    let root = setup.root_dir.as_str();
    let mut h = RunHistory {
        pre_clone: None,
        base: None,
        test_merge: None,
        check: None,
        pre_merge: None,
        publication: None,
        post_merge: None,
    };
    loop {
        match process_run(&run, &setup, &h) {
            RunStep::RunHook { slot, .. } => panic!("no hook is configured: {:?}", slot),
            RunStep::ResolveBase { vcs, revision } => {
                let base = drive(|replies| resolve_revision(&vcs, root, &revision, replies));
                h.base = Some((base, now));
            }
            RunStep::TestMerge { base, candidate, merge_mode } => {
                let merged = drive(|replies| {
                    create_test_merge(
                        Ok(VCS::Git),
                        root,
                        &base.commit_id,
                        &candidate,
                        &merge_mode,
                        replies,
                    )
                });
                h.test_merge = Some((merged, now));
            }
            RunStep::Check(asked) => {
                h.check = Some((Ok(check(root, &asked.base, &asked.tested)), now));
            }
            RunStep::Publish { branch, expected_base, prepared } => {
                h.publication = Some(drive(|replies| {
                    publish_prepared_candidate(
                        Ok(VCS::Git),
                        root,
                        &branch,
                        &expected_base,
                        &prepared,
                        replies,
                    )
                }));
            }
            RunStep::Complete(done) => {
                queue.complete_run(done);
                return queue.get_run(id, None, now).unwrap();
            }
        }
    }
}

fn run_git_merge_test(merge_style: &str, num_candidates: usize) {
    let repo = setup_git_base_repo(merge_style);
    let root = repo.path().to_str().unwrap();
    let mut candidates = Vec::new();
    for number in 1..=num_candidates {
        candidates.push(create_git_candidate(root, number));
    }

    let (mode, landed) = match merge_style {
        "rebase" => (MergeStyle::Rebase, PassedReason::Rebased),
        _ => (MergeStyle::Merge, PassedReason::Merged),
    };
    let mut queue = MQState::new(
        root.to_string(),
        "main".to_string(),
        mode,
        MQHooksConfig {
            pre_start: None,
            post_start: None,
            pre_clone: None,
            post_clone: None,
            pre_merge: None,
            post_merge: None,
        },
    );
    let mut run_ids = Vec::new();
    for commit in &candidates {
        run_ids.push(submit(&mut queue, commit, 10));
    }
    for (i, run_id) in run_ids.iter().enumerate() {
        let done = process(&mut queue, *run_id, 20);
        assert_eq!(
            done.status,
            MQRunStatus::Passed(landed),
            "Run {:?} (candidate {}) did not complete successfully: {}",
            run_id,
            i + 1,
            done.output
        );
    }

    // The working directory is as it was.
    assert_eq!(sh(root, "git branch --show-current"), "main", "Working directory branch changed!");
    assert_eq!(
        sh(root, "cat working.txt"),
        "working on something else",
        "Working directory file changed!"
    );

    // Every candidate was merged.
    sh(root, "git reset --quiet --hard main");
    for candidate in 1..=num_candidates {
        for commit in 1..=3 {
            let filename = format!("feature{}_{}.txt", candidate, commit);
            assert!(repo.path().join(&filename).exists(), "Feature file {} not in main", filename);
        }
    }
    let log = sh(root, "git log --oneline main");
    if merge_style == "rebase" {
        for candidate in 1..=num_candidates {
            for commit in 1..=3 {
                assert!(
                    log.contains(&format!("Feature {} commit {}", candidate, commit)),
                    "Feature {} commit {} not in history",
                    candidate,
                    commit
                );
            }
        }
    }
}

#[test]
fn test_git_rebase_merge_single() {
    run_git_merge_test("rebase", 1);
}

#[test]
fn test_git_rebase_merge_multi() {
    run_git_merge_test("rebase", 5);
}

#[test]
fn test_git_merge_merge_single() {
    run_git_merge_test("merge", 1);
}

#[test]
fn test_git_merge_merge_multi() {
    run_git_merge_test("merge", 5);
}
