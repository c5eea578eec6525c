use selfci::config::{CloneMode, MergeStyle};
use selfci::publish::{publish_prepared_candidate, PublicationOutcome};
use selfci::revision::{resolve_revision, ResolvedRevision};
use selfci::script::{Invocation, OutputMode, Reply, Step};
use selfci::test_merge::{create_test_merge, TestMergeOutcome};
use selfci::workdirs::{
    attest_workdirs, copy_revisions_to_workdirs, Export, ExportHistory, ExportStep,
};
use selfci::{MergeError, VCS};

/// Runs a command as the program does.
fn perform(inv: &Invocation) -> Reply {
    let expression = inv.to_expression();
    match inv.output {
        OutputMode::Read => match expression.read() {
            Ok(text) => Reply::Output { success: true, text },
            Err(e) => Reply::Failed(e.to_string()),
        },
        _ => match expression.run() {
            Ok(done) => Reply::Output {
                success: done.status.success(),
                text: String::from_utf8_lossy(&done.stdout).to_string(),
            },
            Err(e) => Reply::Failed(e.to_string()),
        },
    }
}

/// Runs a procedure to its end.
fn drive<T, E>(step: impl Fn(&Vec<Reply>) -> Step<T, E>) -> Result<T, E> {
    let mut replies: Vec<Reply> = Vec::new();
    loop {
        match step(&replies) {
            Step::Run(inv) => replies.push(perform(&inv)),
            Step::Done(value) => return Ok(value),
            Step::Fail(e) => return Err(e),
            Step::Panic(m) => panic!("{}", m),
        }
    }
}

fn sh(dir: &str, script: &str) -> String {
    duct::cmd("sh", ["-ec", script]).dir(dir).stderr_null().read().expect(script)
}

fn resolve(root: &str, revision: &str) -> ResolvedRevision {
    drive(|replies| resolve_revision(&VCS::Git, root, revision, replies)).unwrap()
}

fn prepare(
    root: &str,
    base: &ResolvedRevision,
    candidate: &ResolvedRevision,
    mode: MergeStyle,
) -> Result<TestMergeOutcome, MergeError> {
    drive(|replies| {
        create_test_merge(Ok(VCS::Git), root, &base.commit_id, candidate, &mode, replies)
    })
}

/// A repository with a branch `main` and a branch `candidate` on top of it.
fn repository() -> tempfile::TempDir {
    let repo = tempfile::tempdir().unwrap();
    sh(
        repo.path().to_str().unwrap(),
        "git init --quiet
         git config user.name 'SelfCI Test'
         git config user.email selfci@example.invalid
         printf base > base
         git add .
         git commit --quiet -m base
         git branch -M main
         git switch --quiet -c candidate
         printf candidate > candidate
         git add .
         git commit --quiet -m candidate",
    );
    repo
}

fn git_landing_race(merge_mode: MergeStyle) {
    let repo = repository();
    let root = repo.path().to_str().unwrap();
    let base = resolve(root, "main");
    let candidate = resolve(root, "candidate");
    let prepared =
        prepare(root, &base, &candidate, merge_mode).expect("prepare exact Git integration");
    let prepared = ResolvedRevision {
        user: candidate.user.clone(),
        change_id: prepared.change_id,
        commit_id: prepared.commit_id,
    };

    sh(
        root,
        "git switch --quiet main
         printf external > external
         git add .
         git commit --quiet -m external",
    );
    let external = sh(root, "git rev-parse main");

    let published = drive(|replies| {
        publish_prepared_candidate(Ok(VCS::Git), root, "main", &base.commit_id, &prepared, replies)
    });
    assert!(published.is_err(), "publication must fail when the checked Git base moved");
    assert_eq!(
        sh(root, "git rev-parse main"),
        external,
        "Git CAS failure must preserve the external update"
    );
}

#[test]
fn git_merge_and_rebase_publication_reject_moved_base() {
    git_landing_race(MergeStyle::Merge);
    git_landing_race(MergeStyle::Rebase);
}

#[test]
fn checked_integrations_land_on_a_base_that_stayed() {
    for mode in [MergeStyle::Merge, MergeStyle::Rebase] {
        let repo = repository();
        let root = repo.path().to_str().unwrap();
        let base = resolve(root, "main");
        let candidate = resolve(root, "candidate");
        let outcome = prepare(root, &base, &candidate, mode).unwrap();
        assert_eq!(resolve(root, "main").commit_id.as_str(), base.commit_id.as_str());
        assert_eq!(sh(root, "git worktree list").lines().count(), 1, "no worktree is left");
        let prepared = ResolvedRevision {
            user: candidate.user.clone(),
            change_id: outcome.change_id,
            commit_id: outcome.commit_id,
        };
        let published = drive(|replies| {
            publish_prepared_candidate(
                Ok(VCS::Git),
                root,
                "main",
                &base.commit_id,
                &prepared,
                replies,
            )
        });
        match published {
            Ok(PublicationOutcome::Verified(landed)) => {
                assert_eq!(landed.commit_id.as_str(), prepared.commit_id.as_str());
            }
            other => panic!("{:?}", other),
        }
        assert_eq!(resolve(root, "main").commit_id.as_str(), prepared.commit_id.as_str());
        assert_eq!(sh(root, "git show main:candidate"), "candidate");
        let parents = sh(root, "git rev-list --parents -n 1 main");
        match mode {
            MergeStyle::Merge => assert_eq!(parents.split_whitespace().count(), 3),
            MergeStyle::Rebase => assert_eq!(parents.split_whitespace().count(), 2),
        }
    }
}

#[test]
fn conflicting_integrations_fail_and_leave_nothing_behind() {
    for mode in [MergeStyle::Merge, MergeStyle::Rebase] {
        let repo = repository();
        let root = repo.path().to_str().unwrap();
        sh(
            root,
            "git switch --quiet main
             printf other > candidate
             git add .
             git commit --quiet -m conflicting",
        );
        let base = resolve(root, "main");
        let candidate = resolve(root, "candidate");
        match (mode, prepare(root, &base, &candidate, mode)) {
            (MergeStyle::Merge, Err(MergeError::MergeFailed(_))) => {}
            (MergeStyle::Rebase, Err(MergeError::RebaseFailed(_))) => {}
            (_, other) => panic!("{:?}", other),
        }
        assert_eq!(sh(root, "git worktree list").lines().count(), 1);
        assert_eq!(resolve(root, "main").commit_id.as_str(), base.commit_id.as_str());
        assert_eq!(resolve(root, "candidate").commit_id.as_str(), candidate.commit_id.as_str());
    }
}

#[test]
fn test_copy_revisions_git() {
    let repo = tempfile::tempdir().unwrap();
    let root = repo.path().to_str().unwrap();
    sh(
        root,
        "git init --quiet
         git config user.name 'Test User'
         git config user.email test@example.com
         printf 'base content' > base.txt
         git add .
         git commit --quiet -m 'Base commit'
         printf 'candidate content' > candidate.txt
         git add .
         git commit --quiet -m 'Candidate commit'",
    );
    for clone_mode in [CloneMode::Full, CloneMode::Partial, CloneMode::Shallow] {
        let base_workdir = tempfile::tempdir().unwrap();
        let candidate_workdir = tempfile::tempdir().unwrap();
        let base_dir = base_workdir.path().to_str().unwrap();
        let candidate_dir = candidate_workdir.path().to_str().unwrap();
        let export = Export {
            root_dir: root.to_string(),
            base_workdir: base_dir.to_string(),
            base_revision: resolve(root, "HEAD^").commit_id,
            candidate_workdir: candidate_dir.to_string(),
            candidate_revision: resolve(root, "HEAD").commit_id,
            clone_mode,
            suffix: "1-1".to_string(),
        };
        let mut h = ExportHistory {
            listing: None,
            processes: None,
            deletions: Vec::new(),
            replies: Vec::new(),
        };
        loop {
            match copy_revisions_to_workdirs(&VCS::Git, &export, &h) {
                ExportStep::Run(inv) => h.replies.push(perform(&inv)),
                ExportStep::Done => break,
                other => panic!("{:?}", other),
            }
        }
        assert_eq!(sh(base_dir, "cat base.txt"), "base content");
        assert!(!base_workdir.path().join("candidate.txt").exists());
        assert!(candidate_workdir.path().join("base.txt").exists());
        assert_eq!(sh(candidate_dir, "cat candidate.txt"), "candidate content");

        assert_eq!(drive(|replies| attest_workdirs(&export, replies)).unwrap(), true);
        sh(candidate_dir, "printf changed > candidate.txt");
        assert_eq!(drive(|replies| attest_workdirs(&export, replies)).unwrap(), false);
    }
}
