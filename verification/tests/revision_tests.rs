use selfci::revision::{
    resolve_revision, ChangeId, CommitId, ResolvedRevision, RevisionError, UserRevision,
};
use selfci::script::{Invocation, OutputMode, Reply, Step, StderrMode};
use selfci::{MainError, VCS};

fn output(text: &str) -> Reply {
    Reply::Output { success: true, text: text.to_string() }
}

fn failed(text: &str) -> Reply {
    Reply::Failed(text.to_string())
}

fn command(step: Step<ResolvedRevision, RevisionError>) -> Invocation {
    match step {
        Step::Run(inv) => inv,
        other => panic!("expected a command: {:?}", other),
    }
}

#[test]
fn test_commit_id_validation() {
    // Valid
    let valid = "a".repeat(40);
    assert!(CommitId::new(&valid).is_ok());

    // Invalid length
    assert!(CommitId::new("abc123").is_err());

    // Invalid chars
    assert!(CommitId::new(&"x".repeat(40)).is_err());
}

#[test]
fn test_user_revision_display() {
    let user = UserRevision::new("main");
    assert_eq!(user.display(), "main");
}

#[test]
fn test_change_id_display() {
    let change_id = ChangeId::new("abc123def");
    assert_eq!(change_id.display(), "abc123def");
}

#[test]
fn test_commit_id_display() {
    let commit_id = CommitId::new(&"a".repeat(40)).unwrap();
    assert_eq!(commit_id.display(), "a".repeat(40));
}

#[test]
fn commit_ids_take_both_cases_of_hexadecimal_digits() {
    let mixed = "0123456789abcdefABCDEF0123456789abcdefAB";
    assert_eq!(CommitId::new(mixed).unwrap().as_str(), mixed);
    assert!(CommitId::new(&"a".repeat(41)).is_err());
    assert!(CommitId::new(&"é".repeat(40)).is_err());
}

#[test]
fn git_resolution_asks_once_and_uses_the_commit_for_the_change() {
    let id = "0123456789abcdef0123456789abcdef01234567";
    let asked = command(resolve_revision(&VCS::Git, "/repo", "main", &vec![]));
    assert_eq!(asked.cmd.display(), "git rev-parse main  # in /repo");
    assert_eq!(asked.output, OutputMode::Read);
    assert_eq!(asked.stderr, StderrMode::Inherit);

    let replies = vec![output(&format!("{}\n", id))];
    match resolve_revision(&VCS::Git, "/repo", "main", &replies) {
        Step::Done(resolved) => {
            assert_eq!(resolved.user.as_str(), "main");
            assert_eq!(resolved.change_id.as_str(), id);
            assert_eq!(resolved.commit_id.as_str(), id);
        }
        other => panic!("{:?}", other),
    }
}

#[test]
fn git_resolution_fails_with_the_error_of_the_tool() {
    match resolve_revision(&VCS::Git, "/repo", "nope", &vec![failed("exited with code 128")]) {
        Step::Fail(e) => {
            assert_eq!(MainError::ResolutionFailed(e.clone()).message(), "Failed to resolve revision");
            match e {
                RevisionError::ResolutionFailed { vcs, revision, source } => {
                    assert_eq!(vcs, "git");
                    assert_eq!(revision, "nope");
                    assert_eq!(source, "exited with code 128");
                }
                other => panic!("{:?}", other),
            }
        }
        other => panic!("{:?}", other),
    }
}

#[test]
fn git_resolution_refuses_what_is_no_commit() {
    match resolve_revision(&VCS::Git, "/repo", "main", &vec![output("abc123\n")]) {
        Step::Fail(RevisionError::InvalidCommitId(id)) => assert_eq!(id, "abc123"),
        other => panic!("{:?}", other),
    }
}

#[test]
fn jujutsu_resolution_exports_and_then_asks() {
    let first = command(resolve_revision(&VCS::Jujutsu, "/repo", "@-", &vec![]));
    assert!(first.cmd.display().starts_with("jj "), "{}", first.cmd.display());
    assert!(first.cmd.display().contains("git export"), "{}", first.cmd.display());
    let second = command(resolve_revision(&VCS::Jujutsu, "/repo", "@-", &vec![output("")]));
    assert!(second.cmd.display().contains("log"), "{}", second.cmd.display());
    assert!(second.cmd.display().contains("@-"), "{}", second.cmd.display());

    let change = "k".repeat(32);
    let commit = "c".repeat(40);
    let replies = vec![output(""), output(&format!("{}\n{}\n", change, commit))];
    match resolve_revision(&VCS::Jujutsu, "/repo", "@-", &replies) {
        Step::Done(resolved) => {
            assert_eq!(resolved.user.display(), "@-");
            assert_eq!(resolved.change_id.as_str(), change);
            assert_eq!(resolved.commit_id.as_str(), commit);
        }
        other => panic!("{:?}", other),
    }
}

#[test]
fn jujutsu_resolution_refuses_short_output() {
    match resolve_revision(&VCS::Jujutsu, "/repo", "@-", &vec![output(""), output("onlyone\n")]) {
        Step::Fail(RevisionError::InvalidOutput { vcs, output }) => {
            assert_eq!(vcs, "jujutsu");
            assert!(output.contains("onlyone"));
        }
        other => panic!("{:?}", other),
    }
}
