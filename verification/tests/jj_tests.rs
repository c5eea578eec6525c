use selfci::config::MergeStyle;
use selfci::jj_output::{
    find_conflict, invalid_jj_machine_output, is_full_jj_change_id, is_full_jj_commit_id,
    is_jj_commit_id, parse_creation, parse_duplications, parse_full_jj_commit_ids,
    parse_full_jj_revision_ids, parse_single_full_jj_change_id, parse_single_full_jj_commit_id,
    parse_unintegrated_operation_id,
};
use selfci::publish::{publish_prepared_candidate, PublicationOutcome};
use selfci::revision::{ChangeId, CommitId, ResolvedRevision, UserRevision};
use selfci::script::{Reply, Step};
use selfci::test_merge::{create_test_merge, TestMergeOutcome};
use selfci::{MergeError, VCSError, VCS};

fn output(text: &str) -> Reply {
    Reply::Output { success: true, text: text.to_string() }
}

fn commit(digit: &str) -> CommitId {
    CommitId::new(&digit.repeat(40)).unwrap()
}

fn revision(change: &str, digit: &str) -> ResolvedRevision {
    ResolvedRevision {
        user: UserRevision::new("candidate"),
        change_id: ChangeId::new(&change.repeat(32)),
        commit_id: commit(digit),
    }
}

fn line(change: &str, digit: &str) -> String {
    format!("{} {}\n", change.repeat(32), digit.repeat(40))
}

#[test]
fn identifiers_have_their_exact_widths() {
    assert!(is_full_jj_change_id(&"k".repeat(32)));
    assert!(!is_full_jj_change_id(&"k".repeat(31)));
    assert!(!is_full_jj_change_id(&"K".repeat(32)));
    assert!(is_jj_commit_id(&"a".repeat(12)) && is_jj_commit_id(&"a".repeat(40)));
    assert!(!is_jj_commit_id(&"a".repeat(11)) && !is_jj_commit_id(&"a".repeat(41)));
    assert!(is_full_jj_commit_id(&"a".repeat(40)) && !is_full_jj_commit_id(&"a".repeat(12)));
}

#[test]
fn machine_output_is_read_exactly() {
    let change = "k".repeat(32);
    assert_eq!(parse_single_full_jj_change_id(&change).unwrap().as_str(), change);
    assert!(parse_single_full_jj_change_id(&format!("{}\n{}\n", change, change)).is_err());
    assert_eq!(parse_single_full_jj_commit_id(&"a".repeat(40)).unwrap().as_str(), "a".repeat(40));
    assert!(parse_single_full_jj_commit_id("a").is_err());
    let ids = parse_full_jj_commit_ids(&format!("{}\n{}\n", "a".repeat(40), "b".repeat(40))).unwrap();
    assert_eq!(ids.len(), 2);
    assert!(parse_full_jj_commit_ids("").unwrap().is_empty());
    assert!(parse_full_jj_commit_ids("oops\n").is_err());
    let ids = parse_full_jj_revision_ids(&(line("k", "a") + &line("l", "b"))).unwrap();
    assert_eq!(ids[1].0.as_str(), "l".repeat(32));
    assert_eq!(ids[1].1.as_str(), "b".repeat(40));
}

#[test]
fn bad_machine_output_is_quoted_in_the_error() {
    match invalid_jj_machine_output("a\"b\n") {
        MergeError::ChangeIdFailed(e) => {
            assert_eq!(e, "unexpected jj machine output: \"a\\\"b\\n\"");
        }
        other => panic!("{:?}", other),
    }
}

#[test]
fn operations_left_apart_are_found() {
    let text = "Working copy unchanged\nOperation left uncommitted because --no-integrate-operation was requested: 0123abcd\n";
    assert_eq!(parse_unintegrated_operation_id(text).as_deref(), Some("0123abcd"));
    assert_eq!(parse_unintegrated_operation_id("nothing"), None);
}

#[test]
fn duplications_and_creations_are_read() {
    let made = format!("Duplicated {} as {} {}\n", "a".repeat(12), "k".repeat(32), "b".repeat(40));
    let found = parse_duplications(&format!("noise\n{}", made)).unwrap();
    assert_eq!(found.len(), 1);
    assert_eq!(found[0].1.as_str(), "b".repeat(40));
    assert_eq!(parse_duplications("Duplicated x\n").unwrap_err(), "Duplicated x");

    let created = format!("Created new commit {} {}", "k".repeat(32), "c".repeat(40));
    assert_eq!(parse_creation(&created).unwrap().1.as_str(), "c".repeat(40));
    assert!(parse_creation("Created new commit").is_none());
}

#[test]
fn another_commit_of_a_submitted_change_is_a_conflict() {
    let base = vec![(ChangeId::new("x"), commit("a")), (ChangeId::new("y"), commit("b"))];
    let same = vec![(ChangeId::new("y"), commit("b")), (ChangeId::new("z"), commit("c"))];
    assert_eq!(find_conflict(&base, &same), None);
    let other = vec![(ChangeId::new("z"), commit("c")), (ChangeId::new("y"), commit("d"))];
    assert_eq!(find_conflict(&base, &other).as_deref(), Some("y"));
}

/// Runs a test integration; `reply` answers each command line.
fn integrate(
    mode: MergeStyle,
    base: &CommitId,
    candidate: &ResolvedRevision,
    reply: impl Fn(&str) -> Reply,
) -> (Vec<String>, Result<TestMergeOutcome, MergeError>) {
    let mut replies: Vec<Reply> = Vec::new();
    let mut commands: Vec<String> = Vec::new();
    loop {
        match create_test_merge(Ok(VCS::Jujutsu), "/repo", base, candidate, &mode, &replies) {
            Step::Run(inv) => {
                let command = inv.cmd.display();
                replies.push(reply(&command));
                commands.push(command);
                assert!(commands.len() < 50, "{:?}", commands);
            }
            Step::Done(outcome) => return (commands, Ok(outcome)),
            Step::Fail(e) => return (commands, Err(e)),
            Step::Panic(m) => panic!("{}", m),
        }
    }
}

#[test]
fn test_jj_check_rejects_unsupported_version_before_mutation() {
    for mode in [MergeStyle::Merge, MergeStyle::Rebase] {
        let (commands, result) = integrate(mode, &commit("a"), &revision("k", "b"), |command| {
            if command.contains("--help") {
                output("jj without the option")
            } else if command.contains(" & ") {
                output("")
            } else if command.contains("::") {
                output(&line("k", "b"))
            } else {
                output(&"k".repeat(32))
            }
        });
        assert!(matches!(result, Err(MergeError::UnsupportedJj(_))), "{:?}", result);
        for command in &commands {
            let asks = command.contains("--help") || command.starts_with("jj log");
            assert!(asks, "{} came before the version was refused", command);
        }
    }
}

#[test]
fn submitted_commits_that_the_base_holds_have_the_base_tested() {
    // The base is the candidate's descendant, so nothing is the candidate's own.
    let base_line = line("m", "a");
    let candidate_line = line("k", "b");
    let (commands, result) = integrate(
        MergeStyle::Rebase,
        &commit("a"),
        &revision("k", "b"),
        |command| {
            if command.contains("--help") {
                output("--no-integrate-operation")
            } else if command.contains(&format!("{}::", "a".repeat(40))) {
                output("")
            } else if command.contains(&format!("{}::", "b".repeat(40))) {
                output("revision\n")
            } else if command.contains(&format!("::{} ~ ::{}", "b".repeat(40), "a".repeat(40))) {
                output("")
            } else if command.contains(&format!("::{}", "b".repeat(40))) {
                output(&candidate_line)
            } else if command.contains(&format!("::{}", "a".repeat(40))) {
                output(&(base_line.clone() + &candidate_line))
            } else if command.contains(&"a".repeat(40)) {
                output(&"m".repeat(32))
            } else {
                output(&"k".repeat(32))
            }
        },
    );
    let outcome = result.unwrap_or_else(|e| panic!("{:?} {:?}", e, commands));
    assert_eq!(outcome.commit_id.as_str(), "a".repeat(40));
    assert!(commands.iter().all(|c| !c.contains("duplicate")), "{:?}", commands);
}

#[test]
fn integration_needs_a_repository() {
    match create_test_merge(
        Err(VCSError::NoVCSFound),
        "/repo",
        &commit("a"),
        &revision("k", "b"),
        &MergeStyle::Merge,
        &vec![],
    ) {
        Step::Fail(e) => assert!(e.source().contains("No supported VCS found"), "{:?}", e),
        other => panic!("{:?}", other),
    }
}

fn publish(replies: Vec<Reply>) -> Step<PublicationOutcome, MergeError> {
    publish_prepared_candidate(
        Ok(VCS::Jujutsu),
        "/repo",
        "main",
        &commit("a"),
        &revision("k", "b"),
        &replies,
    )
}

#[test]
fn jj_merge_and_rebase_publication_reject_moved_base() {
    match publish(vec![]) {
        Step::Run(inv) => {
            let command = inv.cmd.display();
            assert!(command.contains("bookmark move main"), "{}", command);
            assert!(command.contains(&format!("'main & {}'", "a".repeat(40))), "{}", command);
            assert!(command.contains(&format!("--to {}", "b".repeat(40))), "{}", command);
        }
        other => panic!("{:?}", other),
    }
    match publish(vec![output("No bookmarks to update.\n")]) {
        Step::Fail(MergeError::BranchUpdateFailed(e)) => {
            assert_eq!(e, "checked Jujutsu base no longer has the expected target");
        }
        other => panic!("publication must fail when the checked Jujutsu base moved: {:?}", other),
    }
    match publish(vec![Reply::Failed("exit code 1".to_string())]) {
        Step::Fail(MergeError::BranchUpdateFailed(e)) => assert_eq!(e, "exit code 1"),
        other => panic!("{:?}", other),
    }
}

#[test]
fn applied_publications_are_verified_or_reported_as_unverified() {
    match publish(vec![output("Moved 1 bookmarks"), output(&line("k", "b"))]) {
        Step::Done(PublicationOutcome::Verified(landed)) => {
            assert_eq!(landed.commit_id.as_str(), "b".repeat(40));
            assert_eq!(landed.change_id.as_str(), "k".repeat(32));
        }
        other => panic!("{:?}", other),
    }
    match publish(vec![output("Moved 1 bookmarks"), Reply::Failed("gone".to_string())]) {
        Step::Done(PublicationOutcome::AppliedUnverified { commit_id, output }) => {
            assert_eq!(commit_id.as_str(), "b".repeat(40));
            assert!(output.ends_with("identity verification failed: gone\n"), "{}", output);
        }
        other => panic!("{:?}", other),
    }
    match publish(vec![output("Moved 1 bookmarks"), output(&line("k", "c"))]) {
        Step::Done(PublicationOutcome::AppliedUnverified { output, .. }) => {
            assert!(output.contains("returned an unexpected target: \"kkkk"), "{}", output);
        }
        other => panic!("{:?}", other),
    }
}

#[test]
fn publications_that_change_nothing_are_compared_too() {
    let publish_base = |replies: Vec<Reply>| {
        publish_prepared_candidate(
            Ok(VCS::Jujutsu),
            "/repo",
            "main",
            &commit("a"),
            &revision("k", "a"),
            &replies,
        )
    };
    let unchanged = || output("No bookmarks to update.\n");
    assert!(matches!(
        publish_base(vec![unchanged(), output(&line("k", "a"))]),
        Step::Done(PublicationOutcome::Verified(_))
    ));
    match publish_base(vec![unchanged(), output(&line("k", "c"))]) {
        Step::Fail(MergeError::BranchUpdateFailed(e)) => {
            assert_eq!(e, "checked Jujutsu base moved during no-op publication");
        }
        other => panic!("{:?}", other),
    }
}
