use selfci::config::CloneMode;
use selfci::revision::CommitId;
use selfci::script::{Invocation, Reply, Step};
use selfci::workdirs::{
    attest_workdirs, copy_revision_to_workdir_git, copy_revision_to_workdir_jj,
    copy_revisions_to_workdirs, export_bookmark_pid, new_export_suffix, parse_pid,
    stale_export_bookmarks, stale_selfci_export_bookmark, Export, ExportHistory, ExportStep,
    Processes,
};
use selfci::{MainError, VCS};

fn output(text: &str) -> Reply {
    Reply::Output { success: true, text: text.to_string() }
}

fn failed(text: &str) -> Reply {
    Reply::Failed(text.to_string())
}

#[test]
fn retains_bookmark_for_current_process() {
    let line = "selfci-export-base-4711-1: target";
    assert_eq!(stale_selfci_export_bookmark(line, true, true), None);
}

#[test]
fn retains_malformed_or_unsafe_process_ids() {
    for pid in ["nonnumeric", "0", "-1", "2147483648"] {
        let line = format!("selfci-export-candidate-{pid}-1: target");
        assert_eq!(stale_selfci_export_bookmark(&line, true, false), None);
    }
}

#[test]
fn detects_bookmark_for_nonexistent_process() {
    let line = "selfci-export-base-2147483647-1: target";
    assert_eq!(
        stale_selfci_export_bookmark(line, true, false),
        Some("selfci-export-base-2147483647-1".to_string())
    );
}

#[test]
fn bookmarks_stay_where_processes_cannot_be_looked_up() {
    let line = "selfci-export-base-2147483647-1: target";
    assert_eq!(stale_selfci_export_bookmark(line, false, false), None);
}

#[test]
fn only_abandoned_bookmarks_of_a_listing_are_stale() {
    let listing = "main: abc\nselfci-export-base-11-1: a\nselfci-export-candidate-12-1: b\n";
    assert_eq!(
        stale_export_bookmarks(listing, true, &vec![false, false, true]),
        vec!["selfci-export-base-11-1".to_string()]
    );
    // A process that was not looked up is taken to exist.
    assert_eq!(stale_export_bookmarks(listing, true, &vec![]), Vec::<String>::new());
}

#[test]
fn exports_name_their_process() {
    let suffix = new_export_suffix(4711, 1700000000123456789);
    assert_eq!(suffix, "4711-1700000000123456789");
    for prefix in ["selfci-export-base-", "selfci-export-candidate-"] {
        let line = format!("{prefix}{suffix}: abc def");
        assert_eq!(export_bookmark_pid(&line), Some("4711".to_string()));
    }
}

#[test]
fn process_ids_are_positive() {
    assert_eq!(parse_pid("1"), Some(1));
    assert_eq!(parse_pid("2147483647"), Some(i32::MAX));
    for s in ["0", "-1", "2147483648", "x", ""] {
        assert_eq!(parse_pid(s), None, "{:?}", s);
    }
}

fn export() -> Export {
    Export {
        root_dir: "/repo".to_string(),
        base_workdir: "/base".to_string(),
        base_revision: CommitId::new(&"a".repeat(40)).unwrap(),
        candidate_workdir: "/candidate".to_string(),
        candidate_revision: CommitId::new(&"b".repeat(40)).unwrap(),
        clone_mode: CloneMode::Full,
        suffix: "11-1".to_string(),
    }
}

fn shown(commands: &Vec<Invocation>) -> Vec<String> {
    commands.iter().map(|inv| inv.cmd.display()).collect()
}

#[test]
fn clone_modes_fetch_no_more_than_they_say() {
    let full = copy_revision_to_workdir_git("/repo", "/work", "abc", CloneMode::Full);
    assert_eq!(
        shown(&full),
        vec![
            "git clone --quiet file:///repo .  # in /work".to_string(),
            "git checkout --quiet abc  # in /work".to_string(),
        ]
    );
    let shallow = shown(&copy_revision_to_workdir_git("/repo", "/work", "abc", CloneMode::Shallow));
    assert!(shallow.iter().any(|c| c.contains("--depth")), "{:?}", shallow);
    let partial = shown(&copy_revision_to_workdir_git("/repo", "/work", "abc", CloneMode::Partial));
    assert!(partial.iter().any(|c| c.contains("--filter=blob:none")), "{:?}", partial);
    assert_eq!(
        shown(&copy_revision_to_workdir_jj("/work", "abc", "/repo/.git", CloneMode::Full)),
        vec![
            "git clone --quiet file:///repo/.git .  # in /work".to_string(),
            "git checkout --quiet abc  # in /work".to_string(),
        ]
    );
}

/// Runs an export to its end; `reply` answers each command, and the processes
/// in `live` exist.
fn run_export_with(
    vcs: VCS,
    live: &[&str],
    reply: impl Fn(&str) -> Reply,
) -> (Vec<String>, Result<(), MainError>) {
    let mut h = ExportHistory {
        listing: None,
        processes: None,
        deletions: Vec::new(),
        replies: Vec::new(),
    };
    let mut commands: Vec<String> = Vec::new();
    loop {
        match copy_revisions_to_workdirs(&vcs, &export(), &h) {
            ExportStep::List(inv) => {
                let command = inv.cmd.display();
                h.listing = Some(reply(&command));
                commands.push(command);
            }
            ExportStep::LookUp(pids) => {
                let exist = pids
                    .iter()
                    .map(|pid| match pid {
                        Some(pid) => live.contains(&pid.as_str()),
                        None => true,
                    })
                    .collect();
                h.processes = Some(Processes { known: true, exist });
            }
            ExportStep::Delete(inv) => {
                let command = inv.cmd.display();
                h.deletions.push(reply(&command));
                commands.push(command);
            }
            ExportStep::Run(inv) => {
                let command = inv.cmd.display();
                h.replies.push(reply(&command));
                commands.push(command);
            }
            ExportStep::Done => return (commands, Ok(())),
            ExportStep::Fail(e) => return (commands, Err(e)),
        }
    }
}

fn run_export(vcs: VCS, reply: impl Fn(&str) -> Reply) -> (Vec<String>, Result<(), MainError>) {
    run_export_with(vcs, &[], reply)
}

const LISTING: &str = "main: abc\nselfci-export-base-12-1: a\nselfci-export-candidate-13-1: b\n";

#[test]
fn abandoned_bookmarks_go_before_an_export() {
    let (commands, result) = run_export_with(VCS::Jujutsu, &["13"], |command| {
        if command.contains("bookmark list") {
            output(LISTING)
        } else {
            output("/git\n")
        }
    });
    assert!(result.is_ok());
    assert_eq!(
        commands[..4].to_vec(),
        vec![
            "jj bookmark list  # in /repo".to_string(),
            "jj bookmark delete --quiet selfci-export-base-12-1  # in /repo".to_string(),
            "jj git export --quiet  # in /repo".to_string(),
            format!("jj bookmark create --quiet -r {} selfci-export-base-11-1  # in /repo", "a".repeat(40)),
        ]
    );
    assert!(!commands.iter().any(|c| c.contains("-13-1") || c.contains("delete --quiet main")));
}

#[test]
fn failed_cleanups_do_not_fail_an_export() {
    let (commands, result) = run_export(VCS::Jujutsu, |command| {
        if command.contains("bookmark list") {
            failed("no bookmarks")
        } else {
            output("/git\n")
        }
    });
    assert!(result.is_ok());
    assert!(commands[1].contains("bookmark create"), "{:?}", commands);

    let (commands, result) = run_export(VCS::Jujutsu, |command| {
        if command.contains("bookmark list") {
            output(LISTING)
        } else if command.contains("delete") {
            failed("locked")
        } else {
            output("/git\n")
        }
    });
    assert!(result.is_ok());
    assert!(commands[1].contains("delete --quiet selfci-export-base-12-1"), "{:?}", commands);
    assert!(commands[2].contains("delete --quiet selfci-export-candidate-13-1"), "{:?}", commands);
    assert!(commands[3].contains("bookmark create"), "{:?}", commands);
}

#[test]
fn test_jj_bookmark_cleanup_on_clone_failure() {
    let (commands, result) = run_export(VCS::Jujutsu, |command| {
        if command.contains("clone") {
            failed("fake git: simulating clone failure")
        } else {
            output("/repo/.jj/repo/store/git\n")
        }
    });
    match result {
        Err(MainError::CommandFailed(e)) => assert_eq!(e, "fake git: simulating clone failure"),
        other => panic!("{:?}", other),
    }
    for bookmark in ["selfci-export-base-11-1", "selfci-export-candidate-11-1"] {
        let created = commands.iter().position(|c| c.contains("create") && c.contains(bookmark));
        let deleted = commands.iter().position(|c| c.contains("delete") && c.contains(bookmark));
        assert!(created.is_some() && created < deleted, "{:?}", commands);
    }
    assert!(commands.last().unwrap().contains("git export"), "{:?}", commands);
}

#[test]
fn bookmarks_are_deleted_after_an_export_that_succeeds() {
    let (commands, result) = run_export(VCS::Jujutsu, |_| output("/git\n"));
    assert!(result.is_ok());
    let deletions = commands.iter().filter(|c| c.contains("bookmark delete")).count();
    assert_eq!(deletions, 2, "{:?}", commands);
    assert!(commands.iter().any(|c| c.contains("file:///git .")), "{:?}", commands);
}

#[test]
fn git_exports_touch_no_bookmarks() {
    let (commands, result) = run_export(VCS::Git, |_| output(""));
    assert!(result.is_ok());
    assert_eq!(commands.len(), 4);
    assert!(commands.iter().all(|c| c.starts_with("git ")), "{:?}", commands);
}

#[test]
fn attestation_compares_both_directories() {
    let mut replies: Vec<Reply> = Vec::new();
    let same = "1".repeat(40);
    let other = "2".repeat(40);
    for text in ["", same.as_str(), same.as_str(), "", same.as_str(), other.as_str()] {
        assert!(matches!(attest_workdirs(&export(), &replies), Step::Run(_)));
        replies.push(output(text));
    }
    assert!(matches!(attest_workdirs(&export(), &replies), Step::Done(false)));
    replies.pop();
    replies.push(output(&same));
    assert!(matches!(attest_workdirs(&export(), &replies), Step::Done(true)));
    assert!(matches!(
        attest_workdirs(&export(), &vec![failed("no such directory")]),
        Step::Fail(MainError::CommandFailed(_))
    ));
}
