use selfci::{detect_vcs, get_vcs, parse_vcs, VCSError, VCS};

/// Whether `.jj` is a directory and `.git` exists, in a Jujutsu repository.
const JJ_REPO: (bool, bool) = (true, false);

/// The same in a Git repository.
const GIT_REPO: (bool, bool) = (false, true);

#[test]
fn test_detect_jujutsu() {
    let vcs = detect_vcs(JJ_REPO.0, JJ_REPO.1).expect("Should detect Jujutsu");
    assert!(matches!(vcs, VCS::Jujutsu));
}

#[test]
fn test_detect_git() {
    let vcs = detect_vcs(GIT_REPO.0, GIT_REPO.1).expect("Should detect Git");
    assert!(matches!(vcs, VCS::Git));
}

#[test]
fn test_detect_no_vcs() {
    let temp_dir = tempfile::TempDir::new().expect("Failed to create temp dir");
    let result =
        detect_vcs(temp_dir.path().join(".jj").is_dir(), temp_dir.path().join(".git").exists());
    assert!(result.is_err(), "Should fail when no VCS found");
    assert_eq!(
        result.unwrap_err().message(),
        "No supported VCS found (looking for .jj or .git directory)"
    );
}

#[test]
fn test_parse_vcs_jj() {
    assert!(matches!(parse_vcs("jj").unwrap(), VCS::Jujutsu));
    assert!(matches!(parse_vcs("JJ").unwrap(), VCS::Jujutsu));
    assert!(matches!(parse_vcs("jujutsu").unwrap(), VCS::Jujutsu));
    assert!(matches!(parse_vcs("Jujutsu").unwrap(), VCS::Jujutsu));
}

#[test]
fn test_parse_vcs_git() {
    assert!(matches!(parse_vcs("git").unwrap(), VCS::Git));
    assert!(matches!(parse_vcs("GIT").unwrap(), VCS::Git));
    assert!(matches!(parse_vcs("Git").unwrap(), VCS::Git));
}

#[test]
fn test_parse_vcs_invalid() {
    assert!(parse_vcs("svn").is_err());
    assert!(parse_vcs("mercurial").is_err());
    assert!(parse_vcs("").is_err());
    assert_eq!(
        parse_vcs("svn").unwrap_err().message(),
        "Invalid VCS type (must be 'jj' or 'git')"
    );
}

#[test]
fn test_get_vcs_forced_jj() {
    // Force Jujutsu even though it's a Git repo
    let vcs = get_vcs(GIT_REPO.0, GIT_REPO.1, Some("jj")).expect("Should use forced VCS");
    assert!(matches!(vcs, VCS::Jujutsu));
}

#[test]
fn test_get_vcs_forced_git() {
    // Force Git even though it's a Jujutsu repo
    let vcs = get_vcs(JJ_REPO.0, JJ_REPO.1, Some("git")).expect("Should use forced VCS");
    assert!(matches!(vcs, VCS::Git));
}

#[test]
fn test_get_vcs_auto_detect() {
    let vcs = get_vcs(GIT_REPO.0, GIT_REPO.1, None).expect("Should auto-detect VCS");
    assert!(matches!(vcs, VCS::Git));
}

#[test]
fn test_get_vcs_forced_invalid() {
    let result = get_vcs(GIT_REPO.0, GIT_REPO.1, Some("svn"));
    assert!(result.is_err(), "Should fail with invalid VCS type");
    assert_eq!(result.unwrap_err(), VCSError::InvalidVCSType);
}

#[test]
fn colocated_repositories_belong_to_jujutsu() {
    assert_eq!(detect_vcs(true, true).unwrap(), VCS::Jujutsu);
}

#[test]
fn names_are_compared_as_lower_case_text() {
    for c in '\0'..=char::MAX {
        for (word, vcs) in [("jj", VCS::Jujutsu), ("jujutsu", VCS::Jujutsu), ("git", VCS::Git)] {
            let first = word.chars().next().unwrap();
            let changed = format!("{}{}", c, &word[first.len_utf8()..]);
            let expected = changed.to_lowercase() == word;
            assert_eq!(parse_vcs(&changed) == Ok(vcs), expected, "{:?}", changed);
        }
    }
}
