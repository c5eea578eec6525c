//! The version control systems, and how one is chosen.

use vstd::prelude::*;

use crate::error::VCSError;
use crate::text;

verus! {

/// A version control system.
#[derive(Debug, Clone, Copy, PartialEq, Eq, Structural)]
pub enum VCS {
    Jujutsu,
    Git,
}

/// The system that a name stands for, in any mixture of upper and lower case.
pub open spec fn vcs_named(name: Seq<char>) -> Result<VCS, VCSError> {
    if text::reads_as(name, "jj"@) || text::reads_as(name, "jujutsu"@) {
        Ok(VCS::Jujutsu)
    } else if text::reads_as(name, "git"@) {
        Ok(VCS::Git)
    } else {
        Err(VCSError::InvalidVCSType)
    }
}

/// The system of a directory: Jujutsu where it holds a `.jj` directory, else
/// Git where it holds `.git` in any form.
pub open spec fn vcs_found(jj_is_dir: bool, git_exists: bool) -> Result<VCS, VCSError> {
    if jj_is_dir {
        Ok(VCS::Jujutsu)
    } else if git_exists {
        Ok(VCS::Git)
    } else {
        Err(VCSError::NoVCSFound)
    }
}

/// The system that a name stands for.
pub fn parse_vcs(vcs_str: &str) -> (res: Result<VCS, VCSError>)
    ensures
        res == vcs_named(vcs_str@),
{
    if text::reads_as_word(vcs_str, "jj") || text::reads_as_word(vcs_str, "jujutsu") {
        Ok(VCS::Jujutsu)
    } else if text::reads_as_word(vcs_str, "git") {
        Ok(VCS::Git)
    } else {
        Err(VCSError::InvalidVCSType)
    }
}

/// The system of a directory, given whether its `.jj` is a directory and
/// whether its `.git` exists.
pub fn detect_vcs(jj_is_dir: bool, git_exists: bool) -> (res: Result<VCS, VCSError>)
    ensures
        res == vcs_found(jj_is_dir, git_exists),
{
    if jj_is_dir {
        return Ok(VCS::Jujutsu);
    }
    if git_exists {
        return Ok(VCS::Git);
    }
    Err(VCSError::NoVCSFound)
}

/// The system to use: the one that was forced, else the one that was found.
pub fn get_vcs(jj_is_dir: bool, git_exists: bool, forced_vcs: Option<&str>) -> (res: Result<
    VCS,
    VCSError,
>)
    ensures
        res == match forced_vcs {
            Some(name) => vcs_named(name@),
            None => vcs_found(jj_is_dir, git_exists),
        },
{
    match forced_vcs {
        Some(vcs_str) => parse_vcs(vcs_str),
        None => detect_vcs(jj_is_dir, git_exists),
    }
}

/// The names of the systems read in any case, and no other name does.
pub proof fn law_systems_have_names(name: Seq<char>)
    ensures
        vcs_named(name) == Ok::<VCS, VCSError>(VCS::Git) <==> name.map_values(
            |c: char| text::ascii_lower(c),
        ) == "git"@,
        vcs_named(name) == Ok::<VCS, VCSError>(VCS::Jujutsu) <==> name.map_values(
            |c: char| text::ascii_lower(c),
        ) == "jj"@ || name.map_values(|c: char| text::ascii_lower(c)) == "jujutsu"@,
        vcs_named(name) is Ok || vcs_named(name) == Err::<VCS, VCSError>(VCSError::InvalidVCSType),
{
    reveal_strlit("git");
    reveal_strlit("jj");
    reveal_strlit("jujutsu");
    assert("git"@.len() == 3 && "jj"@.len() == 2 && "jujutsu"@.len() == 7);
}

/// Jujutsu comes before Git where both are there, and where neither is, none is
/// found.
pub proof fn law_jujutsu_is_found_first(git: bool)
    ensures
        vcs_found(true, git) == Ok::<VCS, VCSError>(VCS::Jujutsu),
        vcs_found(false, true) == Ok::<VCS, VCSError>(VCS::Git),
        vcs_found(false, false) == Err::<VCS, VCSError>(VCSError::NoVCSFound),
{
}

} // verus!
