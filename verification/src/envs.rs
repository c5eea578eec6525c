//! Names of environment variables.

use vstd::prelude::*;

verus! {

/// The level of logging.
pub const SELFCI_LOG: &'static str = "SELFCI_LOG";

/// Whether log lines carry times and targets.
pub const SELFCI_LOG_FULL: &'static str = "SELFCI_LOG_FULL";

/// The name of the running job.
pub const SELFCI_JOB_NAME: &'static str = "SELFCI_JOB_NAME";

/// The path of the job control socket.
pub const SELFCI_JOB_SOCK_PATH: &'static str = "SELFCI_JOB_SOCK_PATH";

/// The directory that holds the base.
pub const SELFCI_BASE_DIR: &'static str = "SELFCI_BASE_DIR";

/// The directory that holds the candidate under test.
pub const SELFCI_CANDIDATE_DIR: &'static str = "SELFCI_CANDIDATE_DIR";

/// The commit that was submitted.
pub const SELFCI_CANDIDATE_COMMIT_ID: &'static str = "SELFCI_CANDIDATE_COMMIT_ID";

/// The change that was submitted.
pub const SELFCI_CANDIDATE_CHANGE_ID: &'static str = "SELFCI_CANDIDATE_CHANGE_ID";

/// The candidate as the user wrote it.
pub const SELFCI_CANDIDATE_ID: &'static str = "SELFCI_CANDIDATE_ID";

/// The commit that is tested, under its older name.
pub const SELFCI_MERGED_COMMIT_ID: &'static str = "SELFCI_MERGED_COMMIT_ID";

/// The change that is tested, under its older name.
pub const SELFCI_MERGED_CHANGE_ID: &'static str = "SELFCI_MERGED_CHANGE_ID";

/// The commit that is tested.
pub const SELFCI_TESTED_COMMIT_ID: &'static str = "SELFCI_TESTED_COMMIT_ID";

/// The change that is tested.
pub const SELFCI_TESTED_CHANGE_ID: &'static str = "SELFCI_TESTED_CHANGE_ID";

/// The commit that was published.
pub const SELFCI_LANDED_COMMIT_ID: &'static str = "SELFCI_LANDED_COMMIT_ID";

/// The change that was published.
pub const SELFCI_LANDED_CHANGE_ID: &'static str = "SELFCI_LANDED_CHANGE_ID";

/// The base branch of the merge queue.
pub const SELFCI_MQ_BASE_BRANCH: &'static str = "SELFCI_MQ_BASE_BRANCH";

/// Whether a check runs inline or in the merge queue.
pub const SELFCI_RUN_MODE: &'static str = "SELFCI_RUN_MODE";

/// The version control system to use.
pub const SELFCI_VCS_FORCE: &'static str = "SELFCI_VCS_FORCE";

/// The root directory of checks.
pub const SELFCI_ROOT_DIR: &'static str = "SELFCI_ROOT_DIR";

/// The runtime directory of the merge queue daemon.
pub const SELFCI_MQ_RUNTIME_DIR: &'static str = "SELFCI_MQ_RUNTIME_DIR";

/// The version of the program.
pub const SELFCI_VERSION: &'static str = "SELFCI_VERSION";

/// No two of the variables that commands are run with have the same name.
pub proof fn lemma_names_differ()
    ensures
        SELFCI_JOB_NAME@.len() == 15,
        SELFCI_BASE_DIR@.len() == 15,
        SELFCI_RUN_MODE@.len() == 15,
        SELFCI_CANDIDATE_ID@.len() == 19,
        SELFCI_JOB_SOCK_PATH@.len() == 20,
        SELFCI_CANDIDATE_DIR@.len() == 20,
        SELFCI_MQ_BASE_BRANCH@.len() == 21,
        SELFCI_MERGED_COMMIT_ID@.len() == 23,
        SELFCI_MERGED_CHANGE_ID@.len() == 23,
        SELFCI_TESTED_COMMIT_ID@.len() == 23,
        SELFCI_TESTED_CHANGE_ID@.len() == 23,
        SELFCI_LANDED_COMMIT_ID@.len() == 23,
        SELFCI_LANDED_CHANGE_ID@.len() == 23,
        SELFCI_CANDIDATE_COMMIT_ID@.len() == 26,
        SELFCI_CANDIDATE_CHANGE_ID@.len() == 26,
        SELFCI_JOB_NAME@ != SELFCI_BASE_DIR@,
        SELFCI_JOB_NAME@ != SELFCI_RUN_MODE@,
        SELFCI_JOB_SOCK_PATH@ != SELFCI_CANDIDATE_DIR@,
        SELFCI_BASE_DIR@ != SELFCI_RUN_MODE@,
        SELFCI_CANDIDATE_COMMIT_ID@ != SELFCI_CANDIDATE_CHANGE_ID@,
        SELFCI_MERGED_COMMIT_ID@ != SELFCI_MERGED_CHANGE_ID@,
        SELFCI_MERGED_COMMIT_ID@ != SELFCI_TESTED_COMMIT_ID@,
        SELFCI_MERGED_COMMIT_ID@ != SELFCI_TESTED_CHANGE_ID@,
        SELFCI_MERGED_COMMIT_ID@ != SELFCI_LANDED_COMMIT_ID@,
        SELFCI_MERGED_COMMIT_ID@ != SELFCI_LANDED_CHANGE_ID@,
        SELFCI_MERGED_CHANGE_ID@ != SELFCI_TESTED_COMMIT_ID@,
        SELFCI_MERGED_CHANGE_ID@ != SELFCI_TESTED_CHANGE_ID@,
        SELFCI_MERGED_CHANGE_ID@ != SELFCI_LANDED_COMMIT_ID@,
        SELFCI_MERGED_CHANGE_ID@ != SELFCI_LANDED_CHANGE_ID@,
        SELFCI_TESTED_COMMIT_ID@ != SELFCI_TESTED_CHANGE_ID@,
        SELFCI_TESTED_COMMIT_ID@ != SELFCI_LANDED_COMMIT_ID@,
        SELFCI_TESTED_COMMIT_ID@ != SELFCI_LANDED_CHANGE_ID@,
        SELFCI_TESTED_CHANGE_ID@ != SELFCI_LANDED_COMMIT_ID@,
        SELFCI_TESTED_CHANGE_ID@ != SELFCI_LANDED_CHANGE_ID@,
        SELFCI_LANDED_COMMIT_ID@ != SELFCI_LANDED_CHANGE_ID@,
{
    reveal_strlit("SELFCI_JOB_NAME");
    reveal_strlit("SELFCI_JOB_SOCK_PATH");
    reveal_strlit("SELFCI_BASE_DIR");
    reveal_strlit("SELFCI_CANDIDATE_DIR");
    reveal_strlit("SELFCI_CANDIDATE_COMMIT_ID");
    reveal_strlit("SELFCI_CANDIDATE_CHANGE_ID");
    reveal_strlit("SELFCI_CANDIDATE_ID");
    reveal_strlit("SELFCI_MERGED_COMMIT_ID");
    reveal_strlit("SELFCI_MERGED_CHANGE_ID");
    reveal_strlit("SELFCI_TESTED_COMMIT_ID");
    reveal_strlit("SELFCI_TESTED_CHANGE_ID");
    reveal_strlit("SELFCI_LANDED_COMMIT_ID");
    reveal_strlit("SELFCI_LANDED_CHANGE_ID");
    reveal_strlit("SELFCI_MQ_BASE_BRANCH");
    reveal_strlit("SELFCI_RUN_MODE");
    assert(SELFCI_JOB_NAME@[7] != SELFCI_BASE_DIR@[7]);
    assert(SELFCI_JOB_NAME@[7] != SELFCI_RUN_MODE@[7]);
    assert(SELFCI_JOB_SOCK_PATH@[7] != SELFCI_CANDIDATE_DIR@[7]);
    assert(SELFCI_BASE_DIR@[7] != SELFCI_RUN_MODE@[7]);
    assert(SELFCI_CANDIDATE_COMMIT_ID@[18] != SELFCI_CANDIDATE_CHANGE_ID@[18]);
    assert(SELFCI_MERGED_COMMIT_ID@[15] != SELFCI_MERGED_CHANGE_ID@[15]);
    assert(SELFCI_MERGED_COMMIT_ID@[7] != SELFCI_TESTED_COMMIT_ID@[7]);
    assert(SELFCI_MERGED_COMMIT_ID@[7] != SELFCI_TESTED_CHANGE_ID@[7]);
    assert(SELFCI_MERGED_COMMIT_ID@[7] != SELFCI_LANDED_COMMIT_ID@[7]);
    assert(SELFCI_MERGED_COMMIT_ID@[7] != SELFCI_LANDED_CHANGE_ID@[7]);
    assert(SELFCI_MERGED_CHANGE_ID@[7] != SELFCI_TESTED_COMMIT_ID@[7]);
    assert(SELFCI_MERGED_CHANGE_ID@[7] != SELFCI_TESTED_CHANGE_ID@[7]);
    assert(SELFCI_MERGED_CHANGE_ID@[7] != SELFCI_LANDED_COMMIT_ID@[7]);
    assert(SELFCI_MERGED_CHANGE_ID@[7] != SELFCI_LANDED_CHANGE_ID@[7]);
    assert(SELFCI_TESTED_COMMIT_ID@[15] != SELFCI_TESTED_CHANGE_ID@[15]);
    assert(SELFCI_TESTED_COMMIT_ID@[7] != SELFCI_LANDED_COMMIT_ID@[7]);
    assert(SELFCI_TESTED_COMMIT_ID@[7] != SELFCI_LANDED_CHANGE_ID@[7]);
    assert(SELFCI_TESTED_CHANGE_ID@[7] != SELFCI_LANDED_COMMIT_ID@[7]);
    assert(SELFCI_TESTED_CHANGE_ID@[7] != SELFCI_LANDED_CHANGE_ID@[7]);
    assert(SELFCI_LANDED_COMMIT_ID@[15] != SELFCI_LANDED_CHANGE_ID@[15]);
}

/// Each variable goes by its own name.
pub proof fn law_variables_go_by_their_names()
    ensures
        SELFCI_LOG@ == "SELFCI_LOG"@,
        SELFCI_LOG_FULL@ == "SELFCI_LOG_FULL"@,
        SELFCI_JOB_NAME@ == "SELFCI_JOB_NAME"@,
        SELFCI_JOB_SOCK_PATH@ == "SELFCI_JOB_SOCK_PATH"@,
        SELFCI_BASE_DIR@ == "SELFCI_BASE_DIR"@,
        SELFCI_CANDIDATE_DIR@ == "SELFCI_CANDIDATE_DIR"@,
        SELFCI_CANDIDATE_COMMIT_ID@ == "SELFCI_CANDIDATE_COMMIT_ID"@,
        SELFCI_CANDIDATE_CHANGE_ID@ == "SELFCI_CANDIDATE_CHANGE_ID"@,
        SELFCI_CANDIDATE_ID@ == "SELFCI_CANDIDATE_ID"@,
        SELFCI_MERGED_COMMIT_ID@ == "SELFCI_MERGED_COMMIT_ID"@,
        SELFCI_MERGED_CHANGE_ID@ == "SELFCI_MERGED_CHANGE_ID"@,
        SELFCI_TESTED_COMMIT_ID@ == "SELFCI_TESTED_COMMIT_ID"@,
        SELFCI_TESTED_CHANGE_ID@ == "SELFCI_TESTED_CHANGE_ID"@,
        SELFCI_LANDED_COMMIT_ID@ == "SELFCI_LANDED_COMMIT_ID"@,
        SELFCI_LANDED_CHANGE_ID@ == "SELFCI_LANDED_CHANGE_ID"@,
        SELFCI_MQ_BASE_BRANCH@ == "SELFCI_MQ_BASE_BRANCH"@,
        SELFCI_RUN_MODE@ == "SELFCI_RUN_MODE"@,
        SELFCI_VCS_FORCE@ == "SELFCI_VCS_FORCE"@,
        SELFCI_ROOT_DIR@ == "SELFCI_ROOT_DIR"@,
        SELFCI_MQ_RUNTIME_DIR@ == "SELFCI_MQ_RUNTIME_DIR"@,
        SELFCI_VERSION@ == "SELFCI_VERSION"@,
{
}

} // verus!
