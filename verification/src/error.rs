//! Errors.

use vstd::prelude::*;

use crate::exit_codes;
use crate::revision;
use crate::revision::{RevisionError, RevisionErrorView};

verus! {

/// Why no version control system could be chosen.
#[derive(Debug, Clone, Copy, PartialEq, Eq, Structural)]
pub enum VCSError {
    NoVCSFound,
    InvalidVCSType,
}

/// The message of an error.
pub open spec fn vcs_error_text(e: VCSError) -> Seq<char> {
    match e {
        VCSError::NoVCSFound => "No supported VCS found (looking for .jj or .git directory)"@,
        VCSError::InvalidVCSType => "Invalid VCS type (must be 'jj' or 'git')"@,
    }
}

impl VCSError {
    /// The message of the error.
    pub fn message(&self) -> (res: String)
        ensures
            res@ == vcs_error_text(*self),
    {
        match self {
            VCSError::NoVCSFound => {
                "No supported VCS found (looking for .jj or .git directory)".to_owned()
            },
            VCSError::InvalidVCSType => "Invalid VCS type (must be 'jj' or 'git')".to_owned(),
        }
    }

    /// The same error among those of the program.
    pub fn into_main(self) -> (res: MainError)
        ensures
            res@ == vcs_main_error(self),
    {
        match self {
            VCSError::NoVCSFound => MainError::NoVCSFound,
            VCSError::InvalidVCSType => MainError::InvalidVCSType,
        }
    }
}

/// The same error among those of the program.
pub open spec fn vcs_main_error(e: VCSError) -> MainErrorView {
    match e {
        VCSError::NoVCSFound => MainErrorView::NoVCSFound,
        VCSError::InvalidVCSType => MainErrorView::InvalidVCSType,
    }
}

/// Why a test integration or a publication failed. The text is the underlying
/// error or the output of the tool.
#[derive(Debug)]
pub enum MergeError {
    ConfigReadFailed(String),
    ConfigParseFailed(String),
    WorktreeCreateFailed(String),
    RebaseFailed(String),
    MergeFailed(String),
    BranchUpdateFailed(String),
    ChangeIdFailed(String),
    UnsupportedJj(String),
}

/// What a [`MergeError`] holds.
pub enum MergeErrorView {
    ConfigReadFailed(Seq<char>),
    ConfigParseFailed(Seq<char>),
    WorktreeCreateFailed(Seq<char>),
    RebaseFailed(Seq<char>),
    MergeFailed(Seq<char>),
    BranchUpdateFailed(Seq<char>),
    ChangeIdFailed(Seq<char>),
    UnsupportedJj(Seq<char>),
}

impl View for MergeError {
    type V = MergeErrorView;

    open spec fn view(&self) -> MergeErrorView {
        match *self {
            MergeError::ConfigReadFailed(s) => MergeErrorView::ConfigReadFailed(s@),
            MergeError::ConfigParseFailed(s) => MergeErrorView::ConfigParseFailed(s@),
            MergeError::WorktreeCreateFailed(s) => MergeErrorView::WorktreeCreateFailed(s@),
            MergeError::RebaseFailed(s) => MergeErrorView::RebaseFailed(s@),
            MergeError::MergeFailed(s) => MergeErrorView::MergeFailed(s@),
            MergeError::BranchUpdateFailed(s) => MergeErrorView::BranchUpdateFailed(s@),
            MergeError::ChangeIdFailed(s) => MergeErrorView::ChangeIdFailed(s@),
            MergeError::UnsupportedJj(s) => MergeErrorView::UnsupportedJj(s@),
        }
    }
}

/// The message of an error.
pub open spec fn merge_error_text(e: MergeErrorView) -> Seq<char> {
    match e {
        MergeErrorView::ConfigReadFailed(_) => "Failed to read config from base branch"@,
        MergeErrorView::ConfigParseFailed(_) => "Failed to parse config from base branch"@,
        MergeErrorView::WorktreeCreateFailed(_) => "Failed to create temporary worktree"@,
        MergeErrorView::RebaseFailed(_) => "Failed to rebase"@,
        MergeErrorView::MergeFailed(_) => "Failed to merge"@,
        MergeErrorView::BranchUpdateFailed(_) => "Failed to update branch"@,
        MergeErrorView::ChangeIdFailed(_) => "Failed to get change ID"@,
        MergeErrorView::UnsupportedJj(s) => s,
    }
}

/// The underlying error.
pub open spec fn merge_error_source(e: MergeErrorView) -> Seq<char> {
    match e {
        MergeErrorView::ConfigReadFailed(s) => s,
        MergeErrorView::ConfigParseFailed(s) => s,
        MergeErrorView::WorktreeCreateFailed(s) => s,
        MergeErrorView::RebaseFailed(s) => s,
        MergeErrorView::MergeFailed(s) => s,
        MergeErrorView::BranchUpdateFailed(s) => s,
        MergeErrorView::ChangeIdFailed(s) => s,
        MergeErrorView::UnsupportedJj(s) => s,
    }
}

impl Clone for MergeError {
    fn clone(&self) -> (res: Self)
        ensures
            res == *self,
    {
        match self {
            MergeError::ConfigReadFailed(s) => MergeError::ConfigReadFailed(s.clone()),
            MergeError::ConfigParseFailed(s) => MergeError::ConfigParseFailed(s.clone()),
            MergeError::WorktreeCreateFailed(s) => MergeError::WorktreeCreateFailed(s.clone()),
            MergeError::RebaseFailed(s) => MergeError::RebaseFailed(s.clone()),
            MergeError::MergeFailed(s) => MergeError::MergeFailed(s.clone()),
            MergeError::BranchUpdateFailed(s) => MergeError::BranchUpdateFailed(s.clone()),
            MergeError::ChangeIdFailed(s) => MergeError::ChangeIdFailed(s.clone()),
            MergeError::UnsupportedJj(s) => MergeError::UnsupportedJj(s.clone()),
        }
    }
}

impl MergeError {
    /// The message of the error.
    pub fn message(&self) -> (res: String)
        ensures
            res@ == merge_error_text(self@),
    {
        match self {
            MergeError::ConfigReadFailed(_) => "Failed to read config from base branch".to_owned(),
            MergeError::ConfigParseFailed(_) => {
                "Failed to parse config from base branch".to_owned()
            },
            MergeError::WorktreeCreateFailed(_) => "Failed to create temporary worktree".to_owned(),
            MergeError::RebaseFailed(_) => "Failed to rebase".to_owned(),
            MergeError::MergeFailed(_) => "Failed to merge".to_owned(),
            MergeError::BranchUpdateFailed(_) => "Failed to update branch".to_owned(),
            MergeError::ChangeIdFailed(_) => "Failed to get change ID".to_owned(),
            MergeError::UnsupportedJj(s) => s.clone(),
        }
    }

    /// The underlying error.
    pub fn source(&self) -> (res: String)
        ensures
            res@ == merge_error_source(self@),
    {
        match self {
            MergeError::ConfigReadFailed(s) => s.clone(),
            MergeError::ConfigParseFailed(s) => s.clone(),
            MergeError::WorktreeCreateFailed(s) => s.clone(),
            MergeError::RebaseFailed(s) => s.clone(),
            MergeError::MergeFailed(s) => s.clone(),
            MergeError::BranchUpdateFailed(s) => s.clone(),
            MergeError::ChangeIdFailed(s) => s.clone(),
            MergeError::UnsupportedJj(s) => s.clone(),
        }
    }
}

/// Why the program failed. A text is the underlying error.
#[derive(Debug)]
pub enum MainError {
    NoVCSFound,
    InvalidVCSType,
    CreateFailed(String),
    CreateWorkDirectoryFailed { path: String, reason: String },
    CommandFailed(String),
    NotInitialized,
    ReadFailed(String),
    ParseFailed(String),
    CheckFailed,
    ResolutionFailed(RevisionError),
    TestMergeFailed(MergeError),
    DaemonNotRunning,
    CommunicationFailed,
    ProcessControl { operation: String, reason: String },
}

/// What a [`MainError`] holds.
pub enum MainErrorView {
    NoVCSFound,
    InvalidVCSType,
    CreateFailed(Seq<char>),
    CreateWorkDirectoryFailed { path: Seq<char>, reason: Seq<char> },
    CommandFailed(Seq<char>),
    NotInitialized,
    ReadFailed(Seq<char>),
    ParseFailed(Seq<char>),
    CheckFailed,
    ResolutionFailed(RevisionErrorView),
    TestMergeFailed(MergeErrorView),
    DaemonNotRunning,
    CommunicationFailed,
    ProcessControl { operation: Seq<char>, reason: Seq<char> },
}

impl View for MainError {
    type V = MainErrorView;

    open spec fn view(&self) -> MainErrorView {
        match *self {
            MainError::NoVCSFound => MainErrorView::NoVCSFound,
            MainError::InvalidVCSType => MainErrorView::InvalidVCSType,
            MainError::CreateFailed(s) => MainErrorView::CreateFailed(s@),
            MainError::CreateWorkDirectoryFailed { path, reason } =>
                MainErrorView::CreateWorkDirectoryFailed { path: path@, reason: reason@ },
            MainError::CommandFailed(s) => MainErrorView::CommandFailed(s@),
            MainError::NotInitialized => MainErrorView::NotInitialized,
            MainError::ReadFailed(s) => MainErrorView::ReadFailed(s@),
            MainError::ParseFailed(s) => MainErrorView::ParseFailed(s@),
            MainError::CheckFailed => MainErrorView::CheckFailed,
            MainError::ResolutionFailed(e) => MainErrorView::ResolutionFailed(e@),
            MainError::TestMergeFailed(e) => MainErrorView::TestMergeFailed(e@),
            MainError::DaemonNotRunning => MainErrorView::DaemonNotRunning,
            MainError::CommunicationFailed => MainErrorView::CommunicationFailed,
            MainError::ProcessControl { operation, reason } => MainErrorView::ProcessControl {
                operation: operation@,
                reason: reason@,
            },
        }
    }
}

/// The exit code for an error.
pub open spec fn exit_code_for(e: MainErrorView) -> i32 {
    match e {
        MainErrorView::NoVCSFound => exit_codes::EXIT_NO_VCS_FOUND,
        MainErrorView::InvalidVCSType => exit_codes::EXIT_INVALID_VCS_TYPE,
        MainErrorView::CreateFailed(_) => exit_codes::EXIT_WORKDIR_CREATE_FAILED,
        MainErrorView::CreateWorkDirectoryFailed { .. } => exit_codes::EXIT_WORKDIR_CREATE_FAILED,
        MainErrorView::CommandFailed(_) => exit_codes::EXIT_VCS_COMMAND_FAILED,
        MainErrorView::NotInitialized => exit_codes::EXIT_NOT_INITIALIZED,
        MainErrorView::ReadFailed(_) => exit_codes::EXIT_CONFIG_READ_FAILED,
        MainErrorView::ParseFailed(_) => exit_codes::EXIT_CONFIG_PARSE_FAILED,
        MainErrorView::CheckFailed => exit_codes::EXIT_CHECK_FAILED,
        MainErrorView::ResolutionFailed(RevisionErrorView::ResolutionFailed { .. }) =>
            exit_codes::EXIT_REVISION_RESOLUTION_FAILED,
        MainErrorView::ResolutionFailed(RevisionErrorView::InvalidCommitId(_)) =>
            exit_codes::EXIT_REVISION_INVALID_COMMIT_ID,
        MainErrorView::ResolutionFailed(RevisionErrorView::InvalidOutput { .. }) =>
            exit_codes::EXIT_REVISION_INVALID_OUTPUT,
        MainErrorView::TestMergeFailed(_) => exit_codes::EXIT_TEST_MERGE_FAILED,
        MainErrorView::DaemonNotRunning => exit_codes::EXIT_MQ_DAEMON_NOT_RUNNING,
        MainErrorView::CommunicationFailed => exit_codes::EXIT_MQ_COMMUNICATION_FAILED,
        MainErrorView::ProcessControl { .. } => exit_codes::EXIT_MQ_PROCESS_CONTROL_FAILED,
    }
}

/// The message of an error.
pub open spec fn main_error_text(e: MainErrorView) -> Seq<char> {
    match e {
        MainErrorView::NoVCSFound => vcs_error_text(VCSError::NoVCSFound),
        MainErrorView::InvalidVCSType => vcs_error_text(VCSError::InvalidVCSType),
        MainErrorView::CreateFailed(s) => "Failed to create work directory: "@ + s,
        MainErrorView::CreateWorkDirectoryFailed { path, reason } =>
            "Failed to create work directory "@ + path + ": "@ + reason,
        MainErrorView::CommandFailed(_) => "Failed to execute VCS command"@,
        MainErrorView::NotInitialized => "Not initialized: .config/selfci/ci.yaml not found"@,
        MainErrorView::ReadFailed(_) => "Failed to read config file"@,
        MainErrorView::ParseFailed(_) => "Failed to parse config file"@,
        MainErrorView::CheckFailed => "Check command failed"@,
        MainErrorView::ResolutionFailed(_) => "Failed to resolve revision"@,
        MainErrorView::TestMergeFailed(e) => merge_error_text(e),
        MainErrorView::DaemonNotRunning =>
            "Merge queue daemon is not running for this project"@,
        MainErrorView::CommunicationFailed => "Failed to communicate with merge queue daemon"@,
        MainErrorView::ProcessControl { operation, reason } =>
            "Failed to "@ + operation + ": "@ + reason,
    }
}

/// The underlying error, where there is one beside the message.
pub open spec fn main_error_source(e: MainErrorView) -> Option<Seq<char>> {
    match e {
        MainErrorView::CommandFailed(s) => Some(s),
        MainErrorView::ReadFailed(s) => Some(s),
        MainErrorView::ParseFailed(s) => Some(s),
        MainErrorView::ResolutionFailed(e) => Some(revision::revision_error_text(e)),
        MainErrorView::TestMergeFailed(e) => Some(merge_error_source(e)),
        _ => None,
    }
}

impl Clone for MainError {
    fn clone(&self) -> (res: Self)
        ensures
            res == *self,
    {
        match self {
            MainError::NoVCSFound => MainError::NoVCSFound,
            MainError::InvalidVCSType => MainError::InvalidVCSType,
            MainError::CreateFailed(s) => MainError::CreateFailed(s.clone()),
            MainError::CreateWorkDirectoryFailed { path, reason } => {
                MainError::CreateWorkDirectoryFailed { path: path.clone(), reason: reason.clone() }
            },
            MainError::CommandFailed(s) => MainError::CommandFailed(s.clone()),
            MainError::NotInitialized => MainError::NotInitialized,
            MainError::ReadFailed(s) => MainError::ReadFailed(s.clone()),
            MainError::ParseFailed(s) => MainError::ParseFailed(s.clone()),
            MainError::CheckFailed => MainError::CheckFailed,
            MainError::ResolutionFailed(e) => MainError::ResolutionFailed(e.clone()),
            MainError::TestMergeFailed(e) => MainError::TestMergeFailed(e.clone()),
            MainError::DaemonNotRunning => MainError::DaemonNotRunning,
            MainError::CommunicationFailed => MainError::CommunicationFailed,
            MainError::ProcessControl { operation, reason } => MainError::ProcessControl {
                operation: operation.clone(),
                reason: reason.clone(),
            },
        }
    }
}

impl MainError {
    /// The exit code for the error.
    pub fn exit_code(&self) -> (res: i32)
        ensures
            res == exit_code_for(self@),
    {
        match self {
            MainError::NoVCSFound => exit_codes::EXIT_NO_VCS_FOUND,
            MainError::InvalidVCSType => exit_codes::EXIT_INVALID_VCS_TYPE,
            MainError::CreateFailed(_) => exit_codes::EXIT_WORKDIR_CREATE_FAILED,
            MainError::CreateWorkDirectoryFailed { .. } => exit_codes::EXIT_WORKDIR_CREATE_FAILED,
            MainError::CommandFailed(_) => exit_codes::EXIT_VCS_COMMAND_FAILED,
            MainError::NotInitialized => exit_codes::EXIT_NOT_INITIALIZED,
            MainError::ReadFailed(_) => exit_codes::EXIT_CONFIG_READ_FAILED,
            MainError::ParseFailed(_) => exit_codes::EXIT_CONFIG_PARSE_FAILED,
            MainError::CheckFailed => exit_codes::EXIT_CHECK_FAILED,
            MainError::ResolutionFailed(e) => match e {
                RevisionError::ResolutionFailed { .. } => {
                    exit_codes::EXIT_REVISION_RESOLUTION_FAILED
                },
                RevisionError::InvalidCommitId(_) => exit_codes::EXIT_REVISION_INVALID_COMMIT_ID,
                RevisionError::InvalidOutput { .. } => exit_codes::EXIT_REVISION_INVALID_OUTPUT,
            },
            MainError::TestMergeFailed(_) => exit_codes::EXIT_TEST_MERGE_FAILED,
            MainError::DaemonNotRunning => exit_codes::EXIT_MQ_DAEMON_NOT_RUNNING,
            MainError::CommunicationFailed => exit_codes::EXIT_MQ_COMMUNICATION_FAILED,
            MainError::ProcessControl { .. } => exit_codes::EXIT_MQ_PROCESS_CONTROL_FAILED,
        }
    }

    /// The message of the error.
    pub fn message(&self) -> (res: String)
        ensures
            res@ == main_error_text(self@),
    {
        match self {
            MainError::NoVCSFound => VCSError::NoVCSFound.message(),
            MainError::InvalidVCSType => VCSError::InvalidVCSType.message(),
            MainError::CreateFailed(s) => {
                String::from_str("Failed to create work directory: ").concat(s.as_str())
            },
            MainError::CreateWorkDirectoryFailed { path, reason } => {
                String::from_str("Failed to create work directory ").concat(path.as_str()).concat(
                    ": ",
                ).concat(reason.as_str())
            },
            MainError::CommandFailed(_) => "Failed to execute VCS command".to_owned(),
            MainError::NotInitialized => {
                "Not initialized: .config/selfci/ci.yaml not found".to_owned()
            },
            MainError::ReadFailed(_) => "Failed to read config file".to_owned(),
            MainError::ParseFailed(_) => "Failed to parse config file".to_owned(),
            MainError::CheckFailed => "Check command failed".to_owned(),
            MainError::ResolutionFailed(_) => "Failed to resolve revision".to_owned(),
            MainError::TestMergeFailed(e) => e.message(),
            MainError::DaemonNotRunning => {
                "Merge queue daemon is not running for this project".to_owned()
            },
            MainError::CommunicationFailed => {
                "Failed to communicate with merge queue daemon".to_owned()
            },
            MainError::ProcessControl { operation, reason } => {
                String::from_str("Failed to ").concat(operation.as_str()).concat(": ").concat(
                    reason.as_str(),
                )
            },
        }
    }

    /// The underlying error, where there is one beside the message.
    pub fn source(&self) -> (res: Option<String>)
        ensures
            res.deep_view() == main_error_source(self@),
    {
        match self {
            MainError::CommandFailed(s) => Some(s.clone()),
            MainError::ReadFailed(s) => Some(s.clone()),
            MainError::ParseFailed(s) => Some(s.clone()),
            MainError::ResolutionFailed(e) => Some(e.message()),
            MainError::TestMergeFailed(e) => Some(e.source()),
            _ => None,
        }
    }
}

/// No error ends the program with the exit code of success.
pub proof fn law_errors_exit_nonzero(e: MainErrorView)
    ensures
        exit_code_for(e) != 0,
{
}

/// Each kind of failure has an exit code of its own, by which callers tell them
/// apart.
pub proof fn law_exit_codes_tell_failures_apart(
    text: Seq<char>,
    other: Seq<char>,
    merge: MergeErrorView,
    revision: RevisionErrorView,
)
    ensures
        exit_code_for(MainErrorView::CheckFailed) == 1,
        exit_code_for(MainErrorView::NoVCSFound) == 2,
        exit_code_for(MainErrorView::InvalidVCSType) == 3,
        exit_code_for(MainErrorView::CreateFailed(text)) == 4,
        exit_code_for(MainErrorView::CreateWorkDirectoryFailed { path: text, reason: other }) == 4,
        exit_code_for(MainErrorView::CommandFailed(text)) == 5,
        exit_code_for(MainErrorView::NotInitialized) == 6,
        exit_code_for(MainErrorView::ReadFailed(text)) == 7,
        exit_code_for(MainErrorView::ParseFailed(text)) == 8,
        exit_code_for(MainErrorView::ResolutionFailed(revision)) == (if revision
            is ResolutionFailed {
            9i32
        } else if revision is InvalidCommitId {
            10i32
        } else {
            11i32
        }),
        exit_code_for(MainErrorView::DaemonNotRunning) == 16,
        exit_code_for(MainErrorView::CommunicationFailed) == 17,
        exit_code_for(MainErrorView::ProcessControl { operation: text, reason: other }) == 18,
        exit_code_for(MainErrorView::TestMergeFailed(merge)) == 19,
        exit_codes::EXIT_JOB_WAIT_FAILED == 12,
        exit_codes::EXIT_JOB_NOT_FOUND == 13,
        exit_codes::EXIT_MQ_RUN_NOT_FOUND == 14,
        exit_codes::EXIT_MQ_WAIT_FAILED == 15,
{
}

/// What is said of each failure. The underlying error is part of the message, or
/// stands beside it, or there is none.
pub proof fn law_failures_say_what_happened(
    text: Seq<char>,
    other: Seq<char>,
    merge: MergeErrorView,
    revision: RevisionErrorView,
)
    ensures
        main_error_text(MainErrorView::NoVCSFound)
            == "No supported VCS found (looking for .jj or .git directory)"@,
        main_error_text(MainErrorView::InvalidVCSType)
            == "Invalid VCS type (must be 'jj' or 'git')"@,
        main_error_text(MainErrorView::CreateFailed(text)) == "Failed to create work directory: "@
            + text,
        main_error_text(MainErrorView::CreateWorkDirectoryFailed { path: text, reason: other })
            == "Failed to create work directory "@ + text + ": "@ + other,
        main_error_text(MainErrorView::CommandFailed(text)) == "Failed to execute VCS command"@,
        main_error_text(MainErrorView::NotInitialized)
            == "Not initialized: .config/selfci/ci.yaml not found"@,
        main_error_text(MainErrorView::ReadFailed(text)) == "Failed to read config file"@,
        main_error_text(MainErrorView::ParseFailed(text)) == "Failed to parse config file"@,
        main_error_text(MainErrorView::CheckFailed) == "Check command failed"@,
        main_error_text(MainErrorView::ResolutionFailed(revision))
            == "Failed to resolve revision"@,
        main_error_text(MainErrorView::DaemonNotRunning)
            == "Merge queue daemon is not running for this project"@,
        main_error_text(MainErrorView::CommunicationFailed)
            == "Failed to communicate with merge queue daemon"@,
        main_error_text(MainErrorView::ProcessControl { operation: text, reason: other })
            == "Failed to "@ + text + ": "@ + other,
        main_error_text(MainErrorView::TestMergeFailed(merge)) == merge_error_text(merge),
        main_error_source(MainErrorView::CommandFailed(text)) == Some(text),
        main_error_source(MainErrorView::ReadFailed(text)) == Some(text),
        main_error_source(MainErrorView::ParseFailed(text)) == Some(text),
        main_error_source(MainErrorView::ResolutionFailed(revision)) == Some(
            revision::revision_error_text(revision),
        ),
        main_error_source(MainErrorView::TestMergeFailed(merge)) == Some(
            merge_error_source(merge),
        ),
        main_error_source(MainErrorView::CreateFailed(text)) is None,
        main_error_source(MainErrorView::ProcessControl { operation: text, reason: other })
            is None,
        vcs_error_text(VCSError::NoVCSFound) == main_error_text(MainErrorView::NoVCSFound),
        vcs_error_text(VCSError::InvalidVCSType) == main_error_text(
            MainErrorView::InvalidVCSType,
        ),
        vcs_main_error(VCSError::NoVCSFound) is NoVCSFound,
        vcs_main_error(VCSError::InvalidVCSType) is InvalidVCSType,
{
}

/// What is said of each failed integration or publication; the underlying error is
/// kept as it was.
pub proof fn law_merge_failures_say_what_happened(text: Seq<char>)
    ensures
        merge_error_text(MergeErrorView::ConfigReadFailed(text))
            == "Failed to read config from base branch"@,
        merge_error_text(MergeErrorView::ConfigParseFailed(text))
            == "Failed to parse config from base branch"@,
        merge_error_text(MergeErrorView::WorktreeCreateFailed(text))
            == "Failed to create temporary worktree"@,
        merge_error_text(MergeErrorView::RebaseFailed(text)) == "Failed to rebase"@,
        merge_error_text(MergeErrorView::MergeFailed(text)) == "Failed to merge"@,
        merge_error_text(MergeErrorView::BranchUpdateFailed(text)) == "Failed to update branch"@,
        merge_error_text(MergeErrorView::ChangeIdFailed(text)) == "Failed to get change ID"@,
        merge_error_text(MergeErrorView::UnsupportedJj(text)) == text,
        merge_error_source(MergeErrorView::ConfigReadFailed(text)) == text,
        merge_error_source(MergeErrorView::ConfigParseFailed(text)) == text,
        merge_error_source(MergeErrorView::WorktreeCreateFailed(text)) == text,
        merge_error_source(MergeErrorView::RebaseFailed(text)) == text,
        merge_error_source(MergeErrorView::MergeFailed(text)) == text,
        merge_error_source(MergeErrorView::BranchUpdateFailed(text)) == text,
        merge_error_source(MergeErrorView::ChangeIdFailed(text)) == text,
        merge_error_source(MergeErrorView::UnsupportedJj(text)) == text,
{
}

/// What an error holds is what its parts hold, and of the same kind.
pub proof fn law_errors_hold_their_parts(main: MainError, merge: MergeError)
    ensures
        main@ is NoVCSFound <==> main is NoVCSFound,
        main@ is InvalidVCSType <==> main is InvalidVCSType,
        main@ is NotInitialized <==> main is NotInitialized,
        main@ is CheckFailed <==> main is CheckFailed,
        main@ is DaemonNotRunning <==> main is DaemonNotRunning,
        main@ is CommunicationFailed <==> main is CommunicationFailed,
        main matches MainError::CreateFailed(s) ==> main@ == MainErrorView::CreateFailed(s@),
        main matches MainError::CommandFailed(s) ==> main@ == MainErrorView::CommandFailed(s@),
        main matches MainError::ReadFailed(s) ==> main@ == MainErrorView::ReadFailed(s@),
        main matches MainError::ParseFailed(s) ==> main@ == MainErrorView::ParseFailed(s@),
        main matches MainError::ResolutionFailed(e) ==> main@ == MainErrorView::ResolutionFailed(
            e@,
        ),
        main matches MainError::TestMergeFailed(e) ==> main@ == MainErrorView::TestMergeFailed(e@),
        main matches MainError::ProcessControl { operation, reason } ==> main@ == (
        MainErrorView::ProcessControl { operation: operation@, reason: reason@ }),
        main matches MainError::CreateWorkDirectoryFailed { path, reason } ==> main@ == (
        MainErrorView::CreateWorkDirectoryFailed { path: path@, reason: reason@ }),
        merge matches MergeError::ConfigReadFailed(s) ==> merge@
            == MergeErrorView::ConfigReadFailed(s@),
        merge matches MergeError::ConfigParseFailed(s) ==> merge@
            == MergeErrorView::ConfigParseFailed(s@),
        merge matches MergeError::WorktreeCreateFailed(s) ==> merge@
            == MergeErrorView::WorktreeCreateFailed(s@),
        merge matches MergeError::RebaseFailed(s) ==> merge@ == MergeErrorView::RebaseFailed(s@),
        merge matches MergeError::MergeFailed(s) ==> merge@ == MergeErrorView::MergeFailed(s@),
        merge matches MergeError::BranchUpdateFailed(s) ==> merge@
            == MergeErrorView::BranchUpdateFailed(s@),
        merge matches MergeError::ChangeIdFailed(s) ==> merge@ == MergeErrorView::ChangeIdFailed(
            s@,
        ),
        merge matches MergeError::UnsupportedJj(s) ==> merge@ == MergeErrorView::UnsupportedJj(s@),
{
}

} // verus!
