//! Revisions: what the user named, and the identities it stands for.

use vstd::prelude::*;

use crate::duct_util;
use crate::duct_util::{Cmd, CmdView};
use crate::script;
use crate::script::{Invocation, Reply, Step, StepView};
use crate::text;
use crate::vcs::VCS;

verus! {

/// A revision as the user wrote it, such as `@`, `main` or `HEAD`.
#[derive(Debug, PartialEq, Eq, Hash)]
pub struct UserRevision(String);

/// A Jujutsu change ID; for Git, the commit ID.
#[derive(Debug, PartialEq, Eq, Hash)]
pub struct ChangeId(String);

/// The ID of an immutable commit: 40 hexadecimal digits.
#[derive(Debug, PartialEq, Eq, Hash)]
pub struct CommitId(String);

impl View for UserRevision {
    type V = Seq<char>;

    closed spec fn view(&self) -> Seq<char> {
        self.0@
    }
}

impl View for ChangeId {
    type V = Seq<char>;

    closed spec fn view(&self) -> Seq<char> {
        self.0@
    }
}

impl View for CommitId {
    type V = Seq<char>;

    closed spec fn view(&self) -> Seq<char> {
        self.0@
    }
}

/// Whether a text is a full commit ID.
pub open spec fn is_commit_id(s: Seq<char>) -> bool {
    s.len() == 40 && text::all_hex(s)
}

impl UserRevision {
    pub fn new(s: &str) -> (res: Self)
        ensures
            res@ == s@,
    {
        UserRevision(s.to_owned())
    }

    pub fn as_str(&self) -> (res: &str)
        ensures
            res@ == self@,
    {
        self.0.as_str()
    }

    /// The text, for display.
    pub fn display(&self) -> (res: String)
        ensures
            res@ == self@,
    {
        self.0.clone()
    }
}

impl Clone for UserRevision {
    fn clone(&self) -> (res: Self)
        ensures
            res == *self,
    {
        UserRevision(self.0.clone())
    }
}

impl ChangeId {
    pub fn new(s: &str) -> (res: Self)
        ensures
            res@ == s@,
    {
        ChangeId(s.to_owned())
    }

    pub fn as_str(&self) -> (res: &str)
        ensures
            res@ == self@,
    {
        self.0.as_str()
    }

    /// The text, for display.
    pub fn display(&self) -> (res: String)
        ensures
            res@ == self@,
    {
        self.0.clone()
    }
}

impl Clone for ChangeId {
    fn clone(&self) -> (res: Self)
        ensures
            res == *self,
    {
        ChangeId(self.0.clone())
    }
}

impl CommitId {
    #[verifier::type_invariant]
    spec fn well_formed(self) -> bool {
        is_commit_id(self.0@)
    }

    /// The commit with the given ID, if the text is a full commit ID.
    pub fn new(s: &str) -> (res: Result<Self, RevisionError>)
        ensures
            res is Ok <==> is_commit_id(s@),
            res matches Ok(id) ==> id@ == s@,
            res matches Err(e) ==> e@ == RevisionErrorView::InvalidCommitId(s@),
    {
        match text::hex_len(s) {
            Some(n) => {
                if n == 40 {
                    return Ok(CommitId(s.to_owned()));
                }
            },
            None => {},
        }
        Err(RevisionError::InvalidCommitId(s.to_owned()))
    }

    /// The ID: always 40 hexadecimal digits.
    pub fn as_str(&self) -> (res: &str)
        ensures
            res@ == self@,
            is_commit_id(res@),
    {
        proof {
            use_type_invariant(self);
        }
        self.0.as_str()
    }

    /// The text, for display.
    pub fn display(&self) -> (res: String)
        ensures
            res@ == self@,
            is_commit_id(res@),
    {
        proof {
            use_type_invariant(self);
        }
        self.0.clone()
    }
}

impl Clone for CommitId {
    fn clone(&self) -> (res: Self)
        ensures
            res == *self,
            is_commit_id(res@),
    {
        proof {
            use_type_invariant(self);
        }
        CommitId(self.0.clone())
    }
}

/// A revision in all its forms.
#[derive(Debug, PartialEq, Eq)]
pub struct ResolvedRevision {
    /// What the user wrote.
    pub user: UserRevision,
    /// The change; for Git, the commit.
    pub change_id: ChangeId,
    /// The immutable commit.
    pub commit_id: CommitId,
}

/// What a [`ResolvedRevision`] holds.
pub struct ResolvedRevisionView {
    pub user: Seq<char>,
    pub change_id: Seq<char>,
    pub commit_id: Seq<char>,
}

impl View for ResolvedRevision {
    type V = ResolvedRevisionView;

    open spec fn view(&self) -> ResolvedRevisionView {
        ResolvedRevisionView {
            user: self.user@,
            change_id: self.change_id@,
            commit_id: self.commit_id@,
        }
    }
}

impl Clone for ResolvedRevision {
    fn clone(&self) -> (res: Self)
        ensures
            res == *self,
    {
        ResolvedRevision {
            user: self.user.clone(),
            change_id: self.change_id.clone(),
            commit_id: self.commit_id.clone(),
        }
    }
}

/// Why a revision could not be resolved.
#[derive(Debug)]
pub enum RevisionError {
    /// The tool could not be run or refused the revision.
    ResolutionFailed { vcs: String, revision: String, source: String },
    /// The text is no full commit ID.
    InvalidCommitId(String),
    /// The tool's output lacks a line.
    InvalidOutput { vcs: String, output: String },
}

/// What a [`RevisionError`] holds.
pub enum RevisionErrorView {
    ResolutionFailed { vcs: Seq<char>, revision: Seq<char>, source: Seq<char> },
    InvalidCommitId(Seq<char>),
    InvalidOutput { vcs: Seq<char>, output: Seq<char> },
}

impl View for RevisionError {
    type V = RevisionErrorView;

    open spec fn view(&self) -> RevisionErrorView {
        match *self {
            RevisionError::ResolutionFailed { vcs, revision, source } =>
                RevisionErrorView::ResolutionFailed {
                    vcs: vcs@,
                    revision: revision@,
                    source: source@,
                },
            RevisionError::InvalidCommitId(s) => RevisionErrorView::InvalidCommitId(s@),
            RevisionError::InvalidOutput { vcs, output } => RevisionErrorView::InvalidOutput {
                vcs: vcs@,
                output: output@,
            },
        }
    }
}

/// The message of an error.
pub open spec fn revision_error_text(e: RevisionErrorView) -> Seq<char> {
    match e {
        RevisionErrorView::ResolutionFailed { vcs, revision, source } =>
            "Failed to resolve revision '"@ + revision + "' using "@ + vcs + ": "@ + source,
        RevisionErrorView::InvalidCommitId(s) =>
            "Invalid commit ID: "@ + s + " (expected 40-char hex string)"@,
        RevisionErrorView::InvalidOutput { vcs, output } =>
            "Unexpected VCS output for "@ + vcs + ": "@ + output,
    }
}

/// The underlying error, where there is one.
pub open spec fn revision_error_source(e: RevisionErrorView) -> Option<Seq<char>> {
    match e {
        RevisionErrorView::ResolutionFailed { source, .. } => Some(source),
        _ => None,
    }
}

impl Clone for RevisionError {
    fn clone(&self) -> (res: Self)
        ensures
            res == *self,
    {
        match self {
            RevisionError::ResolutionFailed { vcs, revision, source } => {
                RevisionError::ResolutionFailed {
                    vcs: vcs.clone(),
                    revision: revision.clone(),
                    source: source.clone(),
                }
            },
            RevisionError::InvalidCommitId(s) => RevisionError::InvalidCommitId(s.clone()),
            RevisionError::InvalidOutput { vcs, output } => RevisionError::InvalidOutput {
                vcs: vcs.clone(),
                output: output.clone(),
            },
        }
    }
}

impl RevisionError {
    /// The message of the error.
    pub fn message(&self) -> (res: String)
        ensures
            res@ == revision_error_text(self@),
    {
        match self {
            RevisionError::ResolutionFailed { vcs, revision, source } => {
                String::from_str("Failed to resolve revision '").concat(revision.as_str()).concat(
                    "' using ",
                ).concat(vcs.as_str()).concat(": ").concat(source.as_str())
            },
            RevisionError::InvalidCommitId(s) => {
                String::from_str("Invalid commit ID: ").concat(s.as_str()).concat(
                    " (expected 40-char hex string)",
                )
            },
            RevisionError::InvalidOutput { vcs, output } => {
                String::from_str("Unexpected VCS output for ").concat(vcs.as_str()).concat(
                    ": ",
                ).concat(output.as_str())
            },
        }
    }

    /// The underlying error, where there is one.
    pub fn source(&self) -> (res: Option<String>)
        ensures
            res.deep_view() == revision_error_source(self@),
    {
        match self {
            RevisionError::ResolutionFailed { source, .. } => Some(source.clone()),
            _ => None,
        }
    }
}

/// The command that asks Git for the commit of a revision.
pub open spec fn git_rev_parse(root_dir: Seq<char>, revision: Seq<char>) -> CmdView {
    duct_util::bare_command("git"@).arg("rev-parse"@).arg(revision).dir(root_dir)
}

/// The command that makes the commits of Jujutsu known to Git.
pub open spec fn jj_git_export(root_dir: Seq<char>) -> CmdView {
    duct_util::bare_command("jj"@).arg("git"@).arg("export"@).arg("--quiet"@).dir(root_dir)
}

/// The command that asks Jujutsu for the change and the commit of a revision.
/// The template calls methods: the bare names could be aliases of the user's.
pub open spec fn jj_identities(root_dir: Seq<char>, revision: Seq<char>) -> CmdView {
    duct_util::bare_command("jj"@).arg("log"@).arg("--no-graph"@).arg("-r"@).arg(revision).arg("-T"@).arg(
        "self.change_id() ++ \"\\n\" ++ self.commit_id()"@,
    ).dir(root_dir)
}

/// What Git's answer to `git rev-parse` resolves a revision to: for Git the
/// change is the commit.
pub open spec fn git_resolution(user: Seq<char>, output: Seq<char>) -> Result<
    ResolvedRevisionView,
    RevisionErrorView,
> {
    let sha = text::trimmed(output);
    if is_commit_id(sha) {
        Ok(ResolvedRevisionView { user, change_id: sha, commit_id: sha })
    } else {
        Err(RevisionErrorView::InvalidCommitId(sha))
    }
}

/// What Jujutsu's answer, a change and a commit on two lines, resolves a revision to.
pub open spec fn jj_resolution(user: Seq<char>, output: Seq<char>) -> Result<
    ResolvedRevisionView,
    RevisionErrorView,
> {
    let lines = text::lines(output);
    if lines.len() < 2 {
        Err(RevisionErrorView::InvalidOutput { vcs: "jujutsu"@, output })
    } else if is_commit_id(text::trimmed(lines[1])) {
        Ok(
            ResolvedRevisionView {
                user,
                change_id: text::trimmed(lines[0]),
                commit_id: text::trimmed(lines[1]),
            },
        )
    } else {
        Err(RevisionErrorView::InvalidCommitId(text::trimmed(lines[1])))
    }
}

/// A step that ends with the given result.
pub open spec fn resolution_step(
    r: Result<ResolvedRevisionView, RevisionErrorView>,
) -> StepView<ResolvedRevisionView, RevisionErrorView> {
    match r {
        Ok(v) => StepView::Done(v),
        Err(e) => StepView::Fail(e),
    }
}

/// The procedure that resolves a revision with Git: one command.
pub open spec fn git_revision_step(
    root_dir: Seq<char>,
    user: Seq<char>,
    replies: Seq<Reply>,
) -> StepView<ResolvedRevisionView, RevisionErrorView> {
    if replies.len() == 0 {
        StepView::Run(script::read_of(git_rev_parse(root_dir, user)))
    } else {
        match replies[0] {
            Reply::Failed(m) => StepView::Fail(
                RevisionErrorView::ResolutionFailed { vcs: "git"@, revision: user, source: m@ },
            ),
            Reply::Output { text, .. } => resolution_step(git_resolution(user, text@)),
        }
    }
}

/// The procedure that resolves a revision with Jujutsu: an export, so that the
/// commit is known to Git, and then one question.
pub open spec fn jj_revision_step(
    root_dir: Seq<char>,
    user: Seq<char>,
    replies: Seq<Reply>,
) -> StepView<ResolvedRevisionView, RevisionErrorView> {
    if replies.len() == 0 {
        StepView::Run(script::run_of(jj_git_export(root_dir)))
    } else if let Reply::Failed(m) = replies[0] {
        StepView::Fail(
            RevisionErrorView::ResolutionFailed { vcs: "jujutsu"@, revision: user, source: m@ },
        )
    } else if replies.len() == 1 {
        StepView::Run(script::read_of(jj_identities(root_dir, user)))
    } else {
        match replies[1] {
            Reply::Failed(m) => StepView::Fail(
                RevisionErrorView::ResolutionFailed { vcs: "jujutsu"@, revision: user, source: m@ },
            ),
            Reply::Output { text, .. } => resolution_step(jj_resolution(user, text@)),
        }
    }
}

/// The procedure that resolves a revision.
pub open spec fn revision_step(
    vcs: VCS,
    root_dir: Seq<char>,
    user: Seq<char>,
    replies: Seq<Reply>,
) -> StepView<ResolvedRevisionView, RevisionErrorView> {
    match vcs {
        VCS::Git => git_revision_step(root_dir, user, replies),
        VCS::Jujutsu => jj_revision_step(root_dir, user, replies),
    }
}

/// Resolves what the user wrote to immutable identities, given the replies of
/// the commands run so far.
pub fn resolve_revision(
    vcs: &VCS,
    root_dir: &str,
    user_revision: &str,
    replies: &Vec<Reply>,
) -> (res: Step<ResolvedRevision, RevisionError>)
    ensures
        res@ == revision_step(*vcs, root_dir@, user_revision@, replies@),
{
    let user = UserRevision::new(user_revision);
    match vcs {
        VCS::Git => resolve_git_revision(root_dir, user, replies),
        VCS::Jujutsu => resolve_jujutsu_revision(root_dir, user, replies),
    }
}

/// Resolves a revision with Git.
pub fn resolve_git_revision(root_dir: &str, user: UserRevision, replies: &Vec<Reply>) -> (res: Step<
    ResolvedRevision,
    RevisionError,
>)
    ensures
        res@ == git_revision_step(root_dir@, user@, replies@),
{
    if replies.len() == 0 {
        let cmd = Cmd::new("git").arg("rev-parse").arg(user.as_str()).dir(root_dir);
        return Step::Run(Invocation::read(cmd));
    }
    match &replies[0] {
        Reply::Failed(m) => Step::Fail(
            RevisionError::ResolutionFailed {
                vcs: "git".to_owned(),
                revision: user.display(),
                source: m.clone(),
            },
        ),
        Reply::Output { text, .. } => resolve_git_output(user, text.as_str()),
    }
}

/// What Git's answer resolves a revision to.
pub fn resolve_git_output(user: UserRevision, output: &str) -> (res: Step<
    ResolvedRevision,
    RevisionError,
>)
    ensures
        res@ == resolution_step(git_resolution(user@, output@)),
{
    let sha = text::trim(output);
    match CommitId::new(sha.as_str()) {
        Ok(commit_id) => {
            let change_id = ChangeId::new(sha.as_str());
            Step::Done(ResolvedRevision { user, change_id, commit_id })
        },
        Err(e) => Step::Fail(e),
    }
}

/// Resolves a revision with Jujutsu.
pub fn resolve_jujutsu_revision(root_dir: &str, user: UserRevision, replies: &Vec<Reply>) -> (res:
    Step<ResolvedRevision, RevisionError>)
    ensures
        res@ == jj_revision_step(root_dir@, user@, replies@),
{
    if replies.len() == 0 {
        let cmd = Cmd::new("jj").arg("git").arg("export").arg("--quiet").dir(root_dir);
        return Step::Run(Invocation::run(cmd));
    }
    match &replies[0] {
        Reply::Failed(m) => {
            return Step::Fail(
                RevisionError::ResolutionFailed {
                    vcs: "jujutsu".to_owned(),
                    revision: user.display(),
                    source: m.clone(),
                },
            );
        },
        Reply::Output { .. } => {},
    }
    if replies.len() == 1 {
        let cmd = Cmd::new("jj").arg("log").arg("--no-graph").arg("-r").arg(user.as_str()).arg(
            "-T",
        ).arg("self.change_id() ++ \"\\n\" ++ self.commit_id()").dir(root_dir);
        return Step::Run(Invocation::read(cmd));
    }
    match &replies[1] {
        Reply::Failed(m) => Step::Fail(
            RevisionError::ResolutionFailed {
                vcs: "jujutsu".to_owned(),
                revision: user.display(),
                source: m.clone(),
            },
        ),
        Reply::Output { text, .. } => resolve_jujutsu_output(user, text.as_str()),
    }
}

/// What Jujutsu's answer resolves a revision to.
pub fn resolve_jujutsu_output(user: UserRevision, output: &str) -> (res: Step<
    ResolvedRevision,
    RevisionError,
>)
    ensures
        res@ == resolution_step(jj_resolution(user@, output@)),
{
    let lines = text::split_lines(output);
    assert(lines@.len() == text::lines(output@).len());
    if lines.len() < 2 {
        return Step::Fail(
            RevisionError::InvalidOutput { vcs: "jujutsu".to_owned(), output: output.to_owned() },
        );
    }
    assert(lines@[0]@ == text::lines(output@)[0]);
    assert(lines@[1]@ == text::lines(output@)[1]);
    let change = text::trim(lines[0].as_str());
    let commit = text::trim(lines[1].as_str());
    match CommitId::new(commit.as_str()) {
        Ok(commit_id) => {
            let change_id = ChangeId::new(change.as_str());
            Step::Done(ResolvedRevision { user, change_id, commit_id })
        },
        Err(e) => Step::Fail(e),
    }
}

/// Whatever the tools reply, a revision that resolves keeps what the user
/// wrote and names a full commit ID; with Git, the change is that commit.
pub proof fn law_resolved_commit_is_full(
    vcs: VCS,
    root_dir: Seq<char>,
    user: Seq<char>,
    replies: Seq<Reply>,
)
    ensures
        revision_step(vcs, root_dir, user, replies) matches StepView::Done(r) ==> {
            &&& r.user == user
            &&& is_commit_id(r.commit_id)
            &&& vcs == VCS::Git ==> r.change_id == r.commit_id
        },
{
}

/// A revision is resolved by asking Git for its commit, or by exporting from
/// Jujutsu and asking that for the change and the commit, always for what the user
/// wrote.
pub proof fn law_resolution_asks_for_what_the_user_wrote(
    root: Seq<char>,
    user: Seq<char>,
    replies: Seq<Reply>,
)
    ensures
        revision_step(VCS::Git, root, user, Seq::empty()) matches StepView::Run(inv)
            && !inv.unchecked && duct_util::is_command(
            inv.cmd,
            "git"@,
            seq!["rev-parse"@, user],
            root,
        ),
        revision_step(VCS::Jujutsu, root, user, Seq::empty()) matches StepView::Run(inv)
            && !inv.unchecked && duct_util::is_command(
            inv.cmd,
            "jj"@,
            seq!["git"@, "export"@, "--quiet"@],
            root,
        ),
        replies.len() == 1 && replies[0] is Output ==> (revision_step(
            VCS::Jujutsu,
            root,
            user,
            replies,
        ) matches StepView::Run(inv) && !inv.unchecked && duct_util::is_command(
            inv.cmd,
            "jj"@,
            seq![
                "log"@,
                "--no-graph"@,
                "-r"@,
                user,
                "-T"@,
                "self.change_id() ++ \"\\n\" ++ self.commit_id()"@,
            ],
            root,
        )),
{
}

/// What is answered is what a revision resolves to: Git's commit, or Jujutsu's
/// change on the first line and commit on the second, each without white space
/// around it. Anything that is no full commit is refused, and so is a tool that
/// failed.
pub proof fn law_resolution_is_what_was_answered(
    root: Seq<char>,
    user: Seq<char>,
    replies: Seq<Reply>,
)
    ensures
        replies.len() > 0 && replies[0] is Output ==> ({
            let id = text::trimmed(replies[0]->text@);
            if id.len() == 40 && text::all_hex(id) {
                revision_step(VCS::Git, root, user, replies) matches StepView::Done(r)
                    && r.commit_id == id && r.change_id == id && r.user == user
            } else {
                revision_step(VCS::Git, root, user, replies) is Fail
            }
        }),
        replies.len() > 1 && replies[0] is Output && replies[1] is Output ==> ({
            let lines = text::lines(replies[1]->text@);
            let id = text::trimmed(lines[1]);
            if lines.len() >= 2 && id.len() == 40 && text::all_hex(id) {
                revision_step(VCS::Jujutsu, root, user, replies) matches StepView::Done(r)
                    && r.commit_id == id && r.change_id == text::trimmed(lines[0]) && r.user == user
            } else {
                revision_step(VCS::Jujutsu, root, user, replies) is Fail
            }
        }),
        replies.len() > 0 && replies[0] is Failed ==> revision_step(VCS::Git, root, user, replies)
            is Fail && revision_step(VCS::Jujutsu, root, user, replies) is Fail,
        replies.len() > 1 && replies[0] is Output && replies[1] is Failed ==> revision_step(
            VCS::Jujutsu,
            root,
            user,
            replies,
        ) is Fail,
{
}

/// A full commit ID is 40 hexadecimal digits, and nothing else is one.
pub proof fn law_commit_ids_are_forty_digits(s: Seq<char>)
    ensures
        is_commit_id(s) <==> s.len() == 40 && forall|i: int|
            0 <= i < s.len() ==> text::is_hex(#[trigger] s[i]),
{
}

/// The messages of errors name what was asked for and what came back.
pub proof fn law_revision_errors_tell_what_happened(a: Seq<char>, b: Seq<char>, c: Seq<char>)
    ensures
        revision_error_text(
            RevisionErrorView::ResolutionFailed { vcs: a, revision: b, source: c },
        ) == "Failed to resolve revision '"@ + b + "' using "@ + a + ": "@ + c,
        revision_error_source(
            RevisionErrorView::ResolutionFailed { vcs: a, revision: b, source: c },
        ) == Some(c),
        revision_error_text(RevisionErrorView::InvalidCommitId(a)) == "Invalid commit ID: "@ + a
            + " (expected 40-char hex string)"@,
        revision_error_text(RevisionErrorView::InvalidOutput { vcs: a, output: b })
            == "Unexpected VCS output for "@ + a + ": "@ + b,
{
}

/// What a resolved revision holds is what it was made of.
pub proof fn law_resolved_revisions_hold_their_parts(r: ResolvedRevision)
    ensures
        r@.user == r.user@,
        r@.change_id == r.change_id@,
        r@.commit_id == r.commit_id@,
{
}

} // verus!
