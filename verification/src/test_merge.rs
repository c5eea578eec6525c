//! Test integration: a candidate merged into, or rebased onto, the base, as a
//! commit that no branch names.

use vstd::prelude::*;

use crate::config::MergeStyle;
use crate::duct_util;
use crate::duct_util::{Cmd, CmdView};
use crate::error;
use crate::error::{MergeError, MergeErrorView, VCSError};
use crate::jj_merge;
use crate::revision;
use crate::revision::{ChangeId, CommitId, ResolvedRevision};
use crate::script;
use crate::script::{Invocation, Reply, Step, StepView};
use crate::text;
use crate::vcs::VCS;

verus! {

/// What a test integration made.
#[derive(Debug)]
pub struct TestMergeOutcome {
    /// The integrated commit.
    pub commit_id: CommitId,
    /// Its change; for Git, the commit.
    pub change_id: ChangeId,
    /// The commands that ran, with their output.
    pub output: String,
}

/// What a [`TestMergeOutcome`] holds.
pub struct TestMergeView {
    pub commit_id: Seq<char>,
    pub change_id: Seq<char>,
    pub output: Seq<char>,
}

impl View for TestMergeOutcome {
    type V = TestMergeView;

    open spec fn view(&self) -> TestMergeView {
        TestMergeView {
            commit_id: self.commit_id@,
            change_id: self.change_id@,
            output: self.output@,
        }
    }
}

/// The next step of a test integration.
pub type MergeStep = Step<TestMergeOutcome, MergeError>;

/// What a [`MergeStep`] holds.
pub type MergeStepView = StepView<TestMergeView, MergeErrorView>;

/// The log with a command and its output added.
pub open spec fn logged(log: Seq<char>, cmd: CmdView, output: Seq<char>) -> Seq<char> {
    log + duct_util::log_text(cmd) + output + "\n\n"@
}

/// Adds a command and its output to the log.
pub(crate) fn log_command(log: &mut String, cmd: &Cmd, output: &str)
    ensures
        final(log)@ == logged(old(log)@, cmd@, output@),
{
    log.append(cmd.log_line().display().as_str());
    log.append(output);
    log.append("\n\n");
}

// ---------------------------------------------------------------------------
// Git

/// The temporary worktree for a candidate.
pub open spec fn worktree_of(root: Seq<char>, commit: Seq<char>) -> Seq<char> {
    text::joined_path(root, ".git/selfci-test-worktree-"@ + commit)
}

/// The first lines of the log.
pub open spec fn git_header(mode: MergeStyle, base: Seq<char>, commit: Seq<char>) -> Seq<char> {
    match mode {
        MergeStyle::Rebase => "Git test rebase: rebasing "@ + commit + " onto "@ + base + "\n\n"@,
        MergeStyle::Merge => "Git test merge: merging "@ + commit + " into "@ + base + "\n\n"@,
    }
}

/// Makes the worktree: a rebase starts at the candidate, a merge at the base.
pub open spec fn git_worktree_add(
    mode: MergeStyle,
    root: Seq<char>,
    base: Seq<char>,
    commit: Seq<char>,
) -> CmdView {
    let cmd = duct_util::bare_command("git"@).arg("worktree"@).arg("add"@).arg("--detach"@).arg(
        worktree_of(root, commit),
    );
    match mode {
        MergeStyle::Rebase => cmd.arg(commit).dir(root),
        MergeStyle::Merge => cmd.arg(base).dir(root),
    }
}

/// Removes the worktree.
pub open spec fn git_worktree_remove(root: Seq<char>, commit: Seq<char>) -> CmdView {
    duct_util::bare_command("git"@).arg("worktree"@).arg("remove"@).arg("--force"@).arg(
        worktree_of(root, commit),
    ).dir(root)
}

/// The message of a merge commit.
pub open spec fn merge_message(commit: Seq<char>) -> Seq<char> {
    "Merge commit '"@ + commit + "' by SelfCI"@
}

/// Integrates, inside the worktree.
pub open spec fn git_integrate(
    mode: MergeStyle,
    root: Seq<char>,
    base: Seq<char>,
    commit: Seq<char>,
) -> CmdView {
    let git = duct_util::bare_command("git"@);
    match mode {
        MergeStyle::Rebase => git.arg("rebase"@).arg(base).dir(worktree_of(root, commit)),
        MergeStyle::Merge => git.arg("merge"@).arg("--no-ff"@).arg("-m"@).arg(
            merge_message(commit),
        ).arg(commit).dir(worktree_of(root, commit)),
    }
}

/// Gives an integration up, inside the worktree.
pub open spec fn git_abort(mode: MergeStyle, root: Seq<char>, commit: Seq<char>) -> CmdView {
    let git = duct_util::bare_command("git"@);
    match mode {
        MergeStyle::Rebase => git.arg("rebase"@).arg("--abort"@).dir(worktree_of(root, commit)),
        MergeStyle::Merge => git.arg("merge"@).arg("--abort"@).dir(worktree_of(root, commit)),
    }
}

/// Asks for the commit that the worktree is at.
pub open spec fn git_head(root: Seq<char>, commit: Seq<char>) -> CmdView {
    duct_util::bare_command("git"@).arg("rev-parse"@).arg("HEAD"@).dir(worktree_of(root, commit))
}

/// The error for an integration that failed.
pub open spec fn integration_failed(mode: MergeStyle, output: Seq<char>) -> MergeErrorView {
    match mode {
        MergeStyle::Rebase => MergeErrorView::RebaseFailed(output),
        MergeStyle::Merge => MergeErrorView::MergeFailed(output),
    }
}

/// The end of the procedure, once the worktree was removed. Whether the
/// removal succeeded makes no difference.
pub open spec fn after_removal(
    root: Seq<char>,
    commit: Seq<char>,
    replies: Seq<Reply>,
    n: nat,
    end: MergeStepView,
) -> MergeStepView {
    if replies.len() <= n {
        StepView::Run(script::run_of(git_worktree_remove(root, commit)))
    } else {
        end
    }
}

/// What the integration made: the commit that the worktree was at.
pub open spec fn git_outcome(mode: MergeStyle, log: Seq<char>, id: Seq<char>) -> MergeStepView {
    if revision::is_commit_id(id) {
        StepView::Done(
            TestMergeView {
                commit_id: id,
                change_id: id,
                output: match mode {
                    MergeStyle::Rebase => log,
                    MergeStyle::Merge => log + "Test merge complete\n"@,
                },
            },
        )
    } else {
        StepView::Panic("git rev-parse returned invalid commit id"@)
    }
}

/// The procedure once the worktree exists.
pub open spec fn git_in_worktree(
    mode: MergeStyle,
    root: Seq<char>,
    base: Seq<char>,
    commit: Seq<char>,
    log: Seq<char>,
    replies: Seq<Reply>,
) -> MergeStepView {
    let integrate = git_integrate(mode, root, base, commit);
    let head = git_head(root, commit);
    if replies.len() == 1 {
        StepView::Run(script::capture_of(integrate))
    } else {
        match replies[1] {
            Reply::Failed(m) => after_removal(
                root,
                commit,
                replies,
                2,
                StepView::Fail(integration_failed(mode, m@)),
            ),
            Reply::Output { success, text } => {
                if !success && replies.len() == 2 {
                    StepView::Run(script::run_of(git_abort(mode, root, commit)))
                } else if !success {
                    after_removal(
                        root,
                        commit,
                        replies,
                        3,
                        StepView::Fail(integration_failed(mode, text@)),
                    )
                } else if replies.len() == 2 {
                    StepView::Run(script::read_of(head))
                } else {
                    match replies[2] {
                        Reply::Failed(m) => after_removal(
                            root,
                            commit,
                            replies,
                            3,
                            StepView::Fail(MergeErrorView::BranchUpdateFailed(m@)),
                        ),
                        Reply::Output { text: id, .. } => after_removal(
                            root,
                            commit,
                            replies,
                            3,
                            git_outcome(
                                mode,
                                logged(
                                    logged(log, integrate, text@),
                                    head,
                                    text::trimmed(id@),
                                ),
                                text::trimmed(id@),
                            ),
                        ),
                    }
                }
            },
        }
    }
}

/// The test integration with Git: in a temporary worktree, which is removed
/// again whatever happens in it.
pub open spec fn git_merge_step(
    mode: MergeStyle,
    root: Seq<char>,
    base: Seq<char>,
    commit: Seq<char>,
    replies: Seq<Reply>,
) -> MergeStepView {
    let add = git_worktree_add(mode, root, base, commit);
    if replies.len() == 0 {
        StepView::Run(script::read_all_of(add))
    } else {
        match replies[0] {
            Reply::Failed(m) => StepView::Fail(MergeErrorView::WorktreeCreateFailed(m@)),
            Reply::Output { text, .. } => git_in_worktree(
                mode,
                root,
                base,
                commit,
                logged(git_header(mode, base, commit), add, text@),
                replies,
            ),
        }
    }
}

fn worktree_path(root_dir: &str, commit: &str) -> (res: String)
    ensures
        res@ == worktree_of(root_dir@, commit@),
{
    text::join_path(
        root_dir,
        String::from_str(".git/selfci-test-worktree-").concat(commit).as_str(),
    )
}

fn remove_worktree(root_dir: &str, commit: &str) -> (res: MergeStep)
    ensures
        res@ == StepView::<TestMergeView, MergeErrorView>::Run(
            script::run_of(git_worktree_remove(root_dir@, commit@)),
        ),
{
    let cmd = Cmd::new("git").arg("worktree").arg("remove").arg("--force").arg(
        worktree_path(root_dir, commit).as_str(),
    ).dir(root_dir);
    Step::Run(Invocation::run(cmd))
}

fn failed_integration(mode: MergeStyle, output: &str) -> (res: MergeStep)
    ensures
        res@ == StepView::<TestMergeView, MergeErrorView>::Fail(integration_failed(mode, output@)),
{
    match mode {
        MergeStyle::Rebase => Step::Fail(MergeError::RebaseFailed(output.to_owned())),
        MergeStyle::Merge => Step::Fail(MergeError::MergeFailed(output.to_owned())),
    }
}

fn git_finish(mode: MergeStyle, log: String, id: &str) -> (res: MergeStep)
    ensures
        res@ == git_outcome(mode, log@, id@),
{
    match CommitId::new(id) {
        Ok(commit_id) => {
            let output = match mode {
                MergeStyle::Rebase => log,
                MergeStyle::Merge => log.concat("Test merge complete\n"),
            };
            Step::Done(TestMergeOutcome { commit_id, change_id: ChangeId::new(id), output })
        },
        Err(_) => Step::Panic("git rev-parse returned invalid commit id".to_owned()),
    }
}

fn test_merge_git(
    mode: MergeStyle,
    root_dir: &str,
    base: &str,
    commit: &str,
    replies: &Vec<Reply>,
) -> (res: MergeStep)
    ensures
        res@ == git_merge_step(mode, root_dir@, base@, commit@, replies@),
{
    let tree = worktree_path(root_dir, commit);
    let mut log = match mode {
        MergeStyle::Rebase => {
            String::from_str("Git test rebase: rebasing ").concat(commit).concat(" onto ").concat(
                base,
            ).concat("\n\n")
        },
        MergeStyle::Merge => {
            String::from_str("Git test merge: merging ").concat(commit).concat(" into ").concat(
                base,
            ).concat("\n\n")
        },
    };
    let start = match mode {
        MergeStyle::Rebase => commit,
        MergeStyle::Merge => base,
    };
    let add = Cmd::new("git").arg("worktree").arg("add").arg("--detach").arg(tree.as_str()).arg(
        start,
    ).dir(root_dir);
    if replies.len() == 0 {
        return Step::Run(Invocation::read_all(add));
    }
    match &replies[0] {
        Reply::Failed(m) => {
            return Step::Fail(MergeError::WorktreeCreateFailed(m.clone()));
        },
        Reply::Output { text, .. } => {
            log_command(&mut log, &add, text.as_str());
        },
    }
    let integrate = match mode {
        MergeStyle::Rebase => Cmd::new("git").arg("rebase").arg(base).dir(tree.as_str()),
        MergeStyle::Merge => {
            let message = String::from_str("Merge commit '").concat(commit).concat("' by SelfCI");
            Cmd::new("git").arg("merge").arg("--no-ff").arg("-m").arg(message.as_str()).arg(
                commit,
            ).dir(tree.as_str())
        },
    };
    if replies.len() == 1 {
        return Step::Run(Invocation::capture(integrate));
    }
    match &replies[1] {
        Reply::Failed(m) => {
            if replies.len() == 2 {
                return remove_worktree(root_dir, commit);
            }
            return failed_integration(mode, m.as_str());
        },
        Reply::Output { success, text } => {
            if !*success {
                if replies.len() == 2 {
                    let abort = match mode {
                        MergeStyle::Rebase => {
                            Cmd::new("git").arg("rebase").arg("--abort").dir(tree.as_str())
                        },
                        MergeStyle::Merge => {
                            Cmd::new("git").arg("merge").arg("--abort").dir(tree.as_str())
                        },
                    };
                    return Step::Run(Invocation::run(abort));
                }
                if replies.len() == 3 {
                    return remove_worktree(root_dir, commit);
                }
                return failed_integration(mode, text.as_str());
            }
            log_command(&mut log, &integrate, text.as_str());
        },
    }
    let head = Cmd::new("git").arg("rev-parse").arg("HEAD").dir(tree.as_str());
    if replies.len() == 2 {
        return Step::Run(Invocation::read(head));
    }
    if replies.len() == 3 {
        return remove_worktree(root_dir, commit);
    }
    match &replies[2] {
        Reply::Failed(m) => Step::Fail(MergeError::BranchUpdateFailed(m.clone())),
        Reply::Output { text, .. } => {
            let id = text::trim(text.as_str());
            log_command(&mut log, &head, id.as_str());
            git_finish(mode, log, id.as_str())
        },
    }
}

/// Rebases the candidate onto the base in a temporary Git worktree, without
/// moving any branch.
pub fn test_merge_git_rebase(
    root_dir: &str,
    base: &CommitId,
    candidate: &ResolvedRevision,
    replies: &Vec<Reply>,
) -> (res: MergeStep)
    ensures
        res@ == git_merge_step(
            MergeStyle::Rebase,
            root_dir@,
            base@,
            candidate.commit_id@,
            replies@,
        ),
{
    test_merge_git(
        MergeStyle::Rebase,
        root_dir,
        base.as_str(),
        candidate.commit_id.as_str(),
        replies,
    )
}

/// Merges the candidate into the base in a temporary Git worktree, without
/// moving any branch.
pub fn test_merge_git_merge(
    root_dir: &str,
    base: &CommitId,
    candidate: &ResolvedRevision,
    replies: &Vec<Reply>,
) -> (res: MergeStep)
    ensures
        res@ == git_merge_step(
            MergeStyle::Merge,
            root_dir@,
            base@,
            candidate.commit_id@,
            replies@,
        ),
{
    test_merge_git(
        MergeStyle::Merge,
        root_dir,
        base.as_str(),
        candidate.commit_id.as_str(),
        replies,
    )
}

/// Git's test integration moves nothing that the user has: whatever the
/// replies, each command adds or removes the temporary worktree or runs inside it.
pub proof fn law_git_integration_stays_in_worktree(
    mode: MergeStyle,
    root: Seq<char>,
    base: Seq<char>,
    commit: Seq<char>,
    replies: Seq<Reply>,
)
    ensures
        git_merge_step(mode, root, base, commit, replies) matches StepView::Run(inv) ==> {
            ||| inv.cmd.dir == Some(worktree_of(root, commit))
            ||| inv.cmd.args[0] == "worktree"@
        },
{
}

/// Git's temporary worktree is removed on every path: where it was made, the
/// procedure ends only after the command that removes it has run.
pub proof fn law_git_worktree_is_removed(
    mode: MergeStyle,
    root: Seq<char>,
    base: Seq<char>,
    commit: Seq<char>,
    replies: Seq<Reply>,
)
    requires
        replies.len() > 0,
        replies[0] is Output,
        !(git_merge_step(mode, root, base, commit, replies) is Run),
    ensures
        exists|k: int|
            0 <= k < replies.len() && #[trigger] git_merge_step(
                mode,
                root,
                base,
                commit,
                replies.take(k),
            ) == MergeStepView::Run(script::run_of(git_worktree_remove(root, commit))),
{
    let k: int = if replies[1] is Failed {
        2
    } else {
        3
    };
    let t = replies.take(k);
    assert(t[0] == replies[0] && t[1] == replies[1]);
    if k == 3 {
        assert(t[2] == replies[2]);
    }
    assert(git_merge_step(mode, root, base, commit, t) == MergeStepView::Run(
        script::run_of(git_worktree_remove(root, commit)),
    ));
}

/// The test integration of a candidate, with the given system and mode.
pub open spec fn test_merge_step(
    vcs: Result<VCS, VCSError>,
    mode: MergeStyle,
    root: Seq<char>,
    base: Seq<char>,
    commit: Seq<char>,
    replies: Seq<Reply>,
) -> MergeStepView {
    match vcs {
        Err(e) => StepView::Fail(MergeErrorView::ConfigReadFailed(error::vcs_error_text(e))),
        Ok(VCS::Git) => git_merge_step(mode, root, base, commit, replies),
        Ok(VCS::Jujutsu) => match mode {
            MergeStyle::Rebase => jj_merge::jj_rebase_step(root, base, commit, replies),
            MergeStyle::Merge => jj_merge::jj_merge_step(root, base, commit, replies),
        },
    }
}

/// Integrates the candidate with the base for testing, given the replies of
/// the commands run so far. No branch or bookmark moves.
pub fn create_test_merge(
    vcs: Result<VCS, VCSError>,
    root_dir: &str,
    base: &CommitId,
    candidate: &ResolvedRevision,
    merge_mode: &MergeStyle,
    replies: &Vec<Reply>,
) -> (res: MergeStep)
    ensures
        res@ == test_merge_step(
            vcs,
            *merge_mode,
            root_dir@,
            base@,
            candidate.commit_id@,
            replies@,
        ),
{
    match vcs {
        Err(e) => Step::Fail(MergeError::ConfigReadFailed(e.message())),
        Ok(VCS::Git) => match merge_mode {
            MergeStyle::Rebase => test_merge_git_rebase(root_dir, base, candidate, replies),
            MergeStyle::Merge => test_merge_git_merge(root_dir, base, candidate, replies),
        },
        Ok(VCS::Jujutsu) => match merge_mode {
            MergeStyle::Rebase => jj_merge::test_merge_jj_rebase(root_dir, base, candidate, replies),
            MergeStyle::Merge => jj_merge::test_merge_jj_merge(root_dir, base, candidate, replies),
        },
    }
}

/// What a test integration makes is a full commit, whatever the tools reply.
pub proof fn law_test_merge_result_is_full_commit(
    vcs: Result<VCS, VCSError>,
    mode: MergeStyle,
    root: Seq<char>,
    base: Seq<char>,
    commit: Seq<char>,
    replies: Seq<Reply>,
)
    requires
        revision::is_commit_id(base),
        revision::is_commit_id(commit),
    ensures
        test_merge_step(vcs, mode, root, base, commit, replies) matches StepView::Done(r)
            ==> revision::is_commit_id(r.commit_id),
{
    jj_merge::law_jj_result_is_full_commit(root, base, commit, replies);
}

/// Where the worktree of a test integration is, below the project's root.
pub proof fn law_git_worktree_lies_in_the_repository(root: Seq<char>, commit: Seq<char>)
    requires
        root.len() > 0,
        root.last() != '/',
    ensures
        worktree_of(root, commit) == root + "/"@ + (".git/selfci-test-worktree-"@ + commit),
{
    reveal_strlit(".git/selfci-test-worktree-");
}

/// A test rebase with Git takes a worktree at the submitted commit and rebases it
/// onto the base; what the worktree is at then, is the result. A rebase that fails
/// is given up and fails the whole. The worktree is removed in the end, whatever
/// came of it.
#[verifier::spinoff_prover]
#[verifier::rlimit(100)]
pub proof fn law_git_rebase_moves_the_candidate_onto_the_base(
    root: Seq<char>,
    base: Seq<char>,
    commit: Seq<char>,
    replies: Seq<Reply>,
)
    ensures
        ({
            let step = git_merge_step(MergeStyle::Rebase, root, base, commit, replies);
            let tree = worktree_of(root, commit);
            let added = replies[0] is Output;
            let integrated = added && replies[1] is Output && replies[1]->success;
            &&& replies.len() == 0 ==> (step matches StepView::Run(inv) && duct_util::is_command(
                inv.cmd,
                "git"@,
                seq!["worktree"@, "add"@, "--detach"@, tree, commit],
                root,
            ))
            &&& replies.len() > 0 && !added ==> step is Fail
            &&& replies.len() == 1 && added ==> (step matches StepView::Run(inv) && inv.unchecked
                && duct_util::is_command(inv.cmd, "git"@, seq!["rebase"@, base], tree))
            &&& replies.len() == 2 && integrated ==> (step matches StepView::Run(inv)
                && duct_util::is_command(inv.cmd, "git"@, seq!["rev-parse"@, "HEAD"@], tree))
            &&& replies.len() == 2 && added && replies[1] is Output && !replies[1]->success ==> (
            step matches StepView::Run(inv) && duct_util::is_command(
                inv.cmd,
                "git"@,
                seq!["rebase"@, "--abort"@],
                tree,
            ))
            &&& replies.len() == 3 && added && replies[1] is Output ==> (step matches StepView::Run(
                inv,
            ) && duct_util::is_command(
                inv.cmd,
                "git"@,
                seq!["worktree"@, "remove"@, "--force"@, tree],
                root,
            ))
            &&& replies.len() > 3 && integrated && replies[2] is Output && revision::is_commit_id(
                text::trimmed(replies[2]->text@),
            ) ==> (step matches StepView::Done(r) && r.commit_id == text::trimmed(
                replies[2]->text@,
            ) && r.change_id == r.commit_id)
            &&& replies.len() > 1 && added && !integrated && !(step is Run) ==> (step
                matches StepView::Fail(e) && e is RebaseFailed)
            &&& step is Done ==> integrated && replies.len() > 3
        }),
{
}

/// A test merge with Git takes a worktree at the base and merges the submitted
/// commit into it, always as a commit of its own; what the worktree is at then, is
/// the result. A merge that fails is given up and fails the whole. The worktree is
/// removed in the end, whatever came of it.
#[verifier::spinoff_prover]
#[verifier::rlimit(100)]
pub proof fn law_git_merge_merges_the_candidate_into_the_base(
    root: Seq<char>,
    base: Seq<char>,
    commit: Seq<char>,
    replies: Seq<Reply>,
)
    ensures
        ({
            let step = git_merge_step(MergeStyle::Merge, root, base, commit, replies);
            let tree = worktree_of(root, commit);
            let added = replies[0] is Output;
            let integrated = added && replies[1] is Output && replies[1]->success;
            &&& replies.len() == 0 ==> (step matches StepView::Run(inv) && duct_util::is_command(
                inv.cmd,
                "git"@,
                seq!["worktree"@, "add"@, "--detach"@, tree, base],
                root,
            ))
            &&& replies.len() > 0 && !added ==> step is Fail
            &&& replies.len() == 1 && added ==> (step matches StepView::Run(inv) && inv.unchecked
                && duct_util::is_command(
                inv.cmd,
                "git"@,
                seq![
                    "merge"@,
                    "--no-ff"@,
                    "-m"@,
                    "Merge commit '"@ + commit + "' by SelfCI"@,
                    commit,
                ],
                tree,
            ))
            &&& replies.len() == 2 && integrated ==> (step matches StepView::Run(inv)
                && duct_util::is_command(inv.cmd, "git"@, seq!["rev-parse"@, "HEAD"@], tree))
            &&& replies.len() == 2 && added && replies[1] is Output && !replies[1]->success ==> (
            step matches StepView::Run(inv) && duct_util::is_command(
                inv.cmd,
                "git"@,
                seq!["merge"@, "--abort"@],
                tree,
            ))
            &&& replies.len() == 3 && added && replies[1] is Output ==> (step matches StepView::Run(
                inv,
            ) && duct_util::is_command(
                inv.cmd,
                "git"@,
                seq!["worktree"@, "remove"@, "--force"@, tree],
                root,
            ))
            &&& replies.len() > 3 && integrated && replies[2] is Output && revision::is_commit_id(
                text::trimmed(replies[2]->text@),
            ) ==> (step matches StepView::Done(r) && r.commit_id == text::trimmed(
                replies[2]->text@,
            ) && r.change_id == r.commit_id)
            &&& replies.len() > 1 && added && !integrated && !(step is Run) ==> (step
                matches StepView::Fail(e) && e is MergeFailed)
            &&& step is Done ==> integrated && replies.len() > 3
        }),
{
}

/// Which tool integrates and in which mode is what was asked for; without a known
/// system nothing is integrated.
pub proof fn law_integration_follows_system_and_mode(
    root: Seq<char>,
    base: Seq<char>,
    commit: Seq<char>,
    replies: Seq<Reply>,
    error: VCSError,
    mode: MergeStyle,
)
    ensures
        test_merge_step(Ok(VCS::Git), mode, root, base, commit, replies) == git_merge_step(
            mode,
            root,
            base,
            commit,
            replies,
        ),
        test_merge_step(Ok(VCS::Jujutsu), MergeStyle::Rebase, root, base, commit, replies)
            == jj_merge::jj_rebase_step(root, base, commit, replies),
        test_merge_step(Ok(VCS::Jujutsu), MergeStyle::Merge, root, base, commit, replies)
            == jj_merge::jj_merge_step(root, base, commit, replies),
        test_merge_step(Err(error), mode, root, base, commit, replies) is Fail,
{
}

/// What a log says of one command: how a shell shows it, and what it printed.
pub open spec fn log_entry(cmd: CmdView, output: Seq<char>) -> Seq<char> {
    "> "@ + duct_util::shell_text(cmd) + "\n"@ + output + "\n\n"@
}

/// The log of an integration with Git says what was integrated, and then each
/// command that was run, with what it printed.
#[verifier::spinoff_prover]
#[verifier::rlimit(50)]
pub proof fn law_git_integration_is_logged(
    mode: MergeStyle,
    root: Seq<char>,
    base: Seq<char>,
    commit: Seq<char>,
    replies: Seq<Reply>,
)
    requires
        git_merge_step(mode, root, base, commit, replies) is Done,
    ensures
        ({
            let cmd = |k: int|
                git_merge_step(mode, root, base, commit, replies.take(k))->Run_0.cmd;
            let head = if mode == MergeStyle::Rebase {
                "Git test rebase: rebasing "@ + commit + " onto "@ + base + "\n\n"@
            } else {
                "Git test merge: merging "@ + commit + " into "@ + base + "\n\n"@
            };
            let end = if mode == MergeStyle::Merge {
                "Test merge complete\n"@
            } else {
                Seq::empty()
            };
            git_merge_step(mode, root, base, commit, replies)->Done_0.output == head + log_entry(
                cmd(0),
                replies[0]->text@,
            ) + log_entry(cmd(1), replies[1]->text@) + log_entry(
                cmd(2),
                text::trimmed(replies[2]->text@),
            ) + end
        }),
{
    assert(replies.take(0).len() == 0);
    assert(replies.take(1)[0] == replies[0]);
    assert(replies.take(2)[0] == replies[0] && replies.take(2)[1] == replies[1]);
    assert forall|log: Seq<char>, cmd: CmdView, output: Seq<char>| #[trigger]
        logged(log, cmd, output) == log + log_entry(cmd, output) by {
        assert(logged(log, cmd, output) =~= log + log_entry(cmd, output));
    }
    let all = git_merge_step(mode, root, base, commit, replies)->Done_0.output;
    assert(all + Seq::<char>::empty() =~= all);
}

/// How each command of an integration with Git is run, and what a failure of it
/// fails with: the reason that was given, as a failure of what was being done.
#[verifier::spinoff_prover]
#[verifier::rlimit(50)]
pub proof fn law_git_integration_fails_with_what_went_wrong(
    mode: MergeStyle,
    root: Seq<char>,
    base: Seq<char>,
    commit: Seq<char>,
    replies: Seq<Reply>,
)
    ensures
        ({
            let step = git_merge_step(mode, root, base, commit, replies);
            let failed = |reason: Seq<char>|
                if mode == MergeStyle::Rebase {
                    step == MergeStepView::Fail(MergeErrorView::RebaseFailed(reason))
                } else {
                    step == MergeStepView::Fail(MergeErrorView::MergeFailed(reason))
                };
            let added = replies.len() > 0 && replies[0] is Output;
            let ended = added && replies.len() > 1 && replies[1] is Output;
            &&& replies.len() > 0 && replies[0] is Failed ==> step == MergeStepView::Fail(
                MergeErrorView::WorktreeCreateFailed(replies[0]->Failed_0@),
            )
            &&& added && replies.len() == 2 && replies[1] is Failed ==> step == MergeStepView::Run(
                script::run_of(git_worktree_remove(root, commit)),
            )
            &&& added && replies.len() > 2 && replies[1] is Failed ==> failed(
                replies[1]->Failed_0@,
            )
            &&& ended && replies.len() > 3 && !replies[1]->success ==> failed(replies[1]->text@)
            &&& ended && replies.len() > 3 && replies[1]->success && replies[2] is Failed ==> step
                == MergeStepView::Fail(
                MergeErrorView::BranchUpdateFailed(replies[2]->Failed_0@),
            )
            &&& step is Panic ==> ended && replies.len() > 3 && !revision::is_commit_id(
                text::trimmed(replies[2]->text@),
            )
            &&& step is Run ==> {
                let inv = step->Run_0;
                &&& replies.len() == 0 ==> inv.stderr == script::StderrMode::ToStdout && inv.output
                    == script::OutputMode::Read && !inv.unchecked
                &&& replies.len() == 1 ==> inv.stderr == script::StderrMode::ToStdout && inv.output
                    == script::OutputMode::Capture && inv.unchecked
                &&& replies.len() == 3 ==> inv.output == script::OutputMode::Inherit
                &&& replies.len() == 2 && ended && replies[1]->success ==> inv.output
                    == script::OutputMode::Read && inv.stderr == script::StderrMode::Inherit
                    && !inv.unchecked
            }
        }),
        git_worktree_remove(root, commit).program == "git"@,
        git_worktree_remove(root, commit).args =~= seq![
            "worktree"@,
            "remove"@,
            "--force"@,
            worktree_of(root, commit),
        ],
        git_worktree_remove(root, commit).dir == Some(root),
{
}

/// Without a known version control system the reason is why none was found.
pub proof fn law_integration_needs_a_system(
    error: VCSError,
    mode: MergeStyle,
    root: Seq<char>,
    base: Seq<char>,
    commit: Seq<char>,
    replies: Seq<Reply>,
)
    ensures
        test_merge_step(Err(error), mode, root, base, commit, replies) == MergeStepView::Fail(
            MergeErrorView::ConfigReadFailed(error::vcs_error_text(error)),
        ),
{
}

/// What an integration made holds what its parts hold.
pub proof fn law_integrations_hold_their_parts(made: TestMergeOutcome)
    ensures
        made@.commit_id == made.commit_id@,
        made@.change_id == made.change_id@,
        made@.output == made.output@,
{
}

} // verus!
