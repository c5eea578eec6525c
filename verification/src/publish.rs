//! Publication: the base branch moves to exactly the commit that was checked,
//! and only from exactly the commit that it was checked against.

use vstd::prelude::*;

use crate::duct_util;
use crate::duct_util::{Cmd, CmdView};
use crate::error;
use crate::error::{MergeError, MergeErrorView, VCSError};
use crate::jj_merge;
use crate::jj_output;
use crate::revision::{ChangeId, CommitId, ResolvedRevision, ResolvedRevisionView};
use crate::script;
use crate::script::{Invocation, Reply, Step, StepView};
use crate::text;
use crate::vcs::VCS;

verus! {

/// What the base names after a publication.
#[derive(Debug)]
pub struct LandingOutcome {
    pub commit_id: CommitId,
    pub change_id: ChangeId,
    /// The commands that ran, with their output.
    pub output: String,
}

/// What a publication that did not fail came to.
#[derive(Debug)]
pub enum PublicationOutcome {
    /// The base moved, and it names this.
    Verified(LandingOutcome),
    /// The base was moved, and what it names could not be established.
    AppliedUnverified { commit_id: CommitId, output: String },
}

/// What a [`PublicationOutcome`] holds.
pub enum PublicationView {
    Verified { commit_id: Seq<char>, change_id: Seq<char>, output: Seq<char> },
    AppliedUnverified { commit_id: Seq<char>, output: Seq<char> },
}

impl View for PublicationOutcome {
    type V = PublicationView;

    open spec fn view(&self) -> PublicationView {
        match *self {
            PublicationOutcome::Verified(landing) => PublicationView::Verified {
                commit_id: landing.commit_id@,
                change_id: landing.change_id@,
                output: landing.output@,
            },
            PublicationOutcome::AppliedUnverified { commit_id, output } =>
                PublicationView::AppliedUnverified { commit_id: commit_id@, output: output@ },
        }
    }
}

/// The next step of a publication.
pub type PublishStep = Step<PublicationOutcome, MergeError>;

/// What a [`PublishStep`] holds.
pub type PublishStepView = StepView<PublicationView, MergeErrorView>;

/// Moves a Git branch, if it still names the expected commit.
pub open spec fn git_update_ref(
    root: Seq<char>,
    branch: Seq<char>,
    expected: Seq<char>,
    target: Seq<char>,
) -> CmdView {
    duct_util::bare_command("git"@).arg("update-ref"@).arg("refs/heads/"@ + branch).arg(target).arg(
        expected,
    ).dir(root)
}

/// Moves a Jujutsu bookmark, if it still names the expected commit.
pub open spec fn jj_bookmark_move(
    root: Seq<char>,
    branch: Seq<char>,
    expected: Seq<char>,
    target: Seq<char>,
) -> CmdView {
    duct_util::bare_command("jj"@).arg("--ignore-working-copy"@).arg("--config"@).arg(
        "ui.quiet=false"@,
    ).arg("--color=never"@).arg("--no-pager"@).arg("bookmark"@).arg("move"@).arg(branch).arg(
        "--from"@,
    ).arg(branch + " & "@ + expected).arg("--to"@).arg(target).dir(root)
}

/// The command that moves the base.
pub open spec fn publication_command(
    vcs: VCS,
    root: Seq<char>,
    branch: Seq<char>,
    expected: Seq<char>,
    target: Seq<char>,
) -> CmdView {
    match vcs {
        VCS::Git => git_update_ref(root, branch, expected, target),
        VCS::Jujutsu => jj_bookmark_move(root, branch, expected, target),
    }
}

/// Whether Jujutsu says that it moved nothing.
pub open spec fn nothing_moved(output: Seq<char>) -> bool {
    text::lines(output).contains("No bookmarks to update."@)
}

/// Whether an output names the target, by its change and its commit.
pub open spec fn names_target(output: Seq<char>, target: Seq<char>) -> bool {
    jj_output::is_identity(output) && jj_output::identity(output).1 == target
}

/// What the base names is looked up after a move with Jujutsu. Where nothing
/// was moved, and nothing had to be, anything but the target means that the
/// base had moved before: not applied. Else the move was applied, verified or
/// not.
pub open spec fn jj_verified(
    target: Seq<char>,
    noop: bool,
    log: Seq<char>,
    reply: Reply,
) -> PublishStepView {
    match reply {
        Reply::Failed(m) => if noop {
            StepView::Fail(MergeErrorView::BranchUpdateFailed(m@))
        } else {
            StepView::Done(
                PublicationView::AppliedUnverified {
                    commit_id: target,
                    output: log + "identity verification failed: "@ + m@ + "\n"@,
                },
            )
        },
        Reply::Output { text, .. } => if names_target(text@, target) {
            StepView::Done(
                PublicationView::Verified {
                    commit_id: target,
                    change_id: jj_output::identity(text@).0,
                    output: log + text@,
                },
            )
        } else if noop {
            StepView::Fail(
                MergeErrorView::BranchUpdateFailed(
                    "checked Jujutsu base moved during no-op publication"@,
                ),
            )
        } else {
            StepView::Done(
                PublicationView::AppliedUnverified {
                    commit_id: target,
                    output: log + "identity verification returned an unexpected target: "@
                        + text::debug_text(text@) + "\n"@,
                },
            )
        },
    }
}

/// Publication with Jujutsu.
pub open spec fn jj_publish_step(
    root: Seq<char>,
    branch: Seq<char>,
    expected: Seq<char>,
    target: Seq<char>,
    replies: Seq<Reply>,
) -> PublishStepView {
    let command = jj_bookmark_move(root, branch, expected, target);
    let verify = jj_merge::jj_log(root, branch, jj_merge::IDENTITY_TEMPLATE@);
    if replies.len() == 0 {
        StepView::Run(script::read_all_of(command))
    } else {
        match replies[0] {
            Reply::Failed(m) => StepView::Fail(MergeErrorView::BranchUpdateFailed(m@)),
            Reply::Output { text, .. } => if nothing_moved(text@) && target != expected {
                StepView::Fail(
                    MergeErrorView::BranchUpdateFailed(
                        "checked Jujutsu base no longer has the expected target"@,
                    ),
                )
            } else if replies.len() == 1 {
                StepView::Run(script::read_of(verify))
            } else {
                jj_verified(
                    target,
                    nothing_moved(text@),
                    duct_util::log_text(command) + text@ + "\n"@ + duct_util::log_text(verify),
                    replies[1],
                )
            },
        }
    }
}

/// Publication with Git, whose update of a branch tells by itself whether it
/// was applied.
pub open spec fn git_publish_step(
    root: Seq<char>,
    branch: Seq<char>,
    expected: Seq<char>,
    prepared: ResolvedRevisionView,
    replies: Seq<Reply>,
) -> PublishStepView {
    let command = git_update_ref(root, branch, expected, prepared.commit_id);
    if replies.len() == 0 {
        StepView::Run(script::read_all_of(command))
    } else {
        match replies[0] {
            Reply::Failed(m) => StepView::Fail(MergeErrorView::BranchUpdateFailed(m@)),
            Reply::Output { text, .. } => StepView::Done(
                PublicationView::Verified {
                    commit_id: prepared.commit_id,
                    change_id: prepared.change_id,
                    output: duct_util::log_text(command) + text@,
                },
            ),
        }
    }
}

/// Publishes what was prepared.
pub open spec fn publish_step(
    vcs: Result<VCS, VCSError>,
    root: Seq<char>,
    branch: Seq<char>,
    expected: Seq<char>,
    prepared: ResolvedRevisionView,
    replies: Seq<Reply>,
) -> PublishStepView {
    match vcs {
        Err(e) => StepView::Fail(MergeErrorView::ConfigReadFailed(error::vcs_error_text(e))),
        Ok(VCS::Git) => git_publish_step(root, branch, expected, prepared, replies),
        Ok(VCS::Jujutsu) => jj_publish_step(root, branch, expected, prepared.commit_id, replies),
    }
}

fn says_nothing_moved(output: &str) -> (res: bool)
    ensures
        res == nothing_moved(output@),
{
    let lines = text::split_lines(output);
    let ghost all = text::lines(output@);
    let mut i: usize = 0;
    while i < lines.len()
        invariant
            i <= lines.len(),
            text::texts(lines@) == all,
            all == text::lines(output@),
            forall|j: int| 0 <= j < i ==> all[j] != "No bookmarks to update."@,
        decreases lines.len() - i,
    {
        assert(lines@[i as int]@ == all[i as int]);
        if text::same_text(lines[i].as_str(), "No bookmarks to update.") {
            assert(all[i as int] == "No bookmarks to update."@);
            return true;
        }
        i = i + 1;
    }
    false
}

fn publish_jj(
    root_dir: &str,
    base_branch: &str,
    expected_base: &CommitId,
    prepared: &CommitId,
    replies: &Vec<Reply>,
) -> (res: PublishStep)
    ensures
        res@ == jj_publish_step(root_dir@, base_branch@, expected_base@, prepared@, replies@),
{
    let expected_target = base_branch.to_owned().concat(" & ").concat(expected_base.as_str());
    let bookmark_move = Cmd::new("jj").arg("--ignore-working-copy").arg("--config").arg(
        "ui.quiet=false",
    ).arg("--color=never").arg("--no-pager").arg("bookmark").arg("move").arg(base_branch).arg(
        "--from",
    ).arg(expected_target.as_str()).arg("--to").arg(prepared.as_str()).dir(root_dir);
    let mut log = bookmark_move.log_line().display();
    if replies.len() == 0 {
        return Step::Run(Invocation::read_all(bookmark_move));
    }
    let noop = match &replies[0] {
        Reply::Failed(m) => {
            return Step::Fail(MergeError::BranchUpdateFailed(m.clone()));
        },
        Reply::Output { text, .. } => {
            log.append(text.as_str());
            log.append("\n");
            says_nothing_moved(text.as_str())
        },
    };
    if noop && !text::same_text(prepared.as_str(), expected_base.as_str()) {
        return Step::Fail(
            MergeError::BranchUpdateFailed(
                "checked Jujutsu base no longer has the expected target".to_owned(),
            ),
        );
    }
    let verify = Cmd::new("jj").arg("log").arg("-r").arg(base_branch).arg("-T").arg(
        jj_merge::IDENTITY_TEMPLATE,
    ).arg("--no-graph").arg("--color=never").dir(root_dir);
    if replies.len() == 1 {
        return Step::Run(Invocation::read(verify));
    }
    log.append(verify.log_line().display().as_str());
    match &replies[1] {
        Reply::Failed(m) => {
            if noop {
                return Step::Fail(MergeError::BranchUpdateFailed(m.clone()));
            }
            let output = log.concat("identity verification failed: ").concat(m.as_str()).concat(
                "\n",
            );
            Step::Done(PublicationOutcome::AppliedUnverified { commit_id: prepared.clone(), output })
        },
        Reply::Output { text, .. } => {
            match jj_output::parse_identity(text.as_str()) {
                Some((change_id, commit_id)) => {
                    if text::same_text(commit_id.as_str(), prepared.as_str()) {
                        let output = log.concat(text.as_str());
                        return Step::Done(
                            PublicationOutcome::Verified(
                                LandingOutcome { commit_id, change_id, output },
                            ),
                        );
                    }
                },
                None => {},
            }
            if noop {
                return Step::Fail(
                    MergeError::BranchUpdateFailed(
                        "checked Jujutsu base moved during no-op publication".to_owned(),
                    ),
                );
            }
            let output = log.concat(
                "identity verification returned an unexpected target: ",
            ).concat(text::debug_of(text.as_str()).as_str()).concat("\n");
            Step::Done(PublicationOutcome::AppliedUnverified { commit_id: prepared.clone(), output })
        },
    }
}

/// Publishes exactly the prepared integration, if the base still names the
/// commit that it was checked against, given the replies of the commands run so far.
pub fn publish_prepared_candidate(
    vcs: Result<VCS, VCSError>,
    root_dir: &str,
    base_branch: &str,
    expected_base: &CommitId,
    prepared: &ResolvedRevision,
    replies: &Vec<Reply>,
) -> (res: PublishStep)
    ensures
        res@ == publish_step(
            vcs,
            root_dir@,
            base_branch@,
            expected_base@,
            prepared@,
            replies@,
        ),
{
    match vcs {
        Err(e) => Step::Fail(MergeError::ConfigReadFailed(e.message())),
        Ok(VCS::Jujutsu) => publish_jj(
            root_dir,
            base_branch,
            expected_base,
            &prepared.commit_id,
            replies,
        ),
        Ok(VCS::Git) => {
            let reference = String::from_str("refs/heads/").concat(base_branch);
            let update_ref = Cmd::new("git").arg("update-ref").arg(reference.as_str()).arg(
                prepared.commit_id.as_str(),
            ).arg(expected_base.as_str()).dir(root_dir);
            let log = update_ref.log_line().display();
            if replies.len() == 0 {
                return Step::Run(Invocation::read_all(update_ref));
            }
            match &replies[0] {
                Reply::Failed(m) => Step::Fail(MergeError::BranchUpdateFailed(m.clone())),
                Reply::Output { text, .. } => {
                    let output = log.concat(text.as_str());
                    Step::Done(
                        PublicationOutcome::Verified(
                            LandingOutcome {
                                commit_id: prepared.commit_id.clone(),
                                change_id: prepared.change_id.clone(),
                                output,
                            },
                        ),
                    )
                },
            }
        },
    }
}

/// Only the checked commit is ever published, whatever the tools reply: it is
/// what is landed, and what a publication that could not be verified was for.
pub proof fn law_only_the_checked_commit_lands(
    vcs: Result<VCS, VCSError>,
    root: Seq<char>,
    branch: Seq<char>,
    expected: Seq<char>,
    prepared: ResolvedRevisionView,
    replies: Seq<Reply>,
)
    ensures
        publish_step(vcs, root, branch, expected, prepared, replies) matches StepView::Done(
            PublicationView::Verified { commit_id, .. },
        ) ==> commit_id == prepared.commit_id,
        publish_step(vcs, root, branch, expected, prepared, replies) matches StepView::Done(
            PublicationView::AppliedUnverified { commit_id, .. },
        ) ==> commit_id == prepared.commit_id,
{
}

/// The base moves only by one command, which names the checked commit and the
/// commit that it was checked against. Every other command only asks.
pub proof fn law_publication_compares_and_swaps(
    vcs: VCS,
    root: Seq<char>,
    branch: Seq<char>,
    expected: Seq<char>,
    prepared: ResolvedRevisionView,
    replies: Seq<Reply>,
)
    ensures
        publish_step(Ok(vcs), root, branch, expected, prepared, replies) matches StepView::Run(inv)
            ==> {
            ||| inv.cmd == publication_command(vcs, root, branch, expected, prepared.commit_id)
            ||| inv.cmd.args[0] == "log"@
        },
{
}

/// A base that has moved is not overwritten and the run is not landed: where
/// the tool refuses the move, or says that it moved nothing though something
/// had to move, publication fails.
pub proof fn law_moved_base_is_rejected(
    vcs: VCS,
    root: Seq<char>,
    branch: Seq<char>,
    expected: Seq<char>,
    prepared: ResolvedRevisionView,
    replies: Seq<Reply>,
)
    requires
        replies.len() > 0,
    ensures
        replies[0] is Failed ==> publish_step(
            Ok(vcs),
            root,
            branch,
            expected,
            prepared,
            replies,
        ) == PublishStepView::Fail(MergeErrorView::BranchUpdateFailed(replies[0]->Failed_0@)),
        vcs == VCS::Jujutsu && replies[0] is Output && nothing_moved(replies[0]->text@)
            && prepared.commit_id != expected ==> publish_step(
            Ok(vcs),
            root,
            branch,
            expected,
            prepared,
            replies,
        ) is Fail,
{
}

/// The command that publishes is literally a compare and swap: Git is given the
/// branch, the checked commit and the commit that the branch must still name;
/// Jujutsu moves the bookmark from the intersection of its name with that commit to
/// the checked one.
pub proof fn law_publication_is_conditional(
    root: Seq<char>,
    branch: Seq<char>,
    expected: Seq<char>,
    prepared: ResolvedRevisionView,
)
    ensures
        publish_step(Ok(VCS::Git), root, branch, expected, prepared, Seq::empty()) matches StepView::Run(
            inv,
        ) && !inv.unchecked && duct_util::is_command(
            inv.cmd,
            "git"@,
            seq!["update-ref"@, "refs/heads/"@ + branch, prepared.commit_id, expected],
            root,
        ),
        publish_step(Ok(VCS::Jujutsu), root, branch, expected, prepared, Seq::empty())
            matches StepView::Run(inv) && !inv.unchecked && duct_util::is_command(
            inv.cmd,
            "jj"@,
            seq![
                "--ignore-working-copy"@,
                "--config"@,
                "ui.quiet=false"@,
                "--color=never"@,
                "--no-pager"@,
                "bookmark"@,
                "move"@,
                branch,
                "--from"@,
                branch + " & "@ + expected,
                "--to"@,
                prepared.commit_id,
            ],
            root,
        ),
{
}

/// An update of a Git branch that succeeded is a verified publication of the
/// prepared commit and change; one that failed is none.
pub proof fn law_git_publication_is_decided_by_the_update(
    root: Seq<char>,
    branch: Seq<char>,
    expected: Seq<char>,
    prepared: ResolvedRevisionView,
    replies: Seq<Reply>,
)
    requires
        replies.len() > 0,
    ensures
        replies[0] is Output ==> (publish_step(
            Ok(VCS::Git),
            root,
            branch,
            expected,
            prepared,
            replies,
        ) matches StepView::Done(PublicationView::Verified { commit_id, change_id, .. })
            && commit_id == prepared.commit_id && change_id == prepared.change_id),
        replies[0] is Failed ==> publish_step(
            Ok(VCS::Git),
            root,
            branch,
            expected,
            prepared,
            replies,
        ) is Fail,
{
}

/// Whether a reply is a change and the given commit, in two words.
pub open spec fn identifies(reply: Reply, target: Seq<char>) -> bool {
    reply is Output && ({
        let words = text::words(reply->text@);
        words.len() == 2 && words[0].len() == 32 && text::all_lower(words[0]) && words[1] == target
            && target.len() == 40 && text::all_hex(target)
    })
}

/// After a move with Jujutsu it is asked what the bookmark names. The publication
/// is verified exactly where that is the prepared commit, under the change that is
/// named with it. Otherwise a move that was made is unverified, and one that was
/// not needed failed: the base had moved before.
#[verifier::spinoff_prover]
#[verifier::rlimit(100)]
pub proof fn law_jj_publication_is_verified_by_asking(
    root: Seq<char>,
    branch: Seq<char>,
    expected: Seq<char>,
    prepared: ResolvedRevisionView,
    replies: Seq<Reply>,
)
    requires
        replies.len() > 0,
        replies[0] is Output,
    ensures
        ({
            let step = publish_step(
                Ok(VCS::Jujutsu),
                root,
                branch,
                expected,
                prepared,
                replies,
            );
            let still = text::lines(replies[0]->text@).contains("No bookmarks to update."@);
            let same = prepared.commit_id == expected;
            &&& still && !same ==> step is Fail
            &&& replies.len() == 1 && (!still || same) ==> (step matches StepView::Run(inv)
                && duct_util::is_command(
                inv.cmd,
                "jj"@,
                seq![
                    "log"@,
                    "-r"@,
                    branch,
                    "-T"@,
                    "self.change_id() ++ \" \" ++ self.commit_id() ++ \"\\n\""@,
                    "--no-graph"@,
                    "--color=never"@,
                ],
                root,
            ))
            &&& replies.len() > 1 && (!still || same) ==> {
                &&& identifies(replies[1], prepared.commit_id) <==> (step is Done
                    && step->Done_0 is Verified)
                &&& identifies(replies[1], prepared.commit_id) ==> step->Done_0->change_id
                    == text::words(replies[1]->text@)[0]
                &&& !identifies(replies[1], prepared.commit_id) && !still ==> (step is Done
                    && step->Done_0 is AppliedUnverified)
                &&& !identifies(replies[1], prepared.commit_id) && still ==> step is Fail
            }
        }),
{
}

/// What a publication leaves in the log: the command that moves the base, what it
/// printed, and for Jujutsu the question after it with its answer, or why that
/// could not be had or used.
#[verifier::spinoff_prover]
pub proof fn law_publication_is_logged(
    root: Seq<char>,
    branch: Seq<char>,
    expected: Seq<char>,
    prepared: ResolvedRevisionView,
    replies: Seq<Reply>,
)
    ensures
        publish_step(Ok(VCS::Git), root, branch, expected, prepared, replies) matches StepView::Done(
            done,
        ) ==> {
            let cmd = publish_step(
                Ok(VCS::Git),
                root,
                branch,
                expected,
                prepared,
                replies.take(0),
            )->Run_0.cmd;
            done->Verified_output =~= "> "@ + duct_util::shell_text(cmd) + "\n"@
                + replies[0]->text@
        },
        publish_step(Ok(VCS::Jujutsu), root, branch, expected, prepared, replies)
            matches StepView::Done(done) ==> {
            let at = |k: int|
                publish_step(
                    Ok(VCS::Jujutsu),
                    root,
                    branch,
                    expected,
                    prepared,
                    replies.take(k),
                )->Run_0.cmd;
            let log = "> "@ + duct_util::shell_text(at(0)) + "\n"@ + replies[0]->text@ + "\n"@
                + "> "@ + duct_util::shell_text(at(1)) + "\n"@;
            &&& done is Verified ==> done->Verified_output =~= log + replies[1]->text@
            &&& done is AppliedUnverified && replies[1] is Failed
                ==> done->AppliedUnverified_output =~= log + "identity verification failed: "@
                + replies[1]->Failed_0@ + "\n"@
            &&& done is AppliedUnverified && replies[1] is Output
                ==> done->AppliedUnverified_output =~= log
                + "identity verification returned an unexpected target: "@ + text::debug_text(
                replies[1]->text@,
            ) + "\n"@
            &&& done is AppliedUnverified ==> done->AppliedUnverified_commit_id
                == prepared.commit_id
        },
{
    assert(replies.take(0).len() == 0);
    if replies.len() > 0 {
        assert(replies.take(1)[0] == replies[0]);
    }
}

/// What a publication fails with: why there is no system, why the base could not be
/// moved or asked about, or that it had moved.
pub proof fn law_publication_fails_with_what_went_wrong(
    vcs: VCS,
    error: VCSError,
    root: Seq<char>,
    branch: Seq<char>,
    expected: Seq<char>,
    prepared: ResolvedRevisionView,
    replies: Seq<Reply>,
)
    ensures
        publish_step(Err(error), root, branch, expected, prepared, replies) == PublishStepView::Fail(
            MergeErrorView::ConfigReadFailed(error::vcs_error_text(error)),
        ),
        publish_step(Ok(vcs), root, branch, expected, prepared, replies) matches StepView::Fail(e)
            ==> {
            let still = text::lines(replies[0]->text@).contains("No bookmarks to update."@);
            &&& replies.len() > 0
            &&& replies[0] is Failed ==> e == MergeErrorView::BranchUpdateFailed(
                replies[0]->Failed_0@,
            )
            &&& replies[0] is Output ==> {
                &&& vcs == VCS::Jujutsu
                &&& still
                &&& prepared.commit_id != expected ==> e == MergeErrorView::BranchUpdateFailed(
                    "checked Jujutsu base no longer has the expected target"@,
                )
                &&& prepared.commit_id == expected && replies[1] is Failed ==> e
                    == MergeErrorView::BranchUpdateFailed(replies[1]->Failed_0@)
                &&& prepared.commit_id == expected && replies[1] is Output ==> e
                    == MergeErrorView::BranchUpdateFailed(
                    "checked Jujutsu base moved during no-op publication"@,
                )
            }
        },
        !(publish_step(Ok(vcs), root, branch, expected, prepared, replies) is Panic),
        publish_step(Ok(vcs), root, branch, expected, prepared, replies) matches StepView::Run(inv)
            ==> {
            &&& !inv.unchecked
            &&& inv.output == script::OutputMode::Read
            &&& replies.len() == 0 ==> inv.stderr == script::StderrMode::ToStdout
            &&& replies.len() == 1 ==> inv.stderr == script::StderrMode::Inherit
        },
{
}

/// What a publication came to holds what its parts hold.
pub proof fn law_publications_hold_their_parts(made: PublicationOutcome)
    ensures
        made matches PublicationOutcome::Verified(landing) ==> made@ == (
        PublicationView::Verified {
            commit_id: landing.commit_id@,
            change_id: landing.change_id@,
            output: landing.output@,
        }),
        made matches PublicationOutcome::AppliedUnverified { commit_id, output } ==> made@ == (
        PublicationView::AppliedUnverified { commit_id: commit_id@, output: output@ }),
{
}

} // verus!
