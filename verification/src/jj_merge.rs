//! Test integration with Jujutsu, in operations that stay apart until the
//! exact identity of their result is known.

use vstd::prelude::*;

use crate::duct_util;
use crate::duct_util::{Cmd, CmdView};
use crate::error::{MergeError, MergeErrorView};
use crate::jj_output;
use crate::revision;
use crate::revision::{ChangeId, CommitId, ResolvedRevision};
use crate::script;
use crate::script::{Invocation, Reply, Step, StepView};
use crate::test_merge;
use crate::test_merge::{MergeStep, MergeStepView, TestMergeOutcome, TestMergeView};
use crate::text;

verus! {

/// A commit summary that no template alias of the user can change.
pub const JJ_MACHINE_COMMIT_SUMMARY_CONFIG: &'static str =
    "templates.commit_summary=\"self.change_id() ++ \\\" \\\" ++ self.commit_id()\"";

/// Prints a change ID.
pub const CHANGE_TEMPLATE: &'static str = "self.change_id()";

/// Prints a change ID and a commit ID on a line.
pub const IDENTITY_TEMPLATE: &'static str =
    "self.change_id() ++ \" \" ++ self.commit_id() ++ \"\\n\"";

/// Prints a line for each revision.
pub const COUNT_TEMPLATE: &'static str = "\"revision\\n\"";

/// Asks for revisions, in the form that a template gives.
pub open spec fn jj_log(root: Seq<char>, revset: Seq<char>, template: Seq<char>) -> CmdView {
    duct_util::bare_command("jj"@).arg("log"@).arg("-r"@).arg(revset).arg("-T"@).arg(template).arg(
        "--no-graph"@,
    ).arg("--color=never"@).dir(root)
}

fn jj_log_cmd(root_dir: &str, revset: &str, template: &str) -> (res: Cmd)
    ensures
        res@ == jj_log(root_dir@, revset@, template@),
{
    Cmd::new("jj").arg("log").arg("-r").arg(revset).arg("-T").arg(template).arg("--no-graph").arg(
        "--color=never",
    ).dir(root_dir)
}

/// Asks for revisions as an operation sees them.
pub open spec fn jj_log_at(
    root: Seq<char>,
    operation: Seq<char>,
    revset: Seq<char>,
    template: Seq<char>,
) -> CmdView {
    duct_util::bare_command("jj"@).arg("--at-operation"@).arg(operation).arg("log"@).arg("-r"@).arg(
        revset,
    ).arg("-T"@).arg(template).arg("--no-graph"@).arg("--color=never"@).dir(root)
}

fn jj_log_at_cmd(root_dir: &str, operation: &str, revset: &str, template: &str) -> (res: Cmd)
    ensures
        res@ == jj_log_at(root_dir@, operation@, revset@, template@),
{
    Cmd::new("jj").arg("--at-operation").arg(operation).arg("log").arg("-r").arg(revset).arg(
        "-T",
    ).arg(template).arg("--no-graph").arg("--color=never").dir(root_dir)
}

/// Asks what Jujutsu can do.
pub open spec fn jj_help(root: Seq<char>) -> CmdView {
    duct_util::bare_command("jj"@).arg("--help"@).dir(root)
}

/// Makes an operation part of the repository.
pub open spec fn jj_integrate(root: Seq<char>, operation: Seq<char>) -> CmdView {
    duct_util::bare_command("jj"@).arg("--ignore-working-copy"@).arg("op"@).arg("integrate"@).arg(
        operation,
    ).dir(root)
}

fn integrate_jj_operation(root_dir: &str, operation: &str) -> (res: Cmd)
    ensures
        res@ == jj_integrate(root_dir@, operation@),
{
    Cmd::new("jj").arg("--ignore-working-copy").arg("op").arg("integrate").arg(operation).dir(
        root_dir,
    )
}

/// Brings the working copy up to date with the operations of others.
pub open spec fn jj_update_stale(root: Seq<char>) -> CmdView {
    duct_util::bare_command("jj"@).arg("workspace"@).arg("update-stale"@).dir(root)
}

fn update_stale(root_dir: &str) -> (res: Cmd)
    ensures
        res@ == jj_update_stale(root_dir@),
{
    Cmd::new("jj").arg("workspace").arg("update-stale").dir(root_dir)
}

/// What is wrong with the answer to [`jj_help`]: Jujutsu could not be asked, or
/// it cannot leave operations apart.
pub open spec fn unsupported(reply: Reply) -> Option<MergeErrorView> {
    match reply {
        Reply::Failed(m) => Some(MergeErrorView::UnsupportedJj(m@)),
        Reply::Output { text, .. } => if text::holds_text(
            text@,
            "--no-integrate-operation"@,
        ) {
            None
        } else {
            Some(
                MergeErrorView::UnsupportedJj(
                    "this jj version lacks required --no-integrate-operation support"@,
                ),
            )
        },
    }
}

/// Requires that Jujutsu can leave operations apart.
pub fn require_unintegrated_operations(reply: &Reply) -> (res: Result<(), MergeError>)
    ensures
        match unsupported(*reply) {
            None => res is Ok,
            Some(error) => res matches Err(e) && e@ == error,
        },
{
    match reply {
        Reply::Failed(m) => Err(MergeError::UnsupportedJj(m.clone())),
        Reply::Output { text, .. } => {
            if text::contains(text.as_str(), "--no-integrate-operation") {
                Ok(())
            } else {
                Err(
                    MergeError::UnsupportedJj(
                        "this jj version lacks required --no-integrate-operation support".to_owned(),
                    ),
                )
            }
        },
    }
}

/// The submitted revisions that the base lacks.
#[derive(Debug)]
pub struct JjUniqueMutableStack {
    /// The change of the candidate.
    pub candidate_change_id: ChangeId,
    /// The commits that only the candidate has, the oldest first.
    pub unique_stack: Vec<CommitId>,
    /// The commands that ran, with their output.
    pub output: String,
}

/// What a [`JjUniqueMutableStack`] holds.
pub struct JjStackView {
    pub candidate_change_id: Seq<char>,
    pub unique_stack: Seq<Seq<char>>,
    pub output: Seq<char>,
}

impl View for JjUniqueMutableStack {
    type V = JjStackView;

    open spec fn view(&self) -> JjStackView {
        JjStackView {
            candidate_change_id: self.candidate_change_id@,
            unique_stack: jj_output::commit_texts(self.unique_stack@),
            output: self.output@,
        }
    }
}

/// The next step of finding the stack.
pub type StackStep = Step<JjUniqueMutableStack, MergeError>;

/// What a [`StackStep`] holds.
pub type StackStepView = StepView<JjStackView, MergeErrorView>;

/// The revisions that a revision descends from, itself among them.
pub open spec fn ancestors(revision: Seq<char>) -> Seq<char> {
    "::"@ + revision
}

/// The commits of revisions, the last one first.
pub open spec fn stack_of(ids: Seq<(Seq<char>, Seq<char>)>) -> Seq<Seq<char>> {
    ids.map_values(|id: (Seq<char>, Seq<char>)| id.1).reverse()
}

/// The commits that only the candidate has.
pub open spec fn stack_suffix(
    root: Seq<char>,
    base: Seq<char>,
    commit: Seq<char>,
    change: Seq<char>,
    log: Seq<char>,
    replies: Seq<Reply>,
) -> StackStepView {
    let query = jj_log(
        root,
        "::"@ + commit + " ~ ::"@ + base,
        IDENTITY_TEMPLATE@,
    );
    if replies.len() == 3 {
        StepView::Run(script::read_of(query))
    } else {
        match replies[3] {
            Reply::Failed(m) => StepView::Fail(MergeErrorView::ChangeIdFailed(m@)),
            Reply::Output { text, .. } => match jj_output::identities(text@) {
                None => StepView::Fail(jj_output::bad_output(text@)),
                Some(ids) => StepView::Done(
                    JjStackView {
                        candidate_change_id: change,
                        unique_stack: stack_of(ids),
                        output: log + duct_util::log_text(query) + text@ + "\n"@,
                    },
                ),
            },
        }
    }
}

/// The changes that the candidate descends from: none of them may stand in
/// the base as another commit.
pub open spec fn stack_ancestry(
    root: Seq<char>,
    base: Seq<char>,
    commit: Seq<char>,
    change: Seq<char>,
    base_ids: Seq<(Seq<char>, Seq<char>)>,
    log: Seq<char>,
    replies: Seq<Reply>,
) -> StackStepView {
    let query = jj_log(root, ancestors(commit), IDENTITY_TEMPLATE@);
    if replies.len() == 2 {
        StepView::Run(script::read_of(query))
    } else {
        match replies[2] {
            Reply::Failed(m) => StepView::Fail(MergeErrorView::ChangeIdFailed(m@)),
            Reply::Output { text, .. } => match jj_output::identities(text@) {
                None => StepView::Fail(jj_output::bad_output(text@)),
                Some(ids) => match jj_output::first_conflict(base_ids, ids) {
                    Some(other) => StepView::Fail(
                        MergeErrorView::RebaseFailed(
                            "checked base contains a different revision of submitted change "@
                                + other,
                        ),
                    ),
                    None => stack_suffix(
                        root,
                        base,
                        commit,
                        change,
                        log + duct_util::log_text(query) + text@ + "\n"@,
                        replies,
                    ),
                },
            },
        }
    }
}

/// Finds the submitted revisions that the base lacks.
pub open spec fn stack_step(
    root: Seq<char>,
    base: Seq<char>,
    commit: Seq<char>,
    replies: Seq<Reply>,
) -> StackStepView {
    let own = jj_log(root, commit, CHANGE_TEMPLATE@);
    let below = jj_log(root, ancestors(base), IDENTITY_TEMPLATE@);
    if replies.len() == 0 {
        StepView::Run(script::read_of(own))
    } else {
        match replies[0] {
            Reply::Failed(m) => StepView::Fail(MergeErrorView::ChangeIdFailed(m@)),
            Reply::Output { text, .. } => match jj_output::single_change_id(text@) {
                None => StepView::Fail(jj_output::bad_output(text@)),
                Some(change) => if replies.len() == 1 {
                    StepView::Run(script::read_of(below))
                } else {
                    match replies[1] {
                        Reply::Failed(m) => StepView::Fail(MergeErrorView::ChangeIdFailed(m@)),
                        Reply::Output { text, .. } => match jj_output::identities(text@) {
                            None => StepView::Fail(jj_output::bad_output(text@)),
                            Some(base_ids) => stack_ancestry(
                                root,
                                base,
                                commit,
                                change,
                                base_ids,
                                test_merge::logged(
                                    duct_util::log_text(own) + change + "\n\n"@,
                                    below,
                                    text@,
                                ),
                                replies,
                            ),
                        },
                    }
                },
            },
        }
    }
}

fn reversed_commits(ids: &Vec<(ChangeId, CommitId)>) -> (res: Vec<CommitId>)
    ensures
        jj_output::commit_texts(res@) == stack_of(jj_output::identity_texts(ids@)),
{
    let mut stack: Vec<CommitId> = Vec::new();
    let ghost wanted = stack_of(jj_output::identity_texts(ids@));
    let mut i: usize = ids.len();
    while i > 0
        invariant
            i <= ids.len(),
            wanted == stack_of(jj_output::identity_texts(ids@)),
            jj_output::commit_texts(stack@) == wanted.take(ids.len() - i),
        decreases i,
    {
        i = i - 1;
        let ghost before = stack@;
        stack.push(ids[i].1.clone());
        proof {
            assert(jj_output::commit_texts(stack@) =~= jj_output::commit_texts(before).push(
                ids@[i as int].1@,
            ));
            assert(wanted[ids.len() - i - 1] == ids@[i as int].1@);
            assert(jj_output::commit_texts(stack@) =~= wanted.take(ids.len() - i));
        }
    }
    assert(wanted.take(ids.len() as int) =~= wanted);
    stack
}

/// Finds the submitted revisions that the base lacks, given the replies of the
/// commands run so far.
pub fn jj_unique_mutable_stack(root_dir: &str, base: &str, commit: &str, replies: &Vec<Reply>) -> (res:
    StackStep)
    ensures
        res@ == stack_step(root_dir@, base@, commit@, replies@),
{
    let own = jj_log_cmd(root_dir, commit, CHANGE_TEMPLATE);
    let mut log = own.log_line().display();
    if replies.len() == 0 {
        return Step::Run(Invocation::read(own));
    }
    let change = match &replies[0] {
        Reply::Failed(m) => {
            return Step::Fail(MergeError::ChangeIdFailed(m.clone()));
        },
        Reply::Output { text, .. } => match jj_output::parse_single_full_jj_change_id(
            text.as_str(),
        ) {
            Ok(id) => id,
            Err(e) => return Step::Fail(e),
        },
    };
    log.append(change.as_str());
    log.append("\n\n");

    let below = jj_log_cmd(
        root_dir,
        String::from_str("::").concat(base).as_str(),
        IDENTITY_TEMPLATE,
    );
    if replies.len() == 1 {
        return Step::Run(Invocation::read(below));
    }
    let base_ids = match &replies[1] {
        Reply::Failed(m) => {
            return Step::Fail(MergeError::ChangeIdFailed(m.clone()));
        },
        Reply::Output { text, .. } => {
            log.append(below.log_line().display().as_str());
            log.append(text.as_str());
            log.append("\n\n");
            match jj_output::parse_full_jj_revision_ids(text.as_str()) {
                Ok(ids) => ids,
                Err(e) => return Step::Fail(e),
            }
        },
    };

    let ancestry = jj_log_cmd(
        root_dir,
        String::from_str("::").concat(commit).as_str(),
        IDENTITY_TEMPLATE,
    );
    if replies.len() == 2 {
        return Step::Run(Invocation::read(ancestry));
    }
    match &replies[2] {
        Reply::Failed(m) => {
            return Step::Fail(MergeError::ChangeIdFailed(m.clone()));
        },
        Reply::Output { text, .. } => {
            log.append(ancestry.log_line().display().as_str());
            log.append(text.as_str());
            log.append("\n");
            match jj_output::parse_full_jj_revision_ids(text.as_str()) {
                Ok(ids) => match jj_output::find_conflict(&base_ids, &ids) {
                    Some(other) => {
                        return Step::Fail(
                            MergeError::RebaseFailed(
                                String::from_str(
                                    "checked base contains a different revision of submitted change ",
                                ).concat(other.as_str()),
                            ),
                        );
                    },
                    None => {},
                },
                Err(e) => return Step::Fail(e),
            }
        },
    }

    let suffix = jj_log_cmd(
        root_dir,
        String::from_str("::").concat(commit).concat(" ~ ::").concat(base).as_str(),
        IDENTITY_TEMPLATE,
    );
    if replies.len() == 3 {
        return Step::Run(Invocation::read(suffix));
    }
    match &replies[3] {
        Reply::Failed(m) => Step::Fail(MergeError::ChangeIdFailed(m.clone())),
        Reply::Output { text, .. } => {
            log.append(suffix.log_line().display().as_str());
            log.append(text.as_str());
            log.append("\n");
            match jj_output::parse_full_jj_revision_ids(text.as_str()) {
                Ok(ids) => Step::Done(
                    JjUniqueMutableStack {
                        candidate_change_id: change,
                        unique_stack: reversed_commits(&ids),
                        output: log,
                    },
                ),
                Err(e) => Step::Fail(e),
            }
        },
    }
}

/// The end: the operation becomes part of the repository, and the working copy
/// is brought up to date. `n` replies came before.
pub open spec fn jj_land(
    root: Seq<char>,
    operation: Seq<char>,
    outcome: TestMergeView,
    tail: Seq<char>,
    replies: Seq<Reply>,
    n: nat,
) -> MergeStepView {
    let integrate = jj_integrate(root, operation);
    let update = jj_update_stale(root);
    if replies.len() <= n {
        StepView::Run(script::read_all_of(integrate))
    } else {
        match replies[n as int] {
            Reply::Failed(m) => StepView::Fail(MergeErrorView::BranchUpdateFailed(m@)),
            Reply::Output { text: done, .. } => if replies.len() <= n + 1 {
                StepView::Run(script::read_all_no_input_of(update))
            } else {
                match replies[n as int + 1] {
                    Reply::Failed(m) => StepView::Fail(MergeErrorView::BranchUpdateFailed(m@)),
                    Reply::Output { text, .. } => StepView::Done(
                        TestMergeView {
                            output: test_merge::logged(
                                test_merge::logged(outcome.output, integrate, done@),
                                update,
                                text@,
                            ) + tail,
                            ..outcome
                        },
                    ),
                }
            },
        }
    }
}

fn land(
    root_dir: &str,
    operation: &str,
    outcome: TestMergeOutcome,
    tail: &str,
    replies: &Vec<Reply>,
    n: usize,
) -> (res: MergeStep)
    requires
        n < 100,
    ensures
        res@ == jj_land(root_dir@, operation@, outcome@, tail@, replies@, n as nat),
{
    let mut log = outcome.output;
    let integrate = integrate_jj_operation(root_dir, operation);
    if replies.len() <= n {
        return Step::Run(Invocation::read_all(integrate));
    }
    match &replies[n] {
        Reply::Failed(m) => {
            return Step::Fail(MergeError::BranchUpdateFailed(m.clone()));
        },
        Reply::Output { text, .. } => {
            test_merge::log_command(&mut log, &integrate, text.as_str());
        },
    }
    let update = update_stale(root_dir);
    if replies.len() <= n + 1 {
        return Step::Run(Invocation::read_all_no_input(update));
    }
    match &replies[n + 1] {
        Reply::Failed(m) => Step::Fail(MergeError::BranchUpdateFailed(m.clone())),
        Reply::Output { text, .. } => {
            test_merge::log_command(&mut log, &update, text.as_str());
            log.append(tail);
            Step::Done(
                TestMergeOutcome {
                    commit_id: outcome.commit_id,
                    change_id: outcome.change_id,
                    output: log,
                },
            )
        },
    }
}

/// The changes, any of which a revision may have.
pub open spec fn any_of(ids: Seq<(Seq<char>, Seq<char>)>) -> Seq<char> {
    text::joined(ids.map_values(|id: (Seq<char>, Seq<char>)| id.0), " | "@)
}

/// Looks the rebased duplicates up, in the operation that rebased them: all of
/// them must be there, and the last one is the result.
pub open spec fn jj_verify(
    root: Seq<char>,
    operation: Seq<char>,
    duplicates: Seq<(Seq<char>, Seq<char>)>,
    log: Seq<char>,
    replies: Seq<Reply>,
) -> MergeStepView {
    let owned = jj_log_at(root, operation, any_of(duplicates), "self.commit_id() ++ '\n'"@);
    let result = jj_log_at(root, operation, duplicates.last().0, "self.commit_id()"@);
    if replies.len() == 10 {
        StepView::Run(script::read_of(owned))
    } else {
        match replies[10] {
            Reply::Failed(m) => StepView::Fail(MergeErrorView::ChangeIdFailed(m@)),
            Reply::Output { text, .. } => {
                let lines = text::lines(text@);
                if !jj_output::all_commit_ids(lines) || lines.len() != duplicates.len() {
                    StepView::Fail(jj_output::bad_output(text@))
                } else if replies.len() == 11 {
                    StepView::Run(script::read_of(result))
                } else {
                    match replies[11] {
                        Reply::Failed(m) => StepView::Fail(MergeErrorView::ChangeIdFailed(m@)),
                        Reply::Output { text: id, .. } => match jj_output::single_commit_id(id@) {
                            None => StepView::Fail(jj_output::bad_output(id@)),
                            Some(commit) => jj_land(
                                root,
                                operation,
                                TestMergeView {
                                    commit_id: commit,
                                    change_id: duplicates.last().0,
                                    output: test_merge::logged(
                                        test_merge::logged(log, owned, text@),
                                        result,
                                        commit,
                                    ),
                                },
                                seq![],
                                replies,
                                12,
                            ),
                        },
                    }
                }
            },
        }
    }
}

fn verify_duplicates(
    root_dir: &str,
    operation: &str,
    duplicates: &Vec<(ChangeId, CommitId)>,
    log: String,
    replies: &Vec<Reply>,
) -> (res: MergeStep)
    requires
        duplicates.len() > 0,
        replies.len() >= 10,
    ensures
        res@ == jj_verify(
            root_dir@,
            operation@,
            jj_output::identity_texts(duplicates@),
            log@,
            replies@,
        ),
{
    let ghost ids = jj_output::identity_texts(duplicates@);
    let mut log = log;
    let mut changes: Vec<String> = Vec::new();
    let mut i: usize = 0;
    while i < duplicates.len()
        invariant
            i <= duplicates.len(),
            ids == jj_output::identity_texts(duplicates@),
            text::texts(changes@) == ids.map_values(|id: (Seq<char>, Seq<char>)| id.0).take(
                i as int,
            ),
        decreases duplicates.len() - i,
    {
        let ghost before = changes@;
        changes.push(duplicates[i].0.display());
        proof {
            assert(text::texts(changes@) =~= text::texts(before).push(duplicates@[i as int].0@));
            assert(text::texts(changes@) =~= ids.map_values(
                |id: (Seq<char>, Seq<char>)| id.0,
            ).take(i + 1));
        }
        i = i + 1;
    }
    proof {
        let all = ids.map_values(|id: (Seq<char>, Seq<char>)| id.0);
        assert(all.take(i as int) =~= all);
    }
    let owned = jj_log_at_cmd(
        root_dir,
        operation,
        text::join(&changes, " | ").as_str(),
        "self.commit_id() ++ '\n'",
    );
    if replies.len() == 10 {
        return Step::Run(Invocation::read(owned));
    }
    match &replies[10] {
        Reply::Failed(m) => {
            return Step::Fail(MergeError::ChangeIdFailed(m.clone()));
        },
        Reply::Output { text, .. } => {
            match jj_output::parse_full_jj_commit_ids(text.as_str()) {
                Ok(found) => {
                    assert(found@.len() == text::lines(text@).len());
                    if found.len() != duplicates.len() {
                        return Step::Fail(jj_output::invalid_jj_machine_output(text.as_str()));
                    }
                },
                Err(e) => return Step::Fail(e),
            }
            test_merge::log_command(&mut log, &owned, text.as_str());
        },
    }
    let last: usize = duplicates.len() - 1;
    assert(ids.last() == (duplicates@[last as int].0@, duplicates@[last as int].1@));
    let change = duplicates[last].0.clone();
    let result = jj_log_at_cmd(root_dir, operation, change.as_str(), "self.commit_id()");
    if replies.len() == 11 {
        return Step::Run(Invocation::read(result));
    }
    match &replies[11] {
        Reply::Failed(m) => Step::Fail(MergeError::ChangeIdFailed(m.clone())),
        Reply::Output { text, .. } => match jj_output::parse_single_full_jj_commit_id(
            text.as_str(),
        ) {
            Err(e) => Step::Fail(e),
            Ok(commit_id) => {
                test_merge::log_command(&mut log, &result, commit_id.as_str());
                let outcome = TestMergeOutcome { commit_id, change_id: change, output: log };
                proof {
                    reveal_strlit("");
                    assert(""@ =~= seq![]);
                }
                land(root_dir, operation, outcome, "", replies, 12)
            },
        },
    }
}

/// Rebases the duplicates onto the base, in an operation that follows the one
/// that made them.
pub open spec fn jj_rebase_cmd(
    root: Seq<char>,
    operation: Seq<char>,
    source: Seq<char>,
    base: Seq<char>,
) -> CmdView {
    duct_util::bare_command("jj"@).arg("--ignore-working-copy"@).arg("--at-operation"@).arg(
        operation,
    ).arg("--no-integrate-operation"@).arg("rebase"@).arg("-s"@).arg(source).arg("-d"@).arg(
        base,
    ).dir(root)
}

/// Rebases the duplicates.
pub open spec fn jj_rebase_duplicates(
    root: Seq<char>,
    base: Seq<char>,
    operation: Seq<char>,
    duplicates: Seq<(Seq<char>, Seq<char>)>,
    log: Seq<char>,
    replies: Seq<Reply>,
) -> MergeStepView {
    let rebase = jj_rebase_cmd(root, operation, duplicates[0].1, base);
    if replies.len() == 9 {
        StepView::Run(script::capture_of(rebase))
    } else {
        match replies[9] {
            Reply::Failed(m) => StepView::Fail(MergeErrorView::RebaseFailed(m@)),
            Reply::Output { success, text } => if !success {
                StepView::Fail(MergeErrorView::RebaseFailed(text@))
            } else {
                match jj_output::operation_id(text@) {
                    None => StepView::Fail(
                        MergeErrorView::RebaseFailed(
                            "Failed to find unintegrated rebase operation ID in output: "@ + text@,
                        ),
                    ),
                    Some(next) => jj_verify(
                        root,
                        next,
                        duplicates,
                        test_merge::logged(log, rebase, text@),
                        replies,
                    ),
                }
            },
        }
    }
}

fn rebase_duplicates(
    root_dir: &str,
    base: &str,
    operation: &str,
    duplicates: &Vec<(ChangeId, CommitId)>,
    log: String,
    replies: &Vec<Reply>,
) -> (res: MergeStep)
    requires
        duplicates.len() > 0,
        replies.len() >= 9,
    ensures
        res@ == jj_rebase_duplicates(
            root_dir@,
            base@,
            operation@,
            jj_output::identity_texts(duplicates@),
            log@,
            replies@,
        ),
{
    let mut log = log;
    assert(jj_output::identity_texts(duplicates@)[0] == (duplicates@[0].0@, duplicates@[0].1@));
    let rebase = Cmd::new("jj").arg("--ignore-working-copy").arg("--at-operation").arg(
        operation,
    ).arg("--no-integrate-operation").arg("rebase").arg("-s").arg(duplicates[0].1.as_str()).arg(
        "-d",
    ).arg(base).dir(root_dir);
    if replies.len() == 9 {
        return Step::Run(Invocation::capture(rebase));
    }
    match &replies[9] {
        Reply::Failed(m) => Step::Fail(MergeError::RebaseFailed(m.clone())),
        Reply::Output { success, text } => {
            if !*success {
                return Step::Fail(MergeError::RebaseFailed(text.clone()));
            }
            test_merge::log_command(&mut log, &rebase, text.as_str());
            match jj_output::parse_unintegrated_operation_id(text.as_str()) {
                None => Step::Fail(
                    MergeError::RebaseFailed(
                        String::from_str(
                            "Failed to find unintegrated rebase operation ID in output: ",
                        ).concat(text.as_str()),
                    ),
                ),
                Some(next) => verify_duplicates(root_dir, next.as_str(), duplicates, log, replies),
            }
        },
    }
}

/// Duplicates revisions, in an operation that stays apart.
pub open spec fn jj_duplicate_cmd(root: Seq<char>, revset: Seq<char>) -> CmdView {
    duct_util::bare_command("jj"@).arg("--ignore-working-copy"@).arg(
        "--no-integrate-operation"@,
    ).arg("--color=never"@).arg("--config"@).arg(JJ_MACHINE_COMMIT_SUMMARY_CONFIG@).arg(
        "duplicate"@,
    ).arg(revset).dir(root)
}

/// What came of duplicating `expected` revisions.
pub open spec fn jj_duplicated(
    root: Seq<char>,
    base: Seq<char>,
    expected: nat,
    output: Seq<char>,
    log: Seq<char>,
    replies: Seq<Reply>,
) -> MergeStepView {
    match jj_output::operation_id(output) {
        None => StepView::Fail(
            MergeErrorView::RebaseFailed(
                "Failed to find unintegrated operation ID in output: "@ + output,
            ),
        ),
        Some(operation) => match jj_output::duplications(text::lines(output)) {
            Err(line) => StepView::Fail(
                MergeErrorView::RebaseFailed(
                    "Invalid duplicate output line: "@ + line + "\nFull output:\n"@ + output,
                ),
            ),
            Ok(duplicates) => if duplicates.len() != expected {
                StepView::Fail(
                    MergeErrorView::RebaseFailed(
                        "Expected "@ + text::decimal(expected) + " duplicated changes, found "@
                            + text::decimal(duplicates.len()) + " in output:\n"@ + output,
                    ),
                )
            } else if duplicates.len() == 0 {
                StepView::Panic("duplicated commit IDs are non-empty"@)
            } else {
                jj_rebase_duplicates(root, base, operation, duplicates, log, replies)
            },
        },
    }
}

/// Duplicates the submitted stack: its revisions are counted first, Jujutsu
/// must be able to leave operations apart, and as many duplicates must come out.
pub open spec fn jj_duplicate(
    root: Seq<char>,
    base: Seq<char>,
    commit: Seq<char>,
    stack_root: Seq<char>,
    log: Seq<char>,
    replies: Seq<Reply>,
) -> MergeStepView {
    let revset = stack_root + "::"@ + commit;
    let count = jj_log(root, revset, COUNT_TEMPLATE@);
    let duplicate = jj_duplicate_cmd(root, revset);
    if replies.len() == 6 {
        StepView::Run(script::read_of(count))
    } else {
        match replies[6] {
            Reply::Failed(m) => StepView::Fail(MergeErrorView::ChangeIdFailed(m@)),
            Reply::Output { text: counted, .. } => if replies.len() == 7 {
                StepView::Run(script::read_of(jj_help(root)))
            } else if unsupported(replies[7]) is Some {
                StepView::Fail(unsupported(replies[7])->0)
            } else if replies.len() == 8 {
                StepView::Run(script::read_all_of(duplicate))
            } else {
                match replies[8] {
                    Reply::Failed(m) => StepView::Fail(MergeErrorView::RebaseFailed(m@)),
                    Reply::Output { text, .. } => jj_duplicated(
                        root,
                        base,
                        text::lines(counted@).len(),
                        text@,
                        test_merge::logged(
                            test_merge::logged(log, count, counted@),
                            duplicate,
                            text@,
                        ),
                        replies,
                    ),
                }
            },
        }
    }
}

fn duplicated(
    root_dir: &str,
    base: &str,
    expected: usize,
    output: &str,
    log: String,
    replies: &Vec<Reply>,
) -> (res: MergeStep)
    requires
        replies.len() >= 9,
    ensures
        res@ == jj_duplicated(
            root_dir@,
            base@,
            expected as nat,
            output@,
            log@,
            replies@,
        ),
{
    let operation = match jj_output::parse_unintegrated_operation_id(output) {
        Some(id) => id,
        None => {
            return Step::Fail(
                MergeError::RebaseFailed(
                    String::from_str(
                        "Failed to find unintegrated operation ID in output: ",
                    ).concat(output),
                ),
            );
        },
    };
    match jj_output::parse_duplications(output) {
        Err(line) => Step::Fail(
            MergeError::RebaseFailed(
                String::from_str("Invalid duplicate output line: ").concat(line.as_str()).concat(
                    "\nFull output:\n",
                ).concat(output),
            ),
        ),
        Ok(duplicates) => {
            assert(jj_output::identity_texts(duplicates@).len() == duplicates.len());
            if duplicates.len() != expected {
                return Step::Fail(
                    MergeError::RebaseFailed(
                        String::from_str("Expected ").concat(
                            text::decimal_of(expected as u64).as_str(),
                        ).concat(" duplicated changes, found ").concat(
                            text::decimal_of(duplicates.len() as u64).as_str(),
                        ).concat(" in output:\n").concat(output),
                    ),
                );
            }
            if duplicates.len() == 0 {
                return Step::Panic("duplicated commit IDs are non-empty".to_owned());
            }
            rebase_duplicates(root_dir, base, operation.as_str(), &duplicates, log, replies)
        },
    }
}

fn duplicate_stack(
    root_dir: &str,
    base: &str,
    commit: &str,
    stack_root: &str,
    log: String,
    replies: &Vec<Reply>,
) -> (res: MergeStep)
    requires
        replies.len() >= 6,
    ensures
        res@ == jj_duplicate(root_dir@, base@, commit@, stack_root@, log@, replies@),
{
    let mut log = log;
    let revset = stack_root.to_owned().concat("::").concat(commit);
    let count = jj_log_cmd(root_dir, revset.as_str(), COUNT_TEMPLATE);
    if replies.len() == 6 {
        return Step::Run(Invocation::read(count));
    }
    let expected: usize = match &replies[6] {
        Reply::Failed(m) => {
            return Step::Fail(MergeError::ChangeIdFailed(m.clone()));
        },
        Reply::Output { text, .. } => {
            test_merge::log_command(&mut log, &count, text.as_str());
            let lines = text::split_lines(text.as_str());
            assert(lines@.len() == text::lines(text@).len());
            lines.len()
        },
    };
    if replies.len() == 7 {
        let help = Cmd::new("jj").arg("--help").dir(root_dir);
        return Step::Run(Invocation::read(help));
    }
    match require_unintegrated_operations(&replies[7]) {
        Ok(()) => {},
        Err(e) => return Step::Fail(e),
    }
    let duplicate = Cmd::new("jj").arg("--ignore-working-copy").arg(
        "--no-integrate-operation",
    ).arg("--color=never").arg("--config").arg(JJ_MACHINE_COMMIT_SUMMARY_CONFIG).arg(
        "duplicate",
    ).arg(revset.as_str()).dir(root_dir);
    if replies.len() == 8 {
        return Step::Run(Invocation::read_all(duplicate));
    }
    match &replies[8] {
        Reply::Failed(m) => Step::Fail(MergeError::RebaseFailed(m.clone())),
        Reply::Output { text, .. } => {
            test_merge::log_command(&mut log, &duplicate, text.as_str());
            duplicated(root_dir, base, expected, text.as_str(), log, replies)
        },
    }
}

/// The candidate is behind the base: the base itself is the result.
pub open spec fn jj_base_result(
    root: Seq<char>,
    base: Seq<char>,
    log: Seq<char>,
    replies: Seq<Reply>,
) -> MergeStepView {
    let query = jj_log(root, base, CHANGE_TEMPLATE@);
    if replies.len() == 6 {
        StepView::Run(script::read_of(query))
    } else {
        match replies[6] {
            Reply::Failed(m) => StepView::Fail(MergeErrorView::ChangeIdFailed(m@)),
            Reply::Output { text, .. } => match jj_output::single_change_id(text@) {
                None => StepView::Fail(jj_output::bad_output(text@)),
                Some(change) => StepView::Done(
                    TestMergeView {
                        commit_id: base,
                        change_id: change,
                        output: test_merge::logged(log, query, change),
                    },
                ),
            },
        }
    }
}

/// How the candidate stands to the base decides: on top of it, the candidate
/// is the result; behind it, the base is; else the stack is duplicated and
/// rebased.
pub open spec fn jj_placed(
    root: Seq<char>,
    base: Seq<char>,
    commit: Seq<char>,
    stack: JjStackView,
    replies: Seq<Reply>,
) -> MergeStepView {
    let on_base = jj_log(root, commit + " & "@ + base + "::"@, COUNT_TEMPLATE@);
    let behind = jj_log(root, base + " & "@ + commit + "::"@, COUNT_TEMPLATE@);
    if replies.len() == 4 {
        StepView::Run(script::read_of(on_base))
    } else {
        match replies[4] {
            Reply::Failed(m) => StepView::Fail(MergeErrorView::ChangeIdFailed(m@)),
            Reply::Output { text: above, .. } => {
                let log = test_merge::logged(stack.output, on_base, above@);
                if text::lines(above@).len() == 1 {
                    StepView::Done(
                        TestMergeView {
                            commit_id: commit,
                            change_id: stack.candidate_change_id,
                            output: log,
                        },
                    )
                } else if replies.len() == 5 {
                    StepView::Run(script::read_of(behind))
                } else {
                    match replies[5] {
                        Reply::Failed(m) => StepView::Fail(MergeErrorView::ChangeIdFailed(m@)),
                        Reply::Output { text: below, .. } => {
                            let log = test_merge::logged(log, behind, below@);
                            if text::lines(below@).len() == 1 {
                                jj_base_result(root, base, log, replies)
                            } else if stack.unique_stack.len() == 0 {
                                StepView::Fail(
                                    MergeErrorView::RebaseFailed(
                                        "submitted candidate has no exact suffix to rebase"@,
                                    ),
                                )
                            } else {
                                jj_duplicate(
                                    root,
                                    base,
                                    commit,
                                    stack.unique_stack[0],
                                    log,
                                    replies,
                                )
                            }
                        },
                    }
                }
            },
        }
    }
}

/// The test rebase with Jujutsu.
pub open spec fn jj_rebase_step(
    root: Seq<char>,
    base: Seq<char>,
    commit: Seq<char>,
    replies: Seq<Reply>,
) -> MergeStepView {
    match stack_step(root, base, commit, replies) {
        StepView::Run(inv) => StepView::Run(inv),
        StepView::Fail(e) => StepView::Fail(e),
        StepView::Panic(m) => StepView::Panic(m),
        StepView::Done(stack) => jj_placed(root, base, commit, stack, replies),
    }
}

fn base_result(root_dir: &str, base: &CommitId, log: String, replies: &Vec<Reply>) -> (res:
    MergeStep)
    requires
        replies.len() >= 6,
    ensures
        res@ == jj_base_result(root_dir@, base@, log@, replies@),
{
    let mut log = log;
    let query = jj_log_cmd(root_dir, base.as_str(), CHANGE_TEMPLATE);
    if replies.len() == 6 {
        return Step::Run(Invocation::read(query));
    }
    match &replies[6] {
        Reply::Failed(m) => Step::Fail(MergeError::ChangeIdFailed(m.clone())),
        Reply::Output { text, .. } => match jj_output::parse_single_full_jj_change_id(
            text.as_str(),
        ) {
            Err(e) => Step::Fail(e),
            Ok(change_id) => {
                test_merge::log_command(&mut log, &query, change_id.as_str());
                Step::Done(TestMergeOutcome { commit_id: base.clone(), change_id, output: log })
            },
        },
    }
}

/// Rebases the candidate onto the base with Jujutsu: as a duplicate, so that
/// the candidate itself stays as it is.
pub fn test_merge_jj_rebase(
    root_dir: &str,
    base: &CommitId,
    candidate: &ResolvedRevision,
    replies: &Vec<Reply>,
) -> (res: MergeStep)
    ensures
        res@ == jj_rebase_step(root_dir@, base@, candidate.commit_id@, replies@),
{
    let commit = candidate.commit_id.as_str();
    let stack = match jj_unique_mutable_stack(root_dir, base.as_str(), commit, replies) {
        Step::Run(inv) => return Step::Run(inv),
        Step::Fail(e) => return Step::Fail(e),
        Step::Panic(m) => return Step::Panic(m),
        Step::Done(stack) => stack,
    };
    let ghost view = stack@;
    let mut log = stack.output;
    let on_base = jj_log_cmd(
        root_dir,
        commit.to_owned().concat(" & ").concat(base.as_str()).concat("::").as_str(),
        COUNT_TEMPLATE,
    );
    if replies.len() == 4 {
        return Step::Run(Invocation::read(on_base));
    }
    match &replies[4] {
        Reply::Failed(m) => {
            return Step::Fail(MergeError::ChangeIdFailed(m.clone()));
        },
        Reply::Output { text, .. } => {
            test_merge::log_command(&mut log, &on_base, text.as_str());
            let lines = text::split_lines(text.as_str());
            assert(lines@.len() == text::lines(text@).len());
            if lines.len() == 1 {
                return Step::Done(
                    TestMergeOutcome {
                        commit_id: candidate.commit_id.clone(),
                        change_id: stack.candidate_change_id,
                        output: log,
                    },
                );
            }
        },
    }
    let behind = jj_log_cmd(
        root_dir,
        base.as_str().to_owned().concat(" & ").concat(commit).concat("::").as_str(),
        COUNT_TEMPLATE,
    );
    if replies.len() == 5 {
        return Step::Run(Invocation::read(behind));
    }
    match &replies[5] {
        Reply::Failed(m) => Step::Fail(MergeError::ChangeIdFailed(m.clone())),
        Reply::Output { text, .. } => {
            test_merge::log_command(&mut log, &behind, text.as_str());
            let lines = text::split_lines(text.as_str());
            assert(lines@.len() == text::lines(text@).len());
            if lines.len() == 1 {
                return base_result(root_dir, base, log, replies);
            }
            assert(view.unique_stack.len() == stack.unique_stack.len());
            if stack.unique_stack.len() == 0 {
                return Step::Fail(
                    MergeError::RebaseFailed(
                        "submitted candidate has no exact suffix to rebase".to_owned(),
                    ),
                );
            }
            assert(view.unique_stack[0] == stack.unique_stack@[0]@);
            duplicate_stack(
                root_dir,
                base.as_str(),
                commit,
                stack.unique_stack[0].as_str(),
                log,
                replies,
            )
        },
    }
}

/// Makes a merge commit, in an operation that stays apart.
pub open spec fn jj_new(root: Seq<char>, base: Seq<char>, commit: Seq<char>) -> CmdView {
    duct_util::bare_command("jj"@).arg("--ignore-working-copy"@).arg(
        "--no-integrate-operation"@,
    ).arg("--color=never"@).arg("--config"@).arg(JJ_MACHINE_COMMIT_SUMMARY_CONFIG@).arg(
        "new"@,
    ).arg("--no-edit"@).arg("-m"@).arg(test_merge::merge_message(commit)).arg(base).arg(commit).dir(
        root,
    )
}

/// What came of making the merge commit.
pub open spec fn jj_created(
    root: Seq<char>,
    output: Seq<char>,
    log: Seq<char>,
    replies: Seq<Reply>,
) -> MergeStepView {
    match jj_output::operation_id(output) {
        None => StepView::Fail(
            MergeErrorView::MergeFailed(
                "Failed to find unintegrated operation ID in output: "@ + output,
            ),
        ),
        Some(operation) => match jj_output::first_with_prefix(
            text::lines(output),
            "Created new commit "@,
        ) {
            None => StepView::Fail(
                MergeErrorView::MergeFailed(
                    "Failed to parse merge commit from output: "@ + output,
                ),
            ),
            Some(line) => {
                let words = text::words(line);
                if jj_output::is_creation(words) {
                    jj_land(
                        root,
                        operation,
                        TestMergeView { commit_id: words[4], change_id: words[3], output: log },
                        "Test merge complete\n"@,
                        replies,
                        2,
                    )
                } else {
                    StepView::Fail(
                        MergeErrorView::MergeFailed(
                            "Invalid new commit output line: "@ + line + "\nFull output:\n"@
                                + output,
                        ),
                    )
                }
            },
        },
    }
}

/// The test merge with Jujutsu.
pub open spec fn jj_merge_step(
    root: Seq<char>,
    base: Seq<char>,
    commit: Seq<char>,
    replies: Seq<Reply>,
) -> MergeStepView {
    let header = "Jujutsu test merge: merging "@ + commit + " into "@ + base + "\n\n"@;
    let new = jj_new(root, base, commit);
    if replies.len() == 0 {
        StepView::Run(script::read_of(jj_help(root)))
    } else if unsupported(replies[0]) is Some {
        StepView::Fail(unsupported(replies[0])->0)
    } else if replies.len() == 1 {
        StepView::Run(script::read_all_no_input_of(new))
    } else {
        match replies[1] {
            Reply::Failed(m) => StepView::Fail(MergeErrorView::MergeFailed(m@)),
            Reply::Output { text, .. } => jj_created(
                root,
                text@,
                test_merge::logged(header, new, text@),
                replies,
            ),
        }
    }
}

fn created(root_dir: &str, output: &str, log: String, replies: &Vec<Reply>) -> (res: MergeStep)
    ensures
        res@ == jj_created(root_dir@, output@, log@, replies@),
{
    let operation = match jj_output::parse_unintegrated_operation_id(output) {
        Some(id) => id,
        None => {
            return Step::Fail(
                MergeError::MergeFailed(
                    String::from_str(
                        "Failed to find unintegrated operation ID in output: ",
                    ).concat(output),
                ),
            );
        },
    };
    let line = match jj_output::find_line(output, "Created new commit ") {
        Some(line) => line,
        None => {
            return Step::Fail(
                MergeError::MergeFailed(
                    String::from_str("Failed to parse merge commit from output: ").concat(output),
                ),
            );
        },
    };
    match jj_output::parse_creation(line.as_str()) {
        Some((change_id, commit_id)) => {
            let outcome = TestMergeOutcome { commit_id, change_id, output: log };
            land(root_dir, operation.as_str(), outcome, "Test merge complete\n", replies, 2)
        },
        None => Step::Fail(
            MergeError::MergeFailed(
                String::from_str("Invalid new commit output line: ").concat(line.as_str()).concat(
                    "\nFull output:\n",
                ).concat(output),
            ),
        ),
    }
}

/// Merges the candidate into the base with Jujutsu, without moving any bookmark.
pub fn test_merge_jj_merge(
    root_dir: &str,
    base: &CommitId,
    candidate: &ResolvedRevision,
    replies: &Vec<Reply>,
) -> (res: MergeStep)
    ensures
        res@ == jj_merge_step(root_dir@, base@, candidate.commit_id@, replies@),
{
    let commit = candidate.commit_id.as_str();
    let mut log = String::from_str("Jujutsu test merge: merging ").concat(commit).concat(
        " into ",
    ).concat(base.as_str()).concat("\n\n");
    if replies.len() == 0 {
        let help = Cmd::new("jj").arg("--help").dir(root_dir);
        return Step::Run(Invocation::read(help));
    }
    match require_unintegrated_operations(&replies[0]) {
        Ok(()) => {},
        Err(e) => return Step::Fail(e),
    }
    let message = String::from_str("Merge commit '").concat(commit).concat("' by SelfCI");
    let new = Cmd::new("jj").arg("--ignore-working-copy").arg("--no-integrate-operation").arg(
        "--color=never",
    ).arg("--config").arg(JJ_MACHINE_COMMIT_SUMMARY_CONFIG).arg("new").arg("--no-edit").arg(
        "-m",
    ).arg(message.as_str()).arg(base.as_str()).arg(commit).dir(root_dir);
    if replies.len() == 1 {
        return Step::Run(Invocation::read_all_no_input(new));
    }
    match &replies[1] {
        Reply::Failed(m) => Step::Fail(MergeError::MergeFailed(m.clone())),
        Reply::Output { text, .. } => {
            test_merge::log_command(&mut log, &new, text.as_str());
            created(root_dir, text.as_str(), log, replies)
        },
    }
}

/// Whether a command only asks.
pub open spec fn only_asks(cmd: CmdView) -> bool {
    cmd.args[0] == "log"@ || cmd.args[0] == "--help"@ || cmd.args[0] == "--at-operation"@
}

/// Whether a command works in an operation that is left apart.
pub open spec fn works_apart(cmd: CmdView) -> bool {
    cmd.args[1] == "--no-integrate-operation"@ || cmd.args[3] == "--no-integrate-operation"@
}

/// Whether a command moves no bookmark and leaves the user's working copy
/// alone: it asks, works in an operation that is left apart, takes such an
/// operation into the repository, or refreshes a stale working copy.
pub open spec fn stays_apart(root: Seq<char>, cmd: CmdView) -> bool {
    ||| only_asks(cmd)
    ||| works_apart(cmd)
    ||| (cmd.args[1] == "op"@ && cmd.args[2] == "integrate"@)
    ||| cmd == jj_update_stale(root)
}

#[verifier::spinoff_prover]
#[verifier::rlimit(50)]
proof fn lemma_rebase_stays_apart(
    root: Seq<char>,
    base: Seq<char>,
    commit: Seq<char>,
    replies: Seq<Reply>,
)
    ensures
        jj_rebase_step(root, base, commit, replies) matches StepView::Run(inv) ==> stays_apart(
            root,
            inv.cmd,
        ),
{
}

#[verifier::spinoff_prover]
#[verifier::rlimit(50)]
proof fn lemma_merge_stays_apart(
    root: Seq<char>,
    base: Seq<char>,
    commit: Seq<char>,
    replies: Seq<Reply>,
)
    ensures
        jj_merge_step(root, base, commit, replies) matches StepView::Run(inv) ==> stays_apart(
            root,
            inv.cmd,
        ),
{
}

/// Jujutsu's test integration moves no bookmark and leaves the user's working
/// copy alone, whatever the replies.
pub proof fn law_jj_integration_stays_apart(
    root: Seq<char>,
    base: Seq<char>,
    commit: Seq<char>,
    replies: Seq<Reply>,
)
    ensures
        jj_rebase_step(root, base, commit, replies) matches StepView::Run(inv) ==> stays_apart(
            root,
            inv.cmd,
        ),
        jj_merge_step(root, base, commit, replies) matches StepView::Run(inv) ==> stays_apart(
            root,
            inv.cmd,
        ),
{
    lemma_rebase_stays_apart(root, base, commit, replies);
    lemma_merge_stays_apart(root, base, commit, replies);
}

/// A Jujutsu that cannot leave operations apart is refused before anything
/// changes: a command that does more than ask comes only after the answer to
/// `jj --help` showed that it can.
#[verifier::spinoff_prover]
#[verifier::rlimit(50)]
pub proof fn law_jj_support_comes_first(
    root: Seq<char>,
    base: Seq<char>,
    commit: Seq<char>,
    replies: Seq<Reply>,
)
    ensures
        jj_rebase_step(root, base, commit, replies) matches StepView::Run(inv) ==> {
            ||| only_asks(inv.cmd)
            ||| replies.len() > 7 && unsupported(replies[7]) is None
        },
        jj_merge_step(root, base, commit, replies) matches StepView::Run(inv) ==> {
            ||| only_asks(inv.cmd)
            ||| replies.len() > 0 && unsupported(replies[0]) is None
        },
{
}

/// A submitted commit that already stands on the base is tested as it is, and
/// one that the base already holds has the base itself tested.
#[verifier::spinoff_prover]
#[verifier::rlimit(50)]
pub proof fn law_jj_rebase_keeps_exact_commits(
    root: Seq<char>,
    base: Seq<char>,
    commit: Seq<char>,
    replies: Seq<Reply>,
)
    requires
        stack_step(root, base, commit, replies) is Done,
        replies.len() > 6,
        replies[4] is Output,
        replies[5] is Output,
    ensures
        text::lines(replies[4]->text@).len() == 1 ==> {
            &&& jj_rebase_step(root, base, commit, replies) matches StepView::Done(r)
            &&& r.commit_id == commit
        },
        text::lines(replies[4]->text@).len() != 1 && text::lines(replies[5]->text@).len() == 1 ==> (
        jj_rebase_step(root, base, commit, replies) matches StepView::Done(r) ==> r.commit_id
            == base),
{
}

/// What a test integration with Jujutsu makes is a full commit.
#[verifier::spinoff_prover]
#[verifier::rlimit(50)]
pub proof fn law_jj_result_is_full_commit(
    root: Seq<char>,
    base: Seq<char>,
    commit: Seq<char>,
    replies: Seq<Reply>,
)
    requires
        revision::is_commit_id(base),
        revision::is_commit_id(commit),
    ensures
        jj_rebase_step(root, base, commit, replies) matches StepView::Done(r)
            ==> revision::is_commit_id(r.commit_id),
        jj_merge_step(root, base, commit, replies) matches StepView::Done(r)
            ==> revision::is_commit_id(r.commit_id),
{
}

/// The commit on the last of the lines that a reply prints, each a change and a
/// commit: the oldest of the revisions that it names.
pub open spec fn oldest_commit(reply: Reply) -> Seq<char> {
    text::words(text::lines(reply->text@).last())[1]
}

/// The stack is what the last question names, turned round, so that the oldest
/// commit comes first; its change is the one that the first question names.
#[verifier::spinoff_prover]
#[verifier::rlimit(100)]
pub proof fn law_jj_stack_is_oldest_first(
    root: Seq<char>,
    base: Seq<char>,
    commit: Seq<char>,
    replies: Seq<Reply>,
)
    ensures
        stack_step(root, base, commit, replies) matches StepView::Done(stack) ==> {
            let lines = text::lines(replies[3]->text@);
            &&& replies.len() >= 4
            &&& replies[0] is Output && replies[3] is Output
            &&& text::lines(replies[0]->text@) == seq![stack.candidate_change_id]
            &&& stack.unique_stack.len() == lines.len()
            &&& forall|i: int|
                0 <= i < lines.len() ==> #[trigger] stack.unique_stack[i] == text::words(
                    lines[lines.len() - 1 - i],
                )[1]
            &&& lines.len() > 0 ==> stack.unique_stack[0] == oldest_commit(replies[3])
        },
{
    match stack_step(root, base, commit, replies) {
        StepView::Done(stack) => {
            jj_output::law_single_identifiers_are_whole(replies[0]->text@);
            let lines = text::lines(replies[3]->text@);
            let ids = jj_output::identities(replies[3]->text@)->0;
            assert(stack.unique_stack == stack_of(ids));
            assert forall|i: int| 0 <= i < lines.len() implies #[trigger] stack.unique_stack[i]
                == text::words(lines[lines.len() - 1 - i])[1] by {
                assert(stack_of(ids)[i] == ids[ids.len() - 1 - i].1);
            }
            if lines.len() > 0 {
                assert(stack.unique_stack[0] == text::words(lines[lines.len() - 1])[1]);
            }
        },
        _ => {},
    }
}

/// What is asked about the candidate and the base before anything is made, in
/// this order: the candidate's change, what the base descends from, what the
/// candidate descends from, and which of that the base lacks.
#[verifier::spinoff_prover]
#[verifier::rlimit(100)]
pub proof fn law_jj_rebase_asks_about_the_stack(
    root: Seq<char>,
    base: Seq<char>,
    commit: Seq<char>,
    replies: Seq<Reply>,
)
    requires
        replies.len() <= 3,
    ensures
        replies.len() == 0 ==> jj_rebase_step(root, base, commit, replies) is Run,
        jj_rebase_step(root, base, commit, replies) matches StepView::Run(inv) ==> {
            &&& !inv.unchecked && inv.output == script::OutputMode::Read
            &&& duct_util::is_command(
                inv.cmd,
                "jj"@,
                seq![
                    "log"@,
                    "-r"@,
                    if replies.len() == 0 {
                        commit
                    } else if replies.len() == 1 {
                        "::"@ + base
                    } else if replies.len() == 2 {
                        "::"@ + commit
                    } else {
                        "::"@ + commit + " ~ ::"@ + base
                    },
                    "-T"@,
                    if replies.len() == 0 {
                        "self.change_id()"@
                    } else {
                        "self.change_id() ++ \" \" ++ self.commit_id() ++ \"\\n\""@
                    },
                    "--no-graph"@,
                    "--color=never"@,
                ],
                root,
            )
        },
        !(jj_rebase_step(root, base, commit, replies) is Done),
{
}

/// Whether the answers about the stack are in order: a change, three lists of
/// revisions, and no submitted change that the base holds as another commit.
pub open spec fn stack_is_known(replies: Seq<Reply>) -> bool {
    &&& replies.len() >= 4
    &&& replies[0] is Output && replies[1] is Output && replies[2] is Output && replies[3] is Output
    &&& jj_output::single_change_id(replies[0]->text@) is Some
    &&& jj_output::identities(replies[1]->text@) matches Some(base_ids)
    &&& jj_output::identities(replies[2]->text@) matches Some(ids)
    &&& jj_output::identities(replies[3]->text@) is Some
    &&& forall|i: int, j: int|
        0 <= i < base_ids.len() && 0 <= j < ids.len() && (#[trigger] base_ids[i]).0 == (
        #[trigger] ids[j]).0 ==> base_ids[i].1 == ids[j].1
}

/// The stack is found exactly where the answers about it are in order.
#[verifier::spinoff_prover]
#[verifier::rlimit(100)]
pub proof fn law_jj_stack_is_found(
    root: Seq<char>,
    base: Seq<char>,
    commit: Seq<char>,
    replies: Seq<Reply>,
)
    ensures
        stack_step(root, base, commit, replies) is Done <==> stack_is_known(replies),
        replies.len() < 4 && (forall|n: int|
            0 <= n < replies.len() ==> (#[trigger] replies[n]) is Output) && (replies.len() > 0
            ==> jj_output::single_change_id(replies[0]->text@) is Some) && (replies.len() > 1
            ==> jj_output::identities(replies[1]->text@) is Some) && (replies.len() > 2 ==> (
        jj_output::identities(replies[2]->text@) is Some && jj_output::first_conflict(
            jj_output::identities(replies[1]->text@)->0,
            jj_output::identities(replies[2]->text@)->0,
        ) is None)) ==> stack_step(root, base, commit, replies) is Run,
{
    if replies.len() >= 3 && replies[1] is Output && replies[2] is Output && jj_output::identities(
        replies[1]->text@,
    ) is Some && jj_output::identities(replies[2]->text@) is Some {
        jj_output::law_conflicts_are_other_commits_of_a_change(
            jj_output::identities(replies[1]->text@)->0,
            jj_output::identities(replies[2]->text@)->0,
        );
    }
}

/// Once the stack is known it is asked how the candidate stands to the base: first
/// whether the candidate stands on the base, then whether the base stands on the
/// candidate. One revision each time means that it does.
#[verifier::spinoff_prover]
#[verifier::rlimit(100)]
pub proof fn law_jj_rebase_places_the_candidate(
    root: Seq<char>,
    base: Seq<char>,
    commit: Seq<char>,
    replies: Seq<Reply>,
)
    requires
        stack_is_known(replies),
    ensures
        replies.len() == 4 ==> (jj_rebase_step(root, base, commit, replies) matches StepView::Run(
            inv,
        ) && duct_util::is_command(
            inv.cmd,
            "jj"@,
            seq![
                "log"@,
                "-r"@,
                commit + " & "@ + base + "::"@,
                "-T"@,
                "\"revision\\n\""@,
                "--no-graph"@,
                "--color=never"@,
            ],
            root,
        )),
        replies.len() > 4 && replies[4] is Output && text::lines(replies[4]->text@).len() == 1 ==> (
        jj_rebase_step(root, base, commit, replies) matches StepView::Done(r) && r.commit_id
            == commit && text::lines(replies[0]->text@) == seq![r.change_id]),
        replies.len() == 5 && replies[4] is Output && text::lines(replies[4]->text@).len() != 1
            ==> (jj_rebase_step(root, base, commit, replies) matches StepView::Run(inv)
            && duct_util::is_command(
            inv.cmd,
            "jj"@,
            seq![
                "log"@,
                "-r"@,
                base + " & "@ + commit + "::"@,
                "-T"@,
                "\"revision\\n\""@,
                "--no-graph"@,
                "--color=never"@,
            ],
            root,
        )),
        replies.len() == 6 && stands_behind(replies) ==> (jj_rebase_step(
            root,
            base,
            commit,
            replies,
        ) matches StepView::Run(inv) && duct_util::is_command(
            inv.cmd,
            "jj"@,
            seq![
                "log"@,
                "-r"@,
                base,
                "-T"@,
                "self.change_id()"@,
                "--no-graph"@,
                "--color=never"@,
            ],
            root,
        )),
        replies.len() > 6 && stands_behind(replies) && replies[6] is Output
            && jj_output::single_change_id(replies[6]->text@) is Some ==> (jj_rebase_step(
            root,
            base,
            commit,
            replies,
        ) matches StepView::Done(r) && r.commit_id == base && text::lines(replies[6]->text@)
            == seq![r.change_id]),
{
    jj_output::law_single_identifiers_are_whole(replies[0]->text@);
    law_jj_stack_is_found(root, base, commit, replies);
    law_jj_stack_is_oldest_first(root, base, commit, replies);
    if replies.len() > 6 && replies[6] is Output {
        jj_output::law_single_identifiers_are_whole(replies[6]->text@);
    }
}

/// Whether the base already holds the candidate.
pub open spec fn stands_behind(replies: Seq<Reply>) -> bool {
    &&& replies.len() > 5
    &&& replies[4] is Output && replies[5] is Output
    &&& text::lines(replies[4]->text@).len() != 1
    &&& text::lines(replies[5]->text@).len() == 1
}

/// Whether candidate and base have diverged, with commits that the base lacks.
pub open spec fn has_diverged(replies: Seq<Reply>) -> bool {
    &&& stack_is_known(replies)
    &&& replies.len() > 5
    &&& replies[4] is Output && replies[5] is Output
    &&& text::lines(replies[4]->text@).len() != 1
    &&& text::lines(replies[5]->text@).len() != 1
    &&& text::lines(replies[3]->text@).len() > 0
}

/// A candidate that has diverged is duplicated whole, from its oldest commit that
/// the base lacks to the submitted one: those revisions are counted, Jujutsu is
/// asked what it can do, and then exactly they are duplicated, in an operation
/// that stays apart.
#[verifier::spinoff_prover]
#[verifier::rlimit(100)]
pub proof fn law_jj_rebase_duplicates_the_whole_stack(
    root: Seq<char>,
    base: Seq<char>,
    commit: Seq<char>,
    replies: Seq<Reply>,
)
    requires
        has_diverged(replies),
    ensures
        replies.len() == 6 ==> (jj_rebase_step(root, base, commit, replies) matches StepView::Run(
            inv,
        ) && duct_util::is_command(
            inv.cmd,
            "jj"@,
            seq![
                "log"@,
                "-r"@,
                oldest_commit(replies[3]) + "::"@ + commit,
                "-T"@,
                "\"revision\\n\""@,
                "--no-graph"@,
                "--color=never"@,
            ],
            root,
        )),
        replies.len() == 7 && replies[6] is Output ==> (jj_rebase_step(
            root,
            base,
            commit,
            replies,
        ) matches StepView::Run(inv) && duct_util::is_command(
            inv.cmd,
            "jj"@,
            seq!["--help"@],
            root,
        )),
        replies.len() == 8 && replies[6] is Output && replies[7] is Output && text::holds_text(
            replies[7]->text@,
            "--no-integrate-operation"@,
        ) ==> (jj_rebase_step(root, base, commit, replies) matches StepView::Run(inv)
            && duct_util::is_command(
            inv.cmd,
            "jj"@,
            seq![
                "--ignore-working-copy"@,
                "--no-integrate-operation"@,
                "--color=never"@,
                "--config"@,
                "templates.commit_summary=\"self.change_id() ++ \\\" \\\" ++ self.commit_id()\""@,
                "duplicate"@,
                oldest_commit(replies[3]) + "::"@ + commit,
            ],
            root,
        )),
        replies.len() > 6 && replies.len() <= 8 ==> !(jj_rebase_step(root, base, commit, replies)
            is Done),
{
    law_jj_stack_is_found(root, base, commit, replies);
    law_jj_stack_is_oldest_first(root, base, commit, replies);
}

/// Whether the stack was duplicated: as many duplicates came out, in an operation
/// that was left apart, as revisions were counted.
pub open spec fn was_duplicated(replies: Seq<Reply>) -> bool {
    &&& has_diverged(replies)
    &&& replies.len() > 8
    &&& replies[6] is Output && replies[7] is Output && replies[8] is Output
    &&& text::holds_text(replies[7]->text@, "--no-integrate-operation"@)
    &&& jj_output::operation_id(replies[8]->text@) is Some
    &&& jj_output::duplications(text::lines(replies[8]->text@)) matches Ok(duplicates)
    &&& duplicates.len() == text::lines(replies[6]->text@).len()
    &&& duplicates.len() > 0
}

/// The duplicates that a reply announces.
pub open spec fn duplicates_of(reply: Reply) -> Seq<(Seq<char>, Seq<char>)> {
    jj_output::duplications(text::lines(reply->text@))->Ok_0
}

/// The duplicates are rebased onto the base, all of them, from the first one on
/// and in the operation that made them; a rebase that failed fails the whole.
#[verifier::spinoff_prover]
#[verifier::rlimit(100)]
pub proof fn law_jj_rebase_moves_the_duplicates_onto_the_base(
    root: Seq<char>,
    base: Seq<char>,
    commit: Seq<char>,
    replies: Seq<Reply>,
)
    requires
        has_diverged(replies),
        replies.len() > 8,
    ensures
        was_duplicated(replies) && replies.len() == 9 ==> (jj_rebase_step(
            root,
            base,
            commit,
            replies,
        ) matches StepView::Run(inv) && inv.unchecked && duct_util::is_command(
            inv.cmd,
            "jj"@,
            seq![
                "--ignore-working-copy"@,
                "--at-operation"@,
                jj_output::operation_id(replies[8]->text@)->0,
                "--no-integrate-operation"@,
                "rebase"@,
                "-s"@,
                duplicates_of(replies[8])[0].1,
                "-d"@,
                base,
            ],
            root,
        )),
        !was_duplicated(replies) ==> !(jj_rebase_step(root, base, commit, replies) is Run) && !(
        jj_rebase_step(root, base, commit, replies) is Done),
        was_duplicated(replies) && replies.len() > 9 && (replies[9] is Failed
            || !replies[9]->success) ==> jj_rebase_step(root, base, commit, replies) is Fail,
{
    law_jj_stack_is_found(root, base, commit, replies);
    law_jj_stack_is_oldest_first(root, base, commit, replies);
}

/// Whether the duplicates were rebased, in an operation that was left apart.
pub open spec fn was_rebased(replies: Seq<Reply>) -> bool {
    &&& was_duplicated(replies)
    &&& replies.len() > 9
    &&& replies[9] is Output && replies[9]->success
    &&& jj_output::operation_id(replies[9]->text@) is Some
}

/// Once rebased, all duplicates are looked up in the operation of the rebase, as
/// many as there are, and then the last one, whose commit is the result. Only
/// then does that very operation become part of the repository, and the working
/// copy is brought up to date.
#[verifier::spinoff_prover]
#[verifier::rlimit(100)]
pub proof fn law_jj_rebase_lands_the_last_duplicate(
    root: Seq<char>,
    base: Seq<char>,
    commit: Seq<char>,
    replies: Seq<Reply>,
)
    requires
        was_rebased(replies),
    ensures
        ({
            let step = jj_rebase_step(root, base, commit, replies);
            let operation = jj_output::operation_id(replies[9]->text@)->0;
            let duplicates = duplicates_of(replies[8]);
            let counted = replies[10] is Output && jj_output::all_commit_ids(
                text::lines(replies[10]->text@),
            ) && text::lines(replies[10]->text@).len() == duplicates.len();
            let found = counted && replies[11] is Output && jj_output::single_commit_id(
                replies[11]->text@,
            ) is Some;
            &&& replies.len() == 10 ==> (step matches StepView::Run(inv) && duct_util::is_command(
                inv.cmd,
                "jj"@,
                seq![
                    "--at-operation"@,
                    operation,
                    "log"@,
                    "-r"@,
                    text::joined(
                        duplicates.map_values(|id: (Seq<char>, Seq<char>)| id.0),
                        " | "@,
                    ),
                    "-T"@,
                    "self.commit_id() ++ '\n'"@,
                    "--no-graph"@,
                    "--color=never"@,
                ],
                root,
            ))
            &&& replies.len() > 10 && !counted ==> step is Fail
            &&& replies.len() == 11 && counted ==> (step matches StepView::Run(inv)
                && duct_util::is_command(
                inv.cmd,
                "jj"@,
                seq![
                    "--at-operation"@,
                    operation,
                    "log"@,
                    "-r"@,
                    duplicates[duplicates.len() - 1].0,
                    "-T"@,
                    "self.commit_id()"@,
                    "--no-graph"@,
                    "--color=never"@,
                ],
                root,
            ))
            &&& replies.len() > 11 && counted && !found ==> step is Fail
            &&& replies.len() == 12 && found ==> (step matches StepView::Run(inv)
                && duct_util::is_command(
                inv.cmd,
                "jj"@,
                seq!["--ignore-working-copy"@, "op"@, "integrate"@, operation],
                root,
            ))
            &&& replies.len() == 13 && found && replies[12] is Output ==> (step matches StepView::Run(
                inv,
            ) && duct_util::is_command(
                inv.cmd,
                "jj"@,
                seq!["workspace"@, "update-stale"@],
                root,
            ))
            &&& replies.len() > 13 && found && replies[12] is Output && replies[13] is Output ==> (
            step matches StepView::Done(r) && text::lines(replies[11]->text@) == seq![r.commit_id]
                && r.change_id == duplicates[duplicates.len() - 1].0)
            &&& replies.len() <= 13 ==> !(step is Done)
        }),
{
    law_jj_stack_is_found(root, base, commit, replies);
    if replies.len() > 11 && replies[11] is Output {
        jj_output::law_single_identifiers_are_whole(replies[11]->text@);
    }
    let duplicates = duplicates_of(replies[8]);
    assert(duplicates.last() == duplicates[duplicates.len() - 1]);
}

/// A test merge asks what Jujutsu can do and then makes one commit with exactly
/// two parents, the base and the submitted commit, in an operation that stays
/// apart. What Jujutsu says that it made is the result, once that operation has
/// become part of the repository.
#[verifier::spinoff_prover]
#[verifier::rlimit(100)]
pub proof fn law_jj_merge_has_both_parents(
    root: Seq<char>,
    base: Seq<char>,
    commit: Seq<char>,
    replies: Seq<Reply>,
)
    ensures
        ({
            let step = jj_merge_step(root, base, commit, replies);
            let supported = replies[0] is Output && text::holds_text(
                replies[0]->text@,
                "--no-integrate-operation"@,
            );
            let output = replies[1]->text@;
            let line = jj_output::first_with_prefix(
                text::lines(output),
                "Created new commit "@,
            );
            let made = supported && replies[1] is Output && jj_output::operation_id(output) is Some
                && line is Some && jj_output::is_creation(text::words(line->0));
            &&& replies.len() == 0 ==> (step matches StepView::Run(inv) && duct_util::is_command(
                inv.cmd,
                "jj"@,
                seq!["--help"@],
                root,
            ))
            &&& replies.len() > 0 && !supported ==> step is Fail
            &&& replies.len() == 1 && supported ==> (step matches StepView::Run(inv)
                && !inv.unchecked && duct_util::is_command(
                inv.cmd,
                "jj"@,
                seq![
                    "--ignore-working-copy"@,
                    "--no-integrate-operation"@,
                    "--color=never"@,
                    "--config"@,
                    "templates.commit_summary=\"self.change_id() ++ \\\" \\\" ++ self.commit_id()\""@,
                    "new"@,
                    "--no-edit"@,
                    "-m"@,
                    "Merge commit '"@ + commit + "' by SelfCI"@,
                    base,
                    commit,
                ],
                root,
            ))
            &&& replies.len() > 1 && supported && !made ==> step is Fail
            &&& replies.len() == 2 && made ==> (step matches StepView::Run(inv)
                && duct_util::is_command(
                inv.cmd,
                "jj"@,
                seq![
                    "--ignore-working-copy"@,
                    "op"@,
                    "integrate"@,
                    jj_output::operation_id(output)->0,
                ],
                root,
            ))
            &&& replies.len() == 3 && made && replies[2] is Output ==> (step matches StepView::Run(
                inv,
            ) && duct_util::is_command(
                inv.cmd,
                "jj"@,
                seq!["workspace"@, "update-stale"@],
                root,
            ))
            &&& replies.len() > 3 && made && replies[2] is Output && replies[3] is Output ==> (
            step matches StepView::Done(r) && r.change_id == text::words(line->0)[3] && r.commit_id
                == text::words(line->0)[4])
            &&& replies.len() <= 3 ==> !(step is Done)
            &&& replies.len() > 2 && made && replies[2] is Failed ==> step is Fail
        }),
{
}

/// The log of a test merge says what was merged, and then each command that was
/// run to make it, with what it printed.
#[verifier::spinoff_prover]
#[verifier::rlimit(100)]
pub proof fn law_jj_merge_is_logged(
    root: Seq<char>,
    base: Seq<char>,
    commit: Seq<char>,
    replies: Seq<Reply>,
)
    requires
        jj_merge_step(root, base, commit, replies) is Done,
    ensures
        ({
            let operation = jj_output::operation_id(replies[1]->text@)->0;
            jj_merge_step(root, base, commit, replies)->Done_0.output
                == "Jujutsu test merge: merging "@ + commit + " into "@ + base + "\n\n"@
                + test_merge::log_entry(
                jj_merge_step(root, base, commit, replies.take(1))->Run_0.cmd,
                replies[1]->text@,
            ) + test_merge::log_entry(jj_integrate(root, operation), replies[2]->text@)
                + test_merge::log_entry(jj_update_stale(root), replies[3]->text@)
                + "Test merge complete\n"@
        }),
{
    assert(replies.take(1)[0] == replies[0]);
    lemma_log_entries();
}

proof fn lemma_log_entries()
    ensures
        forall|log: Seq<char>, cmd: CmdView, output: Seq<char>| #[trigger]
            test_merge::logged(log, cmd, output) == log + test_merge::log_entry(cmd, output),
{
    assert forall|log: Seq<char>, cmd: CmdView, output: Seq<char>| #[trigger]
        test_merge::logged(log, cmd, output) == log + test_merge::log_entry(cmd, output) by {
        assert(test_merge::logged(log, cmd, output) =~= log + test_merge::log_entry(cmd, output));
    }
}

/// How the commands of a test merge are run, and what it fails with.
#[verifier::spinoff_prover]
#[verifier::rlimit(100)]
pub proof fn law_jj_merge_fails_with_what_went_wrong(
    root: Seq<char>,
    base: Seq<char>,
    commit: Seq<char>,
    replies: Seq<Reply>,
)
    ensures
        ({
            let step = jj_merge_step(root, base, commit, replies);
            let failed = |e: MergeErrorView| step == MergeStepView::Fail(e);
            let supported = replies.len() > 0 && replies[0] is Output && text::holds_text(
                replies[0]->text@,
                "--no-integrate-operation"@,
            );
            let output = replies[1]->text@;
            let line = jj_output::first_with_prefix(text::lines(output), "Created new commit "@);
            let ran = supported && replies.len() > 1 && replies[1] is Output;
            let known = ran && jj_output::operation_id(output) is Some;
            let made = known && line is Some && jj_output::is_creation(text::words(line->0));
            &&& replies.len() > 0 && replies[0] is Failed ==> failed(
                MergeErrorView::UnsupportedJj(replies[0]->Failed_0@),
            )
            &&& replies.len() > 0 && replies[0] is Output && !supported ==> failed(
                MergeErrorView::UnsupportedJj(
                    "this jj version lacks required --no-integrate-operation support"@,
                ),
            )
            &&& supported && replies.len() > 1 && replies[1] is Failed ==> failed(
                MergeErrorView::MergeFailed(replies[1]->Failed_0@),
            )
            &&& ran && !known ==> failed(
                MergeErrorView::MergeFailed(
                    "Failed to find unintegrated operation ID in output: "@ + output,
                ),
            )
            &&& known && line is None ==> failed(
                MergeErrorView::MergeFailed("Failed to parse merge commit from output: "@ + output),
            )
            &&& known && line is Some && !made ==> failed(
                MergeErrorView::MergeFailed(
                    "Invalid new commit output line: "@ + line->0 + "\nFull output:\n"@ + output,
                ),
            )
            &&& made && replies.len() > 2 && replies[2] is Failed ==> failed(
                MergeErrorView::BranchUpdateFailed(replies[2]->Failed_0@),
            )
            &&& made && replies.len() > 3 && replies[2] is Output && replies[3] is Failed
                ==> failed(MergeErrorView::BranchUpdateFailed(replies[3]->Failed_0@))
            &&& !(step is Panic)
            &&& step is Run ==> {
                let inv = step->Run_0;
                &&& !inv.unchecked
                &&& inv.output == script::OutputMode::Read
                &&& inv.stdin_null <==> replies.len() == 1 || replies.len() == 3
                &&& replies.len() > 0 ==> inv.stderr == script::StderrMode::ToStdout
            }
        }),
{
}

/// What is asked about the stack is logged, question by question, with what was
/// answered.
#[verifier::spinoff_prover]
#[verifier::rlimit(100)]
pub proof fn law_jj_stack_is_logged(
    root: Seq<char>,
    base: Seq<char>,
    commit: Seq<char>,
    replies: Seq<Reply>,
)
    requires
        stack_step(root, base, commit, replies) is Done,
    ensures
        ({
            let stack = stack_step(root, base, commit, replies)->Done_0;
            let identities = "self.change_id() ++ \" \" ++ self.commit_id() ++ \"\\n\""@;
            stack.output =~= test_merge::log_entry(
                jj_log(root, commit, "self.change_id()"@),
                stack.candidate_change_id,
            ) + test_merge::log_entry(jj_log(root, "::"@ + base, identities), replies[1]->text@)
                + "> "@ + duct_util::shell_text(jj_log(root, "::"@ + commit, identities)) + "\n"@
                + replies[2]->text@ + "\n"@ + "> "@ + duct_util::shell_text(
                jj_log(root, "::"@ + commit + " ~ ::"@ + base, identities),
            ) + "\n"@ + replies[3]->text@ + "\n"@
        }),
{
}

/// What the test rebase with Jujutsu fails with before it makes anything: a question
/// that could not be asked, an answer of another shape, a submitted change that the
/// base holds as another commit, or nothing to rebase.
#[verifier::spinoff_prover]
#[verifier::rlimit(100)]
pub proof fn law_jj_rebase_fails_on_unclear_answers(
    root: Seq<char>,
    base: Seq<char>,
    commit: Seq<char>,
    replies: Seq<Reply>,
)
    requires
        jj_rebase_step(root, base, commit, replies) is Fail,
    ensures
        ({
            let e = jj_rebase_step(root, base, commit, replies)->Fail_0;
            let bad = |k: int|
                replies[k] is Output && e == MergeErrorView::ChangeIdFailed(
                    "unexpected jj machine output: "@ + text::debug_text(replies[k]->text@),
                );
            let base_ids = jj_output::identities(replies[1]->text@)->0;
            let ids = jj_output::identities(replies[2]->text@)->0;
            ||| has_diverged(replies) && replies.len() > 6
            ||| stack_is_known(replies) && replies.len() > 6 && stands_behind(replies) && (bad(6)
                || replies[6] is Failed && e == MergeErrorView::ChangeIdFailed(
                replies[6]->Failed_0@,
            ))
            ||| stack_is_known(replies) && replies.len() > 4 && replies[4] is Failed && e
                == MergeErrorView::ChangeIdFailed(replies[4]->Failed_0@)
            ||| stack_is_known(replies) && replies.len() > 5 && replies[5] is Failed && e
                == MergeErrorView::ChangeIdFailed(replies[5]->Failed_0@)
            ||| stack_is_known(replies) && replies.len() > 5 && text::lines(
                replies[3]->text@,
            ).len() == 0 && e == MergeErrorView::RebaseFailed(
                "submitted candidate has no exact suffix to rebase"@,
            )
            ||| !stack_is_known(replies) && exists|k: int|
                0 <= k < 4 && k < replies.len() && (#[trigger] replies[k]) is Failed && e
                    == MergeErrorView::ChangeIdFailed(replies[k]->Failed_0@)
            ||| !stack_is_known(replies) && replies.len() > 0 && bad(0)
                && jj_output::single_change_id(replies[0]->text@) is None
            ||| !stack_is_known(replies) && replies.len() > 1 && bad(1) && jj_output::identities(
                replies[1]->text@,
            ) is None
            ||| !stack_is_known(replies) && replies.len() > 2 && bad(2) && jj_output::identities(
                replies[2]->text@,
            ) is None
            ||| !stack_is_known(replies) && replies.len() > 3 && bad(3) && jj_output::identities(
                replies[3]->text@,
            ) is None
            ||| !stack_is_known(replies) && replies.len() > 2 && jj_output::first_conflict(
                base_ids,
                ids,
            ) is Some && e == MergeErrorView::RebaseFailed(
                "checked base contains a different revision of submitted change "@
                    + jj_output::first_conflict(base_ids, ids)->0,
            )
        }),
{
    law_jj_stack_is_found(root, base, commit, replies);
    law_jj_stack_is_oldest_first(root, base, commit, replies);
}

/// What the test rebase with Jujutsu fails with once candidate and base have
/// diverged.
#[verifier::spinoff_prover]
#[verifier::rlimit(100)]
pub proof fn law_jj_rebase_fails_with_what_went_wrong(
    root: Seq<char>,
    base: Seq<char>,
    commit: Seq<char>,
    replies: Seq<Reply>,
)
    requires
        has_diverged(replies),
        replies.len() > 6,
    ensures
        ({
            let step = jj_rebase_step(root, base, commit, replies);
            let failed = |e: MergeErrorView| step == MergeStepView::Fail(e);
            let counted = replies[6] is Output;
            let asked = counted && replies.len() > 7;
            let supported = asked && replies[7] is Output && text::holds_text(
                replies[7]->text@,
                "--no-integrate-operation"@,
            );
            let output = replies[8]->text@;
            let copied = supported && replies.len() > 8 && replies[8] is Output;
            let apart = copied && jj_output::operation_id(output) is Some;
            let read = jj_output::duplications(text::lines(output));
            let expected = text::lines(replies[6]->text@).len();
            &&& !counted ==> failed(MergeErrorView::ChangeIdFailed(replies[6]->Failed_0@))
            &&& asked && replies[7] is Failed ==> failed(
                MergeErrorView::UnsupportedJj(replies[7]->Failed_0@),
            )
            &&& asked && replies[7] is Output && !supported ==> failed(
                MergeErrorView::UnsupportedJj(
                    "this jj version lacks required --no-integrate-operation support"@,
                ),
            )
            &&& supported && replies.len() > 8 && replies[8] is Failed ==> failed(
                MergeErrorView::RebaseFailed(replies[8]->Failed_0@),
            )
            &&& copied && !apart ==> failed(
                MergeErrorView::RebaseFailed(
                    "Failed to find unintegrated operation ID in output: "@ + output,
                ),
            )
            &&& apart && read is Err ==> failed(
                MergeErrorView::RebaseFailed(
                    "Invalid duplicate output line: "@ + read->Err_0 + "\nFull output:\n"@
                        + output,
                ),
            )
            &&& apart && read is Ok && read->Ok_0.len() != expected ==> failed(
                MergeErrorView::RebaseFailed(
                    "Expected "@ + text::decimal(expected) + " duplicated changes, found "@
                        + text::decimal(read->Ok_0.len()) + " in output:\n"@ + output,
                ),
            )
            &&& step is Panic ==> apart && read is Ok && read->Ok_0.len() == 0 && expected == 0
        }),
{
    law_jj_stack_is_found(root, base, commit, replies);
    law_jj_stack_is_oldest_first(root, base, commit, replies);
}

/// What the test rebase with Jujutsu fails with once the stack was duplicated.
#[verifier::spinoff_prover]
#[verifier::rlimit(100)]
pub proof fn law_jj_rebase_fails_to_land_for_a_reason(
    root: Seq<char>,
    base: Seq<char>,
    commit: Seq<char>,
    replies: Seq<Reply>,
)
    requires
        was_duplicated(replies),
        replies.len() > 9,
    ensures
        ({
            let step = jj_rebase_step(root, base, commit, replies);
            let failed = |e: MergeErrorView| step == MergeStepView::Fail(e);
            let bad = |k: int|
                failed(
                    MergeErrorView::ChangeIdFailed(
                        "unexpected jj machine output: "@ + text::debug_text(replies[k]->text@),
                    ),
                );
            let lines = text::lines(replies[10]->text@);
            let counted = was_rebased(replies) && replies.len() > 10 && replies[10] is Output
                && jj_output::all_commit_ids(lines) && lines.len() == duplicates_of(
                replies[8],
            ).len();
            let found = counted && replies.len() > 11 && replies[11] is Output
                && jj_output::single_commit_id(replies[11]->text@) is Some;
            &&& replies[9] is Failed ==> failed(
                MergeErrorView::RebaseFailed(replies[9]->Failed_0@),
            )
            &&& replies[9] is Output && !replies[9]->success ==> failed(
                MergeErrorView::RebaseFailed(replies[9]->text@),
            )
            &&& replies[9] is Output && replies[9]->success && !was_rebased(replies) ==> failed(
                MergeErrorView::RebaseFailed(
                    "Failed to find unintegrated rebase operation ID in output: "@
                        + replies[9]->text@,
                ),
            )
            &&& was_rebased(replies) && replies.len() > 10 && replies[10] is Failed ==> failed(
                MergeErrorView::ChangeIdFailed(replies[10]->Failed_0@),
            )
            &&& was_rebased(replies) && replies.len() > 10 && replies[10] is Output && !counted
                ==> bad(10)
            &&& counted && replies.len() > 11 && replies[11] is Failed ==> failed(
                MergeErrorView::ChangeIdFailed(replies[11]->Failed_0@),
            )
            &&& counted && replies.len() > 11 && replies[11] is Output && !found ==> bad(11)
            &&& found && replies.len() > 12 && replies[12] is Failed ==> failed(
                MergeErrorView::BranchUpdateFailed(replies[12]->Failed_0@),
            )
            &&& found && replies.len() > 13 && replies[12] is Output && replies[13] is Failed
                ==> failed(MergeErrorView::BranchUpdateFailed(replies[13]->Failed_0@))
        }),
{
    law_jj_stack_is_found(root, base, commit, replies);
    law_jj_stack_is_oldest_first(root, base, commit, replies);
}

/// The log of a test rebase goes on from that of the stack with each command that
/// was run, in order, and what it printed or what was read from that.
#[verifier::spinoff_prover]
#[verifier::rlimit(100)]
pub proof fn law_jj_rebase_is_logged(
    root: Seq<char>,
    base: Seq<char>,
    commit: Seq<char>,
    replies: Seq<Reply>,
)
    requires
        jj_rebase_step(root, base, commit, replies) is Done,
    ensures
        ({
            let done = jj_rebase_step(root, base, commit, replies)->Done_0;
            let stack = stack_step(root, base, commit, replies)->Done_0;
            let count = "\"revision\\n\""@;
            let placed = stack.output + test_merge::log_entry(
                jj_log(root, commit + " & "@ + base + "::"@, count),
                replies[4]->text@,
            );
            let apart = placed + test_merge::log_entry(
                jj_log(root, base + " & "@ + commit + "::"@, count),
                replies[5]->text@,
            );
            let revset = stack.unique_stack[0] + "::"@ + commit;
            let first = jj_output::operation_id(replies[8]->text@)->0;
            let operation = jj_output::operation_id(replies[9]->text@)->0;
            let duplicates = duplicates_of(replies[8]);
            let one = text::lines(replies[4]->text@).len() == 1;
            &&& one ==> done.output == placed
            &&& !one && stands_behind(replies) ==> done.output == apart + test_merge::log_entry(
                jj_log(root, base, "self.change_id()"@),
                done.change_id,
            )
            &&& !one && !stands_behind(replies) ==> done.output == apart + test_merge::log_entry(
                jj_log(root, revset, count),
                replies[6]->text@,
            ) + test_merge::log_entry(jj_duplicate_cmd(root, revset), replies[8]->text@)
                + test_merge::log_entry(
                jj_rebase_cmd(root, first, duplicates[0].1, base),
                replies[9]->text@,
            ) + test_merge::log_entry(
                jj_log_at(root, operation, any_of(duplicates), "self.commit_id() ++ '\n'"@),
                replies[10]->text@,
            ) + test_merge::log_entry(
                jj_log_at(root, operation, duplicates.last().0, "self.commit_id()"@),
                done.commit_id,
            ) + test_merge::log_entry(jj_integrate(root, operation), replies[12]->text@)
                + test_merge::log_entry(jj_update_stale(root), replies[13]->text@)
        }),
{
    lemma_log_entries();
    assert forall|log: Seq<char>| #[trigger] (log + Seq::<char>::empty()) == log by {
        assert(log + Seq::<char>::empty() =~= log);
    }
}

/// How the commands of a test rebase are run: what is asked is read as it is; the
/// duplication, the rebase and what follows them show their errors with their
/// output, and only the rebase may fail.
#[verifier::spinoff_prover]
#[verifier::rlimit(100)]
pub proof fn law_jj_rebase_runs_as_it_must(
    root: Seq<char>,
    base: Seq<char>,
    commit: Seq<char>,
    replies: Seq<Reply>,
)
    requires
        jj_rebase_step(root, base, commit, replies) is Run,
    ensures
        ({
            let inv = jj_rebase_step(root, base, commit, replies)->Run_0;
            let n = replies.len();
            &&& n < 14
            &&& inv.unchecked <==> n == 9
            &&& inv.output == (if n == 9 {
                script::OutputMode::Capture
            } else {
                script::OutputMode::Read
            })
            &&& inv.stderr == (if n == 8 || n == 9 || n == 12 || n == 13 {
                script::StderrMode::ToStdout
            } else {
                script::StderrMode::Inherit
            })
            &&& inv.stdin_null <==> n == 13
        }),
{
}

} // verus!
