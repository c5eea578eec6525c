//! Hooks of the merge queue: what is run, with which variables, and what its
//! end means.

use vstd::prelude::*;

use crate::config::{CommandConfig, CommandConfigView};
use crate::duct_util;
use crate::duct_util::{Cmd, CmdView};
use crate::envs;
use crate::revision::{ChangeId, CommitId, ResolvedRevision, ResolvedRevisionView};
use crate::script;
use crate::script::{Invocation, InvocationView, Reply};
use crate::text;

verus! {

/// What came of a hook.
#[derive(Debug)]
pub struct HookResult {
    pub success: bool,
    pub output: String,
}

/// What a [`HookResult`] holds.
pub struct HookResultView {
    pub success: bool,
    pub output: Seq<char>,
}

impl View for HookResult {
    type V = HookResultView;

    open spec fn view(&self) -> HookResultView {
        HookResultView { success: self.success, output: self.output@ }
    }
}

/// A change and a commit.
#[derive(Debug)]
pub struct Identity {
    pub commit_id: CommitId,
    pub change_id: ChangeId,
}

impl Clone for Identity {
    fn clone(&self) -> (res: Self)
        ensures
            res == *self,
    {
        Identity { commit_id: self.commit_id.clone(), change_id: self.change_id.clone() }
    }
}

/// What a hook is told about the run that it belongs to.
#[derive(Debug)]
pub struct CandidateHookEnv {
    /// What was submitted.
    pub candidate: ResolvedRevision,
    pub base_branch: String,
    /// What is tested, once the test integration was made.
    pub tested: Option<Identity>,
    /// What was published, once that was verified.
    pub landed: Option<Identity>,
    /// The directories of the base and of the candidate, while they exist.
    pub worktrees: Option<(String, String)>,
}

/// What a [`CandidateHookEnv`] holds.
pub struct HookEnvView {
    pub candidate: ResolvedRevisionView,
    pub base_branch: Seq<char>,
    pub tested: Option<(Seq<char>, Seq<char>)>,
    pub landed: Option<(Seq<char>, Seq<char>)>,
    pub worktrees: Option<(Seq<char>, Seq<char>)>,
}

/// The commit and the change of an identity.
pub open spec fn identity_view(id: Option<Identity>) -> Option<(Seq<char>, Seq<char>)> {
    match id {
        Some(i) => Some((i.commit_id@, i.change_id@)),
        None => None,
    }
}

impl View for CandidateHookEnv {
    type V = HookEnvView;

    open spec fn view(&self) -> HookEnvView {
        HookEnvView {
            candidate: self.candidate@,
            base_branch: self.base_branch@,
            tested: identity_view(self.tested),
            landed: identity_view(self.landed),
            worktrees: match self.worktrees {
                Some((base, candidate)) => Some((base@, candidate@)),
                None => None,
            },
        }
    }
}

/// The command with the variables of a run. The older names are aliases for
/// the tested identities.
pub open spec fn candidate_env(cmd: CmdView, env: HookEnvView) -> CmdView {
    let cmd = cmd.env(envs::SELFCI_CANDIDATE_COMMIT_ID@, env.candidate.commit_id).env(
        envs::SELFCI_CANDIDATE_CHANGE_ID@,
        env.candidate.change_id,
    ).env(envs::SELFCI_CANDIDATE_ID@, env.candidate.user).env(
        envs::SELFCI_MQ_BASE_BRANCH@,
        env.base_branch,
    );
    let cmd = match env.tested {
        Some((commit, change)) => crate::worker::tested_env(cmd, commit, change),
        None => cmd,
    };
    let cmd = match env.landed {
        Some((commit, change)) => cmd.env(envs::SELFCI_LANDED_COMMIT_ID@, commit).env(
            envs::SELFCI_LANDED_CHANGE_ID@,
            change,
        ),
        None => cmd,
    };
    match env.worktrees {
        Some((base, candidate)) => cmd.env(envs::SELFCI_BASE_DIR@, base).env(
            envs::SELFCI_CANDIDATE_DIR@,
            candidate,
        ),
        None => cmd,
    }
}

/// The command of a hook, run at the project's root.
pub open spec fn hook_command(
    hook: CommandConfigView,
    root: Seq<char>,
    env: Option<HookEnvView>,
) -> CmdView {
    let cmd = duct_util::command_of_words(hook.full()).dir(root).env(
        envs::SELFCI_RUN_MODE@,
        "mq"@,
    );
    match env {
        Some(e) => candidate_env(cmd, e),
        None => cmd,
    }
}

/// What is run for a hook: nothing where there is no hook or it has no command.
pub open spec fn hook_run(
    hook: Option<CommandConfigView>,
    root: Seq<char>,
    env: Option<HookEnvView>,
) -> Option<InvocationView> {
    match hook {
        Some(h) => if h.command is Some {
            Some(script::capture_of(hook_command(h, root, env)))
        } else {
            None
        },
        None => None,
    }
}

/// What came of a hook. One for which nothing is run succeeds without output.
pub open spec fn hook_outcome(
    run: Option<InvocationView>,
    reply: Option<Reply>,
) -> HookResultView {
    match (run, reply) {
        (Some(_), Some(Reply::Output { success, text })) => HookResultView {
            success,
            output: text@,
        },
        (Some(_), Some(Reply::Failed(m))) => HookResultView {
            success: false,
            output: "Failed to execute hook: "@ + m@,
        },
        _ => HookResultView { success: true, output: seq![] },
    }
}

/// What is shown of a hook that was run.
pub open spec fn printed(reply: Reply) -> Seq<char> {
    match reply {
        Reply::Output { text, .. } => text@,
        Reply::Failed(m) => "Failed to execute hook: "@ + m@,
    }
}

fn add_candidate_env(cmd: Cmd, env: &CandidateHookEnv) -> (res: Cmd)
    ensures
        res@ == candidate_env(cmd@, env@),
{
    let cmd = cmd.env(envs::SELFCI_CANDIDATE_COMMIT_ID, env.candidate.commit_id.as_str()).env(
        envs::SELFCI_CANDIDATE_CHANGE_ID,
        env.candidate.change_id.as_str(),
    ).env(envs::SELFCI_CANDIDATE_ID, env.candidate.user.as_str()).env(
        envs::SELFCI_MQ_BASE_BRANCH,
        env.base_branch.as_str(),
    );
    let cmd = match &env.tested {
        Some(id) => crate::worker::with_tested(cmd, id.commit_id.as_str(), id.change_id.as_str()),
        None => cmd,
    };
    let cmd = match &env.landed {
        Some(id) => cmd.env(envs::SELFCI_LANDED_COMMIT_ID, id.commit_id.as_str()).env(
            envs::SELFCI_LANDED_CHANGE_ID,
            id.change_id.as_str(),
        ),
        None => cmd,
    };
    match &env.worktrees {
        Some((base, candidate)) => cmd.env(envs::SELFCI_BASE_DIR, base.as_str()).env(
            envs::SELFCI_CANDIDATE_DIR,
            candidate.as_str(),
        ),
        None => cmd,
    }
}

/// An environment that may be missing, by what it holds.
pub open spec fn env_view(env: Option<&CandidateHookEnv>) -> Option<HookEnvView> {
    match env {
        Some(e) => Some(e@),
        None => None,
    }
}

/// What is run for a hook, if anything is.
pub fn run_hook_with_env(
    hook: &Option<CommandConfig>,
    root_dir: &str,
    candidate_env: Option<&CandidateHookEnv>,
) -> (res: Option<Invocation>)
    ensures
        match hook_run(hook.deep_view(), root_dir@, env_view(candidate_env)) {
            Some(inv) => res matches Some(i) && i@ == inv,
            None => res is None,
        },
{
    let hook_config = match hook {
        Some(h) => h,
        None => return None,
    };
    if !hook_config.is_set() {
        return None;
    }
    let full_command = hook_config.full_command();
    assert(text::texts(full_command@).len() == full_command@.len());
    let cmd = Cmd::from_words(&full_command).dir(root_dir).env(envs::SELFCI_RUN_MODE, "mq");
    let cmd = match candidate_env {
        Some(env) => add_candidate_env(cmd, env),
        None => cmd,
    };
    Some(Invocation::capture(cmd))
}

/// What came of a hook that was run.
pub fn hook_reply(reply: &Reply) -> (res: HookResult)
    ensures
        forall|run: InvocationView| res@ == #[trigger] hook_outcome(Some(run), Some(*reply)),
{
    match reply {
        Reply::Output { success, text } => HookResult { success: *success, output: text.clone() },
        Reply::Failed(m) => HookResult {
            success: false,
            output: String::from_str("Failed to execute hook: ").concat(m.as_str()),
        },
    }
}

/// What is run for a hook of the daemon, which belongs to no run.
pub fn run_hook(hook: &Option<CommandConfig>, root_dir: &str) -> (res: Option<Invocation>)
    ensures
        match hook_run(hook.deep_view(), root_dir@, None) {
            Some(inv) => res matches Some(i) && i@ == inv,
            None => res is None,
        },
{
    run_hook_with_env(hook, root_dir, None)
}

/// What is run for a hook that talks to the user.
pub open spec fn interactive_run(
    hook: Option<CommandConfigView>,
    root: Seq<char>,
) -> Option<InvocationView> {
    match hook {
        Some(h) => if h.command is Some {
            Some(
                script::interactive_of(
                    duct_util::command_of_words(h.full()).dir(root).env(
                        envs::SELFCI_RUN_MODE@,
                        "mq"@,
                    ),
                ),
            )
        } else {
            None
        },
        None => None,
    }
}

/// What is run for a hook that talks to the user, if anything is.
pub fn run_hook_interactive(hook: &Option<CommandConfig>, root_dir: &str) -> (res: Option<
    Invocation,
>)
    ensures
        match interactive_run(hook.deep_view(), root_dir@) {
            Some(inv) => res matches Some(i) && i@ == inv,
            None => res is None,
        },
{
    let hook_config = match hook {
        Some(h) => h,
        None => return None,
    };
    if !hook_config.is_set() {
        return None;
    }
    let full_command = hook_config.full_command();
    assert(text::texts(full_command@).len() == full_command@.len());
    let cmd = Cmd::from_words(&full_command).dir(root_dir).env(envs::SELFCI_RUN_MODE, "mq");
    Some(Invocation::interactive(cmd))
}

/// Whether a hook that talks to the user succeeded, and what to print where it
/// could not be run.
pub fn interactive_reply(hook_name: &str, reply: &Reply) -> (res: (bool, Option<String>))
    ensures
        match *reply {
            Reply::Output { success, .. } => res == (success, None::<String>),
            Reply::Failed(m) => {
                &&& !res.0
                &&& res.1 matches Some(e) && e@ == "Failed to execute "@ + hook_name@ + " hook: "@
                    + m@
            },
        },
{
    match reply {
        Reply::Output { success, .. } => (*success, None),
        Reply::Failed(m) => (
            false,
            Some(
                String::from_str("Failed to execute ").concat(hook_name).concat(" hook: ").concat(
                    m.as_str(),
                ),
            ),
        ),
    }
}

/// A hook of a run is told of the submitted candidate and of the base branch.
/// It is told of a tested integration, under both names, of a landed identity
/// and of directories if and only if there are any. It runs at the project's
/// root, and knows that it runs in the merge queue.
pub proof fn law_hooks_know_their_run(hook: CommandConfigView, root: Seq<char>, env: HookEnvView)
    ensures
        ({
            let cmd = hook_command(hook, root, Some(env));
            let told = |key: Seq<char>| duct_util::variable(cmd.env_vars, key);
            &&& cmd.dir == Some(root)
            &&& told(envs::SELFCI_RUN_MODE@) == Some("mq"@)
            &&& told(envs::SELFCI_CANDIDATE_COMMIT_ID@) == Some(env.candidate.commit_id)
            &&& told(envs::SELFCI_CANDIDATE_CHANGE_ID@) == Some(env.candidate.change_id)
            &&& told(envs::SELFCI_CANDIDATE_ID@) == Some(env.candidate.user)
            &&& told(envs::SELFCI_MQ_BASE_BRANCH@) == Some(env.base_branch)
            &&& told(envs::SELFCI_TESTED_COMMIT_ID@) == duct_util::first_part(env.tested)
            &&& told(envs::SELFCI_TESTED_CHANGE_ID@) == duct_util::second_part(env.tested)
            &&& told(envs::SELFCI_MERGED_COMMIT_ID@) == duct_util::first_part(env.tested)
            &&& told(envs::SELFCI_MERGED_CHANGE_ID@) == duct_util::second_part(env.tested)
            &&& told(envs::SELFCI_LANDED_COMMIT_ID@) == duct_util::first_part(env.landed)
            &&& told(envs::SELFCI_LANDED_CHANGE_ID@) == duct_util::second_part(env.landed)
            &&& told(envs::SELFCI_BASE_DIR@) == duct_util::first_part(env.worktrees)
            &&& told(envs::SELFCI_CANDIDATE_DIR@) == duct_util::second_part(env.worktrees)
        }),
{
    broadcast use duct_util::lemma_variable_set;

    envs::lemma_names_differ();
}

/// What is run for a hook is its prefix and its command, at the project's root:
/// whatever it prints is kept, and that it fails is an ordinary end. A hook
/// without a command is not run.
pub proof fn law_hooks_run_their_command(
    hook: CommandConfigView,
    root: Seq<char>,
    env: Option<HookEnvView>,
    i: int,
)
    ensures
        hook_run(None, root, env) is None,
        interactive_run(None, root) is None,
        hook_run(Some(hook), root, env) is Some <==> hook.command is Some,
        interactive_run(Some(hook), root) is Some <==> hook.command is Some,
        hook.command matches Some(command) ==> {
            let n = hook.command_prefix.len() as int;
            let inv = hook_run(Some(hook), root, env)->0;
            &&& inv.cmd.dir == Some(root)
            &&& inv.cmd.args.len() == n
            &&& n == 0 ==> inv.cmd.program == command
            &&& n > 0 ==> inv.cmd.program == hook.command_prefix[0] && inv.cmd.args[n - 1]
                == command
            &&& 1 <= i < n ==> inv.cmd.args[i - 1] == hook.command_prefix[i]
            &&& inv.unchecked
            &&& inv.output == script::OutputMode::Capture
            &&& inv.stderr == script::StderrMode::ToStdout
            &&& env is None ==> inv.cmd.env_vars =~= seq![("SELFCI_RUN_MODE"@, "mq"@)]
        },
        hook.command matches Some(command) ==> {
            let n = hook.command_prefix.len() as int;
            let inv = interactive_run(Some(hook), root)->0;
            &&& inv.cmd.dir == Some(root)
            &&& inv.cmd.args.len() == n
            &&& n == 0 ==> inv.cmd.program == command
            &&& n > 0 ==> inv.cmd.program == hook.command_prefix[0] && inv.cmd.args[n - 1]
                == command
            &&& 1 <= i < n ==> inv.cmd.args[i - 1] == hook.command_prefix[i]
            &&& inv.unchecked
            &&& inv.output == script::OutputMode::Inherit
            &&& inv.stderr == script::StderrMode::Inherit
            &&& !inv.stdin_null
            &&& inv.cmd.env_vars =~= seq![("SELFCI_RUN_MODE"@, "mq"@)]
        },
{
}

/// What a hook of a run finds under each name. A tested or landed identity has its
/// commit under the name for commits and its change under the name for changes;
/// where there is none, nothing is set.
pub proof fn law_hooks_find_identities(hook: CommandConfigView, root: Seq<char>, env: HookEnvView)
    requires
        hook.command is Some,
    ensures
        ({
            let vars = hook_run(Some(hook), root, Some(env))->0.cmd.env_vars;
            let told = |key: Seq<char>| duct_util::variable(vars, key);
            &&& told("SELFCI_RUN_MODE"@) == Some("mq"@)
            &&& told("SELFCI_CANDIDATE_COMMIT_ID"@) == Some(env.candidate.commit_id)
            &&& told("SELFCI_CANDIDATE_CHANGE_ID"@) == Some(env.candidate.change_id)
            &&& told("SELFCI_CANDIDATE_ID"@) == Some(env.candidate.user)
            &&& told("SELFCI_MQ_BASE_BRANCH"@) == Some(env.base_branch)
            &&& env.tested is Some ==> {
                &&& told("SELFCI_TESTED_COMMIT_ID"@) == Some((env.tested->0).0)
                &&& told("SELFCI_TESTED_CHANGE_ID"@) == Some((env.tested->0).1)
                &&& told("SELFCI_MERGED_COMMIT_ID"@) == Some((env.tested->0).0)
                &&& told("SELFCI_MERGED_CHANGE_ID"@) == Some((env.tested->0).1)
            }
            &&& env.tested is None ==> {
                &&& told("SELFCI_TESTED_COMMIT_ID"@) is None
                &&& told("SELFCI_TESTED_CHANGE_ID"@) is None
                &&& told("SELFCI_MERGED_COMMIT_ID"@) is None
                &&& told("SELFCI_MERGED_CHANGE_ID"@) is None
            }
            &&& env.landed is Some ==> {
                &&& told("SELFCI_LANDED_COMMIT_ID"@) == Some((env.landed->0).0)
                &&& told("SELFCI_LANDED_CHANGE_ID"@) == Some((env.landed->0).1)
            }
            &&& env.landed is None ==> {
                &&& told("SELFCI_LANDED_COMMIT_ID"@) is None
                &&& told("SELFCI_LANDED_CHANGE_ID"@) is None
            }
            &&& env.worktrees is Some ==> {
                &&& told("SELFCI_BASE_DIR"@) == Some((env.worktrees->0).0)
                &&& told("SELFCI_CANDIDATE_DIR"@) == Some((env.worktrees->0).1)
            }
            &&& env.worktrees is None ==> {
                &&& told("SELFCI_BASE_DIR"@) is None
                &&& told("SELFCI_CANDIDATE_DIR"@) is None
            }
        }),
{
    law_hooks_know_their_run(hook, root, env);
}

/// A hook succeeds if it was run and ended well, or if there was nothing to run.
/// What it printed is kept as it was, and one that could not be run says why.
pub proof fn law_hooks_succeed_by_their_end(
    run: InvocationView,
    reply: Reply,
    other: Option<Reply>,
)
    ensures
        reply matches Reply::Output { success, text } ==> {
            &&& hook_outcome(Some(run), Some(reply)).success == success
            &&& hook_outcome(Some(run), Some(reply)).output == text@
            &&& printed(reply) == text@
        },
        reply matches Reply::Failed(reason) ==> {
            &&& !hook_outcome(Some(run), Some(reply)).success
            &&& hook_outcome(Some(run), Some(reply)).output == "Failed to execute hook: "@
                + reason@
            &&& printed(reply) == "Failed to execute hook: "@ + reason@
        },
        hook_outcome(None, other).success,
        hook_outcome(None, other).output.len() == 0,
{
}

/// What a hook is told is what its parts hold.
pub proof fn law_hook_environments_hold_their_parts(env: CandidateHookEnv, result: HookResult)
    ensures
        env@.candidate == env.candidate@,
        env@.base_branch == env.base_branch@,
        env.tested matches Some(id) ==> env@.tested == Some((id.commit_id@, id.change_id@)),
        env@.tested is Some <==> env.tested is Some,
        env.landed matches Some(id) ==> env@.landed == Some((id.commit_id@, id.change_id@)),
        env@.landed is Some <==> env.landed is Some,
        env.worktrees matches Some(dirs) ==> env@.worktrees == Some((dirs.0@, dirs.1@)),
        env@.worktrees is Some <==> env.worktrees is Some,
        result@.success == result.success,
        result@.output == result.output@,
{
}

/// A hook that talks to the user succeeds by its end alone. Only one that could not
/// be run is spoken of.
pub proof fn law_talking_hooks_succeed_by_their_end(
    hook_name: &str,
    reply: Reply,
    res: (bool, Option<String>),
)
    requires
        call_ensures(interactive_reply, (hook_name, &reply), res),
    ensures
        res.0 <==> (reply matches Reply::Output { success: true, .. }),
        res.1 is Some <==> reply is Failed,
        reply matches Reply::Failed(reason) ==> (res.1->0)@ == "Failed to execute "@ + hook_name@
            + " hook: "@ + reason@,
{
}

/// A hook of the daemon is told of no run, and any hook is run only where there is
/// one with a command.
pub proof fn law_hooks_run_where_there_are_any(
    hook: Option<CommandConfig>,
    root_dir: &str,
    env: Option<&CandidateHookEnv>,
    alone: Option<Invocation>,
    told: Option<Invocation>,
    talking: Option<Invocation>,
)
    requires
        call_ensures(run_hook, (&hook, root_dir), alone),
        call_ensures(run_hook_with_env, (&hook, root_dir, env), told),
        call_ensures(run_hook_interactive, (&hook, root_dir), talking),
    ensures
        alone is Some <==> hook is Some && hook->0.command is Some,
        told is Some <==> hook is Some && hook->0.command is Some,
        talking is Some <==> hook is Some && hook->0.command is Some,
        alone matches Some(inv) ==> inv@.cmd.env_vars =~= seq![("SELFCI_RUN_MODE"@, "mq"@)]
            && inv@.cmd.dir == Some(root_dir@),
        told matches Some(inv) ==> inv@.cmd.dir == Some(root_dir@),
        talking matches Some(inv) ==> inv@.cmd.dir == Some(root_dir@) && inv@.output
            == script::OutputMode::Inherit,
{
}

} // verus!
