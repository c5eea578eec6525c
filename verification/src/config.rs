//! Configuration: the project's, the local one, and how they combine.

use vstd::prelude::*;

use crate::constants;
use crate::error::{MainError, MainErrorView};
use crate::text;

verus! {

/// The prefix of a command for which none is configured.
pub open spec fn default_prefix() -> Seq<Seq<char>> {
    seq!["bash"@].push("-c"@)
}

/// The prefix of a command for which none is configured: `bash -c`.
pub fn default_command_prefix() -> (res: Vec<String>)
    ensures
        text::texts(res@) == default_prefix(),
{
    let mut res: Vec<String> = Vec::new();
    res.push("bash".to_owned());
    res.push("-c".to_owned());
    assert(text::texts(res@) =~= default_prefix());
    res
}

/// A copy of strings.
pub fn copy_strings(strings: &Vec<String>) -> (res: Vec<String>)
    ensures
        text::texts(res@) == text::texts(strings@),
{
    let mut res: Vec<String> = Vec::new();
    let mut i: usize = 0;
    while i < strings.len()
        invariant
            i <= strings.len(),
            text::texts(res@) == text::texts(strings@).take(i as int),
        decreases strings.len() - i,
    {
        let ghost before = res@;
        res.push(strings[i].clone());
        proof {
            assert(text::texts(res@) =~= text::texts(before).push(strings@[i as int]@));
            assert(text::texts(res@) =~= text::texts(strings@).take(i + 1));
        }
        i = i + 1;
    }
    assert(text::texts(strings@).take(i as int) =~= text::texts(strings@));
    res
}

/// A copy of a text that may be missing.
pub fn copy_option(s: &Option<String>) -> (res: Option<String>)
    ensures
        res == *s,
{
    match s {
        Some(t) => Some(t.clone()),
        None => None,
    }
}

/// A command of a hook.
#[derive(Debug)]
pub struct CommandConfig {
    pub command: Option<String>,
    pub command_prefix: Vec<String>,
}

/// What a [`CommandConfig`] holds.
pub struct CommandConfigView {
    pub command: Option<Seq<char>>,
    pub command_prefix: Seq<Seq<char>>,
}

impl View for CommandConfig {
    type V = CommandConfigView;

    open spec fn view(&self) -> CommandConfigView {
        CommandConfigView {
            command: self.command.deep_view(),
            command_prefix: text::texts(self.command_prefix@),
        }
    }
}

impl DeepView for CommandConfig {
    type V = CommandConfigView;

    open spec fn deep_view(&self) -> CommandConfigView {
        self@
    }
}

impl CommandConfigView {
    /// The prefix and, where there is one, the command.
    pub open spec fn full(self) -> Seq<Seq<char>> {
        match self.command {
            Some(cmd) => self.command_prefix.push(cmd),
            None => self.command_prefix,
        }
    }
}

impl Default for CommandConfig {
    fn default() -> (res: Self)
        ensures
            res@ == (CommandConfigView { command: None, command_prefix: seq![] }),
    {
        let res = CommandConfig { command: None, command_prefix: Vec::new() };
        assert(text::texts(res.command_prefix@) =~= seq![]);
        res
    }
}

impl Clone for CommandConfig {
    fn clone(&self) -> (res: Self)
        ensures
            res@ == self@,
    {
        CommandConfig {
            command: copy_option(&self.command),
            command_prefix: copy_strings(&self.command_prefix),
        }
    }
}

impl CommandConfig {
    /// Whether there is a command.
    pub fn is_set(&self) -> (res: bool)
        ensures
            res == self@.command is Some,
    {
        self.command.is_some()
    }

    /// The prefix followed by the command.
    pub fn full_command(&self) -> (res: Vec<String>)
        ensures
            text::texts(res@) == self@.full(),
    {
        let mut full = copy_strings(&self.command_prefix);
        match &self.command {
            Some(cmd) => {
                let ghost before = full@;
                full.push(cmd.clone());
                assert(text::texts(full@) =~= text::texts(before).push(cmd@));
            },
            None => {},
        }
        full
    }
}

/// How much of a repository is cloned.
#[derive(Debug, Clone, Copy, PartialEq, Eq, Structural)]
pub enum CloneMode {
    Full,
    Partial,
    Shallow,
}

/// The clone mode where none is configured: partial.
pub fn default_clone_mode() -> (res: CloneMode)
    ensures
        res == CloneMode::Partial,
{
    CloneMode::Partial
}

/// The command of a check.
#[derive(Debug)]
pub struct JobConfig {
    pub command: String,
    pub command_prefix: Vec<String>,
    pub clone_mode: CloneMode,
}

impl JobConfig {
    /// The prefix followed by the command.
    pub open spec fn full(self) -> Seq<Seq<char>> {
        text::texts(self.command_prefix@).push(self.command@)
    }
}

/// How a candidate is integrated with the base.
#[derive(Debug, Clone, Copy, PartialEq, Eq, Structural)]
pub enum MergeStyle {
    Rebase,
    Merge,
}

/// The same under its newer name.
pub type MergeMode = MergeStyle;

impl Default for MergeStyle {
    fn default() -> (res: Self)
        ensures
            res == MergeStyle::Rebase,
    {
        MergeStyle::Rebase
    }
}

/// The integration mode where none is configured: rebase.
pub fn default_merge_style() -> (res: MergeStyle)
    ensures
        res == MergeStyle::Rebase,
{
    MergeStyle::default()
}

/// The hooks of the merge queue.
#[derive(Debug)]
pub struct MQHooksConfig {
    pub pre_start: Option<CommandConfig>,
    pub post_start: Option<CommandConfig>,
    pub pre_clone: Option<CommandConfig>,
    pub post_clone: Option<CommandConfig>,
    pub pre_merge: Option<CommandConfig>,
    pub post_merge: Option<CommandConfig>,
}

/// What an [`MQHooksConfig`] holds.
pub struct MQHooksView {
    pub pre_start: Option<CommandConfigView>,
    pub post_start: Option<CommandConfigView>,
    pub pre_clone: Option<CommandConfigView>,
    pub post_clone: Option<CommandConfigView>,
    pub pre_merge: Option<CommandConfigView>,
    pub post_merge: Option<CommandConfigView>,
}

impl View for MQHooksConfig {
    type V = MQHooksView;

    open spec fn view(&self) -> MQHooksView {
        MQHooksView {
            pre_start: self.pre_start.deep_view(),
            post_start: self.post_start.deep_view(),
            pre_clone: self.pre_clone.deep_view(),
            post_clone: self.post_clone.deep_view(),
            pre_merge: self.pre_merge.deep_view(),
            post_merge: self.post_merge.deep_view(),
        }
    }
}

/// No hooks at all.
pub open spec fn no_hooks() -> MQHooksView {
    MQHooksView {
        pre_start: None,
        post_start: None,
        pre_clone: None,
        post_clone: None,
        pre_merge: None,
        post_merge: None,
    }
}

/// One hook, replaced as a whole where the local configuration has it.
pub open spec fn hook_or(
    local: Option<CommandConfigView>,
    project: Option<CommandConfigView>,
) -> Option<CommandConfigView> {
    if local is Some {
        local
    } else {
        project
    }
}

impl MQHooksView {
    /// These hooks, each replaced by that of `other` where `other` has it.
    pub open spec fn overridden(self, other: MQHooksView) -> MQHooksView {
        MQHooksView {
            pre_start: hook_or(other.pre_start, self.pre_start),
            post_start: hook_or(other.post_start, self.post_start),
            pre_clone: hook_or(other.pre_clone, self.pre_clone),
            post_clone: hook_or(other.post_clone, self.post_clone),
            pre_merge: hook_or(other.pre_merge, self.pre_merge),
            post_merge: hook_or(other.post_merge, self.post_merge),
        }
    }
}

/// A copy of a hook.
pub fn copy_hook(hook: &Option<CommandConfig>) -> (res: Option<CommandConfig>)
    ensures
        res.deep_view() == hook.deep_view(),
{
    match hook {
        Some(h) => Some(h.clone()),
        None => None,
    }
}

impl Default for MQHooksConfig {
    fn default() -> (res: Self)
        ensures
            res@ == no_hooks(),
    {
        MQHooksConfig {
            pre_start: None,
            post_start: None,
            pre_clone: None,
            post_clone: None,
            pre_merge: None,
            post_merge: None,
        }
    }
}

impl Clone for MQHooksConfig {
    fn clone(&self) -> (res: Self)
        ensures
            res@ == self@,
    {
        MQHooksConfig {
            pre_start: copy_hook(&self.pre_start),
            post_start: copy_hook(&self.post_start),
            pre_clone: copy_hook(&self.pre_clone),
            post_clone: copy_hook(&self.post_clone),
            pre_merge: copy_hook(&self.pre_merge),
            post_merge: copy_hook(&self.post_merge),
        }
    }
}

impl MQHooksConfig {
    /// Replaces each hook that `other` has.
    pub fn override_with(&mut self, other: &MQHooksConfig)
        ensures
            final(self)@ == old(self)@.overridden(other@),
    {
        if other.pre_start.is_some() {
            self.pre_start = copy_hook(&other.pre_start);
        }
        if other.post_start.is_some() {
            self.post_start = copy_hook(&other.post_start);
        }
        if other.pre_clone.is_some() {
            self.pre_clone = copy_hook(&other.pre_clone);
        }
        if other.post_clone.is_some() {
            self.post_clone = copy_hook(&other.post_clone);
        }
        if other.pre_merge.is_some() {
            self.pre_merge = copy_hook(&other.pre_merge);
        }
        if other.post_merge.is_some() {
            self.post_merge = copy_hook(&other.post_merge);
        }
    }
}

/// The merge queue section of the project's configuration.
#[derive(Debug)]
pub struct MQConfig {
    pub base_branch: Option<String>,
    pub merge_mode: MergeStyle,
    pub hooks: MQHooksConfig,
}

/// The project's configuration.
#[derive(Debug)]
pub struct SelfCIConfig {
    pub job: JobConfig,
    pub mq: Option<MQConfig>,
}

/// The local configuration: hooks of the merge queue, and nothing else.
#[derive(Debug)]
pub struct LocalConfig {
    pub mq: Option<MQHooksConfig>,
}

impl Default for LocalConfig {
    fn default() -> (res: Self)
        ensures
            res.mq is None,
    {
        LocalConfig { mq: None }
    }
}

/// The merge queue's configuration, after the local one was taken into account.
#[derive(Debug)]
pub struct MergedMQConfig {
    pub base_branch: Option<String>,
    pub merge_mode: MergeStyle,
    pub hooks: MQHooksConfig,
}

/// What a [`MergedMQConfig`] holds.
pub struct MergedMQConfigView {
    pub base_branch: Option<Seq<char>>,
    pub merge_mode: MergeStyle,
    pub hooks: MQHooksView,
}

impl View for MergedMQConfig {
    type V = MergedMQConfigView;

    open spec fn view(&self) -> MergedMQConfigView {
        MergedMQConfigView {
            base_branch: self.base_branch.deep_view(),
            merge_mode: self.merge_mode,
            hooks: self.hooks@,
        }
    }
}

impl Default for MergedMQConfig {
    fn default() -> (res: Self)
        ensures
            res@ == default_mq(),
    {
        MergedMQConfig {
            base_branch: None,
            merge_mode: MergeStyle::default(),
            hooks: MQHooksConfig::default(),
        }
    }
}

/// The merge queue's configuration where the project has none.
pub open spec fn default_mq() -> MergedMQConfigView {
    MergedMQConfigView { base_branch: None, merge_mode: MergeStyle::Rebase, hooks: no_hooks() }
}

/// What the merge queue section alone configures.
pub open spec fn project_mq(main_mq: Option<MQConfig>) -> MergedMQConfigView {
    match main_mq {
        Some(mq) => MergedMQConfigView {
            base_branch: mq.base_branch.deep_view(),
            merge_mode: mq.merge_mode,
            hooks: mq.hooks@,
        },
        None => default_mq(),
    }
}

/// The hooks of the local configuration.
pub open spec fn local_hooks(local: Option<LocalConfig>) -> MQHooksView {
    match local {
        Some(LocalConfig { mq: Some(hooks) }) => hooks@,
        _ => no_hooks(),
    }
}

/// The two configurations combined: the local one replaces hooks and nothing else.
pub open spec fn merged_mq(main_mq: Option<MQConfig>, local: Option<LocalConfig>) -> MergedMQConfigView {
    let project = project_mq(main_mq);
    MergedMQConfigView { hooks: project.hooks.overridden(local_hooks(local)), ..project }
}

/// An optional reference as the optional value it refers to.
pub open spec fn referred<T>(o: Option<&T>) -> Option<T> {
    match o {
        Some(t) => Some(*t),
        None => None,
    }
}

impl MergedMQConfig {
    /// The two configurations combined.
    pub fn from_configs(main_mq: Option<&MQConfig>, local: Option<&LocalConfig>) -> (res: Self)
        ensures
            res@ == merged_mq(referred(main_mq), referred(local)),
    {
        let mut result = match main_mq {
            Some(mq) => MergedMQConfig {
                base_branch: copy_option(&mq.base_branch),
                merge_mode: mq.merge_mode,
                hooks: mq.hooks.clone(),
            },
            None => MergedMQConfig::default(),
        };
        match local {
            Some(l) => match &l.mq {
                Some(hooks) => {
                    result.hooks.override_with(hooks);
                },
                None => {},
            },
            None => {},
        }
        result
    }
}

/// The configuration directory of a project.
pub open spec fn config_dir(root: Seq<char>) -> Seq<char> {
    text::joined_path(
        text::joined_path(root, constants::CONFIG_DIR_PARENT@),
        constants::CONFIG_DIR_NAME@,
    )
}

/// The configuration directory of a project.
pub fn get_config_dir(base_workdir: &str) -> (res: String)
    ensures
        res@ == config_dir(base_workdir@),
{
    let parent = text::join_path(base_workdir, constants::CONFIG_DIR_PARENT);
    text::join_path(parent.as_str(), constants::CONFIG_DIR_NAME)
}

/// A file of the configuration directory.
pub fn get_config_path(base_workdir: &str, filename: &str) -> (res: String)
    ensures
        res@ == text::joined_path(config_dir(base_workdir@), filename@),
{
    text::join_path(get_config_dir(base_workdir).as_str(), filename)
}

/// What was found where a configuration file is looked for.
#[derive(Debug)]
pub enum ConfigFile<T> {
    Missing,
    /// It exists and could not be read.
    Unreadable(String),
    /// It was read and is not a valid configuration.
    Unparsable(String),
    Parsed(T),
}

/// The error for a file that exists and gives no configuration.
pub open spec fn broken_file<T>(file: ConfigFile<T>) -> Option<MainErrorView> {
    match file {
        ConfigFile::Unreadable(e) => Some(MainErrorView::ReadFailed(e@)),
        ConfigFile::Unparsable(e) => Some(MainErrorView::ParseFailed(e@)),
        _ => None,
    }
}

/// The project's configuration. It must exist.
pub fn read_config(file: ConfigFile<SelfCIConfig>) -> (res: Result<SelfCIConfig, MainError>)
    ensures
        match file {
            ConfigFile::Parsed(config) => res == Ok::<SelfCIConfig, MainError>(config),
            ConfigFile::Missing => res matches Err(e) && e@ == MainErrorView::NotInitialized,
            _ => res matches Err(e) && Some(e@) == broken_file(file),
        },
{
    match file {
        ConfigFile::Missing => Err(MainError::NotInitialized),
        ConfigFile::Unreadable(e) => Err(MainError::ReadFailed(e)),
        ConfigFile::Unparsable(e) => Err(MainError::ParseFailed(e)),
        ConfigFile::Parsed(config) => Ok(config),
    }
}

/// The local configuration, which may be missing.
pub fn read_local_config(file: ConfigFile<LocalConfig>) -> (res: Result<
    Option<LocalConfig>,
    MainError,
>)
    ensures
        match file {
            ConfigFile::Parsed(config) => res == Ok::<Option<LocalConfig>, MainError>(Some(config)),
            ConfigFile::Missing => res == Ok::<Option<LocalConfig>, MainError>(None),
            _ => res matches Err(e) && Some(e@) == broken_file(file),
        },
{
    match file {
        ConfigFile::Missing => Ok(None),
        ConfigFile::Unreadable(e) => Err(MainError::ReadFailed(e)),
        ConfigFile::Unparsable(e) => Err(MainError::ParseFailed(e)),
        ConfigFile::Parsed(config) => Ok(Some(config)),
    }
}

/// The combination of the two configuration files. A problem with the
/// project's file comes first.
pub open spec fn merged_files(
    main: ConfigFile<SelfCIConfig>,
    local: ConfigFile<LocalConfig>,
) -> Result<MergedMQConfigView, MainErrorView> {
    match main {
        ConfigFile::Missing => Err(MainErrorView::NotInitialized),
        ConfigFile::Parsed(config) => match local {
            ConfigFile::Missing => Ok(merged_mq(config.mq, None)),
            ConfigFile::Parsed(l) => Ok(merged_mq(config.mq, Some(l))),
            _ => Err(broken_file(local)->0),
        },
        _ => Err(broken_file(main)->0),
    }
}

/// The merge queue's configuration, from both files.
pub fn read_merged_mq_config(
    main: ConfigFile<SelfCIConfig>,
    local: ConfigFile<LocalConfig>,
) -> (res: Result<MergedMQConfig, MainError>)
    ensures
        match merged_files(main, local) {
            Ok(config) => res matches Ok(c) && c@ == config,
            Err(error) => res matches Err(e) && e@ == error,
        },
{
    let main_config = match read_config(main) {
        Ok(c) => c,
        Err(e) => return Err(e),
    };
    let local_config = match read_local_config(local) {
        Ok(c) => c,
        Err(e) => return Err(e),
    };
    Ok(MergedMQConfig::from_configs(main_config.mq.as_ref(), local_config.as_ref()))
}

/// What `ci.yaml` holds when a project is initialized.
pub const CONFIG_TEMPLATE: &'static str =
    "# SelfCI Configuration\n#\n# The command below runs for every job of a check, in a copy of the candidate.\n# SELFCI_JOB_NAME tells the jobs apart; the first job is called \"main\".\n\njob:\n  command: |\n    set -eou pipefail\n\n    case \"$SELFCI_JOB_NAME\" in\n      main)\n        selfci step start \"hello\"\n        echo \"Replace this with the checks of your project\"\n        ;;\n\n      *)\n        echo \"Unknown job: $SELFCI_JOB_NAME\"\n        exit 1\n        ;;\n    esac\n\n  # command-prefix: [\"bash\", \"-c\"]\n  # clone-mode: partial\n\n# mq:\n#   base-branch: main\n#   merge-mode: rebase\n";

/// What `local.yaml` holds when a project is initialized.
pub const LOCAL_CONFIG_TEMPLATE: &'static str =
    "# SelfCI Local Configuration\n#\n# Hooks given here replace those of ci.yaml on this machine.\n# This file is not checked in.\n\nmq:\n  # pre-start:\n  #   command: echo \"about to start the merge queue\"\n  # post-start:\n  #   command: echo \"the merge queue has started\"\n  # pre-clone:\n  #   command: echo \"about to clone $SELFCI_CANDIDATE_ID\"\n  # post-clone:\n  #   command: ls \"$SELFCI_CANDIDATE_DIR\"\n  # pre-merge:\n  #   command: echo \"about to merge\"\n  # post-merge:\n  #   command: echo \"merged into $SELFCI_MQ_BASE_BRANCH\"\n";

/// What the configuration directory's `.gitignore` holds.
pub const GITIGNORE_TEMPLATE: &'static str = "local.yaml\n";

/// What initializing a project did.
#[derive(Debug, Clone, Copy, PartialEq, Eq, Structural)]
pub enum InitResult {
    /// The project's configuration was written.
    Created,
    /// The project's configuration was there already.
    AlreadyExists,
}

/// What has to be written to initialize a project.
#[derive(Debug)]
pub struct InitPlan {
    /// The directory to create, with its parents.
    pub directory: String,
    /// The files to write, with their contents.
    pub files: Vec<(String, String)>,
    pub result: InitResult,
}

/// The file with its content, or nothing where it exists.
pub open spec fn init_file(
    root: Seq<char>,
    filename: Seq<char>,
    content: Seq<char>,
    exists: bool,
) -> Seq<(Seq<char>, Seq<char>)> {
    if exists {
        seq![]
    } else {
        seq![(text::joined_path(config_dir(root), filename), content)]
    }
}

/// The files that initializing a project writes: those of the three that do
/// not exist.
pub open spec fn init_files(
    root: Seq<char>,
    config_exists: bool,
    local_exists: bool,
    gitignore_exists: bool,
) -> Seq<(Seq<char>, Seq<char>)> {
    init_file(root, constants::CONFIG_FILENAME@, CONFIG_TEMPLATE@, config_exists) + init_file(
        root,
        constants::LOCAL_CONFIG_FILENAME@,
        LOCAL_CONFIG_TEMPLATE@,
        local_exists,
    ) + init_file(root, constants::GITIGNORE_FILENAME@, GITIGNORE_TEMPLATE@, gitignore_exists)
}

/// What has to be written to initialize a project. Files that exist are kept.
pub fn init_config(
    root_dir: &str,
    config_exists: bool,
    local_exists: bool,
    gitignore_exists: bool,
) -> (res: InitPlan)
    ensures
        res.directory@ == config_dir(root_dir@),
        crate::duct_util::pairs(res.files@) == init_files(
            root_dir@,
            config_exists,
            local_exists,
            gitignore_exists,
        ),
        res.result == (if config_exists {
            InitResult::AlreadyExists
        } else {
            InitResult::Created
        }),
{
    let mut files: Vec<(String, String)> = Vec::new();
    if !config_exists {
        files.push(
            (get_config_path(root_dir, constants::CONFIG_FILENAME), CONFIG_TEMPLATE.to_owned()),
        );
    }
    if !local_exists {
        files.push(
            (
                get_config_path(root_dir, constants::LOCAL_CONFIG_FILENAME),
                LOCAL_CONFIG_TEMPLATE.to_owned(),
            ),
        );
    }
    if !gitignore_exists {
        files.push(
            (
                get_config_path(root_dir, constants::GITIGNORE_FILENAME),
                GITIGNORE_TEMPLATE.to_owned(),
            ),
        );
    }
    assert(crate::duct_util::pairs(files@) =~= init_files(
        root_dir@,
        config_exists,
        local_exists,
        gitignore_exists,
    ));
    let result = if config_exists {
        InitResult::AlreadyExists
    } else {
        InitResult::Created
    };
    InitPlan { directory: get_config_dir(root_dir), files, result }
}

/// The base branch to start the daemon with: the one given, else the one of
/// the project's configuration, where that can be read.
pub fn try_resolve_base_branch_from_config(file: ConfigFile<SelfCIConfig>) -> (res: Option<String>)
    ensures
        res == match file {
            ConfigFile::Parsed(SelfCIConfig { mq: Some(mq), .. }) => mq.base_branch,
            _ => None,
        },
{
    match file {
        ConfigFile::Parsed(config) => match config.mq {
            Some(mq) => mq.base_branch,
            None => None,
        },
        _ => None,
    }
}

/// The local configuration cannot change what is not a hook: base branch and
/// integration mode are the project's.
pub proof fn law_local_replaces_hooks_only(main_mq: Option<MQConfig>, local: Option<LocalConfig>)
    ensures
        merged_mq(main_mq, local).base_branch == project_mq(main_mq).base_branch,
        merged_mq(main_mq, local).merge_mode == project_mq(main_mq).merge_mode,
{
}

/// Without a local configuration, or with one that has no hooks, the project's
/// configuration stands as it is.
pub proof fn law_no_local_hooks_change_nothing(main_mq: Option<MQConfig>)
    ensures
        merged_mq(main_mq, None) == project_mq(main_mq),
        merged_mq(main_mq, Some(LocalConfig { mq: None })) == project_mq(main_mq),
        forall|hooks: MQHooksView| #[trigger] hooks.overridden(no_hooks()) == hooks,
{
}

/// Overriding twice with the same hooks is overriding once, and a later
/// override wins.
pub proof fn law_override_laws(hooks: MQHooksView, a: MQHooksView, b: MQHooksView)
    ensures
        hooks.overridden(a).overridden(a) == hooks.overridden(a),
        hooks.overridden(a).overridden(b) == hooks.overridden(a.overridden(b)),
{
}

/// Initializing an initialized project writes nothing.
pub proof fn law_init_preserves(root: Seq<char>)
    ensures
        init_files(root, true, true, true) == Seq::<(Seq<char>, Seq<char>)>::empty(),
{
    assert(init_files(root, true, true, true) =~= seq![]);
}

/// A command is run by its prefix: all the words of the prefix in order, then the
/// command as one word. Where no prefix is configured, a shell runs it.
pub proof fn law_commands_follow_their_prefix(hook: CommandConfigView, job: JobConfig, i: int)
    ensures
        default_prefix() =~= seq!["bash"@, "-c"@],
        hook.command is None ==> hook.full() == hook.command_prefix,
        hook.command matches Some(command) ==> {
            &&& hook.full().len() == hook.command_prefix.len() + 1
            &&& hook.full().last() == command
            &&& 0 <= i < hook.command_prefix.len() ==> hook.full()[i] == hook.command_prefix[i]
        },
        job.full().len() == job.command_prefix@.len() + 1,
        job.full().last() == job.command@,
        0 <= i < job.command_prefix@.len() ==> job.full()[i] == job.command_prefix@[i]@,
{
}

/// Each hook is the local one where the local configuration has it, else the
/// project's, whatever the other hooks are.
pub proof fn law_each_hook_is_its_own(project: MQHooksView, local: MQHooksView)
    ensures
        ({
            let both = project.overridden(local);
            &&& local.pre_start is Some ==> both.pre_start == local.pre_start
            &&& local.pre_start is None ==> both.pre_start == project.pre_start
            &&& local.post_start is Some ==> both.post_start == local.post_start
            &&& local.post_start is None ==> both.post_start == project.post_start
            &&& local.pre_clone is Some ==> both.pre_clone == local.pre_clone
            &&& local.pre_clone is None ==> both.pre_clone == project.pre_clone
            &&& local.post_clone is Some ==> both.post_clone == local.post_clone
            &&& local.post_clone is None ==> both.post_clone == project.post_clone
            &&& local.pre_merge is Some ==> both.pre_merge == local.pre_merge
            &&& local.pre_merge is None ==> both.pre_merge == project.pre_merge
            &&& local.post_merge is Some ==> both.post_merge == local.post_merge
            &&& local.post_merge is None ==> both.post_merge == project.post_merge
        }),
{
}

/// What the merge queue is configured with: base branch, mode and hooks of the
/// project's section, or no base branch, rebasing and no hooks where there is no
/// such section; and in either case the local hooks over the project's.
pub proof fn law_the_project_configures_the_queue(mq: MQConfig, hooks: MQHooksConfig)
    ensures
        ({
            let both = merged_mq(Some(mq), Some(LocalConfig { mq: Some(hooks) }));
            &&& mq.base_branch matches Some(branch) ==> both.base_branch == Some(branch@)
            &&& mq.base_branch is None ==> both.base_branch is None
            &&& both.merge_mode == mq.merge_mode
            &&& both.hooks == mq.hooks@.overridden(hooks@)
        }),
        ({
            let alone = merged_mq(Some(mq), None);
            &&& alone.merge_mode == mq.merge_mode
            &&& alone.hooks.overridden(no_hooks()) == mq.hooks@
        }),
        ({
            let local = merged_mq(None, Some(LocalConfig { mq: Some(hooks) }));
            &&& local.base_branch is None
            &&& local.merge_mode == MergeStyle::Rebase
            &&& local.hooks == hooks@
        }),
        ({
            let neither = merged_mq(None, None);
            &&& neither.base_branch is None
            &&& neither.merge_mode == MergeStyle::Rebase
            &&& neither.hooks.pre_start is None
            &&& neither.hooks.post_start is None
            &&& neither.hooks.pre_clone is None
            &&& neither.hooks.post_clone is None
            &&& neither.hooks.pre_merge is None
            &&& neither.hooks.post_merge is None
        }),
{
}

/// What a configuration holds is what its parts hold.
pub proof fn law_configurations_hold_their_parts(
    command: CommandConfig,
    hooks: MQHooksConfig,
    merged: MergedMQConfig,
)
    ensures
        command@.command is Some <==> command.command is Some,
        command.command matches Some(c) ==> command@.command == Some(c@),
        command@.command_prefix == text::texts(command.command_prefix@),
        hooks@.pre_start is Some <==> hooks.pre_start is Some,
        hooks.pre_start matches Some(h) ==> hooks@.pre_start == Some(h@),
        hooks@.post_start is Some <==> hooks.post_start is Some,
        hooks.post_start matches Some(h) ==> hooks@.post_start == Some(h@),
        hooks@.pre_clone is Some <==> hooks.pre_clone is Some,
        hooks.pre_clone matches Some(h) ==> hooks@.pre_clone == Some(h@),
        hooks@.post_clone is Some <==> hooks.post_clone is Some,
        hooks.post_clone matches Some(h) ==> hooks@.post_clone == Some(h@),
        hooks@.pre_merge is Some <==> hooks.pre_merge is Some,
        hooks.pre_merge matches Some(h) ==> hooks@.pre_merge == Some(h@),
        hooks@.post_merge is Some <==> hooks.post_merge is Some,
        hooks.post_merge matches Some(h) ==> hooks@.post_merge == Some(h@),
        merged@.base_branch is Some <==> merged.base_branch is Some,
        merged.base_branch matches Some(b) ==> merged@.base_branch == Some(b@),
        merged@.merge_mode == merged.merge_mode,
        merged@.hooks == merged.hooks@,
{
}

/// The configuration lies in `.config/selfci` below the project's root.
pub proof fn law_configuration_lies_below_the_root(root: Seq<char>)
    ensures
        config_dir(root) == text::joined_path(text::joined_path(root, ".config"@), "selfci"@),
{
}

/// The project's file must exist and both files must be readable and valid; a
/// problem with the project's file comes first. A missing local file changes
/// nothing.
pub proof fn law_both_files_count(
    config: SelfCIConfig,
    local: LocalConfig,
    other: ConfigFile<LocalConfig>,
    e: String,
)
    ensures
        merged_files(ConfigFile::Missing, other) == Err::<MergedMQConfigView, MainErrorView>(
            MainErrorView::NotInitialized,
        ),
        merged_files(ConfigFile::Unreadable(e), other) == Err::<MergedMQConfigView, MainErrorView>(
            MainErrorView::ReadFailed(e@),
        ),
        merged_files(ConfigFile::Unparsable(e), other) == Err::<MergedMQConfigView, MainErrorView>(
            MainErrorView::ParseFailed(e@),
        ),
        merged_files(ConfigFile::Parsed(config), ConfigFile::Unreadable(e)) == Err::<
            MergedMQConfigView,
            MainErrorView,
        >(MainErrorView::ReadFailed(e@)),
        merged_files(ConfigFile::Parsed(config), ConfigFile::Unparsable(e)) == Err::<
            MergedMQConfigView,
            MainErrorView,
        >(MainErrorView::ParseFailed(e@)),
        merged_files(ConfigFile::Parsed(config), ConfigFile::Missing) == Ok::<
            MergedMQConfigView,
            MainErrorView,
        >(merged_mq(config.mq, None)),
        merged_files(ConfigFile::Parsed(config), ConfigFile::Parsed(local)) == Ok::<
            MergedMQConfigView,
            MainErrorView,
        >(merged_mq(config.mq, Some(local))),
{
}

/// Initializing writes each of the three files that is missing, with its own
/// content and in this order, and no other.
pub proof fn law_init_writes_what_is_missing(
    root: Seq<char>,
    config_exists: bool,
    local_exists: bool,
    gitignore_exists: bool,
)
    ensures
        ({
            let files = init_files(root, config_exists, local_exists, gitignore_exists);
            let dir = config_dir(root);
            let config = (text::joined_path(dir, "ci.yaml"@), CONFIG_TEMPLATE@);
            let local = (text::joined_path(dir, "local.yaml"@), LOCAL_CONFIG_TEMPLATE@);
            let ignore = (text::joined_path(dir, ".gitignore"@), "local.yaml\n"@);
            let a = if config_exists {
                0int
            } else {
                1
            };
            let b = if local_exists {
                0int
            } else {
                1
            };
            let c = if gitignore_exists {
                0int
            } else {
                1
            };
            &&& files.len() == a + b + c
            &&& !config_exists ==> files[0] == config
            &&& !local_exists ==> files[a] == local
            &&& !gitignore_exists ==> files[a + b] == ignore
        }),
{
}

/// The project's configuration must exist; the local one may be missing. A file
/// that cannot be read or understood is an error either way.
pub proof fn law_missing_files_count_differently(
    file: ConfigFile<SelfCIConfig>,
    res: Result<SelfCIConfig, MainError>,
    local: ConfigFile<LocalConfig>,
    local_res: Result<Option<LocalConfig>, MainError>,
    branch: Option<String>,
)
    requires
        call_ensures(read_config, (file,), res),
        call_ensures(read_local_config, (local,), local_res),
        call_ensures(try_resolve_base_branch_from_config, (file,), branch),
    ensures
        file is Missing ==> res is Err && res->Err_0@ is NotInitialized,
        file matches ConfigFile::Unreadable(e) ==> res is Err && res->Err_0@
            == MainErrorView::ReadFailed(e@),
        file matches ConfigFile::Unparsable(e) ==> res is Err && res->Err_0@
            == MainErrorView::ParseFailed(e@),
        file matches ConfigFile::Parsed(config) ==> res == Ok::<SelfCIConfig, MainError>(config),
        local is Missing ==> local_res is Ok && local_res->Ok_0 is None,
        local matches ConfigFile::Unreadable(e) ==> local_res is Err && local_res->Err_0@
            == MainErrorView::ReadFailed(e@),
        local matches ConfigFile::Unparsable(e) ==> local_res is Err && local_res->Err_0@
            == MainErrorView::ParseFailed(e@),
        local matches ConfigFile::Parsed(config) ==> local_res == Ok::<
            Option<LocalConfig>,
            MainError,
        >(Some(config)),
        branch is Some ==> file is Parsed && file->Parsed_0.mq is Some && branch
            == file->Parsed_0.mq->0.base_branch,
        file is Parsed && file->Parsed_0.mq is Some ==> branch
            == file->Parsed_0.mq->0.base_branch,
{
}

/// What holds where nothing is configured, and where the configuration lies.
pub proof fn law_defaults(
    mode: MergeStyle,
    clone: CloneMode,
    prefix: Vec<String>,
    root: &str,
    filename: &str,
    dir: String,
    path: String,
)
    requires
        call_ensures(default_merge_style, (), mode),
        call_ensures(default_clone_mode, (), clone),
        call_ensures(default_command_prefix, (), prefix),
        call_ensures(get_config_dir, (root,), dir),
        call_ensures(get_config_path, (root, filename), path),
    ensures
        mode == MergeStyle::Rebase,
        clone == CloneMode::Partial,
        text::texts(prefix@) =~= seq!["bash"@, "-c"@],
        dir@ == text::joined_path(text::joined_path(root@, ".config"@), "selfci"@),
        path@ == text::joined_path(dir@, filename@),
{
}

/// Initializing makes the configuration directory, and says that the configuration
/// was there exactly if it was.
pub proof fn law_init_says_what_was_there(
    root_dir: &str,
    config_exists: bool,
    local_exists: bool,
    gitignore_exists: bool,
    res: InitPlan,
)
    requires
        call_ensures(
            init_config,
            (root_dir, config_exists, local_exists, gitignore_exists),
            res,
        ),
    ensures
        res.directory@ == text::joined_path(text::joined_path(root_dir@, ".config"@), "selfci"@),
        res.result == InitResult::AlreadyExists <==> config_exists,
        res.result == InitResult::Created <==> !config_exists,
        crate::duct_util::pairs(res.files@) == init_files(
            root_dir@,
            config_exists,
            local_exists,
            gitignore_exists,
        ),
{
}

} // verus!
